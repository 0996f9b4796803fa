//! Words, markers and overlay geometry for agent status.
//!
//! The sidebar names five states a user reasons about: `working`, `waiting`,
//! `done`, `idle`, and `error`, the last coming from a recorded process exit
//! rather than from detection.

use vstd::prelude::*;
use vstd::utf8::encode_utf8;

use crate::agent::AgentState;
use crate::geometry::{clamped_extent, Rect};

verus! {

/// How state markers are drawn.
#[derive(Debug, Clone, Copy, PartialEq, Eq, Structural)]
pub enum StatusIndicatorStyle {
    /// Filled and hollow dots.
    Dots,
    /// A distinct symbol per state.
    Symbols,
}

/// The marker for `state`, `seen` saying whether a finished turn has been looked at.
pub open spec fn state_symbol_text(
    state: AgentState,
    seen: bool,
    indicator_style: StatusIndicatorStyle,
) -> Seq<char> {
    match indicator_style {
        StatusIndicatorStyle::Dots => match state {
            AgentState::Blocked => "●"@,
            AgentState::Working => "●"@,
            AgentState::Idle => if seen { "○"@ } else { "●"@ },
            AgentState::Unknown => "·"@,
        },
        StatusIndicatorStyle::Symbols => match state {
            AgentState::Blocked => "×"@,
            AgentState::Working => "◐"@,
            AgentState::Idle => if seen { "○"@ } else { "✓"@ },
            AgentState::Unknown => "·"@,
        },
    }
}

/// The one-cell marker drawn for an agent's state.
pub fn state_icon_symbol(
    state: AgentState,
    seen: bool,
    indicator_style: StatusIndicatorStyle,
) -> (symbol: &'static str)
    ensures
        symbol@ == state_symbol_text(state, seen, indicator_style),
{
    match indicator_style {
        StatusIndicatorStyle::Dots => match state {
            AgentState::Blocked => "●",
            AgentState::Working => "●",
            AgentState::Idle => if seen {
                "○"
            } else {
                "●"
            },
            AgentState::Unknown => "·",
        },
        StatusIndicatorStyle::Symbols => match state {
            AgentState::Blocked => "×",
            AgentState::Working => "◐",
            AgentState::Idle => if seen {
                "○"
            } else {
                "✓"
            },
            AgentState::Unknown => "·",
        },
    }
}

/// The word the sidebar prints for a detected state.
pub open spec fn state_label_text(state: AgentState, seen: bool) -> Seq<char> {
    match state {
        AgentState::Blocked => "waiting"@,
        AgentState::Working => "working"@,
        AgentState::Idle => if seen { "idle"@ } else { "done"@ },
        AgentState::Unknown => "idle"@,
    }
}

/// Label for the states a user reasons about: `Blocked` reads as `waiting`,
/// an unseen finished turn as `done`, and a plain shell as `idle`.
pub fn state_label(state: AgentState, seen: bool) -> (label: &'static str)
    ensures
        label@ == state_label_text(state, seen),
{
    match state {
        AgentState::Blocked => "waiting",
        AgentState::Working => "working",
        AgentState::Idle => if seen {
            "idle"
        } else {
            "done"
        },
        AgentState::Unknown => "idle",
    }
}

/// Pane-level label: a recorded mid-turn exit outranks whatever detection saw.
pub fn pane_state_label(state: AgentState, seen: bool, errored: bool) -> (label: &'static str)
    ensures
        label@ == if errored {
            "error"@
        } else {
            state_label_text(state, seen)
        },
{
    if errored {
        "error"
    } else {
        state_label(state, seen)
    }
}

/// The key a per-pane label override is looked up by.
pub open spec fn status_key_text(state: AgentState, seen: bool, errored: bool) -> Seq<char> {
    if errored {
        "error"@
    } else {
        match state {
            AgentState::Idle => if seen { "idle"@ } else { "done"@ },
            AgentState::Working => "working"@,
            AgentState::Blocked => "blocked"@,
            AgentState::Unknown => "unknown"@,
        }
    }
}

/// Status key used to look up a per-pane label override reported over the
/// API. Unlike the displayed label it keeps the detector's own state names.
pub fn pane_status_key(state: AgentState, seen: bool, errored: bool) -> (key: &'static str)
    ensures
        key@ == status_key_text(state, seen, errored),
{
    if errored {
        "error"
    } else {
        match state {
            AgentState::Idle => if seen {
                "idle"
            } else {
                "done"
            },
            AgentState::Working => "working",
            AgentState::Blocked => "blocked",
            AgentState::Unknown => "unknown",
        }
    }
}


/// Where the clipboard confirmation appears.
#[derive(Debug, Clone, Copy, PartialEq, Eq, Structural)]
pub enum ToastClipboardPosition {
    TopLeft,
    TopCenter,
    TopRight,
    BottomLeft,
    BottomCenter,
    BottomRight,
}

/// Which corner agent notifications appear in.
#[derive(Debug, Clone, Copy, PartialEq, Eq, Structural)]
pub enum ToastHerdrPosition {
    TopLeft,
    TopRight,
    BottomLeft,
    BottomRight,
}

/// What a notification is about.
#[derive(Debug, Clone, Copy, PartialEq, Eq, Structural)]
pub enum ToastKind {
    NeedsAttention,
    Finished,
    UpdateInstalled,
}

/// The short confirmation shown after a copy.
#[derive(Debug, Clone, PartialEq, Eq)]
pub struct CopyFeedback {
    pub message: String,
}

/// A notification about an agent, with an optional line of context.
#[derive(Debug, Clone, PartialEq, Eq)]
pub struct ToastNotification {
    pub kind: ToastKind,
    pub title: String,
    pub context: String,
}

/// The number of terminal cells `text` occupies, as `unicode-width` counts them.
pub uninterp spec fn unicode_display_width(text: Seq<char>) -> nat;

/// `unicode_width::UnicodeWidthStr::width`: the number of terminal cells a
/// string occupies, wide characters such as CJK counting two. The result is
/// the named width of the string's characters.
#[verifier::external_body]
fn str_display_width(text: &str) -> (width: usize)
    ensures
        width as nat == unicode_display_width(text@),
{
    unicode_width::UnicodeWidthStr::width(text)
}

/// A display width held in `u16`, saturating at its maximum.
pub open spec fn width_u16(text: Seq<char>) -> u16 {
    if unicode_display_width(text) > u16::MAX {
        u16::MAX
    } else {
        unicode_display_width(text) as u16
    }
}

/// The number of terminal cells `text` occupies, saturating at `u16::MAX`.
pub fn display_width_u16(text: &str) -> (width: u16)
    ensures
        width == width_u16(text@),
{
    let w = str_display_width(text);
    if w > 65535 {
        u16::MAX
    } else {
        w as u16
    }
}

/// The lesser of two cell counts.
pub open spec fn min_u16(a: u16, b: u16) -> u16 {
    if a <= b { a } else { b }
}

/// `a - b`, or zero where `b` is the larger.
pub open spec fn sat_sub_u16(a: u16, b: u16) -> u16 {
    if a >= b { (a - b) as u16 } else { 0 }
}

/// `a + b`, or `u16::MAX` where the sum does not fit.
pub open spec fn sat_add_u16(a: u16, b: u16) -> u16 {
    if a + b > u16::MAX { u16::MAX } else { (a + b) as u16 }
}

/// The rectangle `Rect::new` builds from these coordinates.
pub open spec fn rect_at(x: int, y: int, width: u16, height: u16) -> Rect {
    Rect {
        x: x as u16,
        y: y as u16,
        width: clamped_extent(x as u16, width),
        height: clamped_extent(y as u16, height),
    }
}

/// Width of the clipboard confirmation: its message's UTF-8 length cut to
/// `usize` and then to 16 bits, plus room for a border and the leading dot.
pub open spec fn copy_feedback_content_width(message: Seq<char>) -> int {
    ((encode_utf8(message).len() as usize) as u16) + 4
}

pub open spec fn copy_feedback_width(area: Rect, message: Seq<char>) -> u16 {
    min_u16(copy_feedback_content_width(message) as u16, area.width)
}

pub open spec fn copy_feedback_height(area: Rect) -> u16 {
    min_u16(3, area.height)
}

/// Left edge of the clipboard confirmation, before any cut to 16 bits.
pub open spec fn copy_feedback_x(area: Rect, width: u16, position: ToastClipboardPosition) -> int {
    match position {
        ToastClipboardPosition::TopLeft | ToastClipboardPosition::BottomLeft => area.x as int,
        ToastClipboardPosition::TopCenter | ToastClipboardPosition::BottomCenter => area.x
            + sat_sub_u16(area.width, width) / 2,
        ToastClipboardPosition::TopRight | ToastClipboardPosition::BottomRight => area.x
            + sat_sub_u16(area.width, width),
    }
}

pub open spec fn is_top(position: ToastClipboardPosition) -> bool {
    match position {
        ToastClipboardPosition::TopLeft
        | ToastClipboardPosition::TopCenter
        | ToastClipboardPosition::TopRight => true,
        _ => false,
    }
}

/// Top edge of the clipboard confirmation, before any cut to 16 bits.
pub open spec fn copy_feedback_y(
    area: Rect,
    height: u16,
    offset_rows: u16,
    position: ToastClipboardPosition,
) -> int {
    if is_top(position) {
        area.y + min_u16(offset_rows, area.height)
    } else {
        area.y + sat_sub_u16(area.height, (height + offset_rows) as u16)
    }
}

/// The clipboard confirmation's arithmetic stays within 16 bits.
pub open spec fn copy_feedback_fits(
    area: Rect,
    message: Seq<char>,
    offset_rows: u16,
    position: ToastClipboardPosition,
) -> bool {
    area.width == 0 || area.height == 0 || {
        let width = copy_feedback_width(area, message);
        let height = copy_feedback_height(area);
        &&& copy_feedback_content_width(message) <= u16::MAX
        &&& copy_feedback_x(area, width, position) <= u16::MAX
        &&& (!is_top(position) ==> height + offset_rows <= u16::MAX)
        &&& copy_feedback_y(area, height, offset_rows, position) <= u16::MAX
    }
}

/// Where the clipboard confirmation is drawn inside `area`.
pub open spec fn copy_feedback_placement(
    area: Rect,
    message: Seq<char>,
    offset_rows: u16,
    position: ToastClipboardPosition,
) -> Rect {
    if area.width == 0 || area.height == 0 {
        Rect { x: 0, y: 0, width: 0, height: 0 }
    } else {
        let width = copy_feedback_width(area, message);
        let height = copy_feedback_height(area);
        rect_at(
            copy_feedback_x(area, width, position),
            copy_feedback_y(area, height, offset_rows, position),
            width,
            height,
        )
    }
}

/// Whether [`copy_feedback_rect`] can place this confirmation without its
/// 16-bit arithmetic overflowing; where it cannot, drawing it overflows.
pub fn copy_feedback_rect_fits(
    area: Rect,
    feedback: &CopyFeedback,
    offset_rows: u16,
    position: ToastClipboardPosition,
) -> (fits: bool)
    ensures
        fits == copy_feedback_fits(area, feedback.message@, offset_rows, position),
{
    if area.width == 0 || area.height == 0 {
        return true;
    }
    let byte_len = feedback.message.as_str().len();
    let cut = #[verifier::truncate] (byte_len as u16);
    if cut as u32 + 4 > 65535 {
        return false;
    }
    let content_width = cut + 4;
    let width = if content_width < area.width {
        content_width
    } else {
        area.width
    };
    let height: u16 = if 3 < area.height {
        3
    } else {
        area.height
    };
    let spare_width = (area.width - width) as u32;
    let x = match position {
        ToastClipboardPosition::TopLeft | ToastClipboardPosition::BottomLeft => area.x as u32,
        ToastClipboardPosition::TopCenter | ToastClipboardPosition::BottomCenter => area.x as u32
            + spare_width / 2,
        ToastClipboardPosition::TopRight | ToastClipboardPosition::BottomRight => area.x as u32
            + spare_width,
    };
    let top = match position {
        ToastClipboardPosition::TopLeft
        | ToastClipboardPosition::TopCenter
        | ToastClipboardPosition::TopRight => true,
        _ => false,
    };
    if !top && height as u32 + offset_rows as u32 > 65535 {
        return false;
    }
    let y = if top {
        area.y as u32 + if offset_rows < area.height {
            offset_rows as u32
        } else {
            area.height as u32
        }
    } else {
        let below = height as u32 + offset_rows as u32;
        area.y as u32 + if area.height as u32 >= below {
            area.height as u32 - below
        } else {
            0
        }
    };
    x <= 65535 && y <= 65535
}

/// Where the clipboard confirmation is drawn: at the configured position,
/// `offset_rows` in from its top or bottom edge, three rows tall and as wide
/// as its message plus decoration, cut to fit `area`.
pub fn copy_feedback_rect(
    area: Rect,
    feedback: &CopyFeedback,
    offset_rows: u16,
    position: ToastClipboardPosition,
) -> (r: Rect)
    requires
        copy_feedback_fits(area, feedback.message@, offset_rows, position),
    ensures
        r == copy_feedback_placement(area, feedback.message@, offset_rows, position),
{
    if area.width == 0 || area.height == 0 {
        return Rect::zero();
    }
    let byte_len = feedback.message.as_str().len();
    let content_width = #[verifier::truncate] (byte_len as u16) + 4;
    let width = if content_width < area.width {
        content_width
    } else {
        area.width
    };
    let height = if 3 < area.height {
        3
    } else {
        area.height
    };
    let spare_width = if area.width >= width {
        area.width - width
    } else {
        0
    };
    let x = match position {
        ToastClipboardPosition::TopLeft | ToastClipboardPosition::BottomLeft => area.x,
        ToastClipboardPosition::TopCenter | ToastClipboardPosition::BottomCenter => area.x
            + spare_width / 2,
        ToastClipboardPosition::TopRight | ToastClipboardPosition::BottomRight => area.x
            + spare_width,
    };
    let y = match position {
        ToastClipboardPosition::TopLeft
        | ToastClipboardPosition::TopCenter
        | ToastClipboardPosition::TopRight => area.y + if offset_rows < area.height {
            offset_rows
        } else {
            area.height
        },
        ToastClipboardPosition::BottomLeft
        | ToastClipboardPosition::BottomCenter
        | ToastClipboardPosition::BottomRight => {
            let below = height + offset_rows;
            area.y + if area.height >= below {
                area.height - below
            } else {
                0
            }
        },
    };
    Rect::new(x, y, width, height)
}


/// Width of a notification: its wider line plus decoration, cut to fit `area`.
pub open spec fn toast_width(area: Rect, title: Seq<char>, context: Seq<char>) -> u16 {
    let widest = if width_u16(title) >= width_u16(context) {
        width_u16(title)
    } else {
        width_u16(context)
    };
    min_u16(sat_add_u16(sat_add_u16(widest, 4), 2), area.width)
}

/// Height of a notification: one line, or two with context, plus its border.
pub open spec fn toast_height(area: Rect, context: Seq<char>) -> u16 {
    let content_height: u16 = if context.len() == 0 { 1 } else { 2 };
    min_u16((content_height + 2) as u16, area.height)
}

pub open spec fn toast_is_right(position: ToastHerdrPosition) -> bool {
    position == ToastHerdrPosition::TopRight || position == ToastHerdrPosition::BottomRight
}

pub open spec fn toast_is_top(position: ToastHerdrPosition) -> bool {
    position == ToastHerdrPosition::TopLeft || position == ToastHerdrPosition::TopRight
}

/// Left edge of a notification, before any cut to 16 bits.
pub open spec fn toast_x(area: Rect, width: u16, position: ToastHerdrPosition) -> int {
    if toast_is_right(position) {
        area.x + sat_sub_u16(area.width, width)
    } else {
        area.x as int
    }
}

/// Top edge of a notification, a row lower (or higher) to clear a warning line.
pub open spec fn toast_y(
    area: Rect,
    height: u16,
    offset_for_warning: bool,
    position: ToastHerdrPosition,
) -> int {
    let warning_offset: u16 = if offset_for_warning { 1 } else { 0 };
    if toast_is_top(position) {
        area.y + min_u16(warning_offset, area.height)
    } else {
        area.y + sat_sub_u16(area.height, (height + warning_offset) as u16)
    }
}

/// A notification's arithmetic stays within 16 bits.
pub open spec fn toast_fits(
    area: Rect,
    title: Seq<char>,
    context: Seq<char>,
    offset_for_warning: bool,
    position: ToastHerdrPosition,
) -> bool {
    &&& toast_x(area, toast_width(area, title, context), position) <= u16::MAX
    &&& toast_y(area, toast_height(area, context), offset_for_warning, position) <= u16::MAX
}

/// Where a notification is drawn inside `area`.
pub open spec fn toast_placement(
    area: Rect,
    title: Seq<char>,
    context: Seq<char>,
    offset_for_warning: bool,
    position: ToastHerdrPosition,
) -> Rect {
    let width = toast_width(area, title, context);
    let height = toast_height(area, context);
    rect_at(
        toast_x(area, width, position),
        toast_y(area, height, offset_for_warning, position),
        width,
        height,
    )
}

/// Whether [`toast_notification_rect`] can place this notification without
/// its 16-bit arithmetic overflowing; where it cannot, drawing it overflows.
pub fn toast_notification_rect_fits(
    area: Rect,
    toast: &ToastNotification,
    offset_for_warning: bool,
    position: ToastHerdrPosition,
) -> (fits: bool)
    ensures
        fits == toast_fits(area, toast.title@, toast.context@, offset_for_warning, position),
{
    let title_width = display_width_u16(toast.title.as_str());
    let context_width = display_width_u16(toast.context.as_str());
    let widest = if title_width >= context_width {
        title_width
    } else {
        context_width
    };
    let padded = widest.saturating_add(4).saturating_add(2);
    let width = if padded < area.width {
        padded
    } else {
        area.width
    };
    let content_height: u16 = if toast.context.as_str().is_empty() {
        1
    } else {
        2
    };
    let height = if content_height + 2 < area.height {
        content_height + 2
    } else {
        area.height
    };
    let x = match position {
        ToastHerdrPosition::TopLeft | ToastHerdrPosition::BottomLeft => area.x as u32,
        ToastHerdrPosition::TopRight | ToastHerdrPosition::BottomRight => area.x as u32 + (
        area.width - width) as u32,
    };
    let warning_offset: u16 = if offset_for_warning {
        1
    } else {
        0
    };
    let y = match position {
        ToastHerdrPosition::TopLeft | ToastHerdrPosition::TopRight => area.y as u32 + if warning_offset
            < area.height {
            warning_offset as u32
        } else {
            area.height as u32
        },
        ToastHerdrPosition::BottomLeft | ToastHerdrPosition::BottomRight => {
            let below = height + warning_offset;
            area.y as u32 + if area.height >= below {
                (area.height - below) as u32
            } else {
                0
            }
        },
    };
    x <= 65535 && y <= 65535
}

/// Where an agent notification is drawn: in the configured corner, as wide
/// as its wider line in display cells (so wide characters count twice) plus
/// decoration, one row taller with context, cut to fit `area`.
pub fn toast_notification_rect(
    area: Rect,
    toast: &ToastNotification,
    offset_for_warning: bool,
    position: ToastHerdrPosition,
) -> (r: Rect)
    requires
        toast_fits(area, toast.title@, toast.context@, offset_for_warning, position),
    ensures
        r == toast_placement(area, toast.title@, toast.context@, offset_for_warning, position),
{
    let title_width = display_width_u16(toast.title.as_str());
    let context_width = display_width_u16(toast.context.as_str());
    let widest = if title_width >= context_width {
        title_width
    } else {
        context_width
    };
    let content_width = widest.saturating_add(4);
    let padded = content_width.saturating_add(2);
    let width = if padded < area.width {
        padded
    } else {
        area.width
    };
    let content_height: u16 = if toast.context.as_str().is_empty() {
        1
    } else {
        2
    };
    let height = if content_height + 2 < area.height {
        content_height + 2
    } else {
        area.height
    };
    let x = match position {
        ToastHerdrPosition::TopLeft | ToastHerdrPosition::BottomLeft => area.x,
        ToastHerdrPosition::TopRight | ToastHerdrPosition::BottomRight => area.x + if area.width
            >= width {
            area.width - width
        } else {
            0
        },
    };
    let warning_offset: u16 = if offset_for_warning {
        1
    } else {
        0
    };
    let y = match position {
        ToastHerdrPosition::TopLeft | ToastHerdrPosition::TopRight => area.y + if warning_offset
            < area.height {
            warning_offset
        } else {
            area.height
        },
        ToastHerdrPosition::BottomLeft | ToastHerdrPosition::BottomRight => {
            let below = height + warning_offset;
            area.y + if area.height >= below {
                area.height - below
            } else {
                0
            }
        },
    };
    Rect::new(x, y, width, height)
}


/// Where line `row` of a configuration diagnostic is drawn: one row tall,
/// flush against the right edge of `area`, as wide as its text (in bytes, cut
/// to 16 bits) or the area, whichever is narrower.
pub open spec fn diagnostic_placement(area: Rect, row: u16, text_len: usize) -> Rect {
    let width = min_u16(text_len as u16, area.width);
    rect_at(area.x + sat_sub_u16(area.width, width), area.y + row, width, 1)
}

/// Whether [`config_diagnostic_rect`] can place line `row` without its
/// 16-bit arithmetic overflowing; where it cannot, drawing it overflows.
pub fn config_diagnostic_rect_fits(area: Rect, row: usize, text_len: usize) -> (fits: bool)
    ensures
        fits == (area.x + sat_sub_u16(area.width, min_u16(text_len as u16, area.width))
            <= u16::MAX && area.y + row <= u16::MAX),
{
    let cut = #[verifier::truncate] (text_len as u16);
    let width = if cut < area.width {
        cut
    } else {
        area.width
    };
    let spare = (area.width - width) as u32;
    area.x as u32 + spare <= 65535 && row <= 65535 && area.y as usize + row <= 65535
}

/// The rectangle for line `row` of a configuration diagnostic whose padded
/// text is `text_len` bytes long. Only as many lines as `area` has rows are
/// drawn.
pub fn config_diagnostic_rect(area: Rect, row: usize, text_len: usize) -> (r: Rect)
    requires
        row < area.height,
        area.x + sat_sub_u16(area.width, min_u16(text_len as u16, area.width)) <= u16::MAX,
        area.y + row <= u16::MAX,
    ensures
        r == diagnostic_placement(area, row as u16, text_len),
{
    let cut = #[verifier::truncate] (text_len as u16);
    let width = if cut < area.width {
        cut
    } else {
        area.width
    };
    let spare = if area.width >= width {
        area.width - width
    } else {
        0
    };
    Rect::new(area.x + spare, area.y + row as u16, width, 1)
}

/// Whether `c` has the Unicode `White_Space` property.
pub open spec fn is_white_space(c: char) -> bool {
    let n = c as u32;
    ||| 0x09 <= n <= 0x0D
    ||| n == 0x20
    ||| n == 0x85
    ||| n == 0xA0
    ||| n == 0x1680
    ||| 0x2000 <= n <= 0x200A
    ||| n == 0x2028
    ||| n == 0x2029
    ||| n == 0x202F
    ||| n == 0x205F
    ||| n == 0x3000
}

/// `char::is_whitespace`: whether the character has the Unicode
/// `White_Space` property, the fixed set of code points the clause lists.
#[verifier::external_body]
fn char_is_whitespace(c: char) -> (b: bool)
    ensures
        b == is_white_space(c),
{
    c.is_whitespace()
}

/// Whether a line holds nothing but whitespace, so that trimming empties it.
pub open spec fn is_blank(line: Seq<char>) -> bool {
    forall|j: int| 0 <= j < line.len() ==> is_white_space(#[trigger] line[j])
}

/// A line that ended in `\r\n`, without its carriage return.
pub open spec fn without_cr(line: Seq<char>) -> Seq<char> {
    if line.len() > 0 && line.last() == '\r' {
        line.drop_last()
    } else {
        line
    }
}

/// The lines of `text` from position `i` on, the current line having begun
/// at `start` and `done` holding the lines already ended.
///
/// A line ends at `\n`, a `\r` just before it being dropped; the text after
/// the last `\n` is a final line when it is not empty.
pub open spec fn lines_from(text: Seq<char>, i: int, start: int, done: Seq<Seq<char>>) -> Seq<
    Seq<char>,
>
    decreases text.len() - i,
{
    if i >= text.len() {
        if start < text.len() {
            done.push(text.subrange(start, text.len() as int))
        } else {
            done
        }
    } else if text[i] == '\n' {
        lines_from(text, i + 1, i + 1, done.push(without_cr(text.subrange(start, i))))
    } else {
        lines_from(text, i + 1, start, done)
    }
}

/// The lines of `text`, as `str::lines` yields them.
pub open spec fn text_lines(text: Seq<char>) -> Seq<Seq<char>> {
    lines_from(text, 0, 0, Seq::empty())
}

/// A diagnostic line as it is drawn: with one space of padding each side.
pub open spec fn padded(line: Seq<char>) -> Seq<char> {
    seq![' '] + line + seq![' ']
}

/// The lines of a configuration diagnostic that carry text.
pub open spec fn nonblank_lines(message: Seq<char>) -> Seq<Seq<char>> {
    text_lines(message).filter(|line: Seq<char>| !is_blank(line))
}

/// The lines a configuration diagnostic draws, at most `max_lines` of them:
/// its non-blank lines in order, each padded.
pub open spec fn diagnostic_texts(message: Seq<char>, max_lines: nat) -> Seq<Seq<char>> {
    let kept = nonblank_lines(message);
    let shown = if kept.len() <= max_lines { kept } else { kept.take(max_lines as int) };
    shown.map_values(|line: Seq<char>| padded(line))
}

/// A line ending in `\r` is blank exactly when it is without the `\r`.
proof fn lemma_blank_without_cr(line: Seq<char>)
    ensures
        is_blank(without_cr(line)) == is_blank(line),
{
    if line.len() > 0 && line.last() == '\r' {
        assert(is_white_space(line.last()));
        if is_blank(without_cr(line)) {
            assert forall|j: int| 0 <= j < line.len() implies is_white_space(#[trigger] line[j]) by {
                if j < line.len() - 1 {
                    assert(line[j] == without_cr(line)[j]);
                }
            }
        }
        if is_blank(line) {
            assert forall|j: int| 0 <= j < without_cr(line).len() implies is_white_space(
                #[trigger] without_cr(line)[j],
            ) by {
                assert(line[j] == without_cr(line)[j]);
            }
        }
    }
}

/// The lines of a configuration diagnostic, as they are drawn one per row:
/// its non-blank lines in order, padded with a space each side, no more than
/// `max_lines` of them.
pub fn config_diagnostic_texts(message: &str, max_lines: usize) -> (texts: Vec<String>)
    ensures
        texts@.len() == diagnostic_texts(message@, max_lines as nat).len(),
        forall|j: int|
            0 <= j < texts@.len() ==> #[trigger] texts@[j]@ == diagnostic_texts(
                message@,
                max_lines as nat,
            )[j],
{
    let ghost text = message@;
    let ghost nonblank = |line: Seq<char>| !is_blank(line);
    let mut texts: Vec<String> = Vec::new();
    let ghost mut done: Seq<Seq<char>> = Seq::empty();
    let mut start: usize = 0;
    let mut i: usize = 0;
    let mut blank = true;
    let mut prev_cr = false;
    let length = message.unicode_len();
    proof {
        reveal_strlit(" ");
    }
    for c in it: message.chars()
        invariant
            it.seq() == text,
            text == message@,
            length == text.len(),
            forall|line: Seq<char>| #[trigger] nonblank(line) == !is_blank(line),
            i == it.index(),
            i <= text.len(),
            start <= i,
            text_lines(text) == lines_from(text, i as int, start as int, done),
            blank == is_blank(text.subrange(start as int, i as int)),
            prev_cr == (start < i && text[i - 1] == '\r'),
            texts@.len() == if done.filter(nonblank).len() <= max_lines {
                done.filter(nonblank).len()
            } else {
                max_lines as nat
            },
            forall|j: int|
                0 <= j < texts@.len() ==> #[trigger] texts@[j]@ == padded(
                    done.filter(nonblank)[j],
                ),
    {
        assert(text[i as int] == c);
        if c == '\n' {
            let ghost seg = text.subrange(start as int, i as int);
            let cut = if prev_cr {
                i - 1
            } else {
                i
            };
            proof {
                lemma_blank_without_cr(seg);
                assert(text.subrange(start as int, cut as int) == without_cr(seg));
                assert(done.push(without_cr(seg)).drop_last() == done);
                done.lemma_filter_push(without_cr(seg), nonblank);
            }
            if !blank && texts.len() < max_lines {
                let mut line = String::from_str(" ");
                line.append(message.substring_char(start, cut));
                line.append(" ");
                proof {
                    reveal_strlit(" ");
                    assert(line@ == padded(without_cr(seg)));
                }
                texts.push(line);
            }
            proof {
                done = done.push(without_cr(seg));
            }
            start = i + 1;
            blank = true;
            prev_cr = false;
        } else {
            let ws = char_is_whitespace(c);
            proof {
                let old_seg = text.subrange(start as int, i as int);
                let new_seg = text.subrange(start as int, i + 1);
                assert(new_seg == old_seg.push(c));
                if blank && ws {
                    assert forall|j: int| 0 <= j < new_seg.len() implies is_white_space(
                        #[trigger] new_seg[j],
                    ) by {
                        if j < old_seg.len() {
                            assert(new_seg[j] == old_seg[j]);
                        }
                    }
                }
                if !ws {
                    assert(new_seg[new_seg.len() - 1] == c);
                }
                if !blank {
                    let j = choose|j: int| 0 <= j < old_seg.len() && !is_white_space(old_seg[j]);
                    assert(new_seg[j] == old_seg[j]);
                }
            }
            blank = blank && ws;
            prev_cr = c == '\r';
        }
        i = i + 1;
    }
    let ghost seg = text.subrange(start as int, i as int);
    let ghost final_done = if start < i {
        done.push(seg)
    } else {
        done
    };
    proof {
        if start < i {
            assert(done.push(seg).drop_last() == done);
            done.lemma_filter_push(seg, nonblank);
        }
        assert(text_lines(text) == final_done);
    }
    if start < i && !blank && texts.len() < max_lines {
        let mut line = String::from_str(" ");
        line.append(message.substring_char(start, i));
        line.append(" ");
        proof {
            reveal_strlit(" ");
            assert(line@ == padded(seg));
        }
        texts.push(line);
    }
    proof {
        let kept = final_done.filter(nonblank);
        assert(kept == nonblank_lines(text));
        assert(texts@.len() == if kept.len() <= max_lines {
            kept.len()
        } else {
            max_lines as nat
        });
        assert forall|j: int| 0 <= j < texts@.len() implies #[trigger] texts@[j]@ == padded(
            kept[j],
        ) by {}
        let shown = if kept.len() <= max_lines {
            kept
        } else {
            kept.take(max_lines as int)
        };
        assert forall|j: int| 0 <= j < texts@.len() implies #[trigger] texts@[j]@
            == diagnostic_texts(text, max_lines as nat)[j] by {
            assert(shown[j] == kept[j]);
        }
    }
    texts
}

/// `error` is a key of its own: no detected state maps to it, so an override
/// can target an errored pane without touching any other.
pub proof fn lemma_error_status_key_is_distinct(state: AgentState, seen: bool)
    ensures
        status_key_text(state, seen, false) != "error"@,
        status_key_text(state, seen, true) == "error"@,
{
    reveal_strlit("error");
    reveal_strlit("idle");
    reveal_strlit("done");
    reveal_strlit("working");
    reveal_strlit("blocked");
    reveal_strlit("unknown");
    if status_key_text(state, seen, false) == "error"@ {
        assert(status_key_text(state, seen, false)[0] == "error"@[0]);
    }
}

/// A notification always fits an area that lies on the coordinate range,
/// whatever its text, as every area `Rect::new` builds does.
pub proof fn lemma_toast_fits_an_area_on_the_coordinate_range(
    area: Rect,
    title: Seq<char>,
    context: Seq<char>,
    offset_for_warning: bool,
    position: ToastHerdrPosition,
)
    requires
        area.x + area.width <= u16::MAX,
        area.y + area.height <= u16::MAX,
    ensures
        toast_fits(area, title, context, offset_for_warning, position),
{
}

/// A notification in an area that lies on the coordinate range sits flush
/// against the configured corner.
pub proof fn lemma_toast_sits_in_its_corner(
    area: Rect,
    title: Seq<char>,
    context: Seq<char>,
    position: ToastHerdrPosition,
)
    requires
        area.x + area.width <= u16::MAX,
        area.y + area.height <= u16::MAX,
    ensures
        ({
            let r = toast_placement(area, title, context, false, position);
            &&& toast_is_right(position) ==> r.x + r.width == area.x + area.width
            &&& !toast_is_right(position) ==> r.x == area.x
            &&& toast_is_top(position) ==> r.y == area.y
            &&& !toast_is_top(position) ==> r.y + r.height == area.y + area.height
        }),
{
}

/// A notification in an area that ends above the last row of the coordinate
/// range (so a warning offset cannot push it off) is as wide as its wider
/// line in display cells plus six cells of decoration, cut to the area: never
/// wider than the area, never narrower than either line needs unless the area
/// is narrower, and exactly one of those widths. It is two rows taller than
/// its text: one line, or two with context, cut to the area.
pub proof fn lemma_toast_fits_its_wider_line(
    area: Rect,
    title: Seq<char>,
    context: Seq<char>,
    offset_for_warning: bool,
    position: ToastHerdrPosition,
)
    requires
        area.x + area.width <= u16::MAX,
        area.y + area.height < u16::MAX,
    ensures
        toast_placement(area, title, context, offset_for_warning, position).width <= area.width,
        toast_placement(area, title, context, offset_for_warning, position).width >= width_u16(
            title,
        ) + 6 || toast_placement(area, title, context, offset_for_warning, position).width
            == area.width,
        toast_placement(area, title, context, offset_for_warning, position).width >= width_u16(
            context,
        ) + 6 || toast_placement(area, title, context, offset_for_warning, position).width
            == area.width,
        toast_placement(area, title, context, offset_for_warning, position).width == area.width
            || toast_placement(area, title, context, offset_for_warning, position).width
            == width_u16(title) + 6 || toast_placement(
            area,
            title,
            context,
            offset_for_warning,
            position,
        ).width == width_u16(context) + 6,
        toast_placement(area, title, context, offset_for_warning, position).height <= area.height,
        context.len() == 0 ==> toast_placement(
            area,
            title,
            context,
            offset_for_warning,
            position,
        ).height == 3 || toast_placement(area, title, context, offset_for_warning, position).height
            == area.height,
        context.len() == 0 ==> toast_placement(
            area,
            title,
            context,
            offset_for_warning,
            position,
        ).height <= 3,
        context.len() > 0 ==> toast_placement(
            area,
            title,
            context,
            offset_for_warning,
            position,
        ).height == 4 || toast_placement(area, title, context, offset_for_warning, position).height
            == area.height,
        context.len() > 0 ==> toast_placement(
            area,
            title,
            context,
            offset_for_warning,
            position,
        ).height <= 4,
{
    let width = toast_width(area, title, context);
    let height = toast_height(area, context);
    let x = toast_x(area, width, position);
    let y = toast_y(area, height, offset_for_warning, position);
    assert(width <= area.width);
    assert(height <= area.height);
    assert(x + width <= area.x + area.width);
    assert(y + height <= area.y + area.height + 1);
    assert(clamped_extent(x as u16, width) == width);
    assert(clamped_extent(y as u16, height) == height);
}

/// The clipboard confirmation in an area on the coordinate range, wherever
/// [`copy_feedback_rect`] can place it, sits at its configured position: flush with the left edge on the left, flush with the
/// right edge on the right, centred between them, `offset_rows` below the top
/// edge at the top, and `offset_rows` above the bottom edge at the bottom. It
/// is as wide as its message's bytes plus four cells, cut to the area, and
/// three rows tall where the area has room for them.
pub proof fn lemma_copy_feedback_sits_at_its_position(
    area: Rect,
    message: Seq<char>,
    offset_rows: u16,
    position: ToastClipboardPosition,
)
    requires
        area.width > 0,
        area.height > 0,
        area.x + area.width <= u16::MAX,
        area.y + area.height <= u16::MAX,
        copy_feedback_fits(area, message, offset_rows, position),
    ensures
        copy_feedback_placement(area, message, offset_rows, position).width <= area.width,
        copy_feedback_placement(area, message, offset_rows, position).width
            == copy_feedback_content_width(message) || copy_feedback_placement(
            area,
            message,
            offset_rows,
            position,
        ).width == area.width,
        copy_feedback_placement(area, message, offset_rows, position).width
            >= copy_feedback_content_width(message) || copy_feedback_placement(
            area,
            message,
            offset_rows,
            position,
        ).width == area.width,
        (position == ToastClipboardPosition::TopLeft || position
            == ToastClipboardPosition::BottomLeft) ==> copy_feedback_placement(
            area,
            message,
            offset_rows,
            position,
        ).x == area.x,
        (position == ToastClipboardPosition::TopRight || position
            == ToastClipboardPosition::BottomRight) ==> copy_feedback_placement(
            area,
            message,
            offset_rows,
            position,
        ).x + copy_feedback_placement(area, message, offset_rows, position).width == area.x
            + area.width,
        (position == ToastClipboardPosition::TopCenter || position
            == ToastClipboardPosition::BottomCenter) ==> copy_feedback_placement(
            area,
            message,
            offset_rows,
            position,
        ).x == area.x + (area.width - copy_feedback_placement(
            area,
            message,
            offset_rows,
            position,
        ).width) / 2,
        is_top(position) && offset_rows <= area.height ==> copy_feedback_placement(
            area,
            message,
            offset_rows,
            position,
        ).y == area.y + offset_rows,
        is_top(position) && offset_rows + 3 <= area.height ==> copy_feedback_placement(
            area,
            message,
            offset_rows,
            position,
        ).height == 3,
        !is_top(position) ==> copy_feedback_placement(area, message, offset_rows, position).height
            == 3 || copy_feedback_placement(area, message, offset_rows, position).height
            == area.height,
        !is_top(position) ==> copy_feedback_placement(area, message, offset_rows, position).height
            <= 3,
        !is_top(position) && copy_feedback_placement(area, message, offset_rows, position).height
            + offset_rows <= area.height ==> copy_feedback_placement(
            area,
            message,
            offset_rows,
            position,
        ).y + copy_feedback_placement(area, message, offset_rows, position).height + offset_rows
            == area.y + area.height,
{
    let width = copy_feedback_width(area, message);
    let height = copy_feedback_height(area);
    let x = copy_feedback_x(area, width, position);
    let y = copy_feedback_y(area, height, offset_rows, position);
    assert(width <= area.width);
    assert(height <= area.height);
    assert(x + width <= area.x + area.width);
    assert(clamped_extent(x as u16, width) == width);
    if !is_top(position) {
        assert(y + height <= area.y + area.height);
        assert(clamped_extent(y as u16, height) == height);
    } else if offset_rows + 3 <= area.height {
        assert(clamped_extent(y as u16, height) == height);
    }
}

/// A centered clipboard confirmation splits the spare width evenly, the odd
/// cell going to the right; at the bottom with no offset it sits on the
/// area's bottom edge.
pub proof fn lemma_copy_feedback_is_centered(
    area: Rect,
    message: Seq<char>,
    position: ToastClipboardPosition,
)
    requires
        area.width > 0,
        area.height > 0,
        area.x + area.width <= u16::MAX,
        area.y + area.height <= u16::MAX,
        copy_feedback_content_width(message) <= u16::MAX,
        position == ToastClipboardPosition::TopCenter || position
            == ToastClipboardPosition::BottomCenter,
    ensures
        ({
            let r = copy_feedback_placement(area, message, 0, position);
            &&& r.x == area.x + (area.width - r.width) / 2
            &&& position == ToastClipboardPosition::TopCenter ==> r.y == area.y
            &&& position == ToastClipboardPosition::BottomCenter ==> r.y + r.height == area.y
                + area.height
        }),
{
}

} // verus!
