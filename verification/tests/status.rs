use herdr::agent::AgentState;
use herdr::geometry::Rect;
use herdr::status::{
    config_diagnostic_rect, config_diagnostic_rect_fits, config_diagnostic_texts,
    copy_feedback_rect, copy_feedback_rect_fits, toast_notification_rect_fits, display_width_u16, pane_state_label, pane_status_key, state_icon_symbol,
    state_label, toast_notification_rect, CopyFeedback, StatusIndicatorStyle,
    ToastClipboardPosition, ToastHerdrPosition, ToastKind, ToastNotification,
};

fn toast() -> ToastNotification {
    ToastNotification {
        kind: ToastKind::Finished,
        title: "done".to_string(),
        context: "workspace".to_string(),
    }
}

fn feedback() -> CopyFeedback {
    CopyFeedback {
        message: "copied to clipboard".to_string(),
    }
}

#[test]
fn toast_rect_uses_configured_corner() {
    let area = Rect::new(10, 20, 100, 40);
    let toast = toast();

    let top_left = toast_notification_rect(area, &toast, false, ToastHerdrPosition::TopLeft);
    assert_eq!(top_left.x, area.x);
    assert_eq!(top_left.y, area.y);

    let top_right = toast_notification_rect(area, &toast, false, ToastHerdrPosition::TopRight);
    assert_eq!(top_right.x + top_right.width, area.x + area.width);
    assert_eq!(top_right.y, area.y);

    let bottom_left = toast_notification_rect(area, &toast, false, ToastHerdrPosition::BottomLeft);
    assert_eq!(bottom_left.x, area.x);
    assert_eq!(bottom_left.y + bottom_left.height, area.y + area.height);

    let bottom_right =
        toast_notification_rect(area, &toast, false, ToastHerdrPosition::BottomRight);
    assert_eq!(bottom_right.x + bottom_right.width, area.x + area.width);
    assert_eq!(bottom_right.y + bottom_right.height, area.y + area.height);
}

#[test]
fn toast_rect_uses_display_width_for_cjk_labels() {
    let area = Rect::new(0, 0, 100, 20);
    let toast = ToastNotification {
        kind: ToastKind::NeedsAttention,
        title: "重构用户认证模块".to_string(),
        context: "提交 herdr 的反馈".to_string(),
    };

    let rect = toast_notification_rect(area, &toast, false, ToastHerdrPosition::TopRight);

    let expected_content_width =
        display_width_u16(&toast.title).max(display_width_u16(&toast.context)) + 6;
    assert_eq!(rect.width, expected_content_width);
    assert_eq!(rect.x + rect.width, area.x + area.width);
}

#[test]
fn copy_feedback_rect_uses_configured_position() {
    let area = Rect::new(10, 20, 100, 40);
    let feedback = feedback();

    let top_center = copy_feedback_rect(area, &feedback, 0, ToastClipboardPosition::TopCenter);
    assert_eq!(top_center.y, area.y);
    assert_eq!(
        top_center.x,
        area.x + area.width.saturating_sub(top_center.width) / 2
    );

    let bottom_center =
        copy_feedback_rect(area, &feedback, 0, ToastClipboardPosition::BottomCenter);
    assert_eq!(bottom_center.y + bottom_center.height, area.y + area.height);
    assert_eq!(
        bottom_center.x,
        area.x + area.width.saturating_sub(bottom_center.width) / 2
    );
}

#[test]
fn state_labels_name_the_five_states_a_user_reasons_about() {
    let cases = [
        (AgentState::Working, true, false, "working"),
        (AgentState::Blocked, true, false, "waiting"),
        (AgentState::Idle, false, false, "done"),
        (AgentState::Idle, true, false, "idle"),
        (AgentState::Unknown, true, false, "idle"),
        // A recorded mid-turn exit outranks whatever detection last saw.
        (AgentState::Working, true, true, "error"),
        (AgentState::Idle, true, true, "error"),
    ];

    for (state, seen, errored, expected) in cases {
        assert_eq!(pane_state_label(state, seen, errored), expected);
    }
}

#[test]
fn error_status_key_is_distinct_so_overrides_can_target_it() {
    assert_eq!(pane_status_key(AgentState::Working, true, false), "working");
    assert_eq!(pane_status_key(AgentState::Blocked, true, false), "blocked");
    assert_eq!(pane_status_key(AgentState::Idle, false, false), "done");
    assert_eq!(pane_status_key(AgentState::Idle, true, false), "idle");
    assert_eq!(pane_status_key(AgentState::Unknown, true, false), "unknown");
    assert_eq!(pane_status_key(AgentState::Working, true, true), "error");
}

// Checks of the crate's own beyond the scenarios above.

#[test]
fn state_icon_symbols_support_dot_and_distinct_symbol_styles() {
    for (indicator_style, expected_symbols) in [
        (StatusIndicatorStyle::Dots, ["●", "●", "●", "○", "·"]),
        (StatusIndicatorStyle::Symbols, ["×", "◐", "✓", "○", "·"]),
    ] {
        for ((state, seen), expected_symbol) in [
            (AgentState::Blocked, true),
            (AgentState::Working, true),
            (AgentState::Idle, false),
            (AgentState::Idle, true),
            (AgentState::Unknown, true),
        ]
        .into_iter()
        .zip(expected_symbols)
        {
            let actual_symbol = state_icon_symbol(state, seen, indicator_style);
            assert_eq!(actual_symbol, expected_symbol);
            assert_eq!(display_width_u16(actual_symbol), 1);
        }
    }
}

#[test]
fn the_displayed_label_and_the_override_key_differ_only_for_waiting_and_unknown() {
    assert_eq!(state_label(AgentState::Blocked, true), "waiting");
    assert_eq!(pane_status_key(AgentState::Blocked, true, false), "blocked");
    assert_eq!(state_label(AgentState::Unknown, false), "idle");
    assert_eq!(pane_status_key(AgentState::Unknown, false, false), "unknown");
    assert_eq!(pane_status_key(AgentState::Unknown, false, true), "error");
}

#[test]
fn overlays_shrink_to_a_small_area_and_vanish_in_an_empty_one() {
    let tiny = Rect::new(5, 5, 8, 2);
    let rect = copy_feedback_rect(tiny, &feedback(), 0, ToastClipboardPosition::TopLeft);
    assert_eq!(rect, Rect::new(5, 5, 8, 2));
    let empty = Rect::new(5, 5, 0, 10);
    assert_eq!(
        copy_feedback_rect(empty, &feedback(), 0, ToastClipboardPosition::BottomRight),
        Rect::new(0, 0, 0, 0)
    );
    let toast = toast_notification_rect(tiny, &toast(), true, ToastHerdrPosition::BottomRight);
    assert_eq!(toast, Rect::new(5, 5, 8, 2));
}

#[test]
fn a_toast_without_context_is_one_row_shorter_and_clears_a_warning_line() {
    let area = Rect::new(0, 0, 80, 24);
    let plain = ToastNotification {
        kind: ToastKind::UpdateInstalled,
        title: "updated".to_string(),
        context: String::new(),
    };
    let rect = toast_notification_rect(area, &plain, true, ToastHerdrPosition::TopLeft);
    // "updated" is seven cells; four of decoration and two of border.
    assert_eq!(rect, Rect::new(0, 1, 13, 3));
    let rect = toast_notification_rect(area, &plain, true, ToastHerdrPosition::BottomLeft);
    assert_eq!(rect, Rect::new(0, 20, 13, 3));
}

#[test]
fn rectangles_are_cut_back_to_stay_on_the_coordinate_range() {
    let r = Rect::new(65_530, 65_000, 100, 600);
    assert_eq!(r.width, 5);
    assert_eq!(r.height, 535);
    assert!(!r.is_empty());
    assert!(Rect::new(0, 0, 0, 3).is_empty());
}

#[test]
fn diagnostic_lines_hug_the_right_edge_one_per_row() {
    let area = Rect::new(10, 4, 30, 5);
    assert_eq!(config_diagnostic_rect(area, 0, 12), Rect::new(28, 4, 12, 1));
    assert_eq!(config_diagnostic_rect(area, 2, 45), Rect::new(10, 6, 30, 1));
}

#[test]
fn diagnostics_draw_their_nonblank_lines_padded_up_to_the_rows_available() {
    let message = "first problem\r\n\n   \t\nsecond problem\nthird";
    assert_eq!(
        config_diagnostic_texts(message, 5),
        vec![" first problem ", " second problem ", " third "]
    );
    assert_eq!(
        config_diagnostic_texts(message, 2),
        vec![" first problem ", " second problem "]
    );
    assert!(config_diagnostic_texts(message, 0).is_empty());
    assert!(config_diagnostic_texts(" \u{3000}\n\n", 3).is_empty());
    assert_eq!(config_diagnostic_texts("tail\r", 3), vec![" tail\r "]);
    assert_eq!(config_diagnostic_texts("", 3), Vec::<String>::new());
}

#[test]
fn overlays_report_where_their_arithmetic_would_overflow() {
    let on_screen = Rect::new(10, 20, 100, 40);
    assert!(copy_feedback_rect_fits(
        on_screen,
        &feedback(),
        u16::MAX - 3,
        ToastClipboardPosition::TopLeft
    ));
    assert!(!copy_feedback_rect_fits(
        on_screen,
        &feedback(),
        u16::MAX - 2,
        ToastClipboardPosition::BottomLeft
    ));
    let past_the_edge = Rect { x: 65_500, y: 0, width: 100, height: 10 };
    assert!(!toast_notification_rect_fits(
        past_the_edge,
        &toast(),
        false,
        ToastHerdrPosition::TopRight
    ));
    assert!(toast_notification_rect_fits(
        past_the_edge,
        &toast(),
        false,
        ToastHerdrPosition::TopLeft
    ));
    assert!(config_diagnostic_rect_fits(on_screen, 3, 12));
    assert!(!config_diagnostic_rect_fits(Rect { x: 0, y: 65_535, width: 5, height: 5 }, 1, 3));
}
