use trivia_party_display::menu::{build_menu_model, display_id, menu_action, MenuAction};
use trivia_party_display::monitors::{
    center_on_monitor, get_available_monitors, monitor_label, move_to_monitor, Monitor,
};
use trivia_party_display::text::{parse_index, str_eq, u64_to_string};

fn named(name: &str, width: u32, height: u32, pos_x: i32, pos_y: i32) -> Monitor {
    Monitor { name: Some(name.to_string()), width, height, pos_x, pos_y }
}

fn unnamed(width: u32, height: u32, pos_x: i32, pos_y: i32) -> Monitor {
    Monitor { name: None, width, height, pos_x, pos_y }
}

#[test]
fn enumeration_preserves_every_monitor() {
    let monitors = vec![
        named("HDMI-1", 1920, 1080, 0, 0),
        unnamed(1024, 768, 1920, 0),
        unnamed(640, 480, -640, 100),
    ];
    let infos = get_available_monitors(&monitors);
    assert_eq!(infos.len(), 3);
    assert_eq!(infos[0].name, "HDMI-1");
    assert_eq!(infos[0].width, 1920);
    assert_eq!(infos[0].height, 1080);
    assert_eq!(infos[1].width, 1024);
    assert_eq!(infos[1].height, 768);
    assert_eq!(infos[2].width, 640);
    assert_eq!(infos[2].height, 480);
}

#[test]
fn enumeration_of_nothing_is_empty_not_an_error() {
    let monitors: Vec<Monitor> = Vec::new();
    let infos = get_available_monitors(&monitors);
    assert!(infos.is_empty());
}

#[test]
fn unnamed_monitors_get_one_based_fallback_labels() {
    let monitors = vec![unnamed(800, 600, 0, 0), unnamed(800, 600, 800, 0)];
    let infos = get_available_monitors(&monitors);
    assert_eq!(infos[0].name, "Display 1");
    assert_eq!(infos[1].name, "Display 2");
}

#[test]
fn fallback_label_counts_past_nine() {
    assert_eq!(monitor_label(&None, 11), "Display 12");
    assert_eq!(monitor_label(&Some("DP-3".to_string()), 11), "DP-3");
}

#[test]
fn move_to_unknown_name_reports_monitor_not_found() {
    let monitors = vec![named("HDMI-1", 1920, 1080, 0, 0)];
    let r = move_to_monitor(&monitors, "DP-1");
    assert_eq!(r.unwrap_err(), "Monitor not found");
}

#[test]
fn move_on_empty_snapshot_reports_monitor_not_found() {
    let monitors: Vec<Monitor> = Vec::new();
    let r = move_to_monitor(&monitors, "HDMI-1");
    assert_eq!(r.unwrap_err(), "Monitor not found");
}

#[test]
fn move_to_known_name_gives_that_top_left_corner() {
    let monitors = vec![
        named("HDMI-1", 1920, 1080, 0, 0),
        named("DP-1", 1024, 768, 1920, -32),
    ];
    assert_eq!(move_to_monitor(&monitors, "DP-1").unwrap(), (1920, -32));
}

#[test]
fn move_takes_the_first_of_two_monitors_with_equal_names() {
    let monitors = vec![
        named("Twin", 800, 600, 10, 20),
        named("Twin", 800, 600, 900, 20),
    ];
    assert_eq!(move_to_monitor(&monitors, "Twin").unwrap(), (10, 20));
}

#[test]
fn unnamed_monitor_matches_no_name() {
    let monitors = vec![unnamed(800, 600, 0, 0)];
    let r = move_to_monitor(&monitors, "Display 1");
    assert_eq!(r.unwrap_err(), "Monitor not found");
}

#[test]
fn centering_a_small_window_on_a_full_hd_monitor() {
    let m = unnamed(1920, 1080, 0, 0);
    assert_eq!(center_on_monitor(&m, 800, 600), Some((560, 240)));
}

#[test]
fn centering_respects_the_monitor_offset() {
    let m = named("DP-1", 1920, 1080, 1920, -32);
    assert_eq!(center_on_monitor(&m, 800, 600), Some((2480, 208)));
}

#[test]
fn centering_truncates_toward_zero_per_axis() {
    // spare space 3 x 3: half is 1, not 2
    let m = unnamed(5, 5, 0, 0);
    assert_eq!(center_on_monitor(&m, 2, 2), Some((1, 1)));
    // window wider and taller by 3: half is -1, not -2
    let m = unnamed(5, 5, 0, 0);
    assert_eq!(center_on_monitor(&m, 8, 8), Some((-1, -1)));
}

#[test]
fn centering_a_window_larger_than_the_monitor_goes_up_and_left() {
    let m = unnamed(800, 600, 0, 0);
    assert_eq!(center_on_monitor(&m, 1000, 800), Some((-100, -100)));
}

#[test]
fn centering_that_leaves_screen_coordinates_is_refused() {
    let m = Monitor { name: None, width: u32::MAX, height: 100, pos_x: i32::MAX, pos_y: 0 };
    assert_eq!(center_on_monitor(&m, 0, 80), None);
}

#[test]
fn menu_without_monitors_omits_move_to_display() {
    let monitors: Vec<Monitor> = Vec::new();
    let menu = build_menu_model(&monitors);
    assert!(menu.move_to_display.is_none());
    assert_eq!(menu.file_title, "File");
    assert_eq!(menu.view_title, "View");
    assert_eq!(menu.quit.id, "quit");
    assert_eq!(menu.quit.label, "Quit");
    assert_eq!(menu.quit.accelerator.as_deref(), Some("CmdOrCtrl+Q"));
    assert_eq!(menu.toggle_fullscreen.id, "toggle_fullscreen");
    assert_eq!(menu.toggle_fullscreen.label, "Toggle Fullscreen");
    assert_eq!(menu.toggle_fullscreen.accelerator.as_deref(), Some("CmdOrCtrl+F"));
}

#[test]
fn menu_lists_every_monitor_with_label_and_id() {
    let monitors = vec![
        named("HDMI-1", 1920, 1080, 0, 0),
        unnamed(1024, 768, 1920, 0),
    ];
    let menu = build_menu_model(&monitors);
    let sub = menu.move_to_display.expect("two monitors were detected");
    assert_eq!(sub.title, "Move to Display");
    assert_eq!(sub.items.len(), 2);
    assert_eq!(sub.items[0].id, "display_0");
    assert_eq!(sub.items[0].label, "HDMI-1 (1920x1080)");
    assert!(sub.items[0].accelerator.is_none());
    assert_eq!(sub.items[1].id, "display_1");
    assert_eq!(sub.items[1].label, "Display 2 (1024x768)");
    assert!(sub.items[1].accelerator.is_none());
}

#[test]
fn menu_events_dispatch_by_id() {
    assert_eq!(menu_action("quit", 0), MenuAction::Quit);
    assert_eq!(menu_action("toggle_fullscreen", 0), MenuAction::ToggleFullscreen);
    assert_eq!(menu_action("display_0", 2), MenuAction::MoveToDisplay(0));
    assert_eq!(menu_action("display_1", 2), MenuAction::MoveToDisplay(1));
}

#[test]
fn out_of_range_or_malformed_display_ids_are_no_ops() {
    assert_eq!(menu_action("display_2", 2), MenuAction::NoOp);
    assert_eq!(menu_action("display_9", 2), MenuAction::NoOp);
    assert_eq!(menu_action("display_x", 2), MenuAction::NoOp);
    assert_eq!(menu_action("display_", 2), MenuAction::NoOp);
    assert_eq!(menu_action("display_-1", 2), MenuAction::NoOp);
    assert_eq!(menu_action("display_99999999999999999999", 2), MenuAction::NoOp);
    assert_eq!(menu_action("banana", 2), MenuAction::NoOp);
    assert_eq!(menu_action("", 2), MenuAction::NoOp);
}

#[test]
fn built_display_ids_decode_back_to_their_index() {
    for idx in [0usize, 1, 9, 10, 123] {
        let id = display_id(idx);
        assert_eq!(menu_action(&id, 124), MenuAction::MoveToDisplay(idx));
    }
}

#[test]
fn numerals_are_plain_decimal() {
    assert_eq!(u64_to_string(0), "0");
    assert_eq!(u64_to_string(7), "7");
    assert_eq!(u64_to_string(1080), "1080");
    assert_eq!(u64_to_string(1234567890), "1234567890");
    assert_eq!(u64_to_string(u64::MAX), "18446744073709551615");
}

#[test]
fn index_parsing_is_digits_only() {
    assert_eq!(parse_index("0"), Some(0));
    assert_eq!(parse_index("42"), Some(42));
    assert_eq!(parse_index("007"), Some(7));
    assert_eq!(parse_index(""), None);
    assert_eq!(parse_index("+1"), None);
    assert_eq!(parse_index(" 1"), None);
    assert_eq!(parse_index("1x"), None);
    assert_eq!(parse_index("99999999999999999999999999"), None);
}

#[test]
fn string_equality_is_exact() {
    assert!(str_eq("display_3", "display_3"));
    assert!(!str_eq("display_3", "display_33"));
    assert!(!str_eq("Display 1", "display 1"));
    assert!(str_eq("", ""));
}
