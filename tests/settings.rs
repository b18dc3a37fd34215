use ivlyrics_overlay::config::{
    language_choice, language_from_config, parse_u16, server_port_choice, server_port_from_sources,
    start_minimized_choice, start_minimized_from_config, start_minimized_text, validate_server_port,
};
use ivlyrics_overlay::fonts::font_family_list;
use ivlyrics_overlay::placement::{placement_fix, visible_on_any, MonitorArea};
use ivlyrics_overlay::tray::{get_tray_strings, menu_command, MenuCommand};

#[test]
fn language_setting_is_trimmed_and_checked() {
    assert_eq!(language_from_config(Some(" en\n")), "en");
    assert_eq!(language_from_config(Some("ko")), "ko");
    assert_eq!(language_from_config(Some("fr")), "ko");
    assert_eq!(language_from_config(None), "ko");
    assert_eq!(language_from_config(Some("\u{3000}en\u{a0}\t")), "en");
    assert_eq!(language_from_config(Some("\u{200b}en")), "ko");
    assert_eq!(language_choice("en"), "en");
    assert_eq!(language_choice(" en"), "ko");
}

#[test]
fn start_minimized_setting() {
    assert!(start_minimized_from_config(Some("true\n")));
    assert!(!start_minimized_from_config(Some("TRUE")));
    assert!(!start_minimized_from_config(None));
    assert!(start_minimized_choice("true"));
    assert!(!start_minimized_choice("true "));
    assert_eq!(start_minimized_text(true), "true");
    assert_eq!(start_minimized_text(false), "false");
}

#[test]
fn port_text_reads_like_std_parse() {
    for text in ["0", "80", "+80", "65535", "65536", "", "+", "-1", "12a", "007", " 1", "99999999"] {
        assert_eq!(parse_u16(text), text.parse::<u16>().ok(), "{text}");
    }
}

#[test]
fn server_port_sources_in_order() {
    assert_eq!(server_port_from_sources(Some("2000"), Some("3000")), 2000);
    assert_eq!(server_port_from_sources(Some("80"), Some("3000")), 3000);
    assert_eq!(server_port_from_sources(None, Some(" 4000\n")), 4000);
    assert_eq!(server_port_from_sources(Some(" 2000"), None), 15000);
    assert_eq!(server_port_from_sources(Some("abc"), Some("1023")), 15000);
    assert_eq!(server_port_from_sources(None, None), 15000);
    assert_eq!(server_port_choice(None, Some(" 4000")), 15000);
}

#[test]
fn new_server_port_must_be_unprivileged() {
    assert_eq!(validate_server_port(80), Err("Port must be >= 1024".to_string()));
    assert_eq!(validate_server_port(1023).is_err(), true);
    assert_eq!(validate_server_port(1024), Ok(1024));
    assert_eq!(validate_server_port(65535), Ok(65535));
}

#[test]
fn tray_labels_by_language() {
    let ko = get_tray_strings("ko");
    assert_eq!(ko.quit, "종료");
    assert_eq!(ko.toggle_lock, "잠금 전환");
    let en = get_tray_strings("en");
    assert_eq!(en.quit, "Quit");
    assert_eq!(en.reset_pos, "Reset Position");
    assert_eq!(get_tray_strings("").devtools, "DevTools");
}

#[test]
fn tray_menu_commands() {
    assert_eq!(menu_command("toggle_lock"), Some(MenuCommand::ToggleLock));
    assert_eq!(menu_command("quit"), Some(MenuCommand::Quit));
    assert_eq!(menu_command("devpanel"), Some(MenuCommand::OpenDevTools));
    assert_eq!(menu_command("Quit"), None);
}

#[test]
fn window_visibility_with_margin() {
    let monitors = vec![
        MonitorArea { x: 0, y: 0, width: 1920, height: 1080 },
        MonitorArea { x: 1920, y: 0, width: 1280, height: 1024 },
    ];
    assert!(visible_on_any(100, 100, &monitors));
    assert!(visible_on_any(-49, 0, &monitors));
    assert!(!visible_on_any(-50, 0, &monitors));
    assert!(visible_on_any(3000, 1000, &monitors));
    assert!(!visible_on_any(3250, 0, &monitors));
    assert!(!visible_on_any(0, 0, &Vec::new()));
    assert_eq!(placement_fix(5000, 5000, &monitors), Some((100, 100)));
    assert_eq!(placement_fix(10, 10, &monitors), None);
}

#[test]
fn font_families_sorted_once() {
    let families = vec!["b".to_string(), "a".to_string(), "b".to_string(), "C".to_string(), "a".to_string()];
    assert_eq!(font_family_list(families), vec!["C".to_string(), "a".to_string(), "b".to_string()]);
    assert!(font_family_list(Vec::new()).is_empty());
}
