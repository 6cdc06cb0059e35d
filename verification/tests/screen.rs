use ultradian_work::screen::{
    brightness_level_to_save, parse_brightness_output, saved_brightness_level, ScreenTools,
};

#[test]
fn test_detect_does_not_panic() {
    let tools = ScreenTools::detect(false, false, false, false);
    // Detection succeeds regardless of tool availability: missing tools just
    // yield false booleans.
    let _ = tools.has_brightnessctl();
    let _ = tools.has_xset();
    let _ = tools.has_lock();
}

#[test]
fn test_detect_has_methods() {
    let tools = ScreenTools::detect(false, false, false, false);
    let _ = tools.has_dim_support();
}

#[test]
fn detect_combines_probes() {
    let tools = ScreenTools::detect(true, false, false, true);
    assert!(tools.has_brightnessctl());
    assert!(!tools.has_xset());
    assert!(tools.has_lock());
    assert!(tools.has_dim_support());
    let none = ScreenTools::detect(false, false, false, false);
    assert!(!none.has_dim_support());
    assert!(!none.has_lock());
    let xset_only = ScreenTools::detect(false, true, true, false);
    assert!(xset_only.has_dim_support());
    assert!(xset_only.has_lock());
}

#[test]
fn test_parse_brightness_output_single_line() {
    assert_eq!(parse_brightness_output("74%"), Some("74%".to_string()));
}

#[test]
fn test_parse_brightness_output_strips_device_annotation() {
    assert_eq!(parse_brightness_output("74% [unknown]"), Some("74%".to_string()));
}

#[test]
fn test_parse_brightness_output_multi_monitor_takes_first_line() {
    let stdout = "74% [backlight]\n45% [led]\n";
    assert_eq!(parse_brightness_output(stdout), Some("74%".to_string()));
}

#[test]
fn test_parse_brightness_output_skips_blank_lines() {
    assert_eq!(parse_brightness_output("\n\n  80% [backlight]\n"), Some("80%".to_string()));
}

#[test]
fn test_parse_brightness_output_empty() {
    assert_eq!(parse_brightness_output(""), None);
    assert_eq!(parse_brightness_output("   \n  \n"), None);
    assert_eq!(parse_brightness_output("[backlight]\n"), None);
}

#[test]
fn parse_brightness_output_handles_crlf_and_tabs() {
    assert_eq!(parse_brightness_output("\r\n\t 12345 \t[x]\r\n9"), Some("12345".to_string()));
    assert_eq!(parse_brightness_output("  50%  "), Some("50%".to_string()));
}

#[test]
fn saved_level_is_trimmed_and_never_empty() {
    assert_eq!(saved_brightness_level("100\n"), Some("100".to_string()));
    assert_eq!(saved_brightness_level("  \n"), None);
    assert_eq!(saved_brightness_level(""), None);
}

#[test]
fn level_is_not_saved_twice() {
    assert_eq!(brightness_level_to_save("74% [backlight]\n", false), Some("74%".to_string()));
    assert_eq!(brightness_level_to_save("5% [backlight]\n", true), None);
}

#[test]
fn parsed_levels_are_plain_and_read_back() {
    for out in ["74% [backlight]\n45% [led]\n", " \n  80 %  [x]", "55%\r\n", "[only]\n9%"] {
        if let Some(level) = parse_brightness_output(out) {
            assert!(!level.is_empty());
            assert!(!level.contains('[') && !level.contains('\n'));
            assert_eq!(level.trim(), level);
            assert_eq!(saved_brightness_level(&level), Some(level.clone()));
        }
    }
    assert_eq!(parse_brightness_output("[only]\n9%"), None);
    assert_eq!(parse_brightness_output("74%\n45%"), parse_brightness_output("74%\nanything else"));
}

#[test]
fn no_level_when_the_first_text_line_starts_with_a_bracket() {
    assert_eq!(parse_brightness_output("\n [led] 45%\n80%"), None);
    assert_eq!(parse_brightness_output("  \n"), None);
    assert_eq!(parse_brightness_output("x[y"), Some("x".to_string()));
}
