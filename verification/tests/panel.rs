use cap_ime_switch::panel::{panel_command, row_layout, PanelCommand, ID_OPT_SAVE};
use cap_ime_switch::i18n::Lang;
use cap_ime_switch::panel::{
    autostart_change, delay_text, exclude_text, help_click, help_hides_on_leave, help_text,
    lang_at, options_from_panel, parse_long_press_ms, AutostartChange, ID_OPT_HELP_AUTOSTART,
    ID_OPT_HELP_DELAY, ID_OPT_HELP_EXCLUDE,
};
use cap_ime_switch::config::parse_exclude_list;

#[test]
fn parse_long_press_ms_validation() {
    // valid: in range, surrounding white space tolerated
    assert_eq!(parse_long_press_ms("500"), Some(500));
    assert_eq!(parse_long_press_ms(" 500 "), Some(500));
    assert_eq!(parse_long_press_ms("100"), Some(100), "lower bound");
    assert_eq!(parse_long_press_ms("5000"), Some(5000), "upper bound");
    // invalid: out of range / not a number / empty / negative / fraction
    assert_eq!(parse_long_press_ms("99"), None, "below the lower bound");
    assert_eq!(parse_long_press_ms("5001"), None, "above the upper bound");
    assert_eq!(parse_long_press_ms(""), None);
    assert_eq!(parse_long_press_ms("abc"), None);
    assert_eq!(parse_long_press_ms("-1"), None);
    assert_eq!(parse_long_press_ms("0"), None);
    assert_eq!(parse_long_press_ms("500.5"), None);
}

#[test]
fn parse_long_press_ms_follows_integer_syntax() {
    assert_eq!(parse_long_press_ms("+800"), Some(800));
    assert_eq!(parse_long_press_ms("0800"), Some(800));
    assert_eq!(parse_long_press_ms("+"), None);
    assert_eq!(parse_long_press_ms("++800"), None);
    assert_eq!(parse_long_press_ms("8 00"), None);
    assert_eq!(parse_long_press_ms("99999999999999999999"), None);
    assert_eq!(parse_long_press_ms("4294967296"), None);
    assert_eq!(parse_long_press_ms("\u{3000}1200\t\n"), Some(1200));
    assert_eq!(parse_long_press_ms("１２００"), None, "full-width digits are not digits");
}

#[test]
fn delay_text_reads_back() {
    assert_eq!(delay_text(0), "0");
    assert_eq!(delay_text(500), "500");
    assert_eq!(delay_text(4294967295), "4294967295");
    for ms in [100u32, 101, 999, 1000, 2500, 5000] {
        assert_eq!(parse_long_press_ms(&delay_text(ms)), Some(ms));
    }
}

#[test]
fn exclude_text_reads_back() {
    let list = vec!["notepad.exe".to_string(), "Code.EXE".to_string()];
    let text = exclude_text(&list);
    assert_eq!(text, "notepad.exe\r\nCode.EXE");
    assert_eq!(parse_exclude_list(&text), vec!["notepad.exe", "code.exe"]);
    assert_eq!(exclude_text(&Vec::new()), "");
}

#[test]
fn options_from_panel_builds_config() {
    let cfg = options_from_panel(" 800 ", "A.exe\r\nb.exe", 2, false).expect("valid delay");
    assert_eq!(cfg.long_press_ms, 800);
    assert!(!cfg.run_as_admin);
    assert_eq!(cfg.exclude_processes, vec!["a.exe", "b.exe"]);
    assert_eq!(cfg.language, "ja");
    assert!(options_from_panel("50", "", 0, false).is_none());
    assert!(options_from_panel("abc", "x.exe", 1, true).is_none());
    let none_selected = options_from_panel("500", "", usize::MAX, true).unwrap();
    assert_eq!(none_selected.language, "zh");
    assert!(none_selected.run_as_admin);
}

#[test]
fn lang_at_follows_menu_order() {
    assert_eq!(lang_at(0), Lang::Zh);
    assert_eq!(lang_at(7), Lang::Ru);
    assert_eq!(lang_at(8), Lang::Zh);
}

#[test]
fn autostart_change_only_when_needed() {
    assert_eq!(autostart_change(true, true), AutostartChange::Keep);
    assert_eq!(autostart_change(false, false), AutostartChange::Keep);
    assert_eq!(autostart_change(true, false), AutostartChange::Enable);
    assert_eq!(autostart_change(false, true), AutostartChange::Disable);
}

#[test]
fn help_marks_pin_and_unpin() {
    assert_eq!(help_click(None, ID_OPT_HELP_DELAY), (Some(ID_OPT_HELP_DELAY), true));
    assert_eq!(help_click(Some(ID_OPT_HELP_DELAY), ID_OPT_HELP_DELAY), (None, false));
    assert_eq!(
        help_click(Some(ID_OPT_HELP_DELAY), ID_OPT_HELP_EXCLUDE),
        (Some(ID_OPT_HELP_EXCLUDE), true)
    );
    assert!(!help_hides_on_leave(Some(ID_OPT_HELP_DELAY), ID_OPT_HELP_DELAY));
    assert!(help_hides_on_leave(Some(ID_OPT_HELP_DELAY), ID_OPT_HELP_AUTOSTART));
    assert!(help_hides_on_leave(None, ID_OPT_HELP_AUTOSTART));
}

#[test]
fn help_text_per_mark() {
    let s = Lang::En.strings();
    assert_eq!(help_text(s, ID_OPT_HELP_AUTOSTART), Some(s.help_autostart));
    assert_eq!(help_text(s, ID_OPT_HELP_DELAY), Some(s.help_delay));
    assert_eq!(help_text(s, ID_OPT_HELP_EXCLUDE), Some(s.help_exclude));
    assert_eq!(help_text(s, 2011), None);
}

#[test]
fn panel_commands_from_messages() {
    assert_eq!(panel_command(ID_OPT_SAVE), PanelCommand::Save);
    assert_eq!(panel_command(ID_OPT_HELP_DELAY), PanelCommand::HelpClick(ID_OPT_HELP_DELAY));
    assert_eq!(panel_command((1 << 16) | ID_OPT_SAVE), PanelCommand::Ignore, "not a click");
    assert_eq!(panel_command(2001), PanelCommand::Ignore);
    assert_eq!(panel_command((5 << 32) | ID_OPT_SAVE), PanelCommand::Save, "upper bits ignored");
}

#[test]
fn row_layout_columns() {
    let l = row_layout(90, 424);
    assert_eq!((l.label_w, l.label_x, l.help_x, l.input_x, l.input_w), (90, 38, 132, 160, 248));
    let fallback = row_layout(0, 424);
    assert_eq!(fallback.label_w, 130);
    assert_eq!(fallback.input_x, 38 + 130 + 4 + 28);
}
