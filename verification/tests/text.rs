use cap_ime_switch::template::tpl;
use cap_ime_switch::tray::{
    lang_menu_id, opens_tray_menu, tray_command, TrayCommand, ID_MENU_AUTOSTART, ID_MENU_EXIT,
    ID_MENU_OPTIONS,
};
use cap_ime_switch::i18n::Lang;
use cap_ime_switch::utf16::{set_utf16, to_utf16};

#[test]
fn tpl_fills_placeholders_in_order() {
    assert_eq!(tpl("Please enter a value between {} and {} ms", &["100".to_string(), "5000".to_string()]),
        "Please enter a value between 100 and 5000 ms");
    assert_eq!(tpl("版本 {}", &["0.5.0".to_string()]), "版本 0.5.0");
    assert_eq!(tpl("no placeholder", &["x".to_string()]), "no placeholder");
    assert_eq!(tpl("{} {}", &["a".to_string()]), "a {}");
    assert_eq!(tpl("{{}}", &["x".to_string()]), "{x}");
    // the template's own placeholders are filled; argument text is not rescanned
    assert_eq!(tpl("{}!", &["{}".to_string(), "y".to_string()]), "{}!");
    assert_eq!(tpl("{} {}", &["{}".to_string(), "x".to_string()]), "{} x");
    assert_eq!(tpl("{}", &[]), "{}");
    assert_eq!(tpl("", &["x".to_string()]), "");
}

#[test]
fn utf16_encoding_with_terminator() {
    assert_eq!(to_utf16("A"), vec![0x41, 0]);
    assert_eq!(to_utf16(""), vec![0]);
    assert_eq!(to_utf16("中"), vec![0x4E2D, 0]);
    assert_eq!(to_utf16("😀"), vec![0xD83D, 0xDE00, 0]);
    let s = "CapIMESwitch - 切换 😀";
    let mut expected: Vec<u16> = s.encode_utf16().collect();
    expected.push(0);
    assert_eq!(to_utf16(s), expected);
}

#[test]
fn set_utf16_copies_what_fits() {
    let mut buf = [0u16; 4];
    set_utf16(&mut buf, "ab");
    assert_eq!(buf, [0x61, 0x62, 0, 0]);
    let mut small = [7u16; 3];
    set_utf16(&mut small, "abcdef");
    assert_eq!(small, [0x61, 0x62, 0]);
    let mut exact = [5u16; 2];
    set_utf16(&mut exact, "ab");
    assert_eq!(exact, [0x61, 0]);
    let mut keep = [9u16; 3];
    set_utf16(&mut keep, "");
    assert_eq!(keep, [0, 9, 9]);
    let mut tail = [8u16; 5];
    set_utf16(&mut tail, "a");
    assert_eq!(tail, [0x61, 0, 8, 8, 8]);
    let mut empty: [u16; 0] = [];
    set_utf16(&mut empty, "abc");
    assert_eq!(empty, []);
}

#[test]
fn tray_commands_by_item() {
    assert_eq!(tray_command(ID_MENU_AUTOSTART), TrayCommand::ToggleAutostart);
    assert_eq!(tray_command(ID_MENU_OPTIONS), TrayCommand::OpenOptions);
    assert_eq!(tray_command(ID_MENU_EXIT), TrayCommand::Exit);
    assert_eq!(tray_command(0), TrayCommand::Dismissed);
    assert_eq!(tray_command(1012), TrayCommand::Dismissed);
    for (i, lang) in Lang::all().iter().enumerate() {
        let id = lang_menu_id(i);
        assert_eq!(id, 1004 + i);
        assert_eq!(tray_command(id), TrayCommand::SetLanguage(*lang));
    }
}

#[test]
fn tray_menu_opens_on_clicks_only() {
    assert!(opens_tray_menu(0x0205));
    assert!(opens_tray_menu(0x0202));
    assert!(opens_tray_menu(0x007B));
    assert!(opens_tray_menu(0x0001_0205));
    assert!(!opens_tray_menu(0x0200));
    assert!(!opens_tray_menu(0));
}
