use cap_ime_switch::config::{
    default_language, default_long_press_ms, eq_ignore_ascii_case, is_excluded,
    parse_exclude_list, Config, DEFAULT_LANGUAGE, DEFAULT_LONG_PRESS_MS, MAX_LONG_PRESS_MS,
    MIN_LONG_PRESS_MS,
};

#[test]
fn parse_exclude_list_splits_and_normalizes() {
    let list = parse_exclude_list(" Notepad.exe , CODE.EXE,  , notepad.exe\nvscode.exe");
    assert_eq!(
        list,
        vec![
            "notepad.exe",
            "code.exe",
            "notepad.exe",
            "vscode.exe"
        ]
    );
}

#[test]
fn parse_exclude_list_supports_fullwidth_comma_and_blank() {
    let list = parse_exclude_list("wechat.exe，qq.exe");
    assert_eq!(list, vec!["wechat.exe", "qq.exe"]);
    assert!(parse_exclude_list(" , ，\n ").is_empty());
    assert!(parse_exclude_list("").is_empty());
}

#[test]
fn is_excluded_matches_case_insensitively() {
    assert!(is_excluded("NotePad.EXE", &["notepad.exe".to_string()]));
    assert!(is_excluded("notepad.exe", &["NOTEPAD.EXE".to_string()]));
}

#[test]
fn is_excluded_rejects_partial_matches_and_empty_list() {
    assert!(!is_excluded("notepad2.exe", &["notepad.exe".to_string()]));
    assert!(!is_excluded("notepad.exe", &[]));
}

#[test]
fn sanitized_normalizes_exclude_list() {
    let cfg = Config {
        long_press_ms: 500,
        exclude_processes: vec![" Notepad.EXE ".to_string()],
        language: "auto".to_string(),
        run_as_admin: false,
    };
    let cfg = cfg.sanitized();
    assert_eq!(cfg.exclude_processes, vec!["notepad.exe".to_string()]);
    assert_eq!(cfg.long_press_ms, 500);
    assert_eq!(cfg.language, "auto");
}

#[test]
fn sanitized_normalizes_invalid_language() {
    let cfg = Config {
        long_press_ms: 500,
        exclude_processes: Vec::new(),
        language: "pt".to_string(),
        run_as_admin: false,
    };
    assert_eq!(cfg.sanitized().language, "auto");
}

#[test]
fn sanitized_keeps_supported_languages() {
    for code in ["zh", "en", "ja", "ko", "fr", "de", "es", "ru", "auto"] {
        let cfg = Config {
            long_press_ms: 800,
            exclude_processes: Vec::new(),
            language: code.to_string(),
            run_as_admin: false,
        };
        assert_eq!(cfg.sanitized().language, code);
    }
}

#[test]
fn sanitized_resets_out_of_range_threshold() {
    for (given, expected) in [(99999u32, 500u32), (50, 500), (99, 500), (100, 100), (5000, 5000), (5001, 500), (0, 500), (600, 600)] {
        let cfg = Config {
            long_press_ms: given,
            exclude_processes: Vec::new(),
            language: "auto".to_string(),
            run_as_admin: false,
        };
        assert_eq!(cfg.sanitized().long_press_ms, expected, "given {given}");
    }
}

#[test]
fn sanitized_splits_entries_holding_separators() {
    let cfg = Config {
        long_press_ms: 500,
        exclude_processes: vec!["A.exe,B.EXE".to_string(), "  ".to_string(), "c.exe\r\n".to_string()],
        language: "zh".to_string(),
        run_as_admin: false,
    };
    let cfg = cfg.sanitized();
    assert_eq!(cfg.exclude_processes, vec!["a.exe", "b.exe", "c.exe"]);
}

#[test]
fn sanitized_is_stable_on_normal_values() {
    let cfg = Config {
        long_press_ms: 800,
        exclude_processes: vec!["a.exe".to_string(), "b.exe".to_string()],
        language: "en".to_string(),
        run_as_admin: false,
    };
    let once = cfg.clone().sanitized();
    assert_eq!(once, cfg);
    assert_eq!(once.clone().sanitized(), once);
}

#[test]
fn default_config_values() {
    let cfg = Config::default();
    assert_eq!(cfg.long_press_ms, 500);
    assert!(cfg.exclude_processes.is_empty());
    assert_eq!(cfg.language, "auto");
    assert!(!cfg.run_as_admin);
    assert_eq!(default_long_press_ms(), DEFAULT_LONG_PRESS_MS);
    assert_eq!(default_language(), DEFAULT_LANGUAGE);
    assert_eq!((MIN_LONG_PRESS_MS, MAX_LONG_PRESS_MS), (100, 5000));
}

#[test]
fn from_parsed_falls_back_to_defaults() {
    assert_eq!(Config::from_parsed(None), Config::default());
    let bad = Config {
        long_press_ms: 99999,
        exclude_processes: Vec::new(),
        language: "auto".to_string(),
        run_as_admin: false,
    };
    assert_eq!(Config::from_parsed(Some(bad)), Config::default());
    let good = Config {
        long_press_ms: 800,
        exclude_processes: vec!["a.exe".to_string(), "b.exe".to_string()],
        language: "en".to_string(),
        run_as_admin: false,
    };
    assert_eq!(Config::from_parsed(Some(good.clone())), good);
}

#[test]
fn parse_exclude_list_trims_unicode_white_space_and_lowercases() {
    let list = parse_exclude_list("\u{3000}ÄPP.EXE\u{A0}\r\n\tTool.Exe ");
    assert_eq!(list, vec!["äpp.exe", "tool.exe"]);
}

#[test]
fn eq_ignore_ascii_case_only_folds_ascii() {
    assert!(eq_ignore_ascii_case("ABC.exe", "abc.EXE"));
    assert!(!eq_ignore_ascii_case("Ä.exe", "ä.exe"));
    assert!(!eq_ignore_ascii_case("a", "ab"));
    assert!(eq_ignore_ascii_case("", ""));
}

#[test]
fn run_as_admin_survives_normalisation() {
    let cfg = Config {
        long_press_ms: 99999,
        exclude_processes: Vec::new(),
        language: "pt".to_string(),
        run_as_admin: true,
    };
    let once = cfg.sanitized();
    assert!(once.run_as_admin);
    assert_eq!(once.long_press_ms, 500);
    assert!(Config::from_parsed(Some(once)).run_as_admin);
    assert!(!Config::from_parsed(None).run_as_admin);
}
