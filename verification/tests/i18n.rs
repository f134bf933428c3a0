use cap_ime_switch::i18n::{lang_from_lcid, normalize_language, resolve_language, Lang};

#[test]
fn parse_recognizes_concrete_langs() {
    assert_eq!(Lang::parse("zh"), Some(Lang::Zh));
    assert_eq!(Lang::parse("en"), Some(Lang::En));
    assert_eq!(Lang::parse("ja"), Some(Lang::Ja));
    assert_eq!(Lang::parse("ko"), Some(Lang::Ko));
    assert_eq!(Lang::parse("fr"), Some(Lang::Fr));
    assert_eq!(Lang::parse("de"), Some(Lang::De));
    assert_eq!(Lang::parse("es"), Some(Lang::Es));
    assert_eq!(Lang::parse("ru"), Some(Lang::Ru));
}

#[test]
fn parse_rejects_auto_and_unknown() {
    assert_eq!(Lang::parse("auto"), None);
    assert_eq!(Lang::parse("zh-CN"), None);
    assert_eq!(Lang::parse("xx"), None);
    assert_eq!(Lang::parse(""), None);
}

#[test]
fn code_and_parse_roundtrip() {
    for lang in Lang::all() {
        assert_eq!(Lang::parse(lang.code()), Some(lang));
    }
}

#[test]
fn all_has_eight_languages() {
    assert_eq!(Lang::all().len(), 8);
    // language codes are pairwise distinct
    let codes: Vec<&str> = Lang::all().iter().map(|l| l.code()).collect();
    let mut uniq = codes.clone();
    uniq.sort_unstable();
    uniq.dedup();
    assert_eq!(uniq.len(), codes.len(), "language codes must not repeat");
}

#[test]
fn normalize_keeps_valid_and_falls_back() {
    assert_eq!(normalize_language("auto"), "auto");
    for lang in Lang::all() {
        assert_eq!(normalize_language(lang.code()), lang.code());
    }
    assert_eq!(normalize_language("pt"), "auto");
    assert_eq!(normalize_language(""), "auto");
}

#[test]
fn language_names_are_native_forms() {
    assert_eq!(Lang::Zh.display_name(), "简体中文");
    assert_eq!(Lang::En.display_name(), "English");
    assert_eq!(Lang::Ja.display_name(), "日本語");
    assert_eq!(Lang::Ko.display_name(), "한국어");
    assert_eq!(Lang::Fr.display_name(), "Français");
    assert_eq!(Lang::De.display_name(), "Deutsch");
    assert_eq!(Lang::Es.display_name(), "Español");
    assert_eq!(Lang::Ru.display_name(), "Русский");
    for lang in Lang::all() {
        assert!(!lang.display_name().is_empty(), "{lang:?} has an empty name");
    }
}

#[test]
fn all_languages_have_all_nonempty_strings() {
    for lang in Lang::all() {
        let s = lang.strings();
        for field in [
            s.menu_autostart,
            s.menu_options,
            s.menu_language,
            s.menu_exit,
            s.tray_tooltip,
            s.panel_title,
            s.label_autostart,
            s.label_delay,
            s.label_exclude,
            s.label_language,
            s.help_autostart,
            s.help_delay,
            s.help_exclude,
            s.version_template,
            s.save,
            s.err_instance_lock,
            s.err_already_running,
            s.err_register_class,
            s.err_register_options_class,
            s.err_create_tray_window,
            s.err_add_tray_icon,
            s.err_install_hook,
            s.err_create_options_window,
            s.err_toggle_autostart,
            s.err_delay_range,
            s.err_config_path,
            s.err_save_failed,
            s.err_save_autostart,
        ] {
            assert!(!field.is_empty(), "{lang:?} has an empty string");
        }
    }
}

#[test]
fn translated_ui_strings_differ_between_languages() {
    // Core texts must differ between any two languages: every table is wired up.
    for i in 0..Lang::all().len() {
        for j in (i + 1)..Lang::all().len() {
            let a = Lang::all()[i].strings();
            let b = Lang::all()[j].strings();
            assert_ne!(a.menu_exit, b.menu_exit, "{i}/{j} menu_exit equal");
            assert_ne!(a.tray_tooltip, b.tray_tooltip, "{i}/{j} tray_tooltip equal");
            assert_ne!(a.panel_title, b.panel_title, "{i}/{j} panel_title equal");
            assert_ne!(a.help_delay, b.help_delay, "{i}/{j} help_delay equal");
        }
    }
}

#[test]
fn lcid_maps_chinese_variants_to_zh() {
    // zh-CN / zh-TW / zh-HK / zh-SG / zh-MO all have primary language 0x04
    for lcid in [0x0804u16, 0x0404, 0x0C04, 0x1004, 0x1404] {
        assert_eq!(lang_from_lcid(lcid), Lang::Zh, "lcid=0x{lcid:04X}");
    }
}

#[test]
fn lcid_maps_english_variants_to_en() {
    // en-US / en-GB / en-CA / en-AU / en-NZ all have primary language 0x09
    for lcid in [0x0409u16, 0x0809, 0x1009, 0x0C09, 0x1409] {
        assert_eq!(lang_from_lcid(lcid), Lang::En, "lcid=0x{lcid:04X}");
    }
}

#[test]
fn unknown_lcid_falls_back_to_zh() {
    // languages without a table fall back to Chinese
    assert_eq!(lang_from_lcid(0x0416), Lang::Zh); // pt-BR
    assert_eq!(lang_from_lcid(0x0410), Lang::Zh); // it-IT
    assert_eq!(lang_from_lcid(0x0413), Lang::Zh); // nl-NL
    assert_eq!(lang_from_lcid(0x0000), Lang::Zh);
}

#[test]
fn lcid_maps_other_table_languages() {
    assert_eq!(lang_from_lcid(0x0411), Lang::Ja); // ja-JP
    assert_eq!(lang_from_lcid(0x0412), Lang::Ko); // ko-KR
    assert_eq!(lang_from_lcid(0x040C), Lang::Fr); // fr-FR
    assert_eq!(lang_from_lcid(0x0C0C), Lang::Fr); // fr-CA
    assert_eq!(lang_from_lcid(0x0407), Lang::De); // de-DE
    assert_eq!(lang_from_lcid(0x0807), Lang::De); // de-CH
    assert_eq!(lang_from_lcid(0x0C0A), Lang::Es); // es-ES
    assert_eq!(lang_from_lcid(0x080A), Lang::Es); // es-MX
    assert_eq!(lang_from_lcid(0x0419), Lang::Ru); // ru-RU
}

#[test]
fn auto_preference_follows_each_system_language() {
    assert_eq!(resolve_language("auto", 0x0411), Lang::Ja);
    assert_eq!(resolve_language("", 0x0419), Lang::Ru);
    assert_eq!(resolve_language("auto", 0x0416), Lang::Zh);
}

#[test]
fn explicit_language_preference_wins_over_system() {
    assert_eq!(resolve_language("ja", 0x0409), Lang::Ja);
    assert_eq!(resolve_language("ru", 0x0804), Lang::Ru);
    assert_eq!(resolve_language("auto", 0x0409), Lang::En);
    assert_eq!(resolve_language("auto", 0x0804), Lang::Zh);
    assert_eq!(resolve_language("pt", 0x0409), Lang::En);
}

#[test]
fn codes_are_the_stored_values() {
    let codes: Vec<&str> = Lang::all().iter().map(|l| l.code()).collect();
    assert_eq!(codes, vec!["zh", "en", "ja", "ko", "fr", "de", "es", "ru"]);
    assert_eq!(Lang::En.strings().menu_exit, "Exit");
    assert_eq!(Lang::Zh.strings().save, "保存");
    assert_eq!(Lang::De.strings().version_template, "Version {}");
}

#[test]
fn names_and_codes_are_distinct() {
    let all = Lang::all();
    for i in 0..all.len() {
        for j in 0..all.len() {
            if i != j {
                assert_ne!(all[i].display_name(), all[j].display_name());
                assert_ne!(all[i].code(), all[j].code());
            }
        }
    }
}

#[test]
fn index_is_position_in_all() {
    for (i, lang) in Lang::all().iter().enumerate() {
        assert_eq!(lang.index(), i);
    }
    assert_eq!(Lang::Ru.index(), 7);
}
