use cap_ime_switch::config::Config;
use cap_ime_switch::elevation::{
    autostart_item_enabled, autostart_shown, create_drop_task_args, create_elevated_task_args,
    delete_task_args, elevation_declined, has_restart_flag, keep_waiting_for_lock, run_task_args,
    save_plan, startup_plan, Relaunch, SavePlan, TaskChange, DROP_TASK, ELEVATED_TASK,
    RESTART_FLAG, RESTART_WAIT_MS,
};
use cap_ime_switch::i18n::Lang;
use cap_ime_switch::panel::{
    autostart_box, help_text, panel_command, AutostartChange, PanelCommand, ID_OPT_CHECK_ADMIN,
    ID_OPT_HELP_ADMIN,
};
use cap_ime_switch::process::exe_name_from_image_path;
use cap_ime_switch::text::is_white_space;
use cap_ime_switch::utf16::{decode_utf16_lossy, reg_sz_bytes, reg_sz_text, to_utf16, units_to_le_bytes};
use cap_ime_switch::hook::key_events;
use cap_ime_switch::caps::Action;

fn units(s: &str) -> Vec<u16> {
    s.encode_utf16().collect()
}

#[test]
fn saving_with_option_on_while_elevated_swaps_run_key_for_task() {
    assert_eq!(
        save_plan(true, false, true, false, true),
        SavePlan { run_key: AutostartChange::Disable, task: TaskChange::Ensure, relaunch: Relaunch::Stay }
    );
    assert_eq!(
        save_plan(true, true, true, true, false),
        SavePlan { run_key: AutostartChange::Keep, task: TaskChange::Ensure, relaunch: Relaunch::Stay }
    );
}

#[test]
fn saving_with_option_on_without_rights_relaunches_elevated() {
    assert_eq!(
        save_plan(true, false, false, true, true),
        SavePlan { run_key: AutostartChange::Keep, task: TaskChange::Keep, relaunch: Relaunch::Elevated }
    );
}

#[test]
fn turning_option_off_removes_task_and_drops_rights() {
    assert_eq!(
        save_plan(false, true, true, true, false),
        SavePlan { run_key: AutostartChange::Enable, task: TaskChange::Remove, relaunch: Relaunch::Normal }
    );
    assert_eq!(
        save_plan(false, true, false, false, false),
        SavePlan { run_key: AutostartChange::Keep, task: TaskChange::Remove, relaunch: Relaunch::Stay }
    );
}

#[test]
fn option_off_only_follows_the_autostart_box() {
    assert_eq!(
        save_plan(false, false, false, true, false),
        SavePlan { run_key: AutostartChange::Enable, task: TaskChange::Keep, relaunch: Relaunch::Stay }
    );
    assert_eq!(
        save_plan(false, false, true, false, true),
        SavePlan { run_key: AutostartChange::Disable, task: TaskChange::Keep, relaunch: Relaunch::Stay }
    );
}

#[test]
fn startup_sets_up_task_only_when_elevated_with_option() {
    assert_eq!(startup_plan(true, true, true), (TaskChange::Ensure, AutostartChange::Disable));
    assert_eq!(startup_plan(true, true, false), (TaskChange::Ensure, AutostartChange::Keep));
    assert_eq!(startup_plan(true, false, true), (TaskChange::Keep, AutostartChange::Keep));
    assert_eq!(startup_plan(false, true, true), (TaskChange::Keep, AutostartChange::Keep));
}

#[test]
fn tray_and_panel_follow_the_option() {
    assert!(autostart_shown(true, false));
    assert!(!autostart_shown(false, false));
    assert!(autostart_shown(false, true));
    assert!(!autostart_item_enabled(true));
    assert!(autostart_item_enabled(false));
    assert_eq!(autostart_box(true, false), (true, false));
    assert_eq!(autostart_box(false, false), (false, true));
    assert_eq!(autostart_box(false, true), (true, true));
    assert_eq!(panel_command(ID_OPT_CHECK_ADMIN), PanelCommand::AdminClick);
    assert_eq!(panel_command(ID_OPT_HELP_ADMIN), PanelCommand::HelpClick(ID_OPT_HELP_ADMIN));
    let s = Lang::En.strings();
    assert_eq!(help_text(s, ID_OPT_HELP_ADMIN), Some(s.help_run_as_admin));
    assert_eq!(
        s.help_run_as_admin,
        "Auto-start at login as administrator, so CapsLock keeps working in elevated windows too"
    );
    assert_eq!(Lang::Zh.strings().label_run_as_admin, "以管理员身份启动");
    for lang in Lang::all() {
        let t = lang.strings();
        for field in [
            t.label_run_as_admin,
            t.help_run_as_admin,
            t.msg_elevation_cancelled,
            t.err_drop_elevation,
            t.err_elevated_autostart,
        ] {
            assert!(!field.is_empty(), "{lang:?}");
        }
    }
}

#[test]
fn relaunched_instance_waits_for_lock_for_a_while() {
    assert_eq!(RESTART_WAIT_MS, 15000);
    assert!(keep_waiting_for_lock(true, 0));
    assert!(keep_waiting_for_lock(true, 14999));
    assert!(!keep_waiting_for_lock(true, 15000));
    assert!(!keep_waiting_for_lock(false, 0));
    assert_eq!(RESTART_FLAG, "--restart");
    assert!(has_restart_flag(&["app.exe".to_string(), "--restart".to_string()]));
    assert!(!has_restart_flag(&["app.exe".to_string(), "--restarts".to_string()]));
    assert!(!has_restart_flag(&[]));
}

#[test]
fn schtasks_arguments() {
    assert_eq!(ELEVATED_TASK, "CapIMESwitchElevated");
    assert_eq!(DROP_TASK, "CapIMESwitchDeElevateTemp");
    assert_eq!(
        create_elevated_task_args(r"C:\Program Files\CapIMESwitch\CapIMESwitch.exe"),
        r#"/Create /TN CapIMESwitchElevated /TR "\"C:\Program Files\CapIMESwitch\CapIMESwitch.exe\"" /SC ONLOGON /RL HIGHEST /F"#
    );
    assert_eq!(
        create_drop_task_args(r"C:\a.exe"),
        r#"/Create /TN CapIMESwitchDeElevateTemp /TR "\"C:\a.exe\" --restart" /SC ONCE /ST 00:00 /RL LIMITED /F"#
    );
    assert_eq!(run_task_args(DROP_TASK), "/Run /TN CapIMESwitchDeElevateTemp");
    assert_eq!(delete_task_args(ELEVATED_TASK), "/Delete /TN CapIMESwitchElevated /F");
}

#[test]
fn declined_elevation_turns_option_off() {
    let cfg = Config {
        long_press_ms: 700,
        exclude_processes: vec!["a.exe".to_string()],
        language: "de".to_string(),
        run_as_admin: true,
    };
    let back = elevation_declined(cfg.clone());
    assert!(!back.run_as_admin);
    assert_eq!(back, Config { run_as_admin: false, ..cfg });
}

#[test]
fn lossy_decoding_matches_std() {
    let samples: Vec<Vec<u16>> = vec![
        units("CapIMESwitch - 切换 😀"),
        vec![0xD800],
        vec![0xDC00, 0x41],
        vec![0xD83D, 0x41, 0xDE00],
        vec![0xD83D, 0xDE00, 0xD83D],
        vec![],
    ];
    for u in samples {
        assert_eq!(decode_utf16_lossy(&u), String::from_utf16_lossy(&u), "{u:?}");
    }
    assert_eq!(decode_utf16_lossy(&[0xD800, 0x62]), "\u{FFFD}b");
}

#[test]
fn registry_string_value_reads_back_what_was_written() {
    for s in ["", "\"C:\\Tools\\CapIMESwitch.exe\"", "中文 😀"] {
        let bytes: Vec<u8> = to_utf16(s).iter().flat_map(|u| u.to_le_bytes()).collect();
        assert_eq!(reg_sz_bytes(s), bytes);
        assert_eq!(reg_sz_text(&reg_sz_bytes(s)), s);
    }
    assert_eq!(reg_sz_text(&[0x61, 0x00, 0x62, 0x00, 0x00, 0x00, 0x00, 0x00]), "ab");
    assert_eq!(reg_sz_text(&[0x61, 0x00, 0x62]), "a");
    assert_eq!(reg_sz_text(&[0x00, 0xD8, 0x63, 0x00]), "\u{FFFD}c");
    assert_eq!(reg_sz_text(&[]), "");
}

#[test]
fn exe_name_of_image_paths() {
    let name = |s: &str| exe_name_from_image_path(&units(s));
    assert_eq!(name(r"C:\Windows\System32\NOTEPAD.EXE").as_deref(), Some("notepad.exe"));
    assert_eq!(name("C:/Tools/Code.exe").as_deref(), Some("code.exe"));
    assert_eq!(name(r"C:\Tools\App.exe\").as_deref(), Some("app.exe"));
    assert_eq!(name(r"C:\Tools\App.exe\.").as_deref(), Some("app.exe"));
    assert_eq!(name("Ünïcode.EXE").as_deref(), Some("ünïcode.exe"));
    assert_eq!(name(r"C:\Tools\.."), None);
    assert_eq!(name(r"\"), None);
    assert_eq!(name(""), None);
    assert_eq!(name("."), None);
}

#[test]
fn white_space_matches_std() {
    for v in 0u32..=0x3100 {
        if let Some(c) = char::from_u32(v) {
            assert_eq!(is_white_space(c), c.is_whitespace(), "U+{v:04X}");
        }
    }
    assert!(!is_white_space('\u{10FFFF}'));
}

#[test]
fn exe_name_skips_windows_prefixes() {
    let name = |s: &str| exe_name_from_image_path(&units(s));
    // a drive prefix is no name
    assert_eq!(name("C:"), None);
    assert_eq!(name(r"C:\"), None);
    assert_eq!(name("C:Foo.EXE").as_deref(), Some("foo.exe"));
    assert_eq!(name("C:."), None);
    // a UNC prefix needs a server and a share
    assert_eq!(name(r"\\server\share"), None);
    assert_eq!(name(r"\\server\share\"), None);
    assert_eq!(name(r"\\server\share\Tool.exe").as_deref(), Some("tool.exe"));
    assert_eq!(name("//server/share/Tool.exe").as_deref(), Some("tool.exe"));
    assert_eq!(name(r"\\server").as_deref(), Some("server"));
    // verbatim paths: only `\` separates, `.` is a component
    assert_eq!(name(r"\\?\C:\Apps\Y.EXE").as_deref(), Some("y.exe"));
    assert_eq!(name(r"\\?\C:"), None);
    assert_eq!(name(r"\\?\C:\a\."), None);
    assert_eq!(name(r"\\?\C:\a/b.exe").as_deref(), Some("a/b.exe"));
    assert_eq!(name(r"\\?\UNC\srv\sh"), None);
    assert_eq!(name(r"\\?\UNC\srv\sh\X.exe").as_deref(), Some("x.exe"));
    assert_eq!(name(r"\\?\pipe"), None);
    // device paths
    assert_eq!(name(r"\\.\COM1"), None);
    assert_eq!(name(r"\\.\HarddiskVolume3\Windows\App.exe").as_deref(), Some("app.exe"));
}

#[test]
fn units_become_little_endian_bytes() {
    assert_eq!(units_to_le_bytes(&[0x0041, 0x4E2D, 0xFFFF]), vec![0x41, 0x00, 0x2D, 0x4E, 0xFF, 0xFF]);
    assert_eq!(units_to_le_bytes(&[]), Vec::<u8>::new());
    assert_eq!(reg_sz_bytes("ab"), vec![0x61, 0, 0x62, 0, 0, 0]);
    assert_eq!(reg_sz_text(&reg_sz_bytes("second")), "second");
}

#[test]
fn actions_become_key_events() {
    assert_eq!(key_events(Action::SwitchIme), vec![(0x5B, false), (0x20, false), (0x20, true), (0x5B, true)]);
    assert_eq!(key_events(Action::ToggleCapsLock), vec![(0x14, false), (0x14, true)]);
    assert!(key_events(Action::Nothing).is_empty());
}
