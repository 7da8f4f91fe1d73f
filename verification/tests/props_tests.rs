use workspace_opener::compile::create_wt_command;
use workspace_opener::config::{AppConfig, Settings};
use workspace_opener::menu::{PresetCreationHelper, State};
use workspace_opener::model::{Preset, PresetValue};
use workspace_opener::shell::{PresetInfo, PresetInfoValue, ShellType};
use workspace_opener::text::format_input;

fn preset_with(windows: Vec<u8>, args: Vec<&str>, info: PresetInfo) -> Preset {
    let tabs = windows.len() as u8;
    Preset::new(
        "P".to_string(),
        tabs,
        windows,
        args.into_iter().map(|s| s.to_string()).collect(),
        info,
    )
}

#[test]
fn compile_single_pane_default_config() {
    // tabs=1, windows=[1], args=["ls"], default shell config.
    let mut cfg = AppConfig::default();
    cfg.add_presets(vec![preset_with(vec![1], vec!["ls"], PresetInfo::default())]);
    let (program, arg) = create_wt_command("P", &cfg).unwrap();
    assert_eq!(program, "powershell.exe");
    assert_eq!(arg, "wt.exe powershell -NoExit -Command 'ls\\;'");
}

#[test]
fn compile_two_panes_escapes_split() {
    // windows=[2], args=["ls","pwd"], Windows PowerShell launcher and
    // target: the split-pane segment is escaped with a backtick.
    let info = PresetInfo::new(
        String::new(),
        ShellType::WindowsPowershell,
        ShellType::WindowsPowershell,
    );
    let mut cfg = AppConfig::default();
    cfg.add_presets(vec![preset_with(vec![2], vec!["ls", "pwd"], info)]);
    let (_, arg) = create_wt_command("P", &cfg).unwrap();
    assert!(arg.contains("`; sp"));
    assert_eq!(
        arg,
        "wt.exe powershell -NoExit -Command 'ls\\;'`; sp powershell -NoExit -Command 'pwd\\;'"
    );
}

#[test]
fn tab_shrink_drops_last_tabs_args() {
    // A tab-count edit from 3 to 2 on windows=[2,1,1] removes exactly the
    // last tab's one stored command and the last pane-count entry.
    let mut p = preset_with(
        vec![2, 1, 1],
        vec!["a", "b", "c", "d"],
        PresetInfo::default(),
    );
    p.change_field_value(PresetValue::Tabs(2)).unwrap();
    let target = preset_with(vec![2, 1], vec!["a", "b", "c"], PresetInfo::default());
    assert_eq!(p, target);
}

#[test]
fn tab_grow_then_shrink_restores() {
    let original = preset_with(vec![2, 1], vec!["a", "b", "c"], PresetInfo::default());
    let mut p = original.clone();
    p.change_field_value(PresetValue::Tabs(5)).unwrap();
    assert_eq!(p.windows, vec![2, 1, 1, 1, 1]);
    p.change_field_value(PresetValue::Tabs(2)).unwrap();
    assert_eq!(p, original);
}

#[test]
fn compile_is_deterministic_at_runtime() {
    let mut cfg = AppConfig::default();
    cfg.add_presets(vec![preset_with(
        vec![3, 2],
        vec!["a,b", "c", "d", "e", "f"],
        PresetInfo::new(String::from("Pf"), ShellType::Cmd, ShellType::Zsh),
    )]);
    let first = create_wt_command("P", &cfg).unwrap();
    let second = create_wt_command("P", &cfg).unwrap();
    assert_eq!(first, second);
}

#[test]
fn compile_method_uses_login_shells() {
    let info = PresetInfo::new(String::new(), ShellType::Cmd, ShellType::Bash);
    let mut cfg = AppConfig::default();
    cfg.add_presets(vec![preset_with(vec![1], vec!["ls"], info)]);
    let (program, arg) = cfg.create_wt_command("P").unwrap();
    assert_eq!(program, "cmd.exe");
    assert_eq!(arg, "wt.exe wsl ~ -e bash -l -i -c 'ls\\;exec bash\\;'");
}

#[test]
fn compile_splits_commands_on_commas() {
    let mut cfg = AppConfig::default();
    cfg.add_presets(vec![preset_with(
        vec![1],
        vec!["cd /tmp,ls"],
        PresetInfo::default(),
    )]);
    let (_, arg) = create_wt_command("P", &cfg).unwrap();
    assert_eq!(arg, "wt.exe powershell -NoExit -Command 'cd /tmp\\;ls\\;'");
}

#[test]
fn compile_missing_preset_fails() {
    let cfg = AppConfig::default();
    let err = create_wt_command("nothing", &cfg).unwrap_err();
    assert_eq!(
        err,
        "Cannot find the matching preset name while trying to run the config."
    );
}

#[test]
fn compile_refuses_malformed_preset() {
    // Five panes in one tab is outside the documented range.
    let cfg = AppConfig::new(
        vec![preset_with(vec![5], vec!["a", "b", "c", "d", "e"], PresetInfo::default())],
        Settings::default(),
    );
    assert!(create_wt_command("P", &cfg).is_err());
}

#[test]
fn change_field_value_rejects_zero_and_bad_index() {
    let mut p = Preset::default();
    let e = p.change_field_value(PresetValue::Tabs(0)).unwrap_err();
    assert_eq!(e, "Tabs cannot have a value of 0.");
    let e = p.change_field_value(PresetValue::Tabs(11)).unwrap_err();
    assert_eq!(e, "Tabs cannot have a value above 10.");
    let e = p.change_field_value(PresetValue::Windows(0, 0)).unwrap_err();
    assert_eq!(e, "Windows cannot have a value of 0.");
    let e = p.change_field_value(PresetValue::Windows(0, 5)).unwrap_err();
    assert_eq!(e, "Windows cannot have a value above 4.");
    let e = p.change_field_value(PresetValue::Windows(7, 2)).unwrap_err();
    assert_eq!(e, "Cannot find windows with current index.");
    let e = p
        .change_field_value(PresetValue::Args(99, "x".to_string()))
        .unwrap_err();
    assert_eq!(e, "Cannot find windows with current index.");
    assert_eq!(p, Preset::default());
}

#[test]
fn update_value_parses_and_bounds() {
    let mut pv = PresetValue::Tabs(1);
    let e = pv.update_value("abc").unwrap_err();
    assert_eq!(
        e,
        "PresetValue, update_value error parsing tabs: CANNOT PARSE GIVEN STRING."
    );
    let e = pv.update_value("11").unwrap_err();
    assert_eq!(
        e,
        "PresetValue, update_value error creating tabs: INVALID AMOUNT OF TABS"
    );
    let e = pv.update_value("0").unwrap_err();
    assert_eq!(
        e,
        "PresetValue, update_value error creating tabs: INVALID AMOUNT OF TABS"
    );
    pv.update_value("10").unwrap();
    assert_eq!(pv, PresetValue::Tabs(10));

    let mut pv = PresetValue::Windows(1, 1);
    let e = pv.update_value("x").unwrap_err();
    assert_eq!(
        e,
        "PresetValue update_value error parsing windows: CANNOT PARSE GIVEN STRING."
    );
    let e = pv.update_value("5").unwrap_err();
    assert_eq!(
        e,
        "PresetValue, update_value error creating windows: INVALID AMOUNT OF WINDOWS"
    );
    let e = pv.update_value("0").unwrap_err();
    assert_eq!(
        e,
        "PresetValue, update_value error creating windows: INVALID AMOUNT OF WINDOWS"
    );
    pv.update_value("4").unwrap();
    assert_eq!(pv, PresetValue::Windows(1, 4));
}

#[test]
fn update_value_shell_fields() {
    let mut pv = PresetValue::PresetInfo(PresetInfoValue::InitShell(ShellType::Cmd));
    let e = pv.update_value("bash").unwrap_err();
    assert_eq!(
        e,
        "PresetValue update_value error parsing PresetInfo: INIT SHELL MUST BE 'powershell' OR 'cmd' OR 'pwsh'."
    );
    pv.update_value("pwsh").unwrap();
    assert_eq!(
        pv,
        PresetValue::PresetInfo(PresetInfoValue::InitShell(ShellType::Powershell))
    );

    let mut pv = PresetValue::PresetInfo(PresetInfoValue::TargetShell(ShellType::Cmd));
    let e = pv.update_value("nope").unwrap_err();
    assert_eq!(e, "Incorrect shell name.");
    pv.update_value("fish").unwrap();
    assert_eq!(
        pv,
        PresetValue::PresetInfo(PresetInfoValue::TargetShell(ShellType::Fish))
    );
}

#[test]
fn shell_names_round_trip() {
    let shells = vec![
        (ShellType::WindowsPowershell, "powershell"),
        (ShellType::Powershell, "pwsh"),
        (ShellType::Cmd, "cmd"),
        (ShellType::Bash, "bash"),
        (ShellType::Zsh, "zsh"),
        (ShellType::Fish, "fish"),
    ];
    for (shell, name) in shells {
        assert_eq!(shell.as_string(), name);
        assert_eq!(ShellType::from_str(name).unwrap(), shell);
    }
    assert_eq!(
        ShellType::from_str("sh").unwrap_err(),
        "Incorrect shell name."
    );
}

#[test]
fn format_input_trims_and_strips_comma() {
    assert_eq!(format_input("  ls -la,  "), "ls -la");
    assert_eq!(format_input("pwd"), "pwd");
    assert_eq!(format_input("   "), "");
    assert_eq!(format_input("a,b,"), "a,b");
}

#[test]
fn settings_change_name() {
    let mut s = Settings::default();
    s.change_name(0, "true").unwrap();
    let e = s.change_name(0, "maybe").unwrap_err();
    assert_eq!(e, "Cannot change the setting name: EXPECTED 'true' or 'false'.");
    let e = s.change_name(1, "true").unwrap_err();
    assert_eq!(e, "Cannot change the setting name: INDEX OUT OF BOUNDS.");
    s.change_name(0, "false").unwrap();
    assert_eq!(s, Settings::default());
}

#[test]
fn checked_add_enforces_unique_nonempty_names() {
    let mut cfg = AppConfig::default();
    let mut unnamed = preset_with(vec![1], vec!["ls"], PresetInfo::default());
    unnamed.change_field_value(PresetValue::Name(String::new())).unwrap();
    let e = cfg.add_preset_checked(unnamed).unwrap_err();
    assert_eq!(e, "Cannot add preset: PRESET NAME IS EMPTY OR ALREADY TAKEN.");
    assert!(cfg.presets.is_empty());

    let first = preset_with(vec![1], vec!["ls"], PresetInfo::default());
    cfg.add_preset_checked(first.clone()).unwrap();
    assert_eq!(cfg.presets, vec![first]);

    let twin = preset_with(vec![1], vec!["pwd"], PresetInfo::default());
    let e = cfg.add_preset_checked(twin).unwrap_err();
    assert_eq!(e, "Cannot add preset: PRESET NAME IS EMPTY OR ALREADY TAKEN.");
    assert_eq!(cfg.presets.len(), 1);
}

#[test]
fn delete_missing_preset_fails() {
    let mut cfg = AppConfig::default();
    let e = cfg.delete_preset_by_name("ghost").unwrap_err();
    assert_eq!(
        e,
        "Cannot delete preset: PRESET WITH GIVEN NAME WAS NOT FOUND."
    );
}

#[test]
fn lookup_finds_first_match() {
    let mut cfg = AppConfig::default();
    let mut a = preset_with(vec![1], vec!["first"], PresetInfo::default());
    a.change_field_value(PresetValue::Name("A".to_string())).unwrap();
    let mut b = preset_with(vec![1], vec!["second"], PresetInfo::default());
    b.change_field_value(PresetValue::Name("A".to_string())).unwrap();
    cfg.add_presets(vec![a.clone(), b]);
    assert_eq!(cfg.get_preset_by_name("A"), Some(&a));
    assert!(cfg.get_preset_by_name("B").is_none());
    let found = cfg.get_mut_preset_by_name("A").unwrap();
    found
        .change_field_value(PresetValue::Args(0, "patched".to_string()))
        .unwrap();
    assert_eq!(cfg.presets[0].args[0], "patched");
    assert_eq!(cfg.presets[1].args[0], "second");
}

#[test]
fn creation_helper_prompts() {
    let mut pch = PresetCreationHelper::new();
    let prompts = pch.create_preset_value(1, "2").unwrap();
    assert_eq!(
        prompts,
        vec![
            "Enter windows amount (1-4) for tab number 1: ".to_string(),
            "Enter windows amount (1-4) for tab number 2: ".to_string(),
        ]
    );
    let prompts = pch.create_preset_value(2, "3").unwrap();
    assert_eq!(
        prompts,
        vec![
            "Enter arg 1 for window 1".to_string(),
            "Enter arg 2 for window 1".to_string(),
            "Enter arg 3 for window 1".to_string(),
        ]
    );
    assert!(pch.create_preset_value(1, "0").is_err());
    assert!(pch.create_preset_value(1, "11").is_err());
    assert!(pch.create_preset_value(2, "5").is_err());
    pch.reset();
    let prompts = pch.create_preset_value(5, "whatever").unwrap();
    assert!(prompts.is_empty());
}

#[test]
fn state_menus() {
    let items = State::Start.create_items(None).unwrap();
    assert_eq!(items.len(), 3);
    assert_eq!(items[0].name, "Choose Preset");
    assert_eq!(items[1].name, "Create Preset");
    assert_eq!(items[2].name, "Settings");

    let cfg = AppConfig::default();
    let items = State::Settings.create_items(Some(&cfg)).unwrap();
    assert_eq!(items.len(), 1);
    assert_eq!(items[0].name, "Debug mode: false");

    assert!(State::ChoosePreset.create_items(None).is_none());

    let prompts = State::CreatePreset.create_prompts().unwrap();
    assert_eq!(
        prompts,
        vec![
            "Enter preset name:".to_string(),
            "Enter tabs amount (1-10):".to_string(),
        ]
    );
    assert!(State::Start.create_prompts().is_none());
}
