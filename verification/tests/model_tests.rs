use workspace_opener::config::{AppConfig, Settings};
use workspace_opener::menu::{Item, State};
use workspace_opener::model::{Preset, PresetValue};
use workspace_opener::shell::{PresetInfo, PresetInfoValue, ShellType};

#[test]
fn tests_preset_creation_basic() {
    let target = Preset::new(
        String::from("Test Preset"),
        3,
        vec![2, 1, 1],
        vec![
            String::from("arg w1"),
            String::from("arg w1"),
            String::from("arg w2"),
            String::from("arg w3"),
        ],
        PresetInfo::default(),
    );

    let mut input: Vec<String> = vec![];
    input.push(String::from("Test Preset"));
    input.push(String::from("3"));
    input.push(String::from("2"));
    input.push(String::from("1"));
    input.push(String::from("1"));
    input.push(String::from("arg w1"));
    input.push(String::from("arg w1"));
    input.push(String::from("arg w2"));
    input.push(String::from("arg w3"));

    let from_input = Preset::from_input(&input);

    assert_eq!(target, from_input);
}

#[test]
fn tests_preset_creation_large() {
    let mut args = vec![
        String::from("arg w1"),
        String::from("arg w1"),
        String::from("arg w2"),
        String::from("arg w3"),
    ];

    for n in 0..20 {
        args.push(format!("arg w4: {}", n))
    }
    let target = Preset::new(
        String::from("Test Preset"),
        4,
        vec![2, 1, 1, 20],
        args,
        PresetInfo::default(),
    );

    let mut input: Vec<String> = vec![];
    input.push(String::from("Test Preset"));
    input.push(String::from("4"));
    input.push(String::from("2"));
    input.push(String::from("1"));
    input.push(String::from("1"));
    input.push(String::from("20"));
    input.push(String::from("arg w1"));
    input.push(String::from("arg w1"));
    input.push(String::from("arg w2"));
    input.push(String::from("arg w3"));

    for n in 0..20 {
        input.push(format!("arg w4: {}", n))
    }

    let from_input = Preset::from_input(&input);

    assert_eq!(target, from_input);
}

#[test]
fn tests_preset_deletion() {
    let preset = Preset::new(
        String::from("Test Preset"),
        3,
        vec![2, 1, 1],
        vec![
            String::from("arg w1"),
            String::from("arg w1"),
            String::from("arg w2"),
            String::from("arg w3"),
        ],
        PresetInfo::new(
            "Ubuntu".to_string(),
            ShellType::Powershell,
            ShellType::Zsh,
        ),
    );

    let settings = Settings::default();

    let mut app_config = AppConfig::new(vec![preset], settings.clone());

    let target = AppConfig::new(vec![], settings);

    let items = vec![String::from("Test Preset")];

    if let Err(err) = app_config.delete_preset_by_name(items.get(0).unwrap()) {
        panic!("{}", err);
    };

    assert_eq!(target, app_config);
}

#[test]
fn tests_test_into_items() {
    let preset = Preset::new(
        String::from("Test Preset"),
        3,
        vec![2, 1, 1],
        vec![
            String::from("arg w1"),
            String::from("arg w1"),
            String::from("arg w2"),
            String::from("arg w3"),
        ],
        PresetInfo::default(),
    );

    let items = preset.into_items();
    let mut target = vec![];

    let name = Item::new(
        format!("Name: {}", "Test Preset"),
        State::ChangeFieldName,
        Some(PresetValue::Name("Test Preset".to_string())),
    );

    target.push(name);

    let tabs = Item::new(
        format!("Tabs: {}", "3".to_string()),
        State::ChangeFieldName,
        Some(PresetValue::Tabs(3)),
    );
    target.push(tabs);

    let window = Item::new(
        format!("Tab (#{}), windows: {}", 1, 2),
        State::ChangeFieldName,
        Some(PresetValue::Windows(0, 2)),
    );

    target.push(window);

    let window = Item::new(
        format!("Tab (#{}), windows: {}", 2, 1),
        State::ChangeFieldName,
        Some(PresetValue::Windows(1, 1)),
    );

    target.push(window);

    let window = Item::new(
        format!("Tab (#{}), windows: {}", 3, 1),
        State::ChangeFieldName,
        Some(PresetValue::Windows(2, 1)),
    );

    target.push(window);

    let arg = Item::new(
        format!("Tab (#{}), window (#{}), Arg: {}", 1, 1, "arg w1"),
        State::ChangeFieldName,
        Some(PresetValue::Args(0, "arg w1".to_string())),
    );
    target.push(arg);

    let arg = Item::new(
        format!("Tab (#{}), window (#{}), Arg: {}", 1, 2, "arg w1"),
        State::ChangeFieldName,
        Some(PresetValue::Args(1, "arg w1".to_string())),
    );
    target.push(arg);

    let arg = Item::new(
        format!("Tab (#{}), window (#{}), Arg: {}", 2, 1, "arg w2"),
        State::ChangeFieldName,
        Some(PresetValue::Args(2, "arg w2".to_string())),
    );
    target.push(arg);

    let arg = Item::new(
        format!("Tab (#{}), window (#{}), Arg: {}", 3, 1, "arg w3"),
        State::ChangeFieldName,
        Some(PresetValue::Args(3, "arg w3".to_string())),
    );
    target.push(arg);

    let wt_profile = Item::new(
        format!("Windows terminal profile name: {}", ""),
        State::ChangeFieldName,
        Some(PresetValue::PresetInfo(PresetInfoValue::WtProfile(
            "".to_string(),
        ))),
    );
    target.push(wt_profile);

    let init_shell = Item::new(
        format!(
            "Init shell (powershell/pwsh/cmd): {}",
            "powershell".to_string()
        ),
        State::ChangeFieldName,
        Some(PresetValue::PresetInfo(PresetInfoValue::InitShell(
            ShellType::WindowsPowershell,
        ))),
    );
    target.push(init_shell);

    let target_shell = Item::new(
        format!(
            "Target shell (powershell/pwsh/cmd/bash/zsh): {}",
            "powershell".to_string()
        ),
        State::ChangeFieldName,
        Some(PresetValue::PresetInfo(PresetInfoValue::TargetShell(
            ShellType::WindowsPowershell,
        ))),
    );
    target.push(target_shell);

    for (index, item) in items.iter().enumerate() {
        assert_eq!(item, target.get(index).unwrap());
    }
}

#[test]
fn tests_test_preset_change_field_value() {
    let mut preset = Preset::new(
        String::from("Test Preset"),
        3,
        vec![2, 1, 1],
        vec![
            String::from("arg w1"),
            String::from("arg w1"),
            String::from("arg w2"),
            String::from("arg w3"),
        ],
        PresetInfo::default(),
    );

    preset
        .change_field_value(PresetValue::Name("Preset Changed".to_string()))
        .expect("Failed changing preset's name");

    preset
        .change_field_value(PresetValue::Tabs(5))
        .expect("Failed changing preset's tabs");

    let target = Preset::new(
        String::from("Preset Changed"),
        5,
        vec![2, 1, 1, 1, 1],
        vec![
            String::from("arg w1"),
            String::from("arg w1"),
            String::from("arg w2"),
            String::from("arg w3"),
            String::from(""),
            String::from(""),
        ],
        PresetInfo::default(),
    );
    assert_eq!(preset, target);

    preset
        .change_field_value(PresetValue::Windows(2, 3))
        .expect("Failed changing preset's windows");

    let target = Preset::new(
        String::from("Preset Changed"),
        5,
        vec![2, 1, 3, 1, 1],
        vec![
            String::from("arg w1"),
            String::from("arg w1"),
            String::from("arg w2"),
            String::from("arg w3"),
            String::from(""),
            String::from(""),
            String::from(""),
            String::from(""),
        ],
        PresetInfo::default(),
    );
    assert_eq!(preset, target);

    preset
        .change_field_value(PresetValue::Args(4, "arg w3".to_string()))
        .expect("Failed changing preset's args");
    preset
        .change_field_value(PresetValue::Args(5, "arg w3".to_string()))
        .expect("Failed changing preset's args");

    let target = Preset::new(
        String::from("Preset Changed"),
        5,
        vec![2, 1, 3, 1, 1],
        vec![
            String::from("arg w1"),
            String::from("arg w1"),
            String::from("arg w2"),
            String::from("arg w3"),
            String::from("arg w3"),
            String::from("arg w3"),
            String::from(""),
            String::from(""),
        ],
        PresetInfo::default(),
    );

    assert_eq!(preset, target);

    preset
        .change_field_value(PresetValue::Tabs(2))
        .expect("Failed changing preset's tabs");

    let target = Preset::new(
        String::from("Preset Changed"),
        2,
        vec![2, 1],
        vec![
            String::from("arg w1"),
            String::from("arg w1"),
            String::from("arg w2"),
        ],
        PresetInfo::default(),
    );

    assert_eq!(preset, target);

    preset
        .change_field_value(PresetValue::Windows(0, 1))
        .expect("Failed changing preset's windows");

    let target = Preset::new(
        String::from("Preset Changed"),
        2,
        vec![1, 1],
        vec![String::from("arg w1"), String::from("arg w2")],
        PresetInfo::default(),
    );

    assert_eq!(preset, target);
}
