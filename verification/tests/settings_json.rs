use omcp::json::JsonValue;
use omcp::settings::{
    edit_input_accepted, format_settings_key, format_settings_value, format_temperature,
    parse_temperature, SettingsManager,
};

fn sample() -> SettingsManager {
    SettingsManager {
        model_name: "llama3:8b".to_string(),
        show_thinking: false,
        model_seed: -7,
        model_temperature: 125,
        model_system_prompt: "answer briefly".to_string(),
        verbose_tool_calls: false,
        tool_confirmation: false,
        auto_save_config: false,
        config_file_path: "/tmp/settings.json".to_string(),
    }
}

fn assert_same(a: &SettingsManager, b: &SettingsManager) {
    assert_eq!(a.model_name, b.model_name);
    assert_eq!(a.show_thinking, b.show_thinking);
    assert_eq!(a.model_seed, b.model_seed);
    assert_eq!(a.model_temperature, b.model_temperature);
    assert_eq!(a.model_system_prompt, b.model_system_prompt);
    assert_eq!(a.verbose_tool_calls, b.verbose_tool_calls);
    assert_eq!(a.tool_confirmation, b.tool_confirmation);
    assert_eq!(a.auto_save_config, b.auto_save_config);
    assert_eq!(a.config_file_path, b.config_file_path);
}

#[test]
fn defaults_are_the_documented_ones() {
    let s = SettingsManager::default();
    assert_eq!(s.model_name, "qwen2.5:7b");
    assert!(s.show_thinking);
    assert_eq!(s.model_seed, 0);
    assert_eq!(s.model_temperature, 80);
    assert_eq!(s.model_system_prompt, "");
    assert!(s.verbose_tool_calls);
    assert!(s.tool_confirmation);
    assert!(s.auto_save_config);
    assert_eq!(s.config_file_path, "");
}

#[test]
fn json_round_trip_preserves_defaults() {
    let s = SettingsManager::default();
    let v = s.to_json();
    let back = SettingsManager::from_json(&v).unwrap();
    assert_same(&s, &back);
}

#[test]
fn json_round_trip_preserves_every_field() {
    let s = sample();
    let v = s.to_json();
    let back = SettingsManager::from_json(&v).unwrap();
    assert_same(&s, &back);
}

#[test]
fn json_round_trip_preserves_extreme_values() {
    let mut s = sample();
    s.model_seed = i32::MIN;
    s.model_temperature = i32::MAX;
    s.model_name = String::new();
    let back = SettingsManager::from_json(&s.to_json()).unwrap();
    assert_same(&s, &back);
}

#[test]
fn from_json_rejects_missing_or_mistyped_fields() {
    assert!(SettingsManager::from_json(&JsonValue::Null).is_none());
    assert!(SettingsManager::from_json(&JsonValue::Obj(vec![])).is_none());
    let v = sample().to_json();
    if let JsonValue::Obj(mut fields) = v {
        fields[1] = ("show_thinking".to_string(), JsonValue::Int(1));
        assert!(SettingsManager::from_json(&JsonValue::Obj(fields)).is_none());
    } else {
        panic!("to_json returns an object");
    }
    let v2 = sample().to_json();
    if let JsonValue::Obj(mut fields) = v2 {
        fields[2] = ("model_seed".to_string(), JsonValue::Int(i64::MAX));
        assert!(SettingsManager::from_json(&JsonValue::Obj(fields)).is_none());
    } else {
        panic!("to_json returns an object");
    }
}

#[test]
fn update_setting_changes_exactly_the_named_field() {
    let mut s = SettingsManager::default();
    assert!(s.update_setting("model_name", JsonValue::Str("phi3".to_string())));
    assert_eq!(s.model_name, "phi3");
    assert!(s.update_setting("show_thinking", JsonValue::Bool(false)));
    assert!(!s.show_thinking);
    assert!(s.update_setting("model_seed", JsonValue::Int(42)));
    assert_eq!(s.model_seed, 42);
    assert!(s.update_setting("model_temperature", JsonValue::Int(30)));
    assert_eq!(s.model_temperature, 30);
    assert!(s.update_setting("model_system_prompt", JsonValue::Str("hi".to_string())));
    assert_eq!(s.model_system_prompt, "hi");
    assert!(s.update_setting("verbose_tool_calls", JsonValue::Bool(false)));
    assert!(s.update_setting("tool_confirmation", JsonValue::Bool(false)));
    assert!(s.update_setting("auto_save_config", JsonValue::Bool(false)));
    assert!(s.update_setting("config_file_path", JsonValue::Str("/x".to_string())));
    assert_eq!(s.config_file_path, "/x");
}

#[test]
fn update_setting_ignores_unknown_keys_and_wrong_types() {
    let mut s = SettingsManager::default();
    assert!(!s.update_setting("unknown_key", JsonValue::Bool(true)));
    assert!(!s.update_setting("model_name", JsonValue::Bool(true)));
    assert!(!s.update_setting("model_seed", JsonValue::Int(i64::MAX)));
    let d = SettingsManager::default();
    assert_same(&s, &d);
}

#[test]
fn settings_keys_are_listed_in_menu_order() {
    let keys = SettingsManager::settings_keys();
    assert_eq!(
        keys,
        vec![
            "model_name".to_string(),
            "show_thinking".to_string(),
            "model_seed".to_string(),
            "model_temperature".to_string(),
            "model_system_prompt".to_string(),
            "verbose_tool_calls".to_string(),
            "tool_confirmation".to_string(),
            "auto_save_config".to_string(),
            "config_file_path".to_string(),
        ]
    );
}

#[test]
fn settings_keys_format_readably() {
    assert_eq!(format_settings_key("model_name".to_string()), "Model Name");
    assert_eq!(
        format_settings_key("tool_confirmation".to_string()),
        "Tool Confirmation"
    );
    assert_eq!(format_settings_key("a__b".to_string()), "A  B");
    assert_eq!(format_settings_key(String::new()), "");
}

#[test]
fn settings_values_format_readably() {
    assert_eq!(
        format_settings_value(&JsonValue::Bool(true)),
        "\u{1b}[92mEnabled\u{1b}[0m"
    );
    assert_eq!(
        format_settings_value(&JsonValue::Bool(false)),
        "\u{1b}[91mDisabled\u{1b}[0m"
    );
    assert_eq!(
        format_settings_value(&JsonValue::Null),
        "\u{1b}[90mNot set\u{1b}[0m"
    );
    assert_eq!(
        format_settings_value(&JsonValue::Str(String::new())),
        "\u{1b}[90mNot set\u{1b}[0m"
    );
    assert_eq!(
        format_settings_value(&JsonValue::Str("abc".to_string())),
        "\"abc\""
    );
    assert_eq!(format_settings_value(&JsonValue::Int(-42)), "-42");
}

#[test]
fn the_edit_menu_lists_every_field() {
    let s = SettingsManager::default();
    let choices = s.edit_menu_choices();
    assert_eq!(choices.len(), 9);
    assert!(choices[0].name.starts_with("Model Name: "));
    assert!(choices[8].name.starts_with("Config File Path: "));
    assert!(choices.iter().all(|c| c.shortcut == '#'));
}

#[test]
fn the_settings_view_groups_by_category() {
    let s = SettingsManager::default();
    let text = s.render_settings(false);
    assert!(text.contains("Model\n"));
    assert!(text.contains("Tool Calls\n"));
    assert!(text.contains("Configuration\n"));
    assert!(text.contains("Model Name: \"qwen2.5:7b\""));
    assert!(text.contains("Model Temperature: 0.8"));
}

#[test]
fn temperatures_render_as_fractions() {
    assert_eq!(format_temperature(80), "0.8");
    assert_eq!(format_temperature(125), "1.25");
    assert_eq!(format_temperature(200), "2.0");
    assert_eq!(format_temperature(5), "0.05");
    assert_eq!(format_temperature(0), "0.0");
    assert_eq!(format_temperature(-50), "-0.5");
}

#[test]
fn temperatures_parse_from_fractions() {
    assert_eq!(parse_temperature("0.8"), Some(80));
    assert_eq!(parse_temperature("1.25"), Some(125));
    assert_eq!(parse_temperature("2"), Some(200));
    assert_eq!(parse_temperature("0.05"), Some(5));
    assert_eq!(parse_temperature(""), None);
    assert_eq!(parse_temperature("0.825"), None);
    assert_eq!(parse_temperature("x.8"), None);
    assert_eq!(parse_temperature("0.x"), None);
    assert_eq!(parse_temperature(".8"), None);
}

#[test]
fn blank_edits_are_refused_except_for_the_prompt() {
    assert!(!edit_input_accepted("model_name", ""));
    assert!(edit_input_accepted("model_name", "phi3"));
    assert!(edit_input_accepted("model_system_prompt", ""));
}
