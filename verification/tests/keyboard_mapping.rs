use tillers::models::keyboard_mapping::{
    key_token, modifier_token, parse_key_token, parse_modifier_token, ActionParameters, ActionType, Key,
    KeyboardMapping, KeyboardMappingSet, ModifierKey, ResizeDirection, ShortcutCombination,
};

fn fresh_id() -> u128 {
    uuid::Uuid::new_v4().as_u128()
}

#[test]
fn test_shortcut_combination_creation() {
    let combination = ShortcutCombination::new(
        vec![ModifierKey::Option, ModifierKey::Shift],
        Key::Letter('a'),
    );

    assert_eq!(combination.modifiers.len(), 2);
    assert!(combination.modifiers.contains(&ModifierKey::Option));
    assert!(combination.modifiers.contains(&ModifierKey::Shift));
    assert_eq!(combination.key, Key::Letter('a'));
}

#[test]
fn test_shortcut_combination_deduplication() {
    let combination = ShortcutCombination::new(
        vec![ModifierKey::Option, ModifierKey::Option, ModifierKey::Shift],
        Key::Letter('a'),
    );

    assert_eq!(combination.modifiers.len(), 2);
}

#[test]
fn test_shortcut_combination_allows_command_modifiers_for_compatibility() {
    let combination = ShortcutCombination::new(vec![ModifierKey::Command], Key::Letter('b'));

    assert_eq!(combination.modifiers, vec![ModifierKey::Command]);
    assert_eq!(combination.key, Key::Letter('b'));
}

#[test]
fn test_keyboard_mapping_creation() {
    let combination = ShortcutCombination::new(vec![ModifierKey::Option], Key::Number(1));
    let mapping = KeyboardMapping::new(
        "Test Mapping".to_string(),
        combination,
        ActionType::SwitchWorkspace,
        ActionParameters::WorkspaceId(fresh_id()),
        true,
        true,
        None,
    );

    assert!(mapping.is_ok());
    let mapping = mapping.unwrap();
    assert_eq!(mapping.name, "Test Mapping");
    assert!(mapping.enabled);
    assert!(mapping.global_scope);
}

#[test]
fn test_keyboard_mapping_parameter_validation() {
    let combination = ShortcutCombination::new(vec![ModifierKey::Option], Key::Number(1));

    let valid_mapping = KeyboardMapping::new(
        "Test".to_string(),
        combination.clone(),
        ActionType::SwitchWorkspace,
        ActionParameters::WorkspaceId(fresh_id()),
        true,
        true,
        None,
    );
    assert!(valid_mapping.is_ok());

    // ResizeWindow needs resize parameters
    let invalid_mapping = KeyboardMapping::new(
        "Test".to_string(),
        combination,
        ActionType::ResizeWindow,
        ActionParameters::Empty,
        true,
        true,
        None,
    );
    assert!(invalid_mapping.is_err());
}

#[test]
fn test_keyboard_mapping_conflicts() {
    let combination = ShortcutCombination::new(vec![ModifierKey::Option], Key::Letter('a'));

    let mapping1 = KeyboardMapping {
        shortcut_combination: combination.clone(),
        enabled: true,
        ..Default::default()
    };

    let mapping2 = KeyboardMapping {
        shortcut_combination: combination,
        enabled: true,
        ..Default::default()
    };

    assert!(mapping1.conflicts_with(&mapping2));
    assert!(mapping2.conflicts_with(&mapping1));
}

#[test]
fn test_keyboard_mapping_set() {
    let mut set = KeyboardMappingSet::new();

    let mapping1 = KeyboardMapping {
        shortcut_combination: ShortcutCombination::new(vec![ModifierKey::Option], Key::Letter('a')),
        enabled: true,
        ..Default::default()
    };

    let mapping2 = KeyboardMapping {
        shortcut_combination: ShortcutCombination::new(
            vec![ModifierKey::Option, ModifierKey::Shift],
            Key::Letter('b'),
        ),
        enabled: true,
        ..Default::default()
    };

    assert!(set.add_mapping(mapping1.clone()).is_ok());
    assert!(set.add_mapping(mapping2).is_ok());

    let conflicting_mapping = KeyboardMapping {
        shortcut_combination: ShortcutCombination::new(vec![ModifierKey::Option], Key::Letter('a')),
        enabled: true,
        ..Default::default()
    };

    assert!(set.add_mapping(conflicting_mapping).is_err());

    let found = set.find_by_shortcut(&mapping1.shortcut_combination);
    assert!(found.is_some());
}

#[test]
fn test_shortcut_display() {
    let combination = ShortcutCombination::new(
        vec![ModifierKey::Option, ModifierKey::Shift],
        Key::Letter('a'),
    );

    let display = combination.to_display_string();
    assert!(display.contains("⌥"));
    assert!(display.contains("⇧"));
    assert!(display.contains("A"));
}

#[test]
fn test_default_mappings_creation() {
    let set = KeyboardMappingSet::create_default();
    assert!(set.is_ok());

    let set = set.unwrap();
    assert!(!set.mappings.is_empty());

    let workspace_shortcuts = set
        .mappings
        .iter()
        .filter(|m| matches!(m.action_type, ActionType::SwitchWorkspace))
        .count();
    assert_eq!(workspace_shortcuts, 9);
}

#[test]
fn test_migrate_legacy_command_shortcuts() {
    let mut set = KeyboardMappingSet::new();

    let legacy_mapping = KeyboardMapping {
        shortcut_combination: ShortcutCombination::new(
            vec![ModifierKey::Command, ModifierKey::Shift],
            Key::Letter('g'),
        ),
        enabled: true,
        ..Default::default()
    };

    let option_mapping = KeyboardMapping {
        shortcut_combination: ShortcutCombination::new(vec![ModifierKey::Option], Key::Letter('h')),
        enabled: true,
        ..Default::default()
    };

    set.mappings.push(legacy_mapping);
    set.mappings.push(option_mapping);

    let updated = set.migrate_legacy_command_shortcuts();
    assert_eq!(updated, 1);

    let migrated = &set.mappings[0].shortcut_combination;
    assert!(migrated.has_option_modifier());
    assert!(!migrated.modifiers.contains(&ModifierKey::Command));

    let untouched = &set.mappings[1].shortcut_combination;
    assert!(untouched.has_option_modifier());
}

#[test]
fn test_action_description_generation() {
    let mapping = KeyboardMapping {
        action_type: ActionType::ToggleFullscreen,
        parameters: ActionParameters::Empty,
        description: None,
        ..Default::default()
    };

    let description = mapping.get_description();
    assert_eq!(description, "Toggle window fullscreen");
}

#[test]
fn test_validation_errors() {
    let mut mapping = KeyboardMapping::default();
    mapping.name = "".to_string();
    assert!(mapping.validate().is_err());

    mapping.name = "Test".to_string();
    mapping.shortcut_combination.modifiers.clear();
    assert!(mapping.validate().is_err());

    mapping.shortcut_combination.modifiers.push(ModifierKey::Option);
    mapping.action_type = ActionType::ResizeWindow;
    mapping.parameters = ActionParameters::Resize(ResizeDirection::Increase, 0);
    assert!(mapping.validate().is_err());
}

#[test]
fn shortcut_config_text_round_trips() {
    let combination = ShortcutCombination::new(
        vec![ModifierKey::Shift, ModifierKey::Option],
        Key::Letter('k'),
    );
    let text = combination.to_config_string();
    assert_eq!(text, "opt+shift+k");
    let parsed = ShortcutCombination::parse(&text).unwrap();
    assert_eq!(parsed, combination);
}

#[test]
fn shortcut_parse_rejects_unknown_key() {
    assert!(ShortcutCombination::parse("opt+notakey").is_err());
}

#[test]
fn command_shortcut_migrates_to_option() {
    let mut combination = ShortcutCombination::new(vec![ModifierKey::Command], Key::Number(3));
    assert!(combination.migrate_command_to_option());
    assert_eq!(combination.modifiers, vec![ModifierKey::Option]);
    assert!(!combination.migrate_command_to_option());
}

#[test]
fn migrating_twice_changes_nothing_more() {
    let mut set = KeyboardMappingSet::new();
    set.mappings.push(KeyboardMapping {
        shortcut_combination: ShortcutCombination::new(vec![ModifierKey::Command], Key::Letter('k')),
        enabled: true,
        ..Default::default()
    });
    assert_eq!(set.migrate_legacy_command_shortcuts(), 1);
    let once = set.mappings[0].shortcut_combination.clone();
    assert_eq!(set.migrate_legacy_command_shortcuts(), 0);
    assert_eq!(set.mappings[0].shortcut_combination, once);
    assert_eq!(once.modifiers, vec![ModifierKey::Option]);
}

fn default_on(set: &KeyboardMappingSet, mods: Vec<ModifierKey>, key: Key) -> &KeyboardMapping {
    let shortcut = ShortcutCombination::new(mods, key);
    set.mappings.iter().find(|m| m.shortcut_combination == shortcut).expect("default shortcut")
}

#[test]
fn default_mappings_follow_the_documented_shortcuts() {
    let set = KeyboardMappingSet::create_default().unwrap();
    assert_eq!(set.mappings.len(), 24);
    for n in 1..=9u8 {
        let switch = default_on(&set, vec![ModifierKey::Option], Key::Number(n));
        assert_eq!(switch.action_type, ActionType::SwitchWorkspace);
        let moving = default_on(&set, vec![ModifierKey::Option, ModifierKey::Shift], Key::Number(n));
        assert_eq!(moving.action_type, ActionType::MoveWindow);
        assert_eq!(moving.name, format!("Move Window to Workspace {}", n));
    }
    assert_eq!(default_on(&set, vec![ModifierKey::Option], Key::Enter).action_type, ActionType::FocusNext);
    assert_eq!(
        default_on(&set, vec![ModifierKey::Option], Key::Space).action_type,
        ActionType::Custom("cycle_layouts".to_string())
    );
    assert!(set.mappings.iter().all(|m| m.validate().is_ok()));
}

#[test]
fn function_keys_stop_at_f12() {
    assert_eq!(parse_key_token("F12"), Some(Key::Function(12)));
    assert_eq!(parse_key_token("f1"), Some(Key::Function(1)));
    assert_eq!(parse_key_token("f13"), None);
    assert_eq!(parse_key_token("f24"), None);
    assert!(ShortcutCombination::parse("opt+f13").is_err());
}

#[test]
fn tokens_read_back() {
    for m in [ModifierKey::Command, ModifierKey::Option, ModifierKey::Control, ModifierKey::Shift, ModifierKey::Function] {
        assert_eq!(parse_modifier_token(modifier_token(&m)), Some(m));
    }
    for k in [Key::Letter('Q'), Key::Number(7), Key::Function(11), Key::Space, Key::Enter, Key::ScanCode(300)] {
        let expected = match k {
            Key::Letter(c) => Key::Letter(c.to_ascii_lowercase()),
            other => other,
        };
        assert_eq!(parse_key_token(&key_token(&k)), Some(expected));
    }
    let c = ShortcutCombination::new(vec![ModifierKey::Shift, ModifierKey::Option], Key::Letter('k'));
    assert_eq!(ShortcutCombination::parse(&c.to_config_string()).unwrap(), c);
}

#[test]
fn shortcut_text_parses_through_from_str() {
    let parsed = "shift+opt+A".parse::<ShortcutCombination>().unwrap();
    assert_eq!(parsed.modifiers, vec![ModifierKey::Option, ModifierKey::Shift]);
    assert_eq!(parsed.key, Key::Letter('a'));
    assert!("cmd+space".parse::<ShortcutCombination>().is_ok());
    assert!("invalid+1".parse::<ShortcutCombination>().is_err());
    assert!("opt+f13".parse::<ShortcutCombination>().is_err());
}

#[test]
fn shortcut_text_without_a_key_is_rejected() {
    for text in ["cmd", "cmd+"] {
        match text.parse::<ShortcutCombination>() {
            Err(tillers::models::keyboard_mapping::KeyboardMappingError::InvalidShortcutFormat(t)) => {
                assert_eq!(t, text)
            }
            other => panic!("unexpected result for {text}: {other:?}"),
        }
    }
}

#[test]
fn letter_keys_display_in_upper_case() {
    let shortcut = ShortcutCombination::new(vec![ModifierKey::Option], Key::Letter('a'));
    assert_eq!(shortcut.to_display_string(), "⌥A");
}
