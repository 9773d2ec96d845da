use tillers::models::window_rule::{
    glob_to_regex, FixedGeometry, FocusBehavior, FocusContext, PositioningRule, WindowRule,
    WindowRuleError,
};

fn fresh_id() -> u128 {
    uuid::Uuid::new_v4().as_u128()
}

#[test]
fn test_new_window_rule_valid() {
    let workspace_id = fresh_id();
    let rule = WindowRule::new(
        workspace_id,
        "com.apple.Terminal".to_string(),
        None,
        PositioningRule::Auto,
        None,
        0,
        FocusBehavior::OnCreate,
        None,
    );

    assert!(rule.is_ok());
    let rule = rule.unwrap();
    assert_eq!(rule.workspace_id, workspace_id);
    assert_eq!(rule.application_identifier, "com.apple.Terminal");
}

#[test]
fn test_new_window_rule_invalid_empty_identifier() {
    let workspace_id = fresh_id();
    let rule = WindowRule::new(
        workspace_id,
        "".to_string(),
        None,
        PositioningRule::Auto,
        None,
        0,
        FocusBehavior::Never,
        None,
    );

    assert!(rule.is_err());
}

#[test]
fn test_new_window_rule_fixed_missing_geometry() {
    let workspace_id = fresh_id();
    let rule = WindowRule::new(
        workspace_id,
        "com.example.app".to_string(),
        None,
        PositioningRule::Fixed,
        None,
        0,
        FocusBehavior::Never,
        None,
    );

    assert!(rule.is_err());
}

#[test]
fn test_matches_exact_application() {
    let rule = WindowRule {
        application_identifier: "com.apple.Terminal".to_string(),
        window_title_pattern: None,
        ..Default::default()
    };

    assert!(rule.matches("com.apple.Terminal", None).unwrap());
    assert!(!rule.matches("com.apple.Safari", None).unwrap());
}

#[test]
fn test_matches_glob_pattern() {
    let rule = WindowRule {
        application_identifier: "com.apple.*".to_string(),
        window_title_pattern: None,
        ..Default::default()
    };

    assert!(rule.matches("com.apple.Terminal", None).unwrap());
    assert!(rule.matches("com.apple.Safari", None).unwrap());
    assert!(!rule.matches("com.google.Chrome", None).unwrap());
}

#[test]
fn test_matches_window_title_pattern() {
    let rule = WindowRule {
        application_identifier: "com.apple.Terminal".to_string(),
        window_title_pattern: Some(r".*vim.*".to_string()),
        ..Default::default()
    };

    assert!(rule.matches("com.apple.Terminal", Some("editing file.txt - vim")).unwrap());
    assert!(!rule.matches("com.apple.Terminal", Some("shell session")).unwrap());
    assert!(!rule.matches("com.apple.Terminal", None).unwrap());
}

#[test]
fn test_invalid_regex_pattern() {
    let rule = WindowRule {
        application_identifier: "com.apple.Terminal".to_string(),
        window_title_pattern: Some("[invalid regex".to_string()),
        ..Default::default()
    };

    assert!(rule.matches("com.apple.Terminal", Some("any title")).is_err());
}

#[test]
fn test_fixed_geometry() {
    let geometry = FixedGeometry { x: 100, y: 200, width: 800, height: 600 };

    let rule = WindowRule {
        positioning_rule: PositioningRule::Fixed,
        fixed_geometry: Some(geometry.clone()),
        ..Default::default()
    };

    assert_eq!(rule.get_effective_geometry(None), Some(geometry));
}

#[test]
fn test_auto_focus_behavior() {
    let rule_on_create = WindowRule { focus_behavior: FocusBehavior::OnCreate, ..Default::default() };
    let rule_on_switch = WindowRule { focus_behavior: FocusBehavior::OnSwitch, ..Default::default() };
    let rule_never = WindowRule { focus_behavior: FocusBehavior::Never, ..Default::default() };

    assert!(rule_on_create.should_auto_focus(FocusContext::WindowCreated));
    assert!(!rule_on_create.should_auto_focus(FocusContext::WorkspaceSwitch));

    assert!(!rule_on_switch.should_auto_focus(FocusContext::WindowCreated));
    assert!(rule_on_switch.should_auto_focus(FocusContext::WorkspaceSwitch));

    assert!(!rule_never.should_auto_focus(FocusContext::WindowCreated));
    assert!(!rule_never.should_auto_focus(FocusContext::WorkspaceSwitch));
}

#[test]
fn test_z_order_priority() {
    let rule_no_priority = WindowRule { z_order_priority: 0, ..Default::default() };
    let rule_with_priority = WindowRule { z_order_priority: 5, ..Default::default() };

    assert!(!rule_no_priority.has_z_order_priority());
    assert!(rule_with_priority.has_z_order_priority());
}

#[test]
fn window_rule_test_validation() {
    let mut rule = WindowRule::default();
    rule.application_identifier = "com.example.app".to_string();
    assert!(rule.validate().is_ok());

    rule.application_identifier = "".to_string();
    assert!(rule.validate().is_err());

    rule.application_identifier = "com.example.app".to_string();
    rule.window_title_pattern = Some("[invalid".to_string());
    assert!(rule.validate().is_err());

    rule.window_title_pattern = None;
    rule.positioning_rule = PositioningRule::Fixed;
    rule.fixed_geometry = None;
    assert!(rule.validate().is_err());

    rule.fixed_geometry = Some(FixedGeometry { x: 0, y: 0, width: 0, height: 100 });
    assert!(rule.validate().is_err());
}

#[test]
fn glob_translates_to_anchored_regex() {
    assert_eq!(glob_to_regex("com.apple.*"), "^com\\.apple\\..*$");
    assert_eq!(glob_to_regex("a?c"), "^a.c$");
}

#[test]
fn fixed_rule_without_geometry_reports_missing_geometry() {
    let rule = WindowRule::new(1, "com.example.app".to_string(), None, PositioningRule::Fixed, None, 0, FocusBehavior::Never, None);
    match rule {
        Err(WindowRuleError::MissingFixedGeometry) => {}
        other => panic!("unexpected: {:?}", other.err()),
    }
}

#[test]
fn effective_geometry_falls_back_to_default() {
    let default_geometry = FixedGeometry { x: 1, y: 2, width: 3, height: 4 };
    let fixed = WindowRule { positioning_rule: PositioningRule::Fixed, fixed_geometry: None, ..Default::default() };
    assert_eq!(fixed.get_effective_geometry(Some(&default_geometry)), Some(default_geometry));
    let auto = WindowRule { positioning_rule: PositioningRule::Auto, ..Default::default() };
    assert_eq!(auto.get_effective_geometry(Some(&default_geometry)), None);
}
