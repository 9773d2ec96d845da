use tillers::models::application_profile::{
    ApplicationProfile, ApplicationProfileSet, CompatibilityInfo, CompatibilityLevel, CustomAction,
    CustomHandlingRule, WindowDetectionRule, WindowDetectionStrategy,
};
use tillers::models::window_rule::PositioningRule;

fn fresh_id() -> u128 {
    uuid::Uuid::new_v4().as_u128()
}

#[test]
fn test_new_application_profile() {
    let profile = ApplicationProfile::new(
        "com.apple.Terminal".to_string(),
        "Terminal".to_string(),
        PositioningRule::Auto,
        CompatibilityLevel::Full,
    );

    assert!(profile.is_ok());
    let profile = profile.unwrap();
    assert_eq!(profile.bundle_identifier, "com.apple.Terminal");
    assert_eq!(profile.display_name, "Terminal");
    assert!(profile.is_user_profile);
}

#[test]
fn test_invalid_bundle_identifier() {
    let profile = ApplicationProfile::new(
        "invalid".to_string(),
        "App".to_string(),
        PositioningRule::Auto,
        CompatibilityLevel::Full,
    );

    assert!(profile.is_err());
}

#[test]
fn test_application_matching() {
    let profile = ApplicationProfile {
        bundle_identifier: "com.apple.Terminal".to_string(),
        ..Default::default()
    };

    assert!(profile.matches_application(Some("com.apple.Terminal"), None, None));
    assert!(!profile.matches_application(Some("com.apple.Safari"), None, None));
    assert!(!profile.matches_application(None, None, None));
}

#[test]
fn test_detection_rules() {
    let mut profile = ApplicationProfile::default();
    profile.window_detection_rules.push(WindowDetectionRule {
        strategy: WindowDetectionStrategy::ProcessName,
        primary_identifier: "Terminal".to_string(),
        secondary_identifiers: Vec::new(),
        title_pattern: None,
        class_pattern: None,
    });

    assert!(profile.matches_application(None, Some("Terminal"), None));
    assert!(!profile.matches_application(None, Some("Safari"), None));
}

#[test]
fn test_effective_positioning() {
    let mut profile = ApplicationProfile {
        default_positioning: PositioningRule::Auto,
        ..Default::default()
    };

    assert_eq!(profile.get_effective_positioning(None), PositioningRule::Auto);

    profile.add_custom_rule(CustomHandlingRule {
        condition: "preferences".to_string(),
        action: CustomAction::ForcePositioning(PositioningRule::Floating),
        parameters: None,
        enabled: true,
    });

    assert_eq!(profile.get_effective_positioning(Some("App preferences")), PositioningRule::Floating);
    assert_eq!(profile.get_effective_positioning(Some("Main window")), PositioningRule::Auto);
}

#[test]
fn test_compatibility_checking() {
    let full_profile = ApplicationProfile {
        compatibility_info: CompatibilityInfo {
            level: CompatibilityLevel::Full,
            issues: Vec::new(),
            workarounds: Vec::new(),
            version_notes: None,
        },
        ..Default::default()
    };

    let incompatible_profile = ApplicationProfile {
        compatibility_info: CompatibilityInfo {
            level: CompatibilityLevel::Incompatible,
            issues: Vec::new(),
            workarounds: Vec::new(),
            version_notes: None,
        },
        ..Default::default()
    };

    assert!(full_profile.is_tiling_compatible());
    assert!(!incompatible_profile.is_tiling_compatible());
}

#[test]
fn test_preferred_patterns() {
    let mut profile = ApplicationProfile::default();
    let pattern_id = fresh_id();

    profile.add_preferred_pattern(pattern_id);
    assert!(profile.preferred_tiling_patterns.contains(&pattern_id));

    profile.add_preferred_pattern(pattern_id);
    assert_eq!(profile.preferred_tiling_patterns.len(), 1);

    assert!(profile.remove_preferred_pattern(&pattern_id));
    assert!(!profile.preferred_tiling_patterns.contains(&pattern_id));
}

#[test]
fn test_profile_set() {
    let mut set = ApplicationProfileSet::new();

    let profile1 = ApplicationProfile {
        bundle_identifier: "com.apple.Terminal".to_string(),
        ..Default::default()
    };

    let profile2 = ApplicationProfile {
        bundle_identifier: "com.apple.Safari".to_string(),
        ..Default::default()
    };

    assert!(set.add_profile(profile1.clone()).is_ok());
    assert!(set.add_profile(profile2).is_ok());

    let duplicate_profile = ApplicationProfile {
        bundle_identifier: "com.apple.Terminal".to_string(),
        ..Default::default()
    };
    assert!(set.add_profile(duplicate_profile).is_err());

    let found = set.find_by_bundle_id("com.apple.Terminal");
    assert!(found.is_some());
    assert_eq!(found.unwrap().bundle_identifier, "com.apple.Terminal");
}

#[test]
fn test_default_profiles_creation() {
    let set = ApplicationProfileSet::create_with_defaults();
    assert!(set.is_ok());

    let set = set.unwrap();
    assert!(!set.profiles.is_empty());

    let terminal = set.find_by_bundle_id("com.apple.Terminal");
    assert!(terminal.is_some());
    assert!(!terminal.unwrap().is_user_profile);
}

#[test]
fn application_profile_test_validation() {
    let mut profile = ApplicationProfile::default();
    profile.bundle_identifier = "com.example.app".to_string();
    profile.display_name = "Test App".to_string();
    assert!(profile.validate().is_ok());

    profile.bundle_identifier = "".to_string();
    assert!(profile.validate().is_err());

    profile.bundle_identifier = "invalid".to_string();
    assert!(profile.validate().is_err());

    profile.bundle_identifier = "com.example.app".to_string();
    profile.display_name = "".to_string();
    assert!(profile.validate().is_err());
}

#[test]
fn profiles_by_compatibility_and_removal() {
    let set = ApplicationProfileSet::create_with_defaults().unwrap();
    assert_eq!(set.profiles.len(), 6);
    let full = set.get_profiles_by_compatibility(CompatibilityLevel::Full);
    assert!(full.iter().all(|p| p.compatibility_info.level == CompatibilityLevel::Full));

    let mut set = ApplicationProfileSet::new();
    let p = ApplicationProfile { bundle_identifier: "com.a.b".to_string(), ..Default::default() };
    let id = p.id;
    set.add_profile(p).unwrap();
    assert!(set.remove_profile(id));
    assert!(!set.remove_profile(id));
    assert!(set.find_by_bundle_id("com.a.b").is_none());
}

#[test]
fn custom_action_lookup_skips_disabled_rules() {
    let mut profile = ApplicationProfile::default();
    profile.add_custom_rule(CustomHandlingRule {
        condition: "dialog".to_string(),
        action: CustomAction::Ignore,
        parameters: None,
        enabled: false,
    });
    assert!(profile.get_custom_action("dialog").is_none());
    profile.add_custom_rule(CustomHandlingRule {
        condition: "dialog".to_string(),
        action: CustomAction::DelayManagement(200),
        parameters: None,
        enabled: true,
    });
    assert_eq!(profile.get_custom_action("dialog"), Some(&CustomAction::DelayManagement(200)));
}
