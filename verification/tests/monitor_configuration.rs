use tillers::models::monitor_configuration::{
    MonitorConfiguration, MonitorConfigurationError, MonitorConfigurationSet, MonitorInfo,
    OrientationPreference, ScreenArea,
};

// Scale factors are in thousandths: 1000 is 1.0, 2000 is 2.0.

fn fresh_id() -> u128 {
    uuid::Uuid::new_v4().as_u128()
}

#[test]
fn test_new_monitor_configuration_valid() {
    let workspace_id = fresh_id();
    let pattern_id = fresh_id();
    let active_area = ScreenArea { x: 0, y: 0, width: 1920, height: 1080 };

    let config = MonitorConfiguration::new(
        workspace_id,
        "main".to_string(),
        None,
        pattern_id,
        None,
        active_area,
        OrientationPreference::Current,
        1000,
        true,
        true,
    );

    assert!(config.is_ok());
    let config = config.unwrap();
    assert_eq!(config.workspace_id, workspace_id);
    assert_eq!(config.monitor_identifier, "main");
    assert_eq!(config.primary_pattern_id, pattern_id);
}

#[test]
fn test_new_monitor_configuration_invalid_scale() {
    let workspace_id = fresh_id();
    let pattern_id = fresh_id();
    let active_area = ScreenArea { x: 0, y: 0, width: 1920, height: 1080 };

    let config = MonitorConfiguration::new(
        workspace_id,
        "main".to_string(),
        None,
        pattern_id,
        None,
        active_area,
        OrientationPreference::Current,
        0,
        true,
        true,
    );

    assert!(config.is_err());
}

#[test]
fn test_monitor_matching() {
    let config = MonitorConfiguration {
        monitor_identifier: "display1".to_string(),
        monitor_info: Some(MonitorInfo {
            display_name: "LG Monitor".to_string(),
            model_identifier: Some("LG27UP850".to_string()),
            serial_number: Some("123456789".to_string()),
            physical_size_mm: Some((597, 336)),
            native_resolution: (3840, 2160),
        }),
        ..Default::default()
    };

    assert!(config.matches_monitor("display1", None));

    let current_info = MonitorInfo {
        display_name: "LG Monitor".to_string(),
        model_identifier: Some("LG27UP850".to_string()),
        serial_number: None,
        physical_size_mm: None,
        native_resolution: (3840, 2160),
    };
    assert!(config.matches_monitor("different_id", Some(&current_info)));

    let current_info_serial = MonitorInfo {
        display_name: "Different Name".to_string(),
        model_identifier: Some("DifferentModel".to_string()),
        serial_number: Some("123456789".to_string()),
        physical_size_mm: None,
        native_resolution: (1920, 1080),
    };
    assert!(config.matches_monitor("different_id", Some(&current_info_serial)));

    let no_match_info = MonitorInfo {
        display_name: "Dell Monitor".to_string(),
        model_identifier: Some("Dell2415B".to_string()),
        serial_number: Some("987654321".to_string()),
        physical_size_mm: None,
        native_resolution: (1920, 1200),
    };
    assert!(!config.matches_monitor("different_id", Some(&no_match_info)));
}

#[test]
fn test_effective_pattern_selection() {
    let primary_pattern = fresh_id();
    let secondary_pattern = fresh_id();

    let config = MonitorConfiguration {
        primary_pattern_id: primary_pattern,
        secondary_pattern_id: Some(secondary_pattern),
        ..Default::default()
    };

    assert_eq!(config.get_effective_pattern_id(3, 5), primary_pattern);
    assert_eq!(config.get_effective_pattern_id(8, 5), secondary_pattern);

    let config_no_secondary = MonitorConfiguration {
        primary_pattern_id: primary_pattern,
        secondary_pattern_id: None,
        ..Default::default()
    };
    assert_eq!(config_no_secondary.get_effective_pattern_id(8, 5), primary_pattern);
}

#[test]
fn test_scaling() {
    let config = MonitorConfiguration { scale_factor: 2000, ..Default::default() };

    assert_eq!(config.scale_dimensions(100, 200), (200, 400));
    assert_eq!(config.scale_position(50, 75), (100, 150));
}

#[test]
fn test_usable_area_calculation() {
    let config = MonitorConfiguration {
        active_area: ScreenArea { x: 10, y: 30, width: 1900, height: 1000 },
        ..Default::default()
    };

    let full_screen = ScreenArea { x: 0, y: 0, width: 1920, height: 1080 };
    let usable = config.get_usable_area(&full_screen);

    assert_eq!(usable.x, 10);
    assert_eq!(usable.y, 30);
    assert_eq!(usable.width, 1900);
    assert_eq!(usable.height, 1000);
}

#[test]
fn test_monitor_configuration_set() {
    let workspace_id = fresh_id();
    let mut config_set = MonitorConfigurationSet::new(workspace_id);

    let config1 = MonitorConfiguration {
        workspace_id,
        monitor_identifier: "display1".to_string(),
        is_primary: true,
        ..Default::default()
    };

    let config2 = MonitorConfiguration {
        workspace_id,
        monitor_identifier: "display2".to_string(),
        is_primary: false,
        ..Default::default()
    };

    assert!(config_set.add_configuration(config1.clone()).is_ok());
    assert!(config_set.add_configuration(config2).is_ok());

    assert!(config_set.find_configuration("display1", None).is_some());
    assert!(config_set.find_configuration("nonexistent", None).is_none());

    let primary = config_set.get_primary_configuration();
    assert!(primary.is_some());
    assert_eq!(primary.unwrap().monitor_identifier, "display1");

    let duplicate_config = MonitorConfiguration {
        workspace_id,
        monitor_identifier: "display1".to_string(),
        ..Default::default()
    };
    assert!(config_set.add_configuration(duplicate_config).is_err());
}

#[test]
fn test_orientation_matching() {
    let config = MonitorConfiguration {
        orientation_preference: OrientationPreference::Landscape,
        ..Default::default()
    };

    assert!(config.orientation_matches(1920, 1080));
    assert!(!config.orientation_matches(1080, 1920));

    let portrait_config = MonitorConfiguration {
        orientation_preference: OrientationPreference::Portrait,
        ..Default::default()
    };

    assert!(!portrait_config.orientation_matches(1920, 1080));
    assert!(portrait_config.orientation_matches(1080, 1920));
}

#[test]
fn monitor_configuration_test_validation() {
    let mut config = MonitorConfiguration::default();
    assert!(config.validate().is_ok());

    config.monitor_identifier = "".to_string();
    assert!(config.validate().is_err());

    config.monitor_identifier = "display1".to_string();
    config.scale_factor = 0;
    assert!(config.validate().is_err());

    config.scale_factor = 1000;
    config.active_area.width = 0;
    assert!(config.validate().is_err());
}

#[test]
fn scaling_rounds_half_away_from_zero() {
    let config = MonitorConfiguration { scale_factor: 1500, ..Default::default() };
    // 3 * 1.5 = 4.5 rounds to 5; -3 * 1.5 = -4.5 rounds to -5
    assert_eq!(config.scale_dimensions(3, 1), (5, 2));
    assert_eq!(config.scale_position(-3, 1), (-5, 2));
}

#[test]
fn update_configuration_of_unknown_monitor_is_not_found() {
    let mut config_set = MonitorConfigurationSet::new(1);
    let r = config_set.update_configuration("nowhere", |c| (c, Ok(())));
    match r {
        Err(MonitorConfigurationError::MonitorNotFound(m)) => assert_eq!(m, "nowhere"),
        other => panic!("unexpected: {:?}", other),
    }
}

#[test]
fn update_active_area_refuses_empty_area() {
    let mut config = MonitorConfiguration::default();
    let before = config.active_area;
    assert!(config.update_active_area(ScreenArea { x: 0, y: 0, width: 0, height: 10 }).is_err());
    assert_eq!(config.active_area, before);
    assert!(config.update_active_area(ScreenArea { x: 5, y: 5, width: 100, height: 10 }).is_ok());
    assert_eq!(config.active_area.width, 100);
}
