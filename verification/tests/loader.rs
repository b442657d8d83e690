use pathtracer::{expand_pattern_range, human_duration, validate_camera, SceneError, SceneLoader};

#[test]
fn camera_without_anchors_is_rejected() {
    let err = validate_camera(false, false, true).unwrap_err();
    assert!(matches!(err, SceneError::MissingCameraAnchor));
    assert_eq!(
        err.message().as_str(),
        "at least one of look_at or look_from are required"
    );
}

#[test]
fn camera_with_coincident_anchors_is_rejected() {
    let err = validate_camera(true, true, true).unwrap_err();
    assert!(matches!(err, SceneError::DegenerateCamera));
    assert_eq!(
        err.message().as_str(),
        "look_at and look_from are too close together"
    );
}

#[test]
fn camera_with_one_anchor_passes() {
    assert!(validate_camera(true, false, false).is_ok());
    assert!(validate_camera(false, true, false).is_ok());
    assert!(validate_camera(true, true, false).is_ok());
}

#[test]
fn loader_starts_empty() {
    let loader = SceneLoader::new("scenes/demo.ron");
    assert_eq!(loader.scene_path().as_str(), "scenes/demo.ron");
    assert!(matches!(
        loader.pattern_var(&String::from("i")),
        Err(SceneError::VariableNotFound { .. })
    ));
    assert!(matches!(
        loader.material_handle(&String::from("gold")),
        Err(SceneError::MaterialNotDefined { .. })
    ));
}

#[test]
fn pattern_vars_shadow() {
    let mut loader = SceneLoader::new("demo.ron");
    loader.set_pattern_var(String::from("i"), 3);
    loader.set_pattern_var(String::from("j"), -7);
    assert_eq!(loader.pattern_var(&String::from("i")).unwrap(), 3);
    assert_eq!(loader.pattern_var(&String::from("j")).unwrap(), -7);
    loader.set_pattern_var(String::from("i"), 12);
    assert_eq!(loader.pattern_var(&String::from("i")).unwrap(), 12);
    assert_eq!(loader.pattern_var(&String::from("j")).unwrap(), -7);
}

#[test]
fn missing_variable_error_names_it() {
    let loader = SceneLoader::new("demo.ron");
    let err = loader.pattern_var(&String::from("radius")).unwrap_err();
    assert_eq!(err.message().as_str(), "Variable radius not found");
}

#[test]
fn material_registry_hands_out_handles() {
    let mut loader = SceneLoader::new("demo.ron");
    let gold = loader.register_material(String::from("gold"));
    let glass = loader.register_material(String::from("glass"));
    assert_eq!(gold, 0);
    assert_eq!(glass, 1);
    assert_eq!(loader.material_handle(&String::from("gold")).unwrap(), gold);
    assert_eq!(loader.material_handle(&String::from("glass")).unwrap(), glass);
}

#[test]
fn material_registration_newest_wins() {
    let mut loader = SceneLoader::new("demo.ron");
    let first = loader.register_material(String::from("gold"));
    let second = loader.register_material(String::from("gold"));
    assert_ne!(first, second);
    assert_eq!(loader.material_handle(&String::from("gold")).unwrap(), second);
}

#[test]
fn missing_material_error_names_it() {
    let loader = SceneLoader::new("demo.ron");
    let err = loader.material_handle(&String::from("silver")).unwrap_err();
    assert_eq!(err.message().as_str(), "Material silver not defined");
}

#[test]
fn range_of_one_value_counts_from_zero() {
    assert_eq!(expand_pattern_range(&vec![4]).unwrap(), vec![0, 1, 2, 3]);
    assert_eq!(expand_pattern_range(&vec![0]).unwrap(), Vec::<i32>::new());
    assert_eq!(expand_pattern_range(&vec![-3]).unwrap(), Vec::<i32>::new());
}

#[test]
fn range_of_two_values_steps_by_one() {
    assert_eq!(expand_pattern_range(&vec![2, 6]).unwrap(), vec![2, 3, 4, 5]);
    assert_eq!(expand_pattern_range(&vec![-2, 2]).unwrap(), vec![-2, -1, 0, 1]);
    assert_eq!(expand_pattern_range(&vec![5, 5]).unwrap(), Vec::<i32>::new());
}

#[test]
fn range_of_three_values_steps_by_the_magnitude() {
    assert_eq!(expand_pattern_range(&vec![2, 11, 3]).unwrap(), vec![2, 5, 8]);
    assert_eq!(expand_pattern_range(&vec![2, 12, 3]).unwrap(), vec![2, 5, 8, 11]);
    assert_eq!(expand_pattern_range(&vec![2, 11, -3]).unwrap(), vec![2, 5, 8]);
}

#[test]
fn malformed_ranges_are_rejected() {
    assert!(matches!(
        expand_pattern_range(&vec![]),
        Err(SceneError::MalformedPatternRange)
    ));
    assert!(matches!(
        expand_pattern_range(&vec![0, 10, 1, 2]),
        Err(SceneError::MalformedPatternRange)
    ));
    assert!(matches!(
        expand_pattern_range(&vec![0, 10, 0]),
        Err(SceneError::MalformedPatternRange)
    ));
    let err = expand_pattern_range(&vec![]).unwrap_err();
    assert_eq!(err.message().as_str(), "Unexpected format for range");
}

#[test]
fn durations_under_a_minute_show_centiseconds() {
    assert_eq!(human_duration(0).as_str(), "0.00s");
    assert_eq!(human_duration(1500).as_str(), "1.50s");
    assert_eq!(human_duration(45_230).as_str(), "45.23s");
    assert_eq!(human_duration(59_999).as_str(), "59.99s");
    assert_eq!(human_duration(60_000).as_str(), "60.00s");
}

#[test]
fn durations_over_a_minute_show_minutes() {
    assert_eq!(human_duration(60_001).as_str(), "1m0s");
    assert_eq!(human_duration(65_000).as_str(), "1m5s");
    assert_eq!(human_duration(3_600_000).as_str(), "60m0s");
}

#[test]
fn durations_over_an_hour_show_hours() {
    assert_eq!(human_duration(3_600_001).as_str(), "1h0m0s");
    assert_eq!(human_duration(3_700_000).as_str(), "1h1m40s");
    assert_eq!(human_duration(9_045_000).as_str(), "2h30m45s");
}
