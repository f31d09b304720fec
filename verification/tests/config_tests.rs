use jumpstart::config::{
    Application, RawApplication, Side, build_config, get_default_config_content,
    load_default_config, parse_side,
};

fn raw(name: &str, display: u32, side: &str, executable: &str) -> RawApplication {
    RawApplication {
        name: name.to_string(),
        display,
        side: side.to_string(),
        executable: executable.to_string(),
    }
}

#[test]
fn test_side_deserialization() {
    // The file format carries the side as a plain scalar; reading it goes
    // through the YAML reader and then the case-insensitive side parser.
    let yaml_left: String = serde_yaml::from_str("left").unwrap();
    let side_left = parse_side(&yaml_left).unwrap();
    assert!(matches!(side_left, Side::Left));

    let yaml_right: String = serde_yaml::from_str("right").unwrap();
    let side_right = parse_side(&yaml_right).unwrap();
    assert!(matches!(side_right, Side::Right));

    let yaml_invalid: String = serde_yaml::from_str("invalid").unwrap();
    let result = parse_side(&yaml_invalid);
    assert!(result.is_err());
}

#[test]
fn test_parse_side_case_insensitive() {
    assert_eq!(parse_side("LEFT").unwrap(), Side::Left);
    assert_eq!(parse_side("Left").unwrap(), Side::Left);
    assert_eq!(parse_side("RiGhT").unwrap(), Side::Right);
    assert_eq!(parse_side("right").unwrap(), Side::Right);
}

#[test]
fn test_parse_side_invalid_value_error() {
    let err = parse_side("up").unwrap_err();
    assert_eq!(err, "Invalid side: up");
    assert!(parse_side("").is_err());
    assert!(parse_side("leftt").is_err());
}

#[test]
fn test_build_config_valid_entries() {
    let raws = vec![
        raw("Test App", 1, "left", "test.exe"),
        raw("Other", 2, "RIGHT", "other.exe"),
    ];
    let config = build_config(&raws).unwrap();
    assert_eq!(config.applications.len(), 2);
    assert_eq!(config.applications[0].name, "Test App");
    assert_eq!(config.applications[0].display, 1);
    assert!(matches!(config.applications[0].side, Side::Left));
    assert_eq!(config.applications[0].executable, "test.exe");
    assert!(matches!(config.applications[1].side, Side::Right));
}

#[test]
fn test_build_config_invalid_side_fails_load() {
    // A bad side value is a hard configuration error: the load fails with a
    // descriptive message and no launching can start from it.
    let raws = vec![
        raw("Test App", 1, "up", "test.exe"),
        raw("Other", 2, "left", "other.exe"),
    ];
    let err = build_config(&raws).unwrap_err();
    assert_eq!(err, "Invalid side: up");

    let mut launches = 0;
    if let Ok(config) = build_config(&raws) {
        launches += config.applications.len();
    }
    assert_eq!(launches, 0);
}

#[test]
fn test_build_config_reports_first_invalid_side() {
    let raws = vec![
        raw("A", 1, "left", "a.exe"),
        raw("B", 2, "middle", "b.exe"),
        raw("C", 3, "sideways", "c.exe"),
    ];
    let err = build_config(&raws).unwrap_err();
    assert_eq!(err, "Invalid side: middle");
}

fn assert_app(app: &Application, name: &str, display: u32, side: Side, executable: &str) {
    assert_eq!(app.name, name);
    assert_eq!(app.display, display);
    assert_eq!(app.side, side);
    assert_eq!(app.executable, executable);
}

#[test]
fn test_load_default_config() {
    let config = load_default_config().unwrap();
    assert_eq!(config.applications.len(), 4);
    assert_app(
        &config.applications[0],
        "Microsoft Teams",
        2,
        Side::Right,
        "C:\\Program Files\\WindowsApps\\MSTeams_25306.804.4102.7193_x64__8wekyb3d8bbwe\\ms-teams.exe",
    );
    assert_app(
        &config.applications[1],
        "Outlook",
        2,
        Side::Left,
        "C:\\Program Files\\WindowsApps\\Microsoft.OutlookForWindows_1.2025.1111.100_x64__8wekyb3d8bbwe\\olk.exe",
    );
    assert_app(
        &config.applications[2],
        "Slack",
        3,
        Side::Right,
        "C:\\Program Files\\WindowsApps\\com.tinyspeck.slackdesktop_4.47.65.0_x64__8yrtsj140pw4g\\app\\Slack.exe",
    );
    assert_app(
        &config.applications[3],
        "Notion",
        3,
        Side::Left,
        "C:\\Users\\shawo\\AppData\\Local\\Programs\\Notion\\Notion.exe",
    );
}

#[test]
fn test_default_config_content_parses_to_default_config() {
    // The built-in text and the built-in value must denote the same
    // configuration: parse the text with the real YAML reader and compare.
    let value: serde_yaml::Value = serde_yaml::from_str(get_default_config_content()).unwrap();
    let apps = value.get("applications").unwrap().as_sequence().unwrap();
    let config = load_default_config().unwrap();
    assert_eq!(apps.len(), config.applications.len());
    for (entry, app) in apps.iter().zip(config.applications.iter()) {
        assert_eq!(entry.get("name").unwrap().as_str().unwrap(), app.name);
        assert_eq!(entry.get("display").unwrap().as_u64().unwrap(), app.display as u64);
        let side = parse_side(entry.get("side").unwrap().as_str().unwrap()).unwrap();
        assert_eq!(side, app.side);
        assert_eq!(entry.get("executable").unwrap().as_str().unwrap(), app.executable);
    }
}
