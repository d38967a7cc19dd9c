use raggy_notes::config::AppConfiguration;
use raggy_notes::error::AppError;

#[test]
fn test_configuration_save_and_load() {
    let saved_config = AppConfiguration::new("/tmp/scan");
    let text = saved_config.save().unwrap();

    assert!(!text.is_empty(), "Config file was not created");

    let loaded_config = AppConfiguration::load(Some(&text)).unwrap();
    assert_eq!(saved_config, loaded_config);
}

#[test]
fn test_configuration_file_missing() {
    let result = AppConfiguration::load(None);
    assert!(result.is_err(), "Should error when config file is missing");
}

#[test]
fn saved_text_is_a_pretty_json_object() {
    let text = AppConfiguration::new("/home/me/notes").save().unwrap();
    assert_eq!(text, "{\n  \"scan_path\": \"/home/me/notes\"\n}");
}

#[test]
fn saved_text_escapes_quotes() {
    let config = AppConfiguration::new("dir \"x\"");
    let text = config.save().unwrap();
    assert_eq!(text, "{\n  \"scan_path\": \"dir \\\"x\\\"\"\n}");
    assert_eq!(AppConfiguration::load(Some(&text)).unwrap(), config);
}

#[test]
fn load_reads_compact_json() {
    let config = AppConfiguration::load(Some("{\"scan_path\":\"/data\"}")).unwrap();
    assert_eq!(config.scan_path, "/data");
}

#[test]
fn load_without_scan_path_is_a_config_error() {
    let result = AppConfiguration::load(Some("{\"other\": \"x\"}"));
    assert_eq!(
        result,
        Err(AppError::ConfigError("missing field `scan_path`".to_string()))
    );
}

#[test]
fn load_of_broken_text_is_a_serialization_error() {
    let result = AppConfiguration::load(Some("{ not json"));
    assert!(matches!(result, Err(AppError::SerializationError(_))));
}

#[test]
fn missing_file_reports_not_found() {
    assert_eq!(
        AppConfiguration::load(None),
        Err(AppError::ConfigError("Config file not found".to_string()))
    );
}

#[test]
fn from_entries_takes_scan_path() {
    let entries = vec![
        ("a".to_string(), "1".to_string()),
        ("scan_path".to_string(), "/n".to_string()),
    ];
    assert_eq!(
        AppConfiguration::from_entries(&entries).unwrap(),
        AppConfiguration::new("/n")
    );
}
