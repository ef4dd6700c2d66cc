use weaver::logging::FileManager;
use weaver::logging::LogFormat;
use weaver::logging::LogLevel;
use weaver::logging::LoggingConfig;

#[test]
fn test_log_level_parsing() {
    assert_eq!("debug".parse::<LogLevel>().unwrap(), LogLevel::Debug);
    assert_eq!("info".parse::<LogLevel>().unwrap(), LogLevel::Info);
    assert_eq!("warn".parse::<LogLevel>().unwrap(), LogLevel::Warn);
    assert_eq!("error".parse::<LogLevel>().unwrap(), LogLevel::Error);
    assert!("invalid".parse::<LogLevel>().is_err());
}

#[test]
fn test_log_format_parsing() {
    assert_eq!("text".parse::<LogFormat>().unwrap(), LogFormat::Text);
    assert_eq!("json".parse::<LogFormat>().unwrap(), LogFormat::Json);
    assert!("invalid".parse::<LogFormat>().is_err());
}

#[test]
fn test_default_config() {
    let config = LoggingConfig::default();
    assert_eq!(config.level, LogLevel::Info);
    assert_eq!(config.console_output, false);
    assert!(config.file_path.is_none());
    assert_eq!(config.format, LogFormat::Text);
}

#[test]
fn test_file_manager_creation() {
    let manager = FileManager::new();
    assert_eq!(manager.log_dir, b".weaver/logs".to_vec());
}

#[test]
fn test_custom_directory() {
    let custom_dir = "/tmp/custom_logs";
    let manager = FileManager::with_custom_dir(custom_dir);
    assert_eq!(manager.log_dir, custom_dir.as_bytes().to_vec());
}

#[test]
fn test_log_file_paths() {
    let manager = FileManager::new();

    let main_log = manager.get_log_file_path();
    assert_eq!(main_log, b".weaver/logs/weaver.log".to_vec());

    let rotated_1 = manager.get_rotated_log_path(1);
    assert_eq!(rotated_1, b".weaver/logs/weaver.log.1".to_vec());

    let rotated_0 = manager.get_rotated_log_path(0);
    assert_eq!(rotated_0, main_log);
}

#[test]
fn env_filter_names() {
    assert_eq!(LogLevel::Debug.to_env_filter(), "debug");
    assert_eq!(LogLevel::Error.to_env_filter(), "error");
}
