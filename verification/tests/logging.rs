use xiaozhi::logging::{
    default_database_path, env_filter_spec, pick_rotation, resolve_path, sanitize_filename, should_trim,
    DbLogLayer, LogConfig, LoggingOptions, Rotation,
};

#[test]
fn resolves_relative_log_dir_from_config_base() {
    let log = LogConfig {
        path: "../logs/".into(),
        file: "server.log".into(),
        ..Default::default()
    };
    let opts = LoggingOptions::from_log_config_with_base("xiaozhi-server", &log, "config");
    let file = opts.file.unwrap();
    assert_eq!(std::path::PathBuf::from(file.dir), std::path::PathBuf::from("config/../logs/"));
}

#[test]
fn maps_log_config_to_options() {
    let log = LogConfig {
        path: "logs".into(),
        file: "server.log".into(),
        level: "info".into(),
        database: true,
        ..Default::default()
    };
    let opts = LoggingOptions::from_log_config("xiaozhi-server", &log);
    assert!(opts.file.is_some());
    assert!(opts.database.is_some());
}

#[test]
fn builds_env_filter_from_service() {
    let opts = LoggingOptions {
        level: "debug".into(),
        ..LoggingOptions::new("xiaozhi-server")
    };
    let spec = env_filter_spec(&opts);
    assert!(spec.contains("xiaozhi_server"));
    assert_eq!(spec, "debug,xiaozhi_server=debug");
}

#[test]
fn database_and_file_defaults() {
    let log = LogConfig { database: true, ..Default::default() };
    let opts = LoggingOptions::from_log_config_with_base("svc", &log, "base");
    assert!(opts.file.is_none());
    assert_eq!(
        std::path::PathBuf::from(opts.database.unwrap().path),
        std::path::PathBuf::from("base/data/logs/svc.db")
    );
    assert_eq!(default_database_path("svc", "."), std::path::Path::new(".").join("data").join("logs").join("svc.db").to_string_lossy());
    assert_eq!(resolve_path("/abs/x.db", "base"), "/abs/x.db");
    let log = LogConfig { file: "a.log".into(), ..Default::default() };
    let opts = LoggingOptions::from_log_config_with_base("svc", &log, "base");
    assert_eq!(std::path::PathBuf::from(opts.file.unwrap().dir), std::path::PathBuf::from("base/logs"));
    let opts = LoggingOptions::new("svc").with_database_path("/tmp/l.db");
    assert_eq!(opts.database.unwrap().path, "/tmp/l.db");
}

#[test]
fn rotation_and_file_names() {
    assert_eq!(pick_rotation(0), Rotation::Hourly);
    assert_eq!(pick_rotation(1), Rotation::Hourly);
    assert_eq!(pick_rotation(24), Rotation::Daily);
    assert_eq!(sanitize_filename("../dir/app.log"), "app.log");
    assert_eq!(sanitize_filename(".."), "app.log");
    assert_eq!(sanitize_filename(""), "app.log");
    assert!(should_trim(500));
    assert!(!should_trim(501));
}

#[test]
fn log_entries_fall_back_to_event_name() {
    let layer = DbLogLayer { service: "svc".into() };
    let e = layer.entry("t", "INFO", "mod", "", "event x", "{}");
    assert_eq!(e.message, "event x");
    assert_eq!(e.service, "svc");
    let e = layer.entry("t", "INFO", "mod", "hello", "event x", "{}");
    assert_eq!(e.message, "hello");
}

#[test]
fn paths_join_as_std_does() {
    for (base, p) in [("", "x"), ("/", "x"), ("a", "x"), ("a/", "x"), ("a", ""), ("a", "/abs"), ("a//", "b/c")] {
        let want = std::path::Path::new(base).join(p).to_string_lossy().into_owned();
        assert_eq!(resolve_path(p, base), want, "{base} + {p}");
    }
    for base in ["", "/", "cfg", "cfg/", "/etc/x"] {
        let want = std::path::Path::new(base).join("data/logs").join("svc.db").to_string_lossy().into_owned();
        assert_eq!(default_database_path("svc", base), want);
    }
}
