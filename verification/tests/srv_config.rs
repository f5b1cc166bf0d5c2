use devrs::commands::srv::config::{
    config_from_file, merge_config, named_directory, FileConfig, ServerConfig, SrvArgs,
    CONFIG_FILE_NAME,
};
use devrs::commands::srv::server_logic::{after_failed_bind, banner_lines, first_port};
use devrs::commands::srv::utils::format_modification_time;

fn args(dir: &str, port: u16, host: &str, no_cors: bool, show_hidden: bool, index: &str) -> SrvArgs {
    SrvArgs {
        directory: dir.to_string(),
        port,
        host: host.to_string(),
        no_cors,
        show_hidden,
        index: index.to_string(),
    }
}

fn file(
    port: Option<u16>,
    host: Option<&str>,
    directory: Option<&str>,
    enable_cors: Option<bool>,
    show_hidden: Option<bool>,
    index_file: Option<&str>,
) -> FileConfig {
    FileConfig {
        port,
        host: host.map(|h| h.to_string()),
        directory: directory.map(|d| d.to_string()),
        enable_cors,
        show_hidden,
        index_file: index_file.map(|i| i.to_string()),
    }
}

#[test]
fn test_server_config_default() {
    let config = ServerConfig::default();
    assert_eq!(config.port, 8000);
    assert_eq!(config.host, "127.0.0.1");
    assert_eq!(config.directory, ".");
    assert!(config.enable_cors);
    assert!(!config.show_hidden);
    assert_eq!(config.index_file, "index.html");
}

#[test]
fn test_from_args() {
    let a = args("/test/dir", 9000, "0.0.0.0", true, true, "default.htm");
    let config = ServerConfig::from_args(&a);
    assert_eq!(config.port, 9000);
    assert_eq!(config.host, "0.0.0.0");
    assert_eq!(config.directory, "/test/dir");
    assert!(!config.enable_cors);
    assert!(config.show_hidden);
    assert_eq!(config.index_file, "default.htm");
}

#[test]
fn settings_file_name() {
    assert_eq!(CONFIG_FILE_NAME, ".devrs-srv.toml");
}

#[test]
fn file_settings_fill_missing_keys_with_defaults() {
    let f = file(None, None, None, None, None, None);
    assert_eq!(named_directory(&f), ".");
    let c = config_from_file(&f, "/srv/site");
    assert_eq!(c.port, 8000);
    assert_eq!(c.host, "127.0.0.1");
    assert_eq!(c.directory, "/srv/site");
    assert!(c.enable_cors);
    assert!(!c.show_hidden);
    assert_eq!(c.index_file, "index.html");
}

#[test]
fn file_settings_are_read() {
    let f = file(Some(9090), Some("0.0.0.0"), Some("public"), Some(false), Some(true), Some("home.html"));
    assert_eq!(named_directory(&f), "public");
    let c = config_from_file(&f, "/tmp/x/public");
    assert_eq!(c.port, 9090);
    assert_eq!(c.host, "0.0.0.0");
    assert_eq!(c.directory, "/tmp/x/public");
    assert!(!c.enable_cors);
    assert!(c.show_hidden);
    assert_eq!(c.index_file, "home.html");
}

#[test]
fn defaults_give_way_to_the_file() {
    let a = args("/tmp/x", 8000, "127.0.0.1", true, false, "index.html");
    let f = config_from_file(
        &file(Some(9090), Some("0.0.0.0"), Some("www"), Some(false), Some(true), Some("home.html")),
        "/tmp/x/www",
    );
    let c = merge_config(&a, Some(f));
    assert_eq!(c.port, 9090);
    assert_eq!(c.host, "0.0.0.0");
    assert!(!c.enable_cors);
    assert!(c.show_hidden);
    assert_eq!(c.index_file, "home.html");
    assert_eq!(c.directory, "/tmp/x/www");
}

#[test]
fn explicit_arguments_override_the_file() {
    let a = args("/tmp/x", 9999, "10.0.0.1", true, true, "app.htm");
    let f = config_from_file(
        &file(Some(9001), Some("192.168.1.1"), Some("data"), Some(true), Some(false), Some("default.php")),
        "/tmp/x/data",
    );
    let c = merge_config(&a, Some(f));
    assert_eq!(c.port, 9999);
    assert_eq!(c.host, "10.0.0.1");
    assert!(!c.enable_cors);
    assert!(c.show_hidden);
    assert_eq!(c.index_file, "app.htm");
    assert_eq!(c.directory, "/tmp/x/data");
}

#[test]
fn without_a_file_the_arguments_are_the_settings() {
    let a = args("/tmp/y", 8080, "0.0.0.0", false, true, "main.js");
    let c = merge_config(&a, None);
    assert_eq!(c.port, 8080);
    assert_eq!(c.host, "0.0.0.0");
    assert!(c.enable_cors);
    assert!(c.show_hidden);
    assert_eq!(c.index_file, "main.js");
    assert_eq!(c.directory, "/tmp/y");
}

#[test]
fn port_search_starts_at_the_requested_port() {
    assert_eq!(first_port("127.0.0.1", 50000, 5), Ok(50000));
    assert_eq!(
        first_port("127.0.0.1", 50000, 0),
        Err("Could not find an available port on host 127.0.0.1 starting from port 50000 after trying 0 ports.".to_string())
    );
}

#[test]
fn port_search_moves_up_then_gives_up() {
    assert_eq!(after_failed_bind("127.0.0.1", 51000, 5, 0, 51000), Ok(51001));
    assert_eq!(after_failed_bind("127.0.0.1", 51000, 5, 3, 51003), Ok(51004));
    assert_eq!(
        after_failed_bind("127.0.0.1", 51000, 5, 4, 51004),
        Err("Could not find an available port on host 127.0.0.1 starting from port 51000 after trying 5 ports.".to_string())
    );
}

#[test]
fn banner_shows_network_url_only_when_known() {
    let with_ip = banner_lines("/srv", 8000, "192.168.1.5", "127.0.0.1:8000", "index.html", true, false);
    assert_eq!(with_ip.len(), 12);
    assert_eq!(with_ip[2], "📂 Serving files from: /srv");
    assert_eq!(with_ip[3], "🌐 Local URL:         http://localhost:8000");
    assert_eq!(with_ip[4], "🔗 Network URL:       http://192.168.1.5:8000");
    assert_eq!(with_ip[7], "🔒 CORS enabled:      true");
    assert_eq!(with_ip[8], "👻 Show hidden files: false");
    let local = banner_lines("/srv", 8000, "localhost", "127.0.0.1:8000", "index.html", true, false);
    assert_eq!(local.len(), 11);
    assert_eq!(local[4], "⚙️  Binding to address: 127.0.0.1:8000");
}

#[test]
fn test_format_modification_time() {
    let formatted = format_modification_time(Some((1609459200, 0)));
    assert!(formatted.starts_with("2021-01-01 00:00:00"));
}

#[test]
fn modification_time_unknown_cases() {
    assert_eq!(format_modification_time(None), "Unknown");
    assert_eq!(format_modification_time(Some((0, 2_000_000_000))), "Unknown");
    assert_eq!(format_modification_time(Some((86_400 + 3_661, 5))), "1970-01-02 01:01:01");
}
