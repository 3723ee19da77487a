use rsendmail::config::{
    default_anonymize_domain, default_batch_size, default_extension, default_log_level,
    default_loop_interval, default_port, default_processes, default_repeat,
    default_retry_interval, default_smtp_timeout, validate_config, Config, LogLevel, ProcessMode,
    SendMode,
};
use rsendmail::mailer::{failed_email_dest_name, u64_to_string, Mailer};
use rsendmail::numparse::{parse_u16, parse_u32, parse_u64, parse_usize};
use rsendmail::recipients::parse_recipients;

#[test]
fn test_defaults() {
    assert_eq!(default_port(), 25);
    assert_eq!(default_extension(), "eml");
    assert_eq!(default_processes(), "auto");
    assert_eq!(default_batch_size(), 1);
    assert_eq!(default_smtp_timeout(), 30);
    assert_eq!(default_log_level(), "info");
    assert_eq!(default_anonymize_domain(), "example.com");
    assert_eq!(default_repeat(), 1);
    assert_eq!(default_loop_interval(), 1);
    assert_eq!(default_retry_interval(), 5);
    let c = Config::default();
    assert_eq!(c.port, 25);
    assert_eq!(c.extension, "eml");
    assert_eq!(c.batch_size, 1);
    assert!(!c.loop_mode);
}

#[test]
fn test_process_mode() {
    let mut c = Config::default();
    assert_eq!(c.process_mode(), ProcessMode::Auto);
    c.processes = "4".to_string();
    assert_eq!(c.process_mode(), ProcessMode::Fixed(4));
    c.processes = "zero".to_string();
    assert_eq!(c.process_mode(), ProcessMode::Auto);
    c.processes = "0".to_string();
    assert_eq!(c.process_mode(), ProcessMode::Auto);
    c.processes = "".to_string();
    assert_eq!(c.process_mode(), ProcessMode::Auto);
}

#[test]
fn test_get_log_level() {
    let mut c = Config::default();
    assert_eq!(c.get_log_level(), LogLevel::Info);
    c.log_level = "ERROR".to_string();
    assert_eq!(c.get_log_level(), LogLevel::Error);
    c.log_level = "Debug".to_string();
    assert_eq!(c.get_log_level(), LogLevel::Debug);
    c.log_level = "trace".to_string();
    assert_eq!(c.get_log_level(), LogLevel::Trace);
    c.log_level = "warn".to_string();
    assert_eq!(c.get_log_level(), LogLevel::Warn);
    c.log_level = "nonsense".to_string();
    assert_eq!(c.get_log_level(), LogLevel::Info);
}

#[test]
fn test_send_mode_precedence() {
    let mut c = Config::default();
    assert_eq!(c.send_mode(), SendMode::EmlBatch);
    c.dir = Some("mails".to_string());
    assert_eq!(c.send_mode(), SendMode::EmlBatch);
    c.attachment = Some("a.pdf".to_string());
    assert_eq!(c.send_mode(), SendMode::SingleAttachment);
    c.attachment_dir = Some("files".to_string());
    assert_eq!(c.send_mode(), SendMode::AttachmentDir);
}

#[test]
fn test_validate_config() {
    let mut c = Config::default();
    assert_eq!(validate_config(&c), Err("error-no-smtp-server".to_string()));
    c.smtp_server = "smtp.test".to_string();
    assert_eq!(validate_config(&c), Err("error-no-sender".to_string()));
    c.from = "a@b.c".to_string();
    assert_eq!(validate_config(&c), Err("error-no-recipient".to_string()));
    c.to = "x@y.z".to_string();
    assert_eq!(validate_config(&c), Err("error-no-eml-dir".to_string()));
    c.dir = Some("mails".to_string());
    assert_eq!(validate_config(&c), Ok(()));
    c.auth_mode = true;
    assert_eq!(validate_config(&c), Err("error-no-username".to_string()));
    c.username = Some("u".to_string());
    assert_eq!(validate_config(&c), Err("error-no-password".to_string()));
    c.password = Some("p".to_string());
    assert_eq!(validate_config(&c), Ok(()));
}

#[test]
fn test_numeric_parsing() {
    assert_eq!(parse_u16("25", 99), 25);
    assert_eq!(parse_u16("notanumber", 99), 99);
    assert_eq!(parse_u16("70000", 99), 99);
    assert_eq!(parse_u32("12345", 0), 12345);
    assert_eq!(parse_u64("0", 7), 0);
    assert_eq!(parse_u64("-3", 7), 7);
    assert_eq!(parse_usize("10", 1), 10);
    assert_eq!(parse_usize("", 1), 1);
    assert_eq!(parse_u64("18446744073709551615", 7), u64::MAX);
    assert_eq!(parse_u64("18446744073709551616", 7), 7);
}

#[test]
fn test_parse_recipients() {
    let r = parse_recipients("a@x.com, b@y.com ,, ,c@z.com");
    assert_eq!(r, vec!["a@x.com", "b@y.com", "c@z.com"]);
    let empty = parse_recipients("  ,  , ");
    assert!(empty.is_empty());
    let one = parse_recipients("only@one.com");
    assert_eq!(one, vec!["only@one.com"]);
}

#[test]
fn test_mailer_helpers() {
    let c = Config::default();
    let m = Mailer::new(c);
    assert_eq!(m.config.port, 25);
    assert_eq!(
        Mailer::process_template("File {filename} here, {filename}!", "r.pdf"),
        "File r.pdf here, r.pdf!"
    );
    assert_eq!(Mailer::get_filename("/tmp/mails/a.eml"), "a.eml");
    assert_eq!(Mailer::get_filename("plain.bin"), "plain.bin");
    assert_eq!(Mailer::get_filename("/x/"), "x");
    assert_eq!(Mailer::get_filename("/"), "未知文件");
    assert_eq!(Mailer::get_filename(""), "未知文件");
    assert_eq!(Mailer::get_filename("a/.."), "未知文件");
}

#[test]
fn test_failed_email_dest_name() {
    assert_eq!(u64_to_string(0), "0");
    assert_eq!(u64_to_string(1234567890123), "1234567890123");
    assert_eq!(failed_email_dest_name("a.eml", 17), "a_17.eml");
    assert_eq!(failed_email_dest_name("archive.tar.gz", 5), "archive.tar_5.gz");
    assert_eq!(failed_email_dest_name("noext", 5), "noext_5");
}
