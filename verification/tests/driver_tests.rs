use rsendmail::driver::{BatchAction, BatchDriver, BatchSettings, CmdEvent};
use rsendmail::session::{connection_fatal, keep_session_after_batch, session_plan, fail_batch, SessionPlan};
use rsendmail::config::Config;
use rsendmail::stats::Stats;

fn settings(recipients: Vec<&str>, interval_ms: u64) -> BatchSettings {
    BatchSettings {
        from: "sender@ex.com".to_string(),
        to_raw: recipients.join(","),
        recipients: recipients.into_iter().map(|s| s.to_string()).collect(),
        keep_headers: false,
        modify_headers: false,
        smtp_timeout: 30,
        email_send_interval_ms: interval_ms,
    }
}

/// One happy transaction: a single message file over a fresh session, plain
/// SMTP — one MAIL FROM, one RCPT TO, one DATA carrying the file bytes.
#[test]
fn single_eml_happy_path() {
    let content = vec![b'X'; 4096];
    let mut d = BatchDriver::new(
        settings(vec!["x@ex.com"], 0),
        vec!["a.eml".to_string()],
        None,
    );
    match d.next_action() {
        BatchAction::ReadFile { path } => assert_eq!(path, "a.eml"),
        _ => panic!("expected a read"),
    }
    d.on_read_result(Ok(content.clone()), 3);
    match d.next_action() {
        BatchAction::MailFrom { from, .. } => assert_eq!(from, "sender@ex.com"),
        _ => panic!("expected MAIL FROM"),
    }
    d.on_mail_from_result(CmdEvent::Accepted);
    match d.next_action() {
        BatchAction::RcptTo { addr, .. } => assert_eq!(addr, "x@ex.com"),
        _ => panic!("expected RCPT TO"),
    }
    d.on_rcpt_result(CmdEvent::Accepted);
    match d.next_action() {
        // Message-bytes equality: the DATA payload is the source file, byte
        // for byte, in the default (verbatim) mode.
        BatchAction::Data { bytes, .. } => assert_eq!(bytes, content),
        _ => panic!("expected DATA"),
    }
    d.on_data_result(CmdEvent::Accepted, 7);
    assert!(d.is_done());
    assert_eq!(d.stats.email_count, 1);
    assert_eq!(d.stats.send_errors, 0);
    assert_eq!(d.stats.parse_durations, vec![3]);
    assert_eq!(d.stats.send_durations, vec![7]);
    assert_eq!(d.rsets_sent, 0);
    assert!(!d.connection_should_reset);
    // With batch size one the session is never reused.
    assert!(!keep_session_after_batch(1, d.connection_should_reset));
}

/// Three messages in one batch: three transactions with exactly two RSET
/// between them, none after the last.
#[test]
fn batch_of_three_rset_between() {
    let mut d = BatchDriver::new(
        settings(vec!["x@ex.com"], 0),
        vec!["a.eml".to_string(), "b.eml".to_string(), "c.eml".to_string()],
        None,
    );
    let mut mail_from = 0;
    let mut rcpt = 0;
    let mut data = 0;
    let mut rset = 0;
    loop {
        match d.next_action() {
            BatchAction::ReadFile { path } => d.on_read_result(Ok(path.into_bytes()), 1),
            BatchAction::MailFrom { .. } => {
                mail_from += 1;
                d.on_mail_from_result(CmdEvent::Accepted);
            }
            BatchAction::RcptTo { .. } => {
                rcpt += 1;
                d.on_rcpt_result(CmdEvent::Accepted);
            }
            BatchAction::Data { .. } => {
                data += 1;
                d.on_data_result(CmdEvent::Accepted, 2);
            }
            BatchAction::Rset { .. } => {
                rset += 1;
                d.on_rset_result(CmdEvent::Accepted);
            }
            BatchAction::Sleep { .. } => panic!("no interval configured"),
            BatchAction::Finished => break,
        }
    }
    assert_eq!((mail_from, rcpt, data, rset), (3, 3, 3, 2));
    assert_eq!(d.stats.email_count, 3);
    // RSET discipline: one fewer RSET than transactions attempted.
    assert_eq!(d.rsets_sent, d.attempted - 1);
    assert_eq!(d.attempted, 3);
    // Outcome partition: successes plus terminal failures cover every
    // attempted source.
    assert_eq!(d.stats.email_count + d.failed_sources, d.attempted);
    // The session stayed healthy and the batch size allows reuse.
    assert!(keep_session_after_batch(10, d.connection_should_reset));
}

/// A 421 mid-batch aborts the batch, marks the session unusable, and the
/// remaining sources are attempted over a fresh session in the next batches.
#[test]
fn service_unavailable_mid_batch() {
    // Five sources in batches of two: [1,2], [3,4], [5].
    let mut total = Stats::new();
    let mut d = BatchDriver::new(
        settings(vec!["x@ex.com"], 0),
        vec!["m1.eml".to_string(), "m2.eml".to_string()],
        None,
    );
    // First source delivered.
    d.on_read_result(Ok(b"one".to_vec()), 1);
    d.on_mail_from_result(CmdEvent::Accepted);
    d.on_rcpt_result(CmdEvent::Accepted);
    d.on_data_result(CmdEvent::Accepted, 1);
    match d.next_action() {
        BatchAction::Rset { .. } => d.on_rset_result(CmdEvent::Accepted),
        _ => panic!("expected RSET"),
    }
    // Second source: the server shuts the door on MAIL FROM.
    d.on_read_result(Ok(b"two".to_vec()), 1);
    d.on_mail_from_result(CmdEvent::Refused("421 Service not available".to_string()));
    assert!(d.is_done());
    assert!(d.connection_should_reset);
    assert_eq!(d.stats.email_count, 1);
    assert_eq!(
        d.stats.error_count("设置发件人失败: 421 Service not available"),
        1
    );
    assert_eq!(
        d.stats.failed_files("设置发件人失败: 421 Service not available"),
        vec!["m2.eml".to_string()]
    );
    // The worker must not reuse this session.
    assert!(!keep_session_after_batch(2, d.connection_should_reset));
    total.merge(&d.stats);

    // The remaining three sources run over fresh sessions.
    for batch in [vec!["m3.eml", "m4.eml"], vec!["m5.eml"]] {
        let mut d2 = BatchDriver::new(
            settings(vec!["x@ex.com"], 0),
            batch.into_iter().map(|s| s.to_string()).collect(),
            None,
        );
        loop {
            match d2.next_action() {
                BatchAction::ReadFile { path } => d2.on_read_result(Ok(path.into_bytes()), 1),
                BatchAction::MailFrom { .. } => d2.on_mail_from_result(CmdEvent::Accepted),
                BatchAction::RcptTo { .. } => d2.on_rcpt_result(CmdEvent::Accepted),
                BatchAction::Data { .. } => d2.on_data_result(CmdEvent::Accepted, 2),
                BatchAction::Rset { .. } => d2.on_rset_result(CmdEvent::Accepted),
                BatchAction::Sleep { .. } => panic!("no interval configured"),
                BatchAction::Finished => break,
            }
        }
        total.merge(&d2.stats);
    }
    assert_eq!(total.email_count, 4);
    assert_eq!(total.send_errors, 1);
}

/// Authentication without TLS: no session is opened, every source of the
/// batch is recorded under the TLS-required class, nothing is delivered.
#[test]
fn auth_without_tls_refused() {
    let mut c = Config::default();
    c.smtp_server = "smtp.test".to_string();
    c.port = 25;
    c.use_tls = false;
    c.auth_mode = true;
    c.username = Some("u".to_string());
    c.password = Some("p".to_string());
    match session_plan(&c) {
        SessionPlan::RefuseNeedTls => {}
        _ => panic!("authentication without TLS must be refused"),
    }
    let batch = vec!["a.eml".to_string(), "b.eml".to_string(), "c.eml".to_string()];
    let mut stats = Stats::new();
    fail_batch(&mut stats, "认证失败: 需要TLS连接", &batch);
    assert_eq!(stats.email_count, 0);
    assert_eq!(stats.error_count("认证失败: 需要TLS连接"), 3);
    assert_eq!(stats.failed_files("认证失败: 需要TLS连接"), batch);
}

/// Missing credentials are refused before TLS is even considered.
#[test]
fn auth_without_credentials_refused() {
    let mut c = Config::default();
    c.auth_mode = true;
    c.use_tls = true;
    match session_plan(&c) {
        SessionPlan::RefuseMissingCredentials => {}
        _ => panic!("missing credentials must be refused"),
    }
}

/// Cancellation during the pause between messages: the first message is
/// delivered, then no further SMTP command is issued.
#[test]
fn cancellation_during_interval_sleep() {
    let mut d = BatchDriver::new(
        settings(vec!["x@ex.com"], 1000),
        vec!["a.eml".to_string(), "b.eml".to_string()],
        None,
    );
    d.on_read_result(Ok(b"first".to_vec()), 1);
    d.on_mail_from_result(CmdEvent::Accepted);
    d.on_rcpt_result(CmdEvent::Accepted);
    d.on_data_result(CmdEvent::Accepted, 1);
    match d.next_action() {
        BatchAction::Rset { .. } => d.on_rset_result(CmdEvent::Accepted),
        _ => panic!("expected RSET"),
    }
    match d.next_action() {
        BatchAction::Sleep { ms } => assert_eq!(ms, 1000),
        _ => panic!("expected the interval pause"),
    }
    d.on_slept(true);
    assert!(matches!(d.next_action(), BatchAction::Finished));
    assert!(d.is_done());
    assert!(!d.connection_should_reset);
    assert_eq!(d.stats.email_count, 1);
    assert_eq!(d.stats.send_errors, 0);
}

/// A failed DATA step sinks the original bytes, exactly as read.
#[test]
fn failed_send_sinks_original_bytes() {
    let original = b"Subject: hello\r\n\r\nbody".to_vec();
    let mut d = BatchDriver::new(
        settings(vec!["x@ex.com"], 0),
        vec!["keep.eml".to_string()],
        None,
    );
    d.on_read_result(Ok(original.clone()), 1);
    d.on_mail_from_result(CmdEvent::Accepted);
    d.on_rcpt_result(CmdEvent::Accepted);
    d.on_data_result(CmdEvent::Refused("550 rejected".to_string()), 1);
    assert!(d.is_done());
    assert_eq!(d.failed_to_save.len(), 1);
    assert_eq!(d.failed_to_save[0].path, "keep.eml");
    assert_eq!(d.failed_to_save[0].bytes.as_deref(), Some(original.as_slice()));
    assert_eq!(d.stats.error_count("邮件发送失败: 550 rejected"), 1);
}

/// A read failure is filed and sunk without bytes, and the batch goes on.
#[test]
fn read_failure_is_not_fatal() {
    let mut d = BatchDriver::new(
        settings(vec!["x@ex.com"], 0),
        vec!["gone.eml".to_string(), "ok.eml".to_string()],
        None,
    );
    d.on_read_result(Err("No such file".to_string()), 0);
    assert!(!d.is_done());
    assert_eq!(d.stats.error_count("读取文件失败: No such file"), 1);
    assert_eq!(d.failed_to_save.len(), 1);
    assert!(d.failed_to_save[0].bytes.is_none());
    match d.next_action() {
        BatchAction::Rset { .. } => d.on_rset_result(CmdEvent::Accepted),
        _ => panic!("expected RSET after the failed source"),
    }
    d.on_read_result(Ok(b"fine".to_vec()), 1);
    d.on_mail_from_result(CmdEvent::Accepted);
    d.on_rcpt_result(CmdEvent::Accepted);
    d.on_data_result(CmdEvent::Accepted, 1);
    assert!(d.is_done());
    assert_eq!(d.stats.email_count, 1);
    assert_eq!(d.stats.email_count + d.failed_sources, d.attempted);
}

/// Partial recipient acceptance: each failing recipient is filed on its own,
/// the transaction still proceeds; total recipient failure ends the source
/// with no extra class.
#[test]
fn recipient_failures() {
    let mut d = BatchDriver::new(
        settings(vec!["a@x.com", "b@x.com"], 0),
        vec!["m.eml".to_string()],
        None,
    );
    d.on_read_result(Ok(b"m".to_vec()), 1);
    d.on_mail_from_result(CmdEvent::Accepted);
    d.on_rcpt_result(CmdEvent::Refused("550 user unknown".to_string()));
    d.on_rcpt_result(CmdEvent::Accepted);
    d.on_data_result(CmdEvent::Accepted, 1);
    assert!(d.is_done());
    assert_eq!(d.stats.email_count, 1);
    assert_eq!(
        d.stats.error_count("设置收件人 a@x.com 失败: 550 user unknown"),
        1
    );
    assert_eq!(d.failed_sources, 0);

    let mut d2 = BatchDriver::new(
        settings(vec!["a@x.com"], 0),
        vec!["m.eml".to_string()],
        None,
    );
    d2.on_read_result(Ok(b"m".to_vec()), 1);
    d2.on_mail_from_result(CmdEvent::Accepted);
    d2.on_rcpt_result(CmdEvent::Refused("550 no".to_string()));
    assert!(d2.is_done());
    assert_eq!(d2.stats.email_count, 0);
    assert_eq!(d2.failed_sources, 1);
    assert_eq!(d2.stats.send_errors, 1);
}

/// An empty recipient list fails the source before any envelope command.
#[test]
fn no_valid_recipients() {
    let mut d = BatchDriver::new(settings(vec![], 0), vec!["m.eml".to_string()], None);
    d.on_read_result(Ok(b"m".to_vec()), 1);
    assert!(d.is_done());
    assert_eq!(d.stats.error_count("没有有效的收件人地址: "), 1);
    assert_eq!(d.failed_sources, 1);
}

/// The reset signals: the exact substrings of the contract, and nothing
/// harmless.
#[test]
fn connection_fatal_signals() {
    assert!(connection_fatal("421 Service not available"));
    assert!(connection_fatal("error: Cannot accept further commands"));
    assert!(connection_fatal("io: Broken pipe"));
    assert!(connection_fatal("io: Connection reset by peer"));
    assert!(connection_fatal("Unparseable SMTP reply"));
    assert!(connection_fatal("operation timeout"));
    assert!(connection_fatal("命令超时"));
    assert!(!connection_fatal("550 mailbox unavailable"));
    assert!(!connection_fatal(""));
}

/// A refused RSET is itself connection-fatal and ends the batch early.
#[test]
fn rset_refusal_aborts_batch() {
    let mut d = BatchDriver::new(
        settings(vec!["x@ex.com"], 0),
        vec!["a.eml".to_string(), "b.eml".to_string()],
        None,
    );
    d.on_read_result(Ok(b"a".to_vec()), 1);
    d.on_mail_from_result(CmdEvent::Accepted);
    d.on_rcpt_result(CmdEvent::Accepted);
    d.on_data_result(CmdEvent::Accepted, 1);
    d.on_rset_result(CmdEvent::Refused("451 cannot reset".to_string()));
    assert!(d.is_done());
    assert!(d.connection_should_reset);
    assert_eq!(d.rsets_sent, 1);
    assert_eq!(d.stats.email_count, 1);
}

/// A DATA timeout is classed on its own and, as every timeout, marks the
/// session unusable.
#[test]
fn data_timeout_resets_connection() {
    let mut d = BatchDriver::new(
        settings(vec!["x@ex.com"], 0),
        vec!["a.eml".to_string(), "b.eml".to_string()],
        None,
    );
    d.on_read_result(Ok(b"a".to_vec()), 1);
    d.on_mail_from_result(CmdEvent::Accepted);
    d.on_rcpt_result(CmdEvent::Accepted);
    d.on_data_result(CmdEvent::TimedOut, 1);
    assert!(d.is_done());
    assert!(d.connection_should_reset);
    assert_eq!(d.stats.error_count("邮件发送超时"), 1);
}
