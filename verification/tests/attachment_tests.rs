use rsendmail::attachment::{AttachAction, AttachmentRunner, AttachmentSettings};
use rsendmail::driver::{BatchAction, BatchDriver, BatchSettings, CmdEvent};
use rsendmail::message::{attachment_subject, attachment_text, resolve_mime};

fn settings(subject_template: Option<&str>) -> AttachmentSettings {
    AttachmentSettings {
        from: "sender@ex.com".to_string(),
        to_raw: "x@ex.com".to_string(),
        recipients: vec!["x@ex.com".to_string()],
        subject_template: subject_template.map(|s| s.to_string()),
        text_template: None,
        html_template: None,
        smtp_timeout: 30,
        email_send_interval_ms: 0,
    }
}

fn contains(hay: &[u8], needle: &str) -> bool {
    hay.windows(needle.len()).any(|w| w == needle.as_bytes())
}

/// The attachment-directory mode: a PDF is sniffed as application/pdf, an
/// unknown file falls back to application/octet-stream, and the subject
/// template is filled with each file name.
#[test]
fn attachment_dir_mode() {
    let mut r = AttachmentRunner::new(
        settings(Some("File {filename}")),
        vec!["att/r.pdf".to_string(), "att/q.bin".to_string()],
    );
    let mut sent: Vec<Vec<u8>> = Vec::new();
    loop {
        match r.next_action() {
            AttachAction::MailFrom { from, .. } => {
                assert_eq!(from, "sender@ex.com");
                r.on_mail_from_result(CmdEvent::Accepted);
            }
            AttachAction::RcptTo { addr, .. } => {
                assert_eq!(addr, "x@ex.com");
                r.on_rcpt_result(CmdEvent::Accepted);
            }
            AttachAction::ReadFile { path } => {
                if path.ends_with("r.pdf") {
                    r.on_read_result(Ok(b"%PDF-1.4 fake pdf body".to_vec()));
                } else {
                    r.on_read_result(Ok(vec![0x00, 0x01, 0x02, 0x03]));
                }
            }
            AttachAction::Data { bytes, .. } => {
                sent.push(bytes);
                r.on_data_result(CmdEvent::Accepted, 2);
            }
            AttachAction::Sleep { .. } => panic!("no interval configured"),
            AttachAction::Finished => break,
        }
    }
    assert_eq!(r.stats.email_count, 2);
    assert_eq!(r.stats.send_errors, 0);
    assert_eq!(sent.len(), 2);
    assert!(contains(&sent[0], "Subject: File r.pdf"));
    assert!(contains(&sent[0], "application/pdf"));
    assert!(contains(&sent[1], "Subject: File q.bin"));
    assert!(contains(&sent[1], "application/octet-stream"));
}

#[test]
fn attachment_default_templates() {
    assert_eq!(attachment_subject(&None, "r.pdf"), "附件: r.pdf");
    assert_eq!(
        attachment_subject(&Some("File {filename}".to_string()), "r.pdf"),
        "File r.pdf"
    );
    assert_eq!(attachment_text(&None, "r.pdf"), "请查收附件: r.pdf");
}

#[test]
fn mime_sniffing() {
    assert_eq!(resolve_mime(b"%PDF-1.7 ..."), "application/pdf");
    assert_eq!(resolve_mime(&[0xAA, 0xBB, 0xCC]), "application/octet-stream");
}

/// A refused sender fails the file but not the run; the outcome partition
/// holds at the end.
#[test]
fn attachment_sender_refused() {
    let mut r = AttachmentRunner::new(
        settings(None),
        vec!["a.bin".to_string(), "b.bin".to_string()],
    );
    r.on_mail_from_result(CmdEvent::Refused("550 no".to_string()));
    assert_eq!(r.stats.error_count("设置发件人失败: 550 no"), 1);
    r.on_mail_from_result(CmdEvent::Accepted);
    r.on_rcpt_result(CmdEvent::Accepted);
    r.on_read_result(Ok(b"bb".to_vec()));
    match r.next_action() {
        AttachAction::Data { .. } => r.on_data_result(CmdEvent::Accepted, 1),
        _ => panic!("expected DATA"),
    }
    assert!(r.is_done());
    assert_eq!(r.stats.email_count, 1);
    assert_eq!(r.stats.email_count + r.failed_files, r.attempted);
}

/// An unreadable attachment is classed with its error detail.
#[test]
fn attachment_read_failure() {
    let mut r = AttachmentRunner::new(settings(None), vec!["gone.bin".to_string()]);
    r.on_mail_from_result(CmdEvent::Accepted);
    r.on_rcpt_result(CmdEvent::Accepted);
    r.on_read_result(Err("No such file".to_string()));
    assert!(r.is_done());
    assert_eq!(r.stats.error_count("读取附件文件失败: No such file"), 1);
    assert_eq!(r.stats.email_count, 0);
}

/// Header rewriting builds a fresh message carrying the configured sender
/// and the parsed subject.
#[test]
fn modify_headers_rebuilds_message() {
    let mut d = BatchDriver::new(
        BatchSettings {
            from: "sender@ex.com".to_string(),
            to_raw: "x@ex.com".to_string(),
            recipients: vec!["x@ex.com".to_string()],
            keep_headers: false,
            modify_headers: true,
            smtp_timeout: 30,
            email_send_interval_ms: 0,
        },
        vec!["m.eml".to_string()],
        None,
    );
    let raw = b"From: old@other.net\r\nSubject: Keep me\r\n\r\nBody line\r\n".to_vec();
    d.on_read_result(Ok(raw.clone()), 1);
    d.on_mail_from_result(CmdEvent::Accepted);
    d.on_rcpt_result(CmdEvent::Accepted);
    match d.next_action() {
        BatchAction::Data { bytes, .. } => {
            assert_ne!(bytes, raw);
            assert!(contains(&bytes, "Subject: Keep me"));
            assert!(contains(&bytes, "sender@ex.com"));
            assert!(contains(&bytes, "Body line"));
            d.on_data_result(CmdEvent::Accepted, 1);
        }
        _ => panic!("expected DATA"),
    }
    assert!(d.is_done());
    assert_eq!(d.stats.email_count, 1);
}

/// An unparsable message under the header-rewriting policy fails with the
/// parse class and sinks its bytes.
#[test]
fn modify_headers_unparsable() {
    let mut d = BatchDriver::new(
        BatchSettings {
            from: "sender@ex.com".to_string(),
            to_raw: "x@ex.com".to_string(),
            recipients: vec!["x@ex.com".to_string()],
            keep_headers: false,
            modify_headers: true,
            smtp_timeout: 30,
            email_send_interval_ms: 0,
        },
        vec!["junk.eml".to_string()],
        None,
    );
    d.on_read_result(Ok(vec![]), 1);
    assert!(d.is_done());
    assert_eq!(d.stats.error_count("无法解析邮件文件"), 1);
    assert_eq!(d.failed_to_save.len(), 1);
}
