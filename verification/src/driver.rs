//! The batch driver: one worker's walk through one batch over one session.
//!
//! The driver is a decision machine. It performs no I/O itself: the
//! application asks `next_action` what to do — read a file, send one SMTP
//! command, sleep, stop — performs it, and reports what happened through the
//! `on_*` methods. Every per-batch decision lives here, verified: per-source
//! flow, error classes, the failed-bytes sink, the server-directed reset
//! policy, `RSET` between transactions and the pause between messages.

use vstd::prelude::*;

use crate::anonymizer::EmailAnonymizer;
use crate::message;
use crate::message::ParsedEmail;
use crate::stats::Stats;
use crate::strutil;

verus! {

/// What the configuration contributes to one batch.
#[derive(Debug, Clone)]
pub struct BatchSettings {
    /// Envelope sender.
    pub from: String,
    /// The raw `to` field, for the no-valid-recipient error text.
    pub to_raw: String,
    /// The effective recipient list, already parsed.
    pub recipients: Vec<String>,
    /// Send the file bytes verbatim, labelled as keeping headers.
    pub keep_headers: bool,
    /// Rebuild the message from its parsed subject and bodies.
    pub modify_headers: bool,
    /// Per-command timeout in seconds.
    pub smtp_timeout: u64,
    /// Pause between messages, in milliseconds.
    pub email_send_interval_ms: u64,
}

/// Where the driver stands.
#[derive(Debug, Clone, Copy, PartialEq, Eq, Structural)]
pub enum BatchPhase {
    /// About to read the current source from disk.
    Reading,
    /// Awaiting the reply to `MAIL FROM`.
    MailFrom,
    /// Awaiting the reply to one `RCPT TO`.
    Rcpt,
    /// Awaiting the reply to `DATA` with the wire bytes.
    Data,
    /// Awaiting the reply to the `RSET` between transactions.
    Rset,
    /// Awaiting the pause between messages.
    Sleeping,
    /// The batch is over.
    Done,
}

/// What the application must do next.
#[derive(Debug)]
pub enum BatchAction {
    /// Read this file and report `on_read_result`.
    ReadFile { path: String },
    /// Send `MAIL FROM` and report `on_mail_from_result`.
    MailFrom { from: String, timeout_s: u64 },
    /// Send `RCPT TO` and report `on_rcpt_result`.
    RcptTo { addr: String, timeout_s: u64 },
    /// Send `DATA` with these bytes and report `on_data_result`.
    Data { bytes: Vec<u8>, timeout_s: u64 },
    /// Send `RSET` and report `on_rset_result`.
    Rset { timeout_s: u64 },
    /// Sleep, polling cancellation, and report `on_slept`.
    Sleep { ms: u64 },
    /// The batch is over: nothing more to do.
    Finished,
}

/// How one SMTP command went.
#[derive(Debug, Clone)]
pub enum CmdEvent {
    /// The server accepted the command.
    Accepted,
    /// The server or the transport refused it, with this error text.
    Refused(String),
    /// The command did not complete within the timeout.
    TimedOut,
}

/// One failed source for the failed-e-mail sink: the path and, when the
/// content had been read, the very bytes that were read.
#[derive(Debug, Clone)]
pub struct FailedSave {
    /// The source path.
    pub path: String,
    /// The source bytes as read from disk, when the failure came at or after
    /// the read; `None` when the read itself failed.
    pub bytes: Option<Vec<u8>>,
}

/// The sink grew by exactly one entry with this path and these bytes.
pub open spec fn sink_pushed(
    pre: Seq<FailedSave>,
    post: Seq<FailedSave>,
    path: Seq<char>,
    bytes: Option<Seq<u8>>,
) -> bool {
    &&& post.len() == pre.len() + 1
    &&& forall|i: int| 0 <= i < pre.len() ==> post[i] == pre[i]
    &&& post.last().path@ == path
    &&& match (post.last().bytes, bytes) {
        (Some(a), Some(b)) => a@ == b,
        (None, None) => true,
        _ => false,
    }
}

/// The driver for one batch.
pub struct BatchDriver {
    /// The batch's slice of the configuration.
    pub settings: BatchSettings,
    /// The per-worker address rewriter, when anonymisation is on.
    pub anonymizer: Option<EmailAnonymizer>,
    /// The batch: source paths in order.
    pub sources: Vec<String>,
    /// The current source.
    pub idx: usize,
    /// Where the driver stands.
    pub phase: BatchPhase,
    /// The next recipient to announce, in the `Rcpt` phase.
    pub rcpt_idx: usize,
    /// Whether any recipient of the current transaction was accepted.
    pub any_rcpt_ok: bool,
    /// The current source's bytes as read from disk.
    pub raw_content: Vec<u8>,
    /// The current source's bytes after anonymisation.
    pub content: Vec<u8>,
    /// The bytes the `DATA` step will carry.
    pub wire_content: Vec<u8>,
    /// The current source's parsed pieces, when headers are rewritten.
    pub parsed: Option<ParsedEmail>,
    /// Time spent reading and preparing the current source, in milliseconds.
    pub parse_ms: u64,
    /// The batch's accounting.
    pub stats: Stats,
    /// The failed sources to persist, in order of failure.
    pub failed_to_save: Vec<FailedSave>,
    /// A server-directed reset was seen: the session must be discarded.
    pub connection_should_reset: bool,
    /// The operator asked to stop.
    pub cancelled: bool,
    /// Sources whose processing began.
    pub attempted: usize,
    /// `RSET` commands sent, successful or not.
    pub rsets_sent: usize,
    /// Sources that ended in a terminal failure.
    pub failed_sources: usize,
}

impl BatchDriver {
    /// Whether the driver is mid-transaction, between `MAIL FROM` and the
    /// `DATA` reply.
    pub open spec fn in_transaction(&self) -> bool {
        self.phase == BatchPhase::MailFrom || self.phase == BatchPhase::Rcpt || self.phase
            == BatchPhase::Data
    }

    /// The driver's invariant. Besides the bookkeeping bounds it carries the
    /// engine's accounting laws:
    /// - every source whose processing began has ended in exactly one of
    ///   success or terminal failure (mid-transaction, the current one is
    ///   still open);
    /// - one `RSET` stands between consecutive transactions, so a batch that
    ///   runs to its natural end has sent exactly one fewer `RSET` than it
    ///   attempted transactions;
    /// - the failed-bytes sink holds exactly one entry per terminal failure;
    /// - with anonymisation off, the prepared content is the very bytes read,
    ///   and when the headers are not rewritten, the wire bytes are the
    ///   prepared content.
    pub open spec fn wf(&self) -> bool {
        let len = self.sources@.len() as int;
        &&& self.stats.wf()
        &&& self.stats.parse_errors == 0
        &&& self.sources@.len() < usize::MAX
        &&& self.idx <= len
        &&& self.attempted <= len
        &&& (self.anonymizer matches Some(a) ==> a.wf())
        &&& (self.phase != BatchPhase::Done ==> !self.connection_should_reset)
        &&& match self.phase {
            BatchPhase::Reading => self.idx < len && self.attempted == self.idx
                && self.rsets_sent == if self.attempted == 0 {
                0int
            } else {
                self.attempted as int
            },
            BatchPhase::MailFrom | BatchPhase::Rcpt | BatchPhase::Data => self.idx < len
                && self.attempted == self.idx + 1 && self.rsets_sent == self.attempted - 1
                && self.settings.recipients@.len() > 0,
            BatchPhase::Rset => self.idx < len && self.attempted == self.idx && self.attempted >= 1
                && self.rsets_sent == self.attempted - 1,
            BatchPhase::Sleeping => self.idx < len && self.attempted == self.idx
                && self.attempted >= 1 && self.rsets_sent == self.attempted,
            BatchPhase::Done => true,
        }
        &&& (self.phase == BatchPhase::Rcpt ==> self.rcpt_idx < self.settings.recipients@.len())
        &&& (if self.in_transaction() {
            self.stats.email_count + self.failed_sources == self.attempted - 1
        } else {
            self.stats.email_count + self.failed_sources == self.attempted as int
        })
        &&& (self.phase == BatchPhase::Done && !self.connection_should_reset && !self.cancelled
            ==> self.attempted == len && (if self.attempted == 0 {
            self.rsets_sent == 0
        } else {
            self.rsets_sent == self.attempted - 1
        }))
        &&& self.failed_sources == self.failed_to_save@.len()
        &&& (self.in_transaction() && self.anonymizer is None ==> self.content@
            == self.raw_content@)
        &&& (self.in_transaction() && self.settings.modify_headers ==> self.parsed is Some)
        &&& (self.phase == BatchPhase::Data && !self.settings.modify_headers ==> self.wire_content@
            == self.content@)
    }

    /// A driver at the start of a batch: nothing attempted, nothing failed,
    /// fresh accounting.
    pub fn new(
        settings: BatchSettings,
        sources: Vec<String>,
        anonymizer: Option<EmailAnonymizer>,
    ) -> (r: BatchDriver)
        requires
            sources@.len() < usize::MAX,
            anonymizer matches Some(a) ==> a.wf(),
        ensures
            r.wf(),
            r.settings == settings,
            r.sources == sources,
            r.anonymizer == anonymizer,
            r.idx == 0,
            r.attempted == 0,
            r.rsets_sent == 0,
            r.failed_sources == 0,
            r.stats.email_count == 0,
            r.stats.send_errors == 0,
            r.stats.parse_durations@ == Seq::<u64>::empty(),
            r.stats.send_durations@ == Seq::<u64>::empty(),
            r.stats.total_duration_ms == 0,
            r.stats.error_details@ == Seq::<crate::stats::ErrorEntry>::empty(),
            r.failed_to_save@ == Seq::<FailedSave>::empty(),
            !r.connection_should_reset,
            !r.cancelled,
            r.phase == if sources@.len() == 0 {
                BatchPhase::Done
            } else {
                BatchPhase::Reading
            },
    {
        let phase = if sources.len() == 0 {
            BatchPhase::Done
        } else {
            BatchPhase::Reading
        };
        BatchDriver {
            settings,
            anonymizer,
            sources,
            idx: 0,
            phase,
            rcpt_idx: 0,
            any_rcpt_ok: false,
            raw_content: Vec::new(),
            content: Vec::new(),
            wire_content: Vec::new(),
            parsed: None,
            parse_ms: 0,
            stats: Stats::new(),
            failed_to_save: Vec::new(),
            connection_should_reset: false,
            cancelled: false,
            attempted: 0,
            rsets_sent: 0,
            failed_sources: 0,
        }
    }

    /// Notes the operator's stop request. The transaction in flight is not
    /// aborted mid-wire; the driver stops at the next boundary.
    pub fn cancel(&mut self)
        requires
            old(self).wf(),
        ensures
            final(self).wf(),
            *final(self) == (BatchDriver { cancelled: true, ..*old(self) }),
    {
        self.cancelled = true;
    }

    /// What the application must do next: read the current source, send the
    /// next command with the wire bytes or the next recipient, reset, sleep,
    /// or stop. Cancellation at a transaction boundary ends the batch.
    pub fn next_action(&self) -> (r: BatchAction)
        requires
            self.wf(),
        ensures
            match self.phase {
                BatchPhase::Done => r is Finished,
                BatchPhase::Reading => if self.cancelled {
                    r is Finished
                } else {
                    r matches BatchAction::ReadFile { path } && path@
                        == self.sources@[self.idx as int]@
                },
                BatchPhase::MailFrom => r matches BatchAction::MailFrom { from, timeout_s }
                    && from@ == self.settings.from@ && timeout_s == self.settings.smtp_timeout,
                BatchPhase::Rcpt => r matches BatchAction::RcptTo { addr, timeout_s } && addr@
                    == self.settings.recipients@[self.rcpt_idx as int]@ && timeout_s
                    == self.settings.smtp_timeout,
                BatchPhase::Data => r matches BatchAction::Data { bytes, timeout_s } && bytes@
                    == self.wire_content@ && timeout_s == self.settings.smtp_timeout,
                BatchPhase::Rset => r matches BatchAction::Rset { timeout_s } && timeout_s
                    == self.settings.smtp_timeout,
                BatchPhase::Sleeping => r matches BatchAction::Sleep { ms } && ms
                    == self.settings.email_send_interval_ms,
            },
    {
        match self.phase {
            BatchPhase::Done => BatchAction::Finished,
            BatchPhase::Reading => {
                if self.cancelled {
                    BatchAction::Finished
                } else {
                    BatchAction::ReadFile { path: self.sources[self.idx].clone() }
                }
            },
            BatchPhase::MailFrom => BatchAction::MailFrom {
                from: self.settings.from.clone(),
                timeout_s: self.settings.smtp_timeout,
            },
            BatchPhase::Rcpt => BatchAction::RcptTo {
                addr: self.settings.recipients[self.rcpt_idx].clone(),
                timeout_s: self.settings.smtp_timeout,
            },
            BatchPhase::Data => BatchAction::Data {
                bytes: self.wire_content.clone(),
                timeout_s: self.settings.smtp_timeout,
            },
            BatchPhase::Rset => BatchAction::Rset { timeout_s: self.settings.smtp_timeout },
            BatchPhase::Sleeping => BatchAction::Sleep {
                ms: self.settings.email_send_interval_ms,
            },
        }
    }

    /// The phase that follows a finished source: the batch ends when no
    /// source remains or the operator asked to stop; otherwise an `RSET`
    /// separates this transaction from the next.
    pub open spec fn spec_after_source(idx_new: int, len: int, cancelled: bool) -> BatchPhase {
        if idx_new == len || cancelled {
            BatchPhase::Done
        } else {
            BatchPhase::Rset
        }
    }

    /// Moves past the current source once its outcome is recorded.
    fn advance(&mut self)
        requires
            old(self).idx < old(self).sources@.len(),
            old(self).sources@.len() < usize::MAX,
        ensures
            *final(self) == (BatchDriver {
                idx: (old(self).idx + 1) as usize,
                phase: Self::spec_after_source(
                    old(self).idx + 1,
                    old(self).sources@.len() as int,
                    old(self).cancelled,
                ),
                ..*old(self)
            }),
    {
        self.idx = self.idx + 1;
        self.phase = if self.idx == self.sources.len() || self.cancelled {
            BatchPhase::Done
        } else {
            BatchPhase::Rset
        };
    }

    /// Takes the outcome of reading the current source. A read failure is
    /// classed `读取文件失败` and sunk without bytes. Read bytes are
    /// anonymised when configured; under the header-rewriting policy they
    /// must parse, else the source fails as `无法解析邮件文件` and the bytes
    /// are sunk; with no valid recipient the source fails as
    /// `没有有效的收件人地址`. Otherwise the transaction opens with
    /// `MAIL FROM`.
    pub fn on_read_result(&mut self, r: Result<Vec<u8>, String>, parse_ms: u64)
        requires
            old(self).wf(),
            old(self).phase == BatchPhase::Reading,
            !old(self).cancelled,
            old(self).stats.send_errors < usize::MAX,
        ensures
            final(self).wf(),
            final(self).settings == old(self).settings,
            final(self).sources == old(self).sources,
            final(self).cancelled == old(self).cancelled,
            final(self).attempted == old(self).attempted + 1,
            final(self).rsets_sent == old(self).rsets_sent,
            !final(self).connection_should_reset,
            match r {
                Err(e) => {
                    let src = old(self).sources@[old(self).idx as int]@;
                    &&& crate::stats::stats_failed_once(
                        old(self).stats,
                        final(self).stats,
                        "读取文件失败: "@ + e@,
                        src,
                    )
                    &&& sink_pushed(
                        old(self).failed_to_save@,
                        final(self).failed_to_save@,
                        src,
                        None,
                    )
                    &&& final(self).failed_sources == old(self).failed_sources + 1
                    &&& final(self).idx == old(self).idx + 1
                    &&& final(self).phase == Self::spec_after_source(
                        old(self).idx + 1,
                        old(self).sources@.len() as int,
                        false,
                    )
                    &&& final(self).anonymizer == old(self).anonymizer
                },
                Ok(bytes) => {
                    let src = old(self).sources@[old(self).idx as int]@;
                    &&& final(self).raw_content@ == bytes@
                    &&& (old(self).anonymizer is None ==> final(self).anonymizer is None && final(self).content@ == bytes@)
                    &&& (old(self).anonymizer matches Some(a0) ==> final(self).anonymizer matches Some(a1) && a1.wf() && (vstd::utf8::valid_utf8(bytes@)
                        ==> final(self).content@ == crate::anonymizer::anonymized(
                        bytes@,
                        a1.map_view(),
                    )) && (!vstd::utf8::valid_utf8(bytes@) ==> final(self).content@ == bytes@) && (
                    forall|k: Seq<u8>|
                        crate::anonymizer::has_key(a0.map_view(), k)
                            ==> crate::anonymizer::has_key(a1.map_view(), k)
                            && crate::anonymizer::value_at(a1.map_view(), k)
                            == crate::anonymizer::value_at(a0.map_view(), k)))
                    &&& if old(self).settings.modify_headers && message::eml_parse(
                        final(self).content@,
                    ) is None {
                        &&& crate::stats::stats_failed_once(
                            old(self).stats,
                            final(self).stats,
                            "无法解析邮件文件"@,
                            src,
                        )
                        &&& sink_pushed(
                            old(self).failed_to_save@,
                            final(self).failed_to_save@,
                            src,
                            Some(bytes@),
                        )
                        &&& final(self).failed_sources == old(self).failed_sources + 1
                        &&& final(self).idx == old(self).idx + 1
                        &&& final(self).phase == Self::spec_after_source(
                            old(self).idx + 1,
                            old(self).sources@.len() as int,
                            false,
                        )
                    } else if old(self).settings.recipients@.len() == 0 {
                        &&& crate::stats::stats_failed_once(
                            old(self).stats,
                            final(self).stats,
                            "没有有效的收件人地址: "@ + old(self).settings.to_raw@,
                            src,
                        )
                        &&& sink_pushed(
                            old(self).failed_to_save@,
                            final(self).failed_to_save@,
                            src,
                            Some(bytes@),
                        )
                        &&& final(self).failed_sources == old(self).failed_sources + 1
                        &&& final(self).idx == old(self).idx + 1
                        &&& final(self).phase == Self::spec_after_source(
                            old(self).idx + 1,
                            old(self).sources@.len() as int,
                            false,
                        )
                    } else {
                        &&& final(self).stats == old(self).stats
                        &&& final(self).failed_to_save == old(self).failed_to_save
                        &&& final(self).failed_sources == old(self).failed_sources
                        &&& final(self).idx == old(self).idx
                        &&& final(self).phase == BatchPhase::MailFrom
                        &&& final(self).parse_ms == parse_ms
                        &&& (old(self).settings.modify_headers ==> (final(self).parsed matches Some(p) && message::eml_parse(
                            final(self).content@,
                        ) matches Some(f) && (match (&p.subject, f.0) {
                            (Some(a), Some(b)) => a@ == b,
                            (None, None) => true,
                            _ => false,
                        }) && (match (&p.text_body, f.1) {
                            (Some(a), Some(b)) => a@ == b,
                            (None, None) => true,
                            _ => false,
                        }) && (match (&p.html_body, f.2) {
                            (Some(a), Some(b)) => a@ == b,
                            (None, None) => true,
                            _ => false,
                        })))
                    }
                },
            },
    {
        let src = self.sources[self.idx].clone();
        self.attempted = self.attempted + 1;
        match r {
            Err(e) => {
                let class = strutil::concat_str("读取文件失败: ", e.as_str());
                self.stats.increment_error(class.as_str(), src.as_str());
                self.failed_to_save.push(FailedSave { path: src, bytes: None });
                self.failed_sources = self.failed_sources + 1;
                self.advance();
            },
            Ok(bytes) => {
                self.raw_content = bytes;
                let prepared = match &mut self.anonymizer {
                    Some(a) => a.anonymize_binary(self.raw_content.as_slice()),
                    None => self.raw_content.clone(),
                };
                self.content = prepared;
                self.parse_ms = parse_ms;
                if self.settings.modify_headers {
                    match message::parse_eml(self.content.as_slice()) {
                        Some(p) => {
                            self.parsed = Some(p);
                        },
                        None => {
                            self.stats.increment_error("无法解析邮件文件", src.as_str());
                            self.failed_to_save.push(
                                FailedSave { path: src, bytes: Some(self.raw_content.clone()) },
                            );
                            self.failed_sources = self.failed_sources + 1;
                            self.advance();
                            return ;
                        },
                    }
                }
                if self.settings.recipients.len() == 0 {
                    let class = strutil::concat_str(
                        "没有有效的收件人地址: ",
                        self.settings.to_raw.as_str(),
                    );
                    self.stats.increment_error(class.as_str(), src.as_str());
                    self.failed_to_save.push(
                        FailedSave { path: src, bytes: Some(self.raw_content.clone()) },
                    );
                    self.failed_sources = self.failed_sources + 1;
                    self.advance();
                    return ;
                }
                self.rcpt_idx = 0;
                self.any_rcpt_ok = false;
                self.phase = BatchPhase::MailFrom;
            },
        }
    }

    /// How the state changes when the wire bytes for the current source are
    /// put in place: under the verbatim policies the wire bytes are exactly
    /// the prepared content and the driver awaits `DATA`; under the
    /// header-rewriting policy the driver either awaits `DATA` with the
    /// rebuilt bytes, or — when the builder fails — the source is classed
    /// `构建邮件内容失败`, its bytes are sunk, and the driver moves on.
    pub open spec fn spec_entered_data(pre: Self, post: Self) -> bool {
        let src = pre.sources@[pre.idx as int]@;
        &&& post.settings == pre.settings
        &&& post.sources == pre.sources
        &&& post.anonymizer == pre.anonymizer
        &&& post.cancelled == pre.cancelled
        &&& post.attempted == pre.attempted
        &&& post.rsets_sent == pre.rsets_sent
        &&& !post.connection_should_reset
        &&& post.raw_content == pre.raw_content
        &&& post.content == pre.content
        &&& post.parse_ms == pre.parse_ms
        &&& if !pre.settings.modify_headers {
            &&& post.phase == BatchPhase::Data
            &&& post.wire_content@ == pre.content@
            &&& post.stats == pre.stats
            &&& post.failed_to_save == pre.failed_to_save
            &&& post.failed_sources == pre.failed_sources
            &&& post.idx == pre.idx
        } else {
            ||| {
                &&& post.phase == BatchPhase::Data
                &&& post.stats == pre.stats
                &&& post.failed_to_save == pre.failed_to_save
                &&& post.failed_sources == pre.failed_sources
                &&& post.idx == pre.idx
            }
            ||| (exists|e: Seq<char>|
                {
                    &&& crate::stats::stats_failed_once(
                        pre.stats,
                        post.stats,
                        "构建邮件内容失败: "@ + e,
                        src,
                    )
                    &&& sink_pushed(
                        pre.failed_to_save@,
                        post.failed_to_save@,
                        src,
                        Some(pre.raw_content@),
                    )
                    &&& post.failed_sources == pre.failed_sources + 1
                    &&& post.idx == pre.idx + 1
                    &&& post.phase == Self::spec_after_source(
                        pre.idx + 1,
                        pre.sources@.len() as int,
                        pre.cancelled,
                    )
                })
        }
    }

    /// Puts the wire bytes in place and awaits `DATA`; see
    /// `spec_entered_data`.
    fn begin_data(&mut self)
        requires
            old(self).wf(),
            old(self).phase == BatchPhase::Rcpt,
            old(self).stats.send_errors < usize::MAX,
        ensures
            final(self).wf(),
            Self::spec_entered_data(*old(self), *final(self)),
    {
        if !self.settings.modify_headers {
            self.wire_content = self.content.clone();
            self.phase = BatchPhase::Data;
            return ;
        }
        let (subject, text, html) = match &self.parsed {
            Some(p) => {
                let subject = match &p.subject {
                    Some(sv) => sv.clone(),
                    None => "No Subject".to_owned(),
                };
                let text = match &p.text_body {
                    Some(t) => t.clone(),
                    None => String::new(),
                };
                (subject, text, p.html_body.clone())
            },
            None => ("No Subject".to_owned(), String::new(), None),
        };
        match message::build_modified_message(
            self.settings.from.as_str(),
            &self.settings.recipients,
            subject.as_str(),
            text.as_str(),
            &html,
        ) {
            Ok(v) => {
                self.wire_content = v;
                self.phase = BatchPhase::Data;
            },
            Err(e) => {
                let src = self.sources[self.idx].clone();
                let class = strutil::concat_str("构建邮件内容失败: ", e.as_str());
                self.stats.increment_error(class.as_str(), src.as_str());
                self.failed_to_save.push(
                    FailedSave { path: src, bytes: Some(self.raw_content.clone()) },
                );
                self.failed_sources = self.failed_sources + 1;
                self.advance();
                proof {
                    assert(crate::stats::stats_failed_once(
                        old(self).stats,
                        self.stats,
                        "构建邮件内容失败: "@ + e@,
                        old(self).sources@[old(self).idx as int]@,
                    ));
                }
            },
        }
    }

    /// Takes the reply to `MAIL FROM`. A refusal is classed
    /// `设置发件人失败` with the server's text, the source's bytes are sunk,
    /// and — when the text carries a reset signal — the batch is aborted and
    /// the session marked unusable; a timeout counts as the refusal `超时`.
    pub fn on_mail_from_result(&mut self, ev: CmdEvent)
        requires
            old(self).wf(),
            old(self).phase == BatchPhase::MailFrom,
            old(self).stats.send_errors < usize::MAX,
        ensures
            final(self).wf(),
            final(self).settings == old(self).settings,
            final(self).sources == old(self).sources,
            final(self).anonymizer == old(self).anonymizer,
            final(self).cancelled == old(self).cancelled,
            final(self).attempted == old(self).attempted,
            final(self).rsets_sent == old(self).rsets_sent,
            final(self).raw_content == old(self).raw_content,
            final(self).content == old(self).content,
            final(self).parse_ms == old(self).parse_ms,
            match ev {
                CmdEvent::Accepted => {
                    &&& final(self).phase == BatchPhase::Rcpt
                    &&& final(self).rcpt_idx == 0
                    &&& final(self).any_rcpt_ok == false
                    &&& final(self).stats == old(self).stats
                    &&& final(self).failed_to_save == old(self).failed_to_save
                    &&& final(self).failed_sources == old(self).failed_sources
                    &&& final(self).idx == old(self).idx
                    &&& !final(self).connection_should_reset
                },
                CmdEvent::Refused(e) => Self::spec_sender_failed(
                    *old(self),
                    *final(self),
                    e@,
                ),
                CmdEvent::TimedOut => Self::spec_sender_failed(*old(self), *final(self), "超时"@),
            },
    {
        match ev {
            CmdEvent::Accepted => {
                self.rcpt_idx = 0;
                self.any_rcpt_ok = false;
                self.phase = BatchPhase::Rcpt;
            },
            CmdEvent::Refused(e) => {
                self.fail_sender(e);
            },
            CmdEvent::TimedOut => {
                self.fail_sender("超时".to_owned());
            },
        }
    }

    /// How the state changes when `MAIL FROM` fails with detail `e`: the
    /// class `设置发件人失败: <e>` is filed, the bytes are sunk, and the
    /// batch aborts when the text carries a reset signal.
    pub open spec fn spec_sender_failed(pre: Self, post: Self, e: Seq<char>) -> bool {
        let src = pre.sources@[pre.idx as int]@;
        let class = "设置发件人失败: "@ + e;
        &&& crate::stats::stats_failed_once(pre.stats, post.stats, class, src)
        &&& sink_pushed(pre.failed_to_save@, post.failed_to_save@, src, Some(pre.raw_content@))
        &&& post.failed_sources == pre.failed_sources + 1
        &&& if crate::session::spec_connection_fatal(class) {
            &&& post.connection_should_reset
            &&& post.phase == BatchPhase::Done
            &&& post.idx == pre.idx
        } else {
            &&& !post.connection_should_reset
            &&& post.idx == pre.idx + 1
            &&& post.phase == Self::spec_after_source(
                pre.idx + 1,
                pre.sources@.len() as int,
                pre.cancelled,
            )
        }
    }

    /// Files a `MAIL FROM` failure and aborts or moves on.
    fn fail_sender(&mut self, detail: String)
        requires
            old(self).wf(),
            old(self).phase == BatchPhase::MailFrom,
            old(self).stats.send_errors < usize::MAX,
        ensures
            final(self).wf(),
            final(self).settings == old(self).settings,
            final(self).sources == old(self).sources,
            final(self).anonymizer == old(self).anonymizer,
            final(self).cancelled == old(self).cancelled,
            final(self).attempted == old(self).attempted,
            final(self).rsets_sent == old(self).rsets_sent,
            final(self).raw_content == old(self).raw_content,
            final(self).content == old(self).content,
            final(self).parse_ms == old(self).parse_ms,
            Self::spec_sender_failed(*old(self), *final(self), detail@),
    {
        let src = self.sources[self.idx].clone();
        let class = strutil::concat_str("设置发件人失败: ", detail.as_str());
        self.stats.increment_error(class.as_str(), src.as_str());
        self.failed_to_save.push(
            FailedSave { path: src, bytes: Some(self.raw_content.clone()) },
        );
        self.failed_sources = self.failed_sources + 1;
        if crate::session::connection_fatal(class.as_str()) {
            self.connection_should_reset = true;
            self.phase = BatchPhase::Done;
        } else {
            self.advance();
        }
    }

    /// How the state changes when one `RCPT TO` fails with detail `e`: the
    /// class `设置收件人 <addr> 失败: <e>` is filed for this source. A reset
    /// signal in the text aborts the batch, sinking the bytes. Otherwise the
    /// remaining recipients are still tried; when every recipient of the
    /// transaction failed, the source is over — already counted per
    /// recipient — and its bytes are sunk; with at least one acceptance the
    /// transaction proceeds to the wire bytes.
    pub open spec fn spec_rcpt_failed(pre: Self, post: Self, e: Seq<char>) -> bool {
        let src = pre.sources@[pre.idx as int]@;
        let addr = pre.settings.recipients@[pre.rcpt_idx as int]@;
        let class = "设置收件人 "@ + addr + " 失败: "@ + e;
        let last = pre.rcpt_idx + 1 == pre.settings.recipients@.len();
        &&& if crate::session::spec_connection_fatal(class) {
            &&& crate::stats::stats_failed_once(pre.stats, post.stats, class, src)
            &&& post.connection_should_reset
            &&& post.phase == BatchPhase::Done
            &&& sink_pushed(
                pre.failed_to_save@,
                post.failed_to_save@,
                src,
                Some(pre.raw_content@),
            )
            &&& post.failed_sources == pre.failed_sources + 1
        } else if !last {
            &&& crate::stats::stats_failed_once(pre.stats, post.stats, class, src)
            &&& !post.connection_should_reset
            &&& post.phase == BatchPhase::Rcpt
            &&& post.rcpt_idx == pre.rcpt_idx + 1
            &&& post.any_rcpt_ok == pre.any_rcpt_ok
            &&& post.failed_to_save == pre.failed_to_save
            &&& post.failed_sources == pre.failed_sources
            &&& post.idx == pre.idx
        } else if pre.any_rcpt_ok {
            exists|mid: Stats|
                {
                    &&& crate::stats::stats_failed_once(pre.stats, mid, class, src)
                    &&& Self::spec_entered_data(
                        BatchDriver { stats: mid, ..pre },
                        post,
                    )
                }
        } else {
            &&& crate::stats::stats_failed_once(pre.stats, post.stats, class, src)
            &&& !post.connection_should_reset
            &&& sink_pushed(
                pre.failed_to_save@,
                post.failed_to_save@,
                src,
                Some(pre.raw_content@),
            )
            &&& post.failed_sources == pre.failed_sources + 1
            &&& post.idx == pre.idx + 1
            &&& post.phase == Self::spec_after_source(
                pre.idx + 1,
                pre.sources@.len() as int,
                pre.cancelled,
            )
        }
    }

    /// Takes the reply to one `RCPT TO`; see `spec_rcpt_failed` for the
    /// failure discipline. An acceptance marks the transaction deliverable
    /// and moves to the next recipient, or to the wire bytes after the last.
    pub fn on_rcpt_result(&mut self, ev: CmdEvent)
        requires
            old(self).wf(),
            old(self).phase == BatchPhase::Rcpt,
            old(self).stats.send_errors + 1 < usize::MAX,
        ensures
            final(self).wf(),
            final(self).settings == old(self).settings,
            final(self).sources == old(self).sources,
            final(self).anonymizer == old(self).anonymizer,
            final(self).cancelled == old(self).cancelled,
            final(self).attempted == old(self).attempted,
            final(self).rsets_sent == old(self).rsets_sent,
            final(self).raw_content == old(self).raw_content,
            final(self).content == old(self).content,
            final(self).parse_ms == old(self).parse_ms,
            match ev {
                CmdEvent::Accepted => {
                    let last = old(self).rcpt_idx + 1 == old(self).settings.recipients@.len();
                    &&& if !last {
                        &&& final(self).stats == old(self).stats
                        &&& final(self).phase == BatchPhase::Rcpt
                        &&& final(self).rcpt_idx == old(self).rcpt_idx + 1
                        &&& final(self).any_rcpt_ok
                        &&& final(self).failed_to_save == old(self).failed_to_save
                        &&& final(self).failed_sources == old(self).failed_sources
                        &&& final(self).idx == old(self).idx
                        &&& !final(self).connection_should_reset
                    } else {
                        Self::spec_entered_data(
                            BatchDriver { any_rcpt_ok: true, ..*old(self) },
                            *final(self),
                        )
                    }
                },
                CmdEvent::Refused(e) => Self::spec_rcpt_failed(*old(self), *final(self), e@),
                CmdEvent::TimedOut => Self::spec_rcpt_failed(*old(self), *final(self), "超时"@),
            },
    {
        match ev {
            CmdEvent::Accepted => {
                self.any_rcpt_ok = true;
                let nrec = self.settings.recipients.len();
                if self.rcpt_idx < nrec - 1 {
                    self.rcpt_idx = self.rcpt_idx + 1;
                } else {
                    self.begin_data();
                }
            },
            CmdEvent::Refused(e) => {
                self.fail_rcpt(e);
            },
            CmdEvent::TimedOut => {
                self.fail_rcpt("超时".to_owned());
            },
        }
    }

    /// Files one `RCPT TO` failure and decides how the transaction goes on.
    fn fail_rcpt(&mut self, detail: String)
        requires
            old(self).wf(),
            old(self).phase == BatchPhase::Rcpt,
            old(self).stats.send_errors + 1 < usize::MAX,
        ensures
            final(self).wf(),
            final(self).settings == old(self).settings,
            final(self).sources == old(self).sources,
            final(self).anonymizer == old(self).anonymizer,
            final(self).cancelled == old(self).cancelled,
            final(self).attempted == old(self).attempted,
            final(self).rsets_sent == old(self).rsets_sent,
            final(self).raw_content == old(self).raw_content,
            final(self).content == old(self).content,
            final(self).parse_ms == old(self).parse_ms,
            Self::spec_rcpt_failed(*old(self), *final(self), detail@),
    {
        let src = self.sources[self.idx].clone();
        let addr = self.settings.recipients[self.rcpt_idx].clone();
        let class = strutil::concat_str(
            strutil::concat_str(
                strutil::concat_str("设置收件人 ", addr.as_str()).as_str(),
                " 失败: ",
            ).as_str(),
            detail.as_str(),
        );
        self.stats.increment_error(class.as_str(), src.as_str());
        if crate::session::connection_fatal(class.as_str()) {
            self.failed_to_save.push(
                FailedSave { path: src, bytes: Some(self.raw_content.clone()) },
            );
            self.failed_sources = self.failed_sources + 1;
            self.connection_should_reset = true;
            self.phase = BatchPhase::Done;
        } else if self.rcpt_idx < self.settings.recipients.len() - 1 {
            self.rcpt_idx = self.rcpt_idx + 1;
        } else if self.any_rcpt_ok {
            let ghost mid_stats = self.stats;
            self.begin_data();
            proof {
                assert(crate::stats::stats_failed_once(
                    old(self).stats,
                    mid_stats,
                    "设置收件人 "@ + old(self).settings.recipients@[old(self).rcpt_idx as int]@
                        + " 失败: "@ + detail@,
                    old(self).sources@[old(self).idx as int]@,
                ));
            }
        } else {
            self.failed_to_save.push(
                FailedSave { path: src, bytes: Some(self.raw_content.clone()) },
            );
            self.failed_sources = self.failed_sources + 1;
            self.advance();
        }
    }

    /// How the state changes when `DATA` fails: a refusal is classed
    /// `邮件发送失败` with the server's text, a timeout `邮件发送超时`; the
    /// bytes are sunk either way, and a reset signal — a timeout always
    /// carries one — aborts the batch.
    pub open spec fn spec_data_failed(pre: Self, post: Self, class: Seq<char>) -> bool {
        let src = pre.sources@[pre.idx as int]@;
        &&& crate::stats::stats_failed_once(pre.stats, post.stats, class, src)
        &&& sink_pushed(pre.failed_to_save@, post.failed_to_save@, src, Some(pre.raw_content@))
        &&& post.failed_sources == pre.failed_sources + 1
        &&& if crate::session::spec_connection_fatal(class) {
            &&& post.connection_should_reset
            &&& post.phase == BatchPhase::Done
            &&& post.idx == pre.idx
        } else {
            &&& !post.connection_should_reset
            &&& post.idx == pre.idx + 1
            &&& post.phase == Self::spec_after_source(
                pre.idx + 1,
                pre.sources@.len() as int,
                pre.cancelled,
            )
        }
    }

    /// Takes the reply to `DATA`. Acceptance is the one success of a
    /// transaction: the message counts as delivered and both timings are
    /// recorded. See `spec_data_failed` for the failure discipline.
    pub fn on_data_result(&mut self, ev: CmdEvent, send_ms: u64)
        requires
            old(self).wf(),
            old(self).phase == BatchPhase::Data,
            old(self).stats.send_errors < usize::MAX,
        ensures
            final(self).wf(),
            final(self).settings == old(self).settings,
            final(self).sources == old(self).sources,
            final(self).anonymizer == old(self).anonymizer,
            final(self).cancelled == old(self).cancelled,
            final(self).attempted == old(self).attempted,
            final(self).rsets_sent == old(self).rsets_sent,
            match ev {
                CmdEvent::Accepted => {
                    &&& crate::stats::stats_success_once(
                        old(self).stats,
                        final(self).stats,
                        old(self).parse_ms,
                        send_ms,
                    )
                    &&& final(self).failed_to_save == old(self).failed_to_save
                    &&& final(self).failed_sources == old(self).failed_sources
                    &&& !final(self).connection_should_reset
                    &&& final(self).idx == old(self).idx + 1
                    &&& final(self).phase == Self::spec_after_source(
                        old(self).idx + 1,
                        old(self).sources@.len() as int,
                        old(self).cancelled,
                    )
                },
                CmdEvent::Refused(e) => Self::spec_data_failed(
                    *old(self),
                    *final(self),
                    "邮件发送失败: "@ + e@,
                ),
                CmdEvent::TimedOut => Self::spec_data_failed(
                    *old(self),
                    *final(self),
                    "邮件发送超时"@,
                ),
            },
    {
        match ev {
            CmdEvent::Accepted => {
                proof {
                    assert(self.stats.email_count < usize::MAX);
                }
                let pm = self.parse_ms;
                self.stats.record_success(pm, send_ms);
                self.advance();
            },
            CmdEvent::Refused(e) => {
                let class = strutil::concat_str("邮件发送失败: ", e.as_str());
                self.fail_data(class);
            },
            CmdEvent::TimedOut => {
                self.fail_data("邮件发送超时".to_owned());
            },
        }
    }

    /// Files a `DATA` failure and aborts or moves on.
    fn fail_data(&mut self, class: String)
        requires
            old(self).wf(),
            old(self).phase == BatchPhase::Data,
            old(self).stats.send_errors < usize::MAX,
        ensures
            final(self).wf(),
            final(self).settings == old(self).settings,
            final(self).sources == old(self).sources,
            final(self).anonymizer == old(self).anonymizer,
            final(self).cancelled == old(self).cancelled,
            final(self).attempted == old(self).attempted,
            final(self).rsets_sent == old(self).rsets_sent,
            Self::spec_data_failed(*old(self), *final(self), class@),
    {
        let src = self.sources[self.idx].clone();
        self.stats.increment_error(class.as_str(), src.as_str());
        self.failed_to_save.push(
            FailedSave { path: src, bytes: Some(self.raw_content.clone()) },
        );
        self.failed_sources = self.failed_sources + 1;
        if crate::session::connection_fatal(class.as_str()) {
            self.connection_should_reset = true;
            self.phase = BatchPhase::Done;
        } else {
            self.advance();
        }
    }

    /// Takes the reply to the `RSET` between transactions. The command
    /// counts as sent either way; a refusal or timeout is itself a
    /// connection-fatal signal and aborts the batch. After a successful
    /// reset the driver pauses when an interval is configured, then reads
    /// the next source — unless the operator asked to stop.
    pub fn on_rset_result(&mut self, ev: CmdEvent)
        requires
            old(self).wf(),
            old(self).phase == BatchPhase::Rset,
        ensures
            final(self).wf(),
            final(self).settings == old(self).settings,
            final(self).sources == old(self).sources,
            final(self).anonymizer == old(self).anonymizer,
            final(self).cancelled == old(self).cancelled,
            final(self).attempted == old(self).attempted,
            final(self).stats == old(self).stats,
            final(self).failed_to_save == old(self).failed_to_save,
            final(self).failed_sources == old(self).failed_sources,
            final(self).idx == old(self).idx,
            final(self).rsets_sent == old(self).rsets_sent + 1,
            match ev {
                CmdEvent::Accepted => {
                    &&& !final(self).connection_should_reset
                    &&& final(self).phase == if old(self).cancelled {
                        BatchPhase::Done
                    } else if old(self).settings.email_send_interval_ms > 0 {
                        BatchPhase::Sleeping
                    } else {
                        BatchPhase::Reading
                    }
                },
                _ => {
                    &&& final(self).connection_should_reset
                    &&& final(self).phase == BatchPhase::Done
                },
            },
    {
        self.rsets_sent = self.rsets_sent + 1;
        match ev {
            CmdEvent::Accepted => {
                self.phase = if self.cancelled {
                    BatchPhase::Done
                } else if self.settings.email_send_interval_ms > 0 {
                    BatchPhase::Sleeping
                } else {
                    BatchPhase::Reading
                };
            },
            _ => {
                self.connection_should_reset = true;
                self.phase = BatchPhase::Done;
            },
        }
    }

    /// Takes the end of the pause between messages. An interrupted pause
    /// means the operator asked to stop: the batch ends; otherwise the next
    /// source is read.
    pub fn on_slept(&mut self, interrupted: bool)
        requires
            old(self).wf(),
            old(self).phase == BatchPhase::Sleeping,
        ensures
            final(self).wf(),
            final(self).settings == old(self).settings,
            final(self).sources == old(self).sources,
            final(self).anonymizer == old(self).anonymizer,
            final(self).attempted == old(self).attempted,
            final(self).rsets_sent == old(self).rsets_sent,
            final(self).stats == old(self).stats,
            final(self).failed_to_save == old(self).failed_to_save,
            final(self).failed_sources == old(self).failed_sources,
            final(self).idx == old(self).idx,
            !final(self).connection_should_reset,
            final(self).cancelled == (old(self).cancelled || interrupted),
            final(self).phase == if old(self).cancelled || interrupted {
                BatchPhase::Done
            } else {
                BatchPhase::Reading
            },
    {
        if interrupted {
            self.cancelled = true;
        }
        self.phase = if self.cancelled {
            BatchPhase::Done
        } else {
            BatchPhase::Reading
        };
    }

    /// The reset discipline: a batch that ran to its natural end — neither
    /// aborted by a connection-fatal signal nor stopped by the operator —
    /// attempted every source and sent exactly one `RSET` fewer than it
    /// attempted transactions.
    pub proof fn lemma_rset_discipline(&self)
        requires
            self.wf(),
            self.phase == BatchPhase::Done,
            !self.connection_should_reset,
            !self.cancelled,
            self.sources@.len() > 0,
        ensures
            self.attempted == self.sources@.len(),
            self.rsets_sent == self.attempted - 1,
    {
    }

    /// The outcome partition: at every transaction boundary, the delivered
    /// messages and the terminally failed sources together are exactly the
    /// sources whose processing began — no source is counted twice and none
    /// is lost.
    pub proof fn lemma_outcome_partition(&self)
        requires
            self.wf(),
            !self.in_transaction(),
        ensures
            self.stats.email_count + self.failed_sources == self.attempted,
    {
    }

    /// Message-bytes equality: when the headers are not rewritten and no
    /// anonymisation is configured, the bytes the `DATA` step carries are the
    /// very bytes read from the source file.
    pub proof fn lemma_wire_is_source(&self)
        requires
            self.wf(),
            self.phase == BatchPhase::Data,
            !self.settings.modify_headers,
            self.anonymizer is None,
        ensures
            self.wire_content@ == self.raw_content@,
    {
    }

    /// Whether the batch is over.
    pub fn is_done(&self) -> (r: bool)
        ensures
            r == (self.phase == BatchPhase::Done),
    {
        matches!(self.phase, BatchPhase::Done)
    }
}

} // verus!
