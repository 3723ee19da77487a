//! The attachment runner: files sent as attachments, one e-mail each.
//!
//! Both attachment modes run here — a single file, or every file of a
//! directory — over one open session. Per file the order is: envelope, then
//! the file is read, its MIME type sniffed, the message built from the
//! templates and sent; a pause may follow. There is no `RSET` between
//! messages and no failed-bytes sink in these modes. Like the batch driver,
//! the runner is a decision machine: the application performs each action and
//! reports the outcome.

use vstd::prelude::*;

use crate::driver::CmdEvent;
use crate::message;
use crate::stats::Stats;
use crate::strutil;

verus! {

/// What the configuration contributes to an attachment run.
#[derive(Debug, Clone)]
pub struct AttachmentSettings {
    /// Envelope sender.
    pub from: String,
    /// The raw `to` field, for the no-valid-recipient error text.
    pub to_raw: String,
    /// The effective recipient list, already parsed.
    pub recipients: Vec<String>,
    /// Subject template; `{filename}` is substituted.
    pub subject_template: Option<String>,
    /// Text-body template; `{filename}` is substituted.
    pub text_template: Option<String>,
    /// HTML-body template; `{filename}` is substituted.
    pub html_template: Option<String>,
    /// Per-command timeout in seconds.
    pub smtp_timeout: u64,
    /// Pause between messages, in milliseconds.
    pub email_send_interval_ms: u64,
}

/// Where the runner stands.
#[derive(Debug, Clone, Copy, PartialEq, Eq, Structural)]
pub enum AttachPhase {
    /// Awaiting the reply to `MAIL FROM` for the current file.
    MailFrom,
    /// Awaiting the reply to one `RCPT TO`.
    Rcpt,
    /// About to read the current file.
    Reading,
    /// Awaiting the reply to `DATA` with the built message.
    Data,
    /// Awaiting the pause between messages.
    Sleeping,
    /// The run is over.
    Done,
}

/// What the application must do next.
#[derive(Debug)]
pub enum AttachAction {
    /// Send `MAIL FROM` and report `on_mail_from_result`.
    MailFrom { from: String, timeout_s: u64 },
    /// Send `RCPT TO` and report `on_rcpt_result`.
    RcptTo { addr: String, timeout_s: u64 },
    /// Read this file and report `on_read_result`.
    ReadFile { path: String },
    /// Send `DATA` with these bytes and report `on_data_result`.
    Data { bytes: Vec<u8>, timeout_s: u64 },
    /// Sleep, polling cancellation, and report `on_slept`.
    Sleep { ms: u64 },
    /// The run is over: nothing more to do.
    Finished,
}

/// The attachment runner.
pub struct AttachmentRunner {
    /// The run's slice of the configuration.
    pub settings: AttachmentSettings,
    /// The files to send, one e-mail each.
    pub files: Vec<String>,
    /// The current file.
    pub idx: usize,
    /// Where the runner stands.
    pub phase: AttachPhase,
    /// The next recipient to announce, in the `Rcpt` phase.
    pub rcpt_idx: usize,
    /// Whether any recipient of the current e-mail was accepted.
    pub any_rcpt_ok: bool,
    /// The bytes the `DATA` step will carry.
    pub wire_content: Vec<u8>,
    /// The run's accounting.
    pub stats: Stats,
    /// The operator asked to stop.
    pub cancelled: bool,
    /// Files whose processing began.
    pub attempted: usize,
    /// Files that ended in a terminal failure.
    pub failed_files: usize,
}

impl AttachmentRunner {
    /// Whether the runner is mid-e-mail.
    pub open spec fn in_flight(&self) -> bool {
        self.phase == AttachPhase::MailFrom || self.phase == AttachPhase::Rcpt || self.phase
            == AttachPhase::Reading || self.phase == AttachPhase::Data
    }

    /// The runner's invariant: every file whose processing began has ended in
    /// exactly one of success or terminal failure, mid-e-mail the current one
    /// is still open.
    pub open spec fn wf(&self) -> bool {
        let len = self.files@.len() as int;
        &&& self.stats.wf()
        &&& self.stats.parse_errors == 0
        &&& self.files@.len() < usize::MAX
        &&& self.idx <= len
        &&& self.attempted <= len
        &&& (self.in_flight() ==> self.idx < len && self.attempted == self.idx + 1)
        &&& (self.phase == AttachPhase::Sleeping ==> self.idx < len && self.attempted
            == self.idx)
        &&& (self.phase == AttachPhase::Rcpt ==> self.rcpt_idx
            < self.settings.recipients@.len())
        &&& (self.phase == AttachPhase::Reading || self.phase == AttachPhase::Data
            ==> self.settings.recipients@.len() > 0)
        &&& (if self.in_flight() {
            self.stats.email_count + self.failed_files == self.attempted - 1
        } else {
            self.stats.email_count + self.failed_files == self.attempted as int
        })
    }

    /// A runner at the start of its file list.
    pub fn new(settings: AttachmentSettings, files: Vec<String>) -> (r: AttachmentRunner)
        requires
            files@.len() < usize::MAX,
        ensures
            r.wf(),
            r.settings == settings,
            r.files == files,
            r.idx == 0,
            r.attempted == if files@.len() == 0 {
                0int
            } else {
                1int
            },
            r.failed_files == 0,
            r.stats.email_count == 0,
            r.stats.send_errors == 0,
            r.stats.parse_durations@ == Seq::<u64>::empty(),
            r.stats.send_durations@ == Seq::<u64>::empty(),
            r.stats.total_duration_ms == 0,
            r.stats.error_details@ == Seq::<crate::stats::ErrorEntry>::empty(),
            !r.cancelled,
            r.phase == if files@.len() == 0 {
                AttachPhase::Done
            } else {
                AttachPhase::MailFrom
            },
    {
        let empty = files.len() == 0;
        AttachmentRunner {
            settings,
            files,
            idx: 0,
            phase: if empty {
                AttachPhase::Done
            } else {
                AttachPhase::MailFrom
            },
            rcpt_idx: 0,
            any_rcpt_ok: false,
            wire_content: Vec::new(),
            stats: Stats::new(),
            cancelled: false,
            attempted: if empty {
                0
            } else {
                1
            },
            failed_files: 0,
        }
    }

    /// Notes the operator's stop request; the e-mail in flight is finished
    /// first.
    pub fn cancel(&mut self)
        requires
            old(self).wf(),
        ensures
            final(self).wf(),
            *final(self) == (AttachmentRunner { cancelled: true, ..*old(self) }),
    {
        self.cancelled = true;
    }

    /// What the application must do next.
    pub fn next_action(&self) -> (r: AttachAction)
        requires
            self.wf(),
        ensures
            match self.phase {
                AttachPhase::Done => r is Finished,
                AttachPhase::MailFrom => r matches AttachAction::MailFrom { from, timeout_s }
                    && from@ == self.settings.from@ && timeout_s == self.settings.smtp_timeout,
                AttachPhase::Rcpt => r matches AttachAction::RcptTo { addr, timeout_s } && addr@
                    == self.settings.recipients@[self.rcpt_idx as int]@ && timeout_s
                    == self.settings.smtp_timeout,
                AttachPhase::Reading => r matches AttachAction::ReadFile { path } && path@
                    == self.files@[self.idx as int]@,
                AttachPhase::Data => r matches AttachAction::Data { bytes, timeout_s } && bytes@
                    == self.wire_content@ && timeout_s == self.settings.smtp_timeout,
                AttachPhase::Sleeping => r matches AttachAction::Sleep { ms } && ms
                    == self.settings.email_send_interval_ms,
            },
    {
        match self.phase {
            AttachPhase::Done => AttachAction::Finished,
            AttachPhase::MailFrom => AttachAction::MailFrom {
                from: self.settings.from.clone(),
                timeout_s: self.settings.smtp_timeout,
            },
            AttachPhase::Rcpt => AttachAction::RcptTo {
                addr: self.settings.recipients[self.rcpt_idx].clone(),
                timeout_s: self.settings.smtp_timeout,
            },
            AttachPhase::Reading => AttachAction::ReadFile {
                path: self.files[self.idx].clone(),
            },
            AttachPhase::Data => AttachAction::Data {
                bytes: self.wire_content.clone(),
                timeout_s: self.settings.smtp_timeout,
            },
            AttachPhase::Sleeping => AttachAction::Sleep {
                ms: self.settings.email_send_interval_ms,
            },
        }
    }

    /// The phase that follows a finished file: the run ends when no file
    /// remains or the operator asked to stop; a pause separates e-mails when
    /// one is configured.
    pub open spec fn spec_after_file(
        idx_new: int,
        len: int,
        cancelled: bool,
        interval_ms: u64,
    ) -> AttachPhase {
        if idx_new == len || cancelled {
            AttachPhase::Done
        } else if interval_ms > 0 {
            AttachPhase::Sleeping
        } else {
            AttachPhase::MailFrom
        }
    }

    /// Moves past the current file once its outcome is recorded. Unlike the
    /// batch driver the attempt count of the next file is taken here, since
    /// its processing begins at once with `MAIL FROM`.
    fn advance(&mut self)
        requires
            old(self).idx < old(self).files@.len(),
            old(self).files@.len() < usize::MAX,
            old(self).attempted == old(self).idx + 1,
        ensures
            final(self).idx == old(self).idx + 1,
            final(self).phase == Self::spec_after_file(
                old(self).idx + 1,
                old(self).files@.len() as int,
                old(self).cancelled,
                old(self).settings.email_send_interval_ms,
            ),
            final(self).attempted == if final(self).phase == AttachPhase::MailFrom {
                old(self).attempted + 1
            } else {
                old(self).attempted as int
            },
            *final(self) == (AttachmentRunner {
                idx: final(self).idx,
                phase: final(self).phase,
                attempted: final(self).attempted,
                ..*old(self)
            }),
    {
        self.idx = self.idx + 1;
        if self.idx == self.files.len() || self.cancelled {
            self.phase = AttachPhase::Done;
        } else if self.settings.email_send_interval_ms > 0 {
            self.phase = AttachPhase::Sleeping;
        } else {
            self.attempted = self.attempted + 1;
            self.phase = AttachPhase::MailFrom;
        }
    }

    /// Takes the reply to `MAIL FROM`. A refusal or timeout is classed
    /// `设置发件人失败` with the detail and the file is over; acceptance
    /// moves to the recipients — when there are none, the file fails as
    /// `没有有效的收件人地址`.
    pub fn on_mail_from_result(&mut self, ev: CmdEvent)
        requires
            old(self).wf(),
            old(self).phase == AttachPhase::MailFrom,
            old(self).stats.send_errors < usize::MAX,
        ensures
            final(self).wf(),
            final(self).settings == old(self).settings,
            final(self).files == old(self).files,
            final(self).cancelled == old(self).cancelled,
            match ev {
                CmdEvent::Accepted => {
                    if old(self).settings.recipients@.len() == 0 {
                        &&& crate::stats::stats_failed_once(
                            old(self).stats,
                            final(self).stats,
                            "没有有效的收件人地址"@,
                            old(self).files@[old(self).idx as int]@,
                        )
                        &&& final(self).failed_files == old(self).failed_files + 1
                        &&& final(self).idx == old(self).idx + 1
                    } else {
                        &&& final(self).stats == old(self).stats
                        &&& final(self).phase == AttachPhase::Rcpt
                        &&& final(self).rcpt_idx == 0
                        &&& !final(self).any_rcpt_ok
                        &&& final(self).idx == old(self).idx
                        &&& final(self).failed_files == old(self).failed_files
                    }
                },
                CmdEvent::Refused(e) => {
                    &&& crate::stats::stats_failed_once(
                        old(self).stats,
                        final(self).stats,
                        "设置发件人失败: "@ + e@,
                        old(self).files@[old(self).idx as int]@,
                    )
                    &&& final(self).failed_files == old(self).failed_files + 1
                    &&& final(self).idx == old(self).idx + 1
                },
                CmdEvent::TimedOut => {
                    &&& crate::stats::stats_failed_once(
                        old(self).stats,
                        final(self).stats,
                        "设置发件人失败: 超时"@,
                        old(self).files@[old(self).idx as int]@,
                    )
                    &&& final(self).failed_files == old(self).failed_files + 1
                    &&& final(self).idx == old(self).idx + 1
                },
            },
    {
        match ev {
            CmdEvent::Accepted => {
                if self.settings.recipients.len() == 0 {
                    let path = self.files[self.idx].clone();
                    self.stats.increment_error("没有有效的收件人地址", path.as_str());
                    self.failed_files = self.failed_files + 1;
                    self.advance();
                } else {
                    self.rcpt_idx = 0;
                    self.any_rcpt_ok = false;
                    self.phase = AttachPhase::Rcpt;
                }
            },
            CmdEvent::Refused(e) => {
                self.fail_file(strutil::concat_str("设置发件人失败: ", e.as_str()));
            },
            CmdEvent::TimedOut => {
                self.fail_file("设置发件人失败: 超时".to_owned());
            },
        }
    }

    /// Files one terminal failure for the current file and moves on.
    fn fail_file(&mut self, class: String)
        requires
            old(self).wf(),
            old(self).in_flight(),
            old(self).stats.send_errors < usize::MAX,
        ensures
            final(self).wf(),
            final(self).settings == old(self).settings,
            final(self).files == old(self).files,
            final(self).cancelled == old(self).cancelled,
            crate::stats::stats_failed_once(
                old(self).stats,
                final(self).stats,
                class@,
                old(self).files@[old(self).idx as int]@,
            ),
            final(self).failed_files == old(self).failed_files + 1,
            final(self).idx == old(self).idx + 1,
            final(self).phase == Self::spec_after_file(
                old(self).idx + 1,
                old(self).files@.len() as int,
                old(self).cancelled,
                old(self).settings.email_send_interval_ms,
            ),
    {
        let path = self.files[self.idx].clone();
        self.stats.increment_error(class.as_str(), path.as_str());
        self.failed_files = self.failed_files + 1;
        self.advance();
    }

    /// Takes the reply to one `RCPT TO`. A failure is classed
    /// `设置收件人 <addr> 失败` with the detail; when every recipient of the
    /// e-mail failed, the file is over — counted per recipient, with no
    /// extra class. Otherwise the file's bytes are read next.
    pub fn on_rcpt_result(&mut self, ev: CmdEvent)
        requires
            old(self).wf(),
            old(self).phase == AttachPhase::Rcpt,
            old(self).stats.send_errors < usize::MAX,
        ensures
            final(self).wf(),
            final(self).settings == old(self).settings,
            final(self).files == old(self).files,
            final(self).cancelled == old(self).cancelled,
            ({
                let last = old(self).rcpt_idx + 1 == old(self).settings.recipients@.len();
                match ev {
                    CmdEvent::Accepted => {
                        &&& final(self).stats == old(self).stats
                        &&& final(self).failed_files == old(self).failed_files
                        &&& final(self).idx == old(self).idx
                        &&& if !last {
                            final(self).phase == AttachPhase::Rcpt && final(self).rcpt_idx == old(
                                self,
                            ).rcpt_idx + 1 && final(self).any_rcpt_ok
                        } else {
                            final(self).phase == AttachPhase::Reading
                        }
                    },
                    CmdEvent::Refused(e) => Self::spec_rcpt_failed(*old(self), *final(self), e@),
                    CmdEvent::TimedOut => Self::spec_rcpt_failed(
                        *old(self),
                        *final(self),
                        "超时"@,
                    ),
                }
            }),
    {
        match ev {
            CmdEvent::Accepted => {
                self.any_rcpt_ok = true;
                let nrec = self.settings.recipients.len();
                if self.rcpt_idx < nrec - 1 {
                    self.rcpt_idx = self.rcpt_idx + 1;
                } else {
                    self.phase = AttachPhase::Reading;
                }
            },
            CmdEvent::Refused(e) => {
                self.fail_rcpt(e);
            },
            CmdEvent::TimedOut => {
                self.fail_rcpt("超时".to_owned());
            },
        }
    }

    /// How the state changes when one `RCPT TO` fails with detail `e`.
    pub open spec fn spec_rcpt_failed(pre: Self, post: Self, e: Seq<char>) -> bool {
        let path = pre.files@[pre.idx as int]@;
        let addr = pre.settings.recipients@[pre.rcpt_idx as int]@;
        let class = "设置收件人 "@ + addr + " 失败: "@ + e;
        let last = pre.rcpt_idx + 1 == pre.settings.recipients@.len();
        &&& crate::stats::stats_failed_once(pre.stats, post.stats, class, path)
        &&& if !last {
            &&& post.phase == AttachPhase::Rcpt
            &&& post.rcpt_idx == pre.rcpt_idx + 1
            &&& post.any_rcpt_ok == pre.any_rcpt_ok
            &&& post.failed_files == pre.failed_files
            &&& post.idx == pre.idx
        } else if pre.any_rcpt_ok {
            &&& post.phase == AttachPhase::Reading
            &&& post.failed_files == pre.failed_files
            &&& post.idx == pre.idx
        } else {
            &&& post.failed_files == pre.failed_files + 1
            &&& post.idx == pre.idx + 1
            &&& post.phase == Self::spec_after_file(
                pre.idx + 1,
                pre.files@.len() as int,
                pre.cancelled,
                pre.settings.email_send_interval_ms,
            )
        }
    }

    /// Files one `RCPT TO` failure and decides how the e-mail goes on.
    fn fail_rcpt(&mut self, detail: String)
        requires
            old(self).wf(),
            old(self).phase == AttachPhase::Rcpt,
            old(self).stats.send_errors < usize::MAX,
        ensures
            final(self).wf(),
            final(self).settings == old(self).settings,
            final(self).files == old(self).files,
            final(self).cancelled == old(self).cancelled,
            Self::spec_rcpt_failed(*old(self), *final(self), detail@),
    {
        let path = self.files[self.idx].clone();
        let addr = self.settings.recipients[self.rcpt_idx].clone();
        let class = strutil::concat_str(
            strutil::concat_str(
                strutil::concat_str("设置收件人 ", addr.as_str()).as_str(),
                " 失败: ",
            ).as_str(),
            detail.as_str(),
        );
        self.stats.increment_error(class.as_str(), path.as_str());
        if self.rcpt_idx < self.settings.recipients.len() - 1 {
            self.rcpt_idx = self.rcpt_idx + 1;
        } else if self.any_rcpt_ok {
            self.phase = AttachPhase::Reading;
        } else {
            self.failed_files = self.failed_files + 1;
            self.advance();
        }
    }

    /// Takes the outcome of reading the current file. A read failure is
    /// classed `读取附件文件失败` with the detail. Read bytes become one
    /// e-mail: subject and bodies from the templates with the file name
    /// substituted, the attachment's MIME type sniffed from the bytes —
    /// `application/octet-stream` when unknown — and the whole built by the
    /// message builder; a builder failure is classed `生成邮件内容失败`.
    pub fn on_read_result(&mut self, r: Result<Vec<u8>, String>)
        requires
            old(self).wf(),
            old(self).phase == AttachPhase::Reading,
            old(self).stats.send_errors < usize::MAX,
        ensures
            final(self).wf(),
            final(self).settings == old(self).settings,
            final(self).files == old(self).files,
            final(self).cancelled == old(self).cancelled,
            match r {
                Err(e) => {
                    &&& crate::stats::stats_failed_once(
                        old(self).stats,
                        final(self).stats,
                        "读取附件文件失败: "@ + e@,
                        old(self).files@[old(self).idx as int]@,
                    )
                    &&& final(self).failed_files == old(self).failed_files + 1
                    &&& final(self).idx == old(self).idx + 1
                },
                Ok(content) => {
                    ||| {
                        &&& final(self).phase == AttachPhase::Data
                        &&& final(self).stats == old(self).stats
                        &&& final(self).failed_files == old(self).failed_files
                        &&& final(self).idx == old(self).idx
                    }
                    ||| (exists|e: Seq<char>|
                        {
                            &&& crate::stats::stats_failed_once(
                                old(self).stats,
                                final(self).stats,
                                "生成邮件内容失败: "@ + e,
                                old(self).files@[old(self).idx as int]@,
                            )
                            &&& final(self).failed_files == old(self).failed_files + 1
                            &&& final(self).idx == old(self).idx + 1
                        })
                },
            },
    {
        match r {
            Err(e) => {
                self.fail_file(strutil::concat_str("读取附件文件失败: ", e.as_str()));
            },
            Ok(content) => {
                let filename = crate::mailer::Mailer::get_filename(
                    self.files[self.idx].as_str(),
                );
                let subject = message::attachment_subject(
                    &self.settings.subject_template,
                    filename.as_str(),
                );
                let text = message::attachment_text(
                    &self.settings.text_template,
                    filename.as_str(),
                );
                let html = message::attachment_html(
                    &self.settings.html_template,
                    filename.as_str(),
                );
                let mime = message::resolve_mime(content.as_slice());
                match message::build_attachment_message(
                    self.settings.from.as_str(),
                    &self.settings.recipients,
                    subject.as_str(),
                    text.as_str(),
                    &html,
                    mime.as_str(),
                    filename.as_str(),
                    content.as_slice(),
                ) {
                    Ok(v) => {
                        self.wire_content = v;
                        self.phase = AttachPhase::Data;
                    },
                    Err(e) => {
                        let class = strutil::concat_str("生成邮件内容失败: ", e.as_str());
                        self.fail_file(class);
                        proof {
                            assert(crate::stats::stats_failed_once(
                                old(self).stats,
                                self.stats,
                                "生成邮件内容失败: "@ + e@,
                                old(self).files@[old(self).idx as int]@,
                            ));
                        }
                    },
                }
            },
        }
    }

    /// Takes the reply to `DATA`. Acceptance counts the message as delivered
    /// with its wire timing; a refusal is classed `邮件发送失败` with the
    /// server's text, a timeout `邮件发送超时`.
    pub fn on_data_result(&mut self, ev: CmdEvent, send_ms: u64)
        requires
            old(self).wf(),
            old(self).phase == AttachPhase::Data,
            old(self).stats.send_errors < usize::MAX,
        ensures
            final(self).wf(),
            final(self).settings == old(self).settings,
            final(self).files == old(self).files,
            final(self).cancelled == old(self).cancelled,
            match ev {
                CmdEvent::Accepted => {
                    &&& final(self).stats.email_count == old(self).stats.email_count + 1
                    &&& final(self).stats.send_durations@ == old(
                        self,
                    ).stats.send_durations@.push(send_ms)
                    &&& final(self).stats.error_details == old(self).stats.error_details
                    &&& final(self).stats.send_errors == old(self).stats.send_errors
                    &&& final(self).failed_files == old(self).failed_files
                    &&& final(self).idx == old(self).idx + 1
                },
                CmdEvent::Refused(e) => {
                    &&& crate::stats::stats_failed_once(
                        old(self).stats,
                        final(self).stats,
                        "邮件发送失败: "@ + e@,
                        old(self).files@[old(self).idx as int]@,
                    )
                    &&& final(self).failed_files == old(self).failed_files + 1
                    &&& final(self).idx == old(self).idx + 1
                },
                CmdEvent::TimedOut => {
                    &&& crate::stats::stats_failed_once(
                        old(self).stats,
                        final(self).stats,
                        "邮件发送超时"@,
                        old(self).files@[old(self).idx as int]@,
                    )
                    &&& final(self).failed_files == old(self).failed_files + 1
                    &&& final(self).idx == old(self).idx + 1
                },
            },
    {
        match ev {
            CmdEvent::Accepted => {
                proof {
                    assert(self.stats.email_count < usize::MAX);
                }
                self.stats.record_send_success(send_ms);
                self.advance();
            },
            CmdEvent::Refused(e) => {
                self.fail_file(strutil::concat_str("邮件发送失败: ", e.as_str()));
            },
            CmdEvent::TimedOut => {
                self.fail_file("邮件发送超时".to_owned());
            },
        }
    }

    /// Takes the end of the pause between messages; an interrupted pause
    /// means the operator asked to stop.
    pub fn on_slept(&mut self, interrupted: bool)
        requires
            old(self).wf(),
            old(self).phase == AttachPhase::Sleeping,
        ensures
            final(self).wf(),
            final(self).settings == old(self).settings,
            final(self).files == old(self).files,
            final(self).stats == old(self).stats,
            final(self).failed_files == old(self).failed_files,
            final(self).idx == old(self).idx,
            final(self).cancelled == (old(self).cancelled || interrupted),
            final(self).phase == if old(self).cancelled || interrupted {
                AttachPhase::Done
            } else {
                AttachPhase::MailFrom
            },
            final(self).attempted == if old(self).cancelled || interrupted {
                old(self).attempted as int
            } else {
                old(self).attempted + 1
            },
    {
        if interrupted {
            self.cancelled = true;
        }
        if self.cancelled {
            self.phase = AttachPhase::Done;
        } else {
            self.attempted = self.attempted + 1;
            self.phase = AttachPhase::MailFrom;
        }
    }

    /// The outcome partition for attachment runs: between e-mails, the
    /// delivered messages and the terminally failed files together are
    /// exactly the files whose processing began.
    pub proof fn lemma_outcome_partition(&self)
        requires
            self.wf(),
            !self.in_flight(),
        ensures
            self.stats.email_count + self.failed_files == self.attempted,
    {
    }

    /// Whether the run is over.
    pub fn is_done(&self) -> (r: bool)
        ensures
            r == (self.phase == AttachPhase::Done),
    {
        matches!(self.phase, AttachPhase::Done)
    }
}

} // verus!
