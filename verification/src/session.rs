//! SMTP session policy: how a session is opened, when it may not be, when a
//! server signal forces the client to discard it, and when a session may be
//! kept across batches.

use vstd::prelude::*;

use crate::config::Config;
use crate::stats::Stats;
use crate::strutil;

verus! {

/// The error texts that mark a session as unusable: the server asked the
/// client to stop (421), the connection broke, a reply could not be parsed,
/// or a command timed out. A session that showed one of these is discarded
/// and never reused.
pub open spec fn spec_connection_fatal(m: Seq<char>) -> bool {
    ||| strutil::contains_seq(m, "421"@)
    ||| strutil::contains_seq(m, "Cannot accept further commands"@)
    ||| strutil::contains_seq(m, "Broken pipe"@)
    ||| strutil::contains_seq(m, "Connection reset"@)
    ||| strutil::contains_seq(m, "Unparseable SMTP reply"@)
    ||| strutil::contains_seq(m, "timeout"@)
    ||| strutil::contains_seq(m, "超时"@)
}

/// Whether an error text carries a server-directed reset signal.
pub fn connection_fatal(msg: &str) -> (r: bool)
    ensures
        r == spec_connection_fatal(msg@),
{
    strutil::str_contains(msg, "421") || strutil::str_contains(
        msg,
        "Cannot accept further commands",
    ) || strutil::str_contains(msg, "Broken pipe") || strutil::str_contains(
        msg,
        "Connection reset",
    ) || strutil::str_contains(msg, "Unparseable SMTP reply") || strutil::str_contains(
        msg,
        "timeout",
    ) || strutil::str_contains(msg, "超时")
}

/// How the connection is secured.
#[derive(Debug, Clone, Copy, PartialEq, Eq, Structural)]
pub enum TlsPosture {
    /// No TLS at all.
    Plain,
    /// The socket is TLS from the first byte (port 465).
    Implicit,
    /// TLS negotiated with `STARTTLS`.
    StartTls,
}

/// What to do about a session before a batch.
#[derive(Debug, Clone)]
pub enum SessionPlan {
    /// Authentication was requested without a username or password: no
    /// session is opened and every source of the batch fails with
    /// `认证失败: 缺少用户名或密码`.
    RefuseMissingCredentials,
    /// Authentication was requested without TLS: no session is opened and
    /// every source of the batch fails with `认证失败: 需要TLS连接`.
    RefuseNeedTls,
    /// Open a session with these parameters.
    Open(SessionSpec),
}

/// The parameters of one session to open.
#[derive(Debug, Clone)]
pub struct SessionSpec {
    /// Server host.
    pub host: String,
    /// Server port.
    pub port: u16,
    /// TLS posture: implicit on port 465, `STARTTLS` when TLS is on
    /// otherwise, plain when TLS is off.
    pub tls: TlsPosture,
    /// Username and password, when authenticating.
    pub credentials: Option<(String, String)>,
    /// Whether invalid certificates are accepted.
    pub accept_invalid_certs: bool,
    /// Per-command timeout in seconds.
    pub timeout_s: u64,
}

/// The TLS posture a configuration calls for: implicit TLS on port 465,
/// `STARTTLS` when TLS is requested on another port, plain otherwise.
pub open spec fn spec_tls_posture(use_tls: bool, port: u16) -> TlsPosture {
    if port == 465 {
        TlsPosture::Implicit
    } else if use_tls {
        TlsPosture::StartTls
    } else {
        TlsPosture::Plain
    }
}

/// Authentication gating and TLS posture for one session, as the
/// configuration demands:
/// - authentication without both credentials is refused;
/// - authentication without TLS (and not on port 465) is refused;
/// - otherwise a session is opened, TLS implicit on port 465, `STARTTLS`
///   when TLS is requested on another port, plain when TLS is off.
pub fn session_plan(c: &Config) -> (r: SessionPlan)
    ensures
        c.auth_mode && (c.username is None || c.password is None)
            ==> r is RefuseMissingCredentials,
        c.auth_mode && c.username is Some && c.password is Some && !c.use_tls && c.port != 465
            ==> r is RefuseNeedTls,
        (!c.auth_mode || (c.username is Some && c.password is Some && (c.use_tls || c.port
            == 465))) ==> (r matches SessionPlan::Open(s) && s.host@ == c.smtp_server@ && s.port
            == c.port && s.tls == spec_tls_posture(c.use_tls, c.port) && s.accept_invalid_certs
            == c.accept_invalid_certs && s.timeout_s == c.smtp_timeout && (if c.auth_mode {
            s.credentials matches Some(cr) && cr.0@ == c.username->0@ && cr.1@ == c.password->0@
        } else {
            s.credentials is None
        })),
{
    if c.auth_mode {
        match (&c.username, &c.password) {
            (Some(u), Some(p)) => {
                if c.use_tls || c.port == 465 {
                    SessionPlan::Open(
                        SessionSpec {
                            host: c.smtp_server.clone(),
                            port: c.port,
                            tls: if c.port == 465 {
                                TlsPosture::Implicit
                            } else {
                                TlsPosture::StartTls
                            },
                            credentials: Some((u.clone(), p.clone())),
                            accept_invalid_certs: c.accept_invalid_certs,
                            timeout_s: c.smtp_timeout,
                        },
                    )
                } else {
                    SessionPlan::RefuseNeedTls
                }
            },
            _ => SessionPlan::RefuseMissingCredentials,
        }
    } else {
        SessionPlan::Open(
            SessionSpec {
                host: c.smtp_server.clone(),
                port: c.port,
                tls: if c.port == 465 {
                    TlsPosture::Implicit
                } else if c.use_tls {
                    TlsPosture::StartTls
                } else {
                    TlsPosture::Plain
                },
                credentials: None,
                accept_invalid_certs: c.accept_invalid_certs,
                timeout_s: c.smtp_timeout,
            },
        )
    }
}

/// The error class of a session that could not be opened: connection failure
/// or connection timeout, in the authenticated, TLS or plain variant.
pub fn open_failure_class(tls: TlsPosture, authenticated: bool, timed_out: bool) -> (r: String)
    ensures
        r@ == spec_open_failure_class(tls, authenticated, timed_out),
{
    if authenticated {
        if timed_out {
            "SMTP认证连接超时".to_owned()
        } else {
            "SMTP认证连接失败".to_owned()
        }
    } else if !matches!(tls, TlsPosture::Plain) {
        if timed_out {
            "SMTP非认证TLS连接超时".to_owned()
        } else {
            "SMTP非认证TLS连接失败".to_owned()
        }
    } else {
        if timed_out {
            "SMTP连接超时".to_owned()
        } else {
            "SMTP连接失败".to_owned()
        }
    }
}

/// The open-failure class texts.
pub open spec fn spec_open_failure_class(
    tls: TlsPosture,
    authenticated: bool,
    timed_out: bool,
) -> Seq<char> {
    if authenticated {
        if timed_out {
            "SMTP认证连接超时"@
        } else {
            "SMTP认证连接失败"@
        }
    } else if tls != TlsPosture::Plain {
        if timed_out {
            "SMTP非认证TLS连接超时"@
        } else {
            "SMTP非认证TLS连接失败"@
        }
    } else {
        if timed_out {
            "SMTP连接超时"@
        } else {
            "SMTP连接失败"@
        }
    }
}

/// Whether the session may carry the next batch: only when the batch size is
/// not one — a batch size of one pins every transaction to a connection of
/// its own — and no server-directed reset was seen.
pub fn keep_session_after_batch(batch_size: usize, connection_should_reset: bool) -> (r: bool)
    ensures
        r == (batch_size != 1 && !connection_should_reset),
{
    batch_size != 1 && !connection_should_reset
}

/// Files one failure class for every source of a batch — how a batch that
/// never got a session is accounted.
pub fn fail_batch(stats: &mut Stats, class: &str, batch: &Vec<String>)
    requires
        old(stats).wf(),
        old(stats).send_errors + batch@.len() <= usize::MAX,
    ensures
        final(stats).wf(),
        final(stats).email_count == old(stats).email_count,
        final(stats).parse_durations == old(stats).parse_durations,
        final(stats).send_durations == old(stats).send_durations,
        final(stats).parse_errors == old(stats).parse_errors,
        final(stats).send_errors == old(stats).send_errors + batch@.len(),
        final(stats).spec_count(class@) == old(stats).spec_count(class@) + batch@.len(),
        final(stats).spec_files(class@) == old(stats).spec_files(class@) + batch@.map_values(
            |p: String| p@,
        ),
        forall|k: Seq<char>|
            k != class@ ==> final(stats).spec_count(k) == old(stats).spec_count(k),
        forall|k: Seq<char>|
            k != class@ ==> final(stats).spec_files(k) == old(stats).spec_files(k),
{
    let mut i: usize = 0;
    proof {
        assert(old(stats).spec_files(class@) + batch@.map_values(|p: String| p@).take(0)
            =~= old(stats).spec_files(class@));
    }
    while i < batch.len()
        invariant
            stats.wf(),
            i <= batch@.len(),
            old(stats).send_errors + batch@.len() <= usize::MAX,
            stats.email_count == old(stats).email_count,
            stats.parse_durations == old(stats).parse_durations,
            stats.send_durations == old(stats).send_durations,
            stats.total_duration_ms == old(stats).total_duration_ms,
            stats.parse_errors == old(stats).parse_errors,
            stats.send_errors == old(stats).send_errors + i,
            stats.spec_count(class@) == old(stats).spec_count(class@) + i,
            stats.spec_files(class@) == old(stats).spec_files(class@) + batch@.map_values(
                |p: String| p@,
            ).take(i as int),
            forall|k: Seq<char>| k != class@ ==> stats.spec_count(k) == old(stats).spec_count(k),
            forall|k: Seq<char>| k != class@ ==> stats.spec_files(k) == old(stats).spec_files(k),
        decreases batch@.len() - i,
    {
        stats.increment_error(class, batch[i].as_str());
        proof {
            assert(stats.spec_files(class@) =~= old(stats).spec_files(class@)
                + batch@.map_values(|p: String| p@).take(i + 1));
        }
        i = i + 1;
    }
    proof {
        assert(batch@.map_values(|p: String| p@).take(batch@.len() as int) =~= batch@.map_values(
            |p: String| p@,
        ));
    }
}

} // verus!
