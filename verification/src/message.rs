//! Message assembly: header policy, templates, MIME building and parsing.
//!
//! Wire bytes come from one of three policies for pre-formed message files —
//! verbatim (keeping headers), verbatim (default), or rebuilt from the parsed
//! subject and bodies — and from templates plus an attachment for the
//! attachment modes. Parsing and MIME assembly are done by outside code
//! behind the trusted items below; everything around them is verified.

use vstd::prelude::*;

use crate::strutil;

verus! {

/// What a pre-formed message file's bytes yield when parsed: subject, first
/// text body, first HTML body. The parse is a pure function of the bytes.
pub uninterp spec fn eml_parse(b: Seq<u8>) -> Option<
    (Option<Seq<char>>, Option<Seq<char>>, Option<Seq<char>>),
>;

/// What content sniffing says of some bytes: a MIME type, or nothing when
/// the bytes match no known signature. A pure function of the bytes.
pub uninterp spec fn sniffed_mime(b: Seq<u8>) -> Option<Seq<char>>;

/// The pieces of a parsed message that header rewriting needs.
#[derive(Debug, Clone)]
pub struct ParsedEmail {
    /// The Subject header, if present.
    pub subject: Option<String>,
    /// The first text body, if present.
    pub text_body: Option<String>,
    /// The first HTML body, if present.
    pub html_body: Option<String>,
}

/// Relies on mail-parser's `MessageParser::parse` and the `subject`,
/// `body_text` and `body_html` accessors: parses the bytes as a message and
/// hands out those three pieces; `None` when the bytes are no message.
#[verifier::external_body]
pub(crate) fn parse_eml(bytes: &[u8]) -> (r: Option<ParsedEmail>)
    ensures
        match (r, eml_parse(bytes@)) {
            (Some(p), Some(f)) => {
                &&& match (&p.subject, f.0) {
                    (Some(a), Some(b)) => a@ == b,
                    (None, None) => true,
                    _ => false,
                }
                &&& match (&p.text_body, f.1) {
                    (Some(a), Some(b)) => a@ == b,
                    (None, None) => true,
                    _ => false,
                }
                &&& match (&p.html_body, f.2) {
                    (Some(a), Some(b)) => a@ == b,
                    (None, None) => true,
                    _ => false,
                }
            },
            (None, None) => true,
            _ => false,
        },
{
    let msg = mail_parser::MessageParser::default().parse(bytes)?;
    Some(
        ParsedEmail {
            subject: msg.subject().map(|s| s.to_string()),
            text_body: msg.body_text(0).map(|c| c.to_string()),
            html_body: msg.body_html(0).map(|c| c.to_string()),
        },
    )
}

/// Relies on mail-send's `MessageBuilder` and `write_to_vec`: assembles a
/// MIME message with the given sender, recipients, subject and bodies. The
/// builder stamps a generated `Message-ID` and `Date`, so the bytes are not a
/// function of the arguments and nothing is promised of them.
#[verifier::external_body]
pub(crate) fn build_modified_message(
    from: &str,
    to: &Vec<String>,
    subject: &str,
    text: &str,
    html: &Option<String>,
) -> (r: Result<Vec<u8>, String>)
{
    let mut b = mail_send::mail_builder::MessageBuilder::new()
        .from(("", from))
        .to(to.iter().map(|s| s.as_str()).collect::<Vec<&str>>())
        .subject(subject)
        .text_body(text);
    if let Some(h) = html {
        b = b.html_body(h.as_str());
    }
    b.write_to_vec().map_err(|e| e.to_string())
}

/// Relies on mail-send's `MessageBuilder`, `attachment` and `write_to_vec`:
/// assembles a MIME message carrying one attachment. As above, the generated
/// `Message-ID` and `Date` make the bytes nondeterministic, so nothing is
/// promised of them.
#[verifier::external_body]
pub(crate) fn build_attachment_message(
    from: &str,
    to: &Vec<String>,
    subject: &str,
    text: &str,
    html: &Option<String>,
    mime: &str,
    filename: &str,
    content: &[u8],
) -> (r: Result<Vec<u8>, String>)
{
    let mut b = mail_send::mail_builder::MessageBuilder::new()
        .from(("", from))
        .to(to.iter().map(|s| s.as_str()).collect::<Vec<&str>>())
        .subject(subject)
        .text_body(text);
    if let Some(h) = html {
        b = b.html_body(h.as_str());
    }
    b = b.attachment(mime, filename, content);
    b.write_to_vec().map_err(|e| e.to_string())
}

/// Relies on `infer::get`: sniffs a MIME type from the leading bytes; the
/// result depends on the bytes alone.
#[verifier::external_body]
fn sniff_mime(buf: &[u8]) -> (r: Option<String>)
    ensures
        match (r, sniffed_mime(buf@)) {
            (Some(a), Some(b)) => a@ == b,
            (None, None) => true,
            _ => false,
        },
{
    infer::get(buf).map(|k| k.mime_type().to_owned())
}

/// The MIME type an attachment is declared with: the sniffed type, or
/// `application/octet-stream` when no signature matches.
pub fn resolve_mime(content: &[u8]) -> (r: String)
    ensures
        r@ == match sniffed_mime(content@) {
            Some(m) => m,
            None => "application/octet-stream"@,
        },
{
    match sniff_mime(content) {
        Some(m) => m,
        None => "application/octet-stream".to_owned(),
    }
}

/// `s` with every occurrence of `pat` replaced by `sub`, scanning left to
/// right without overlap.
pub open spec fn replace_seq(s: Seq<char>, pat: Seq<char>, sub: Seq<char>) -> Seq<char>
    decreases s.len(),
    when pat.len() > 0
{
    if s.len() < pat.len() {
        s
    } else if s.take(pat.len() as int) == pat {
        sub + replace_seq(s.skip(pat.len() as int), pat, sub)
    } else {
        seq![s[0]] + replace_seq(s.drop_first(), pat, sub)
    }
}

/// Replaces every occurrence of `pat` in `s` by `sub`, left to right, without
/// overlap — `str::replace` for a fixed pattern.
pub fn replace_str(s: &str, pat: &str, sub: &str) -> (r: String)
    requires
        pat@.len() > 0,
    ensures
        r@ == replace_seq(s@, pat@, sub@),
{
    let sc = strutil::str_chars(s);
    let pc = strutil::str_chars(pat);
    let bc = strutil::str_chars(sub);
    let n = sc.len();
    let m = pc.len();
    let mut out: Vec<char> = Vec::new();
    let mut i: usize = 0;
    proof {
        assert(sc@.skip(0) =~= sc@);
        assert(out@ + replace_seq(sc@, pc@, bc@) =~= replace_seq(sc@, pc@, bc@));
    }
    while i < n
        invariant
            n == sc@.len(),
            m == pc@.len(),
            m > 0,
            sc@ == s@,
            pc@ == pat@,
            bc@ == sub@,
            i <= n,
            replace_seq(s@, pat@, sub@) == out@ + replace_seq(sc@.skip(i as int), pc@, bc@),
        decreases n - i,
    {
        let mut hit = m <= n - i;
        let mut j: usize = 0;
        while hit && j < m
            invariant
                n == sc@.len(),
                m == pc@.len(),
                j <= m,
                i + m <= n || !hit,
                hit ==> forall|w: int| 0 <= w < j ==> sc@[i + w] == pc@[w],
                !hit ==> (i + m > n || exists|w: int| 0 <= w < m && sc@[i + w] != pc@[w]),
            decreases m - j,
        {
            if sc[i + j] != pc[j] {
                hit = false;
                j = m;
            } else {
                j = j + 1;
            }
        }
        proof {
            if hit {
                assert(sc@.skip(i as int).take(m as int) =~= pc@);
            } else {
                assert(sc@.skip(i as int).len() < m || sc@.skip(i as int).take(m as int) != pc@)
                    by {
                    if i + m <= n {
                        let w = choose|w: int| 0 <= w < m && sc@[i + w] != pc@[w];
                        assert(sc@.skip(i as int).take(m as int)[w] != pc@[w]);
                    }
                }
            }
        }
        if hit {
            out.extend_from_slice(bc.as_slice());
            proof {
                assert(sc@.skip(i as int).skip(m as int) =~= sc@.skip(i + m));
            }
            i = i + m;
        } else {
            out.push(sc[i]);
            proof {
                assert(sc@.skip(i as int)[0] == sc@[i as int]);
                assert(sc@.skip(i as int).drop_first() =~= sc@.skip(i + 1));
                assert(out@ =~= out@.drop_last().push(sc@[i as int]));
            }
            i = i + 1;
        }
    }
    proof {
        assert(sc@.skip(n as int) =~= Seq::<char>::empty());
        assert(replace_seq(sc@.skip(n as int), pc@, bc@) =~= Seq::<char>::empty());
        assert(out@ + Seq::<char>::empty() =~= out@);
    }
    strutil::chars_to_string(&out)
}

/// The subject of an attachment e-mail: the template with `{filename}`
/// substituted, or `附件: ` and the file name.
pub fn attachment_subject(template: &Option<String>, filename: &str) -> (r: String)
    ensures
        r@ == match template {
            Some(t) => replace_seq(t@, "{filename}"@, filename@),
            None => "附件: "@ + filename@,
        },
{
    match template {
        Some(t) => {
            proof {
                reveal_strlit("{filename}");
            }
            replace_str(t.as_str(), "{filename}", filename)
        },
        None => strutil::concat_str("附件: ", filename),
    }
}

/// The text body of an attachment e-mail: the template with `{filename}`
/// substituted, or `请查收附件: ` and the file name.
pub fn attachment_text(template: &Option<String>, filename: &str) -> (r: String)
    ensures
        r@ == match template {
            Some(t) => replace_seq(t@, "{filename}"@, filename@),
            None => "请查收附件: "@ + filename@,
        },
{
    match template {
        Some(t) => {
            proof {
                reveal_strlit("{filename}");
            }
            replace_str(t.as_str(), "{filename}", filename)
        },
        None => strutil::concat_str("请查收附件: ", filename),
    }
}

/// The HTML body of an attachment e-mail, when a template is configured.
pub fn attachment_html(template: &Option<String>, filename: &str) -> (r: Option<String>)
    ensures
        match (&r, template) {
            (Some(h), Some(t)) => h@ == replace_seq(t@, "{filename}"@, filename@),
            (None, None) => true,
            _ => false,
        },
{
    match template {
        Some(t) => {
            proof {
                reveal_strlit("{filename}");
            }
            Some(replace_str(t.as_str(), "{filename}", filename))
        },
        None => None,
    }
}

} // verus!
