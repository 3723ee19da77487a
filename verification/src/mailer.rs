//! The engine's front object and its path helpers.
//!
//! `Mailer` owns a configuration; the application drives the machines of the
//! other modules with it. The helpers here name files: extracting the file
//! name from a path, filling templates, and building the timestamped name
//! under which a failed send's bytes are persisted.

use vstd::prelude::*;

use crate::config::Config;
use crate::message;
use crate::strutil;

verus! {

/// The character of one decimal digit.
pub open spec fn digit_char(d: int) -> char {
    ((48 + d) as u8) as char
}

/// The decimal numeral of `n`, most significant digit first.
pub open spec fn dec_str(n: nat) -> Seq<char>
    decreases n,
{
    if n < 10 {
        seq![digit_char(n as int)]
    } else {
        dec_str(n / 10).push(digit_char((n % 10) as int))
    }
}

/// Appends the decimal numeral of `n`.
fn push_dec(n: u64, out: &mut Vec<char>)
    ensures
        final(out)@ == old(out)@ + dec_str(n as nat),
    decreases n,
{
    if n < 10 {
        out.push((48 + n as u8) as char);
        proof {
            assert(final(out)@ =~= old(out)@ + dec_str(n as nat));
        }
    } else {
        push_dec(n / 10, out);
        out.push((48 + (n % 10) as u8) as char);
        proof {
            assert(final(out)@ =~= old(out)@ + dec_str(n as nat));
        }
    }
}

/// The decimal numeral of `n` as a string.
pub fn u64_to_string(n: u64) -> (r: String)
    ensures
        r@ == dec_str(n as nat),
{
    let mut chars: Vec<char> = Vec::new();
    push_dec(n, &mut chars);
    proof {
        assert(chars@ =~= dec_str(n as nat));
    }
    strutil::chars_to_string(&chars)
}

/// `s` without its trailing slashes.
pub open spec fn strip_trailing_slashes(s: Seq<char>) -> Seq<char>
    decreases s.len(),
{
    if s.len() > 0 && s.last() == '/' {
        strip_trailing_slashes(s.drop_last())
    } else {
        s
    }
}

/// The characters after the last slash of `s`; all of `s` when it has none.
pub open spec fn last_component(s: Seq<char>) -> Seq<char>
    decreases s.len(),
{
    if s.len() == 0 {
        s
    } else if s.last() == '/' {
        Seq::empty()
    } else {
        last_component(s.drop_last()).push(s.last())
    }
}

/// The file name of a path: the part after the last slash, trailing slashes
/// ignored; the placeholder `未知文件` when nothing usable remains (an empty
/// path, a bare slash, or a `.`/`..` component).
pub open spec fn spec_filename(path: Seq<char>) -> Seq<char> {
    let f = last_component(strip_trailing_slashes(path));
    if f.len() == 0 || f == "."@ || f == ".."@ {
        "未知文件"@
    } else {
        f
    }
}

/// The position of the last dot of `s`, if any.
pub open spec fn last_dot(s: Seq<char>) -> Option<int>
    decreases s.len(),
{
    if s.len() == 0 {
        None
    } else if s.last() == '.' {
        Some(s.len() - 1)
    } else {
        last_dot(s.drop_last())
    }
}

/// The name under which a failed source is persisted: the file name with
/// `_<timestamp>` spliced in before the extension, or appended when the name
/// has no dot.
pub open spec fn spec_dest_name(name: Seq<char>, ts: nat) -> Seq<char> {
    match last_dot(name) {
        Some(d) => name.take(d) + "_"@ + dec_str(ts) + "."@ + name.skip(d + 1),
        None => name + "_"@ + dec_str(ts),
    }
}

proof fn lemma_last_dot(s: Seq<char>)
    ensures
        match last_dot(s) {
            Some(d) => 0 <= d < s.len() && s[d] == '.' && forall|j: int|
                d < j < s.len() ==> s[j] != '.',
            None => forall|j: int| 0 <= j < s.len() ==> s[j] != '.',
        },
    decreases s.len(),
{
    if s.len() > 0 && s.last() != '.' {
        lemma_last_dot(s.drop_last());
        let t = s.drop_last();
        match last_dot(t) {
            Some(d) => {
                assert(s[d] == t[d]);
                assert forall|j: int| d < j < s.len() implies s[j] != '.' by {
                    if j < s.len() - 1 {
                        assert(t[j] == s[j]);
                    }
                }
            },
            None => {
                assert forall|j: int| 0 <= j < s.len() implies s[j] != '.' by {
                    if j < s.len() - 1 {
                        assert(t[j] == s[j]);
                    }
                }
            },
        }
    }
}

/// Builds the timestamped destination name for a failed source's copy.
pub fn failed_email_dest_name(name: &str, timestamp_ms: u64) -> (r: String)
    ensures
        r@ == spec_dest_name(name@, timestamp_ms as nat),
{
    let chars = strutil::str_chars(name);
    let n = chars.len();
    let mut d: usize = n;
    proof {
        reveal_strlit("_");
        reveal_strlit(".");
        assert("_"@ =~= seq!['_']);
        assert("."@ =~= seq!['.']);
        assert(chars@.take(n as int) =~= chars@);
    }
    while d > 0 && chars[d - 1] != '.'
        invariant
            n == chars@.len(),
            d <= n,
            last_dot(chars@) == last_dot(chars@.take(d as int)),
        decreases d,
    {
        proof {
            assert(chars@.take(d as int).drop_last() =~= chars@.take(d - 1));
            assert(chars@.take(d as int).last() == chars@[d - 1]);
        }
        d = d - 1;
    }
    let mut out: Vec<char> = Vec::new();
    if d > 0 {
        proof {
            assert(chars@.take(d as int).last() == chars@[d - 1]);
            assert(last_dot(chars@) == Some(d - 1));
        }
        let mut i: usize = 0;
        while i < d - 1
            invariant
                0 < d <= n,
                n == chars@.len(),
                i <= d - 1,
                out@ == chars@.take(i as int),
            decreases d - i,
        {
            out.push(chars[i]);
            proof {
                assert(out@ =~= chars@.take(i + 1));
            }
            i = i + 1;
        }
        out.push('_');
        push_dec(timestamp_ms, &mut out);
        out.push('.');
        proof {
            reveal_strlit("_");
            reveal_strlit(".");
            assert("_"@ =~= seq!['_']);
            assert("."@ =~= seq!['.']);
            assert(chars@.skip(d as int).take(0) =~= Seq::<char>::empty());
            assert(out@ =~= chars@.take(d - 1) + "_"@ + dec_str(timestamp_ms as nat) + "."@
                + chars@.skip(d as int).take(0));
        }
        let mut j: usize = d;
        while j < n
            invariant
                0 < d <= j <= n,
                n == chars@.len(),
                out@ == chars@.take(d - 1) + "_"@ + dec_str(timestamp_ms as nat) + "."@
                    + chars@.skip(d as int).take(j - d),
            decreases n - j,
        {
            out.push(chars[j]);
            proof {
                reveal_strlit("_");
                reveal_strlit(".");
                assert(chars@.skip(d as int).take(j + 1 - d) =~= chars@.skip(d as int).take(
                    j - d,
                ).push(chars@[j as int]));
                assert(out@ =~= chars@.take(d - 1) + "_"@ + dec_str(timestamp_ms as nat) + "."@
                    + chars@.skip(d as int).take(j + 1 - d));
            }
            j = j + 1;
        }
        proof {
            assert(chars@.skip(d as int).take(n - d) =~= chars@.skip(d as int));
            assert(out@ =~= spec_dest_name(name@, timestamp_ms as nat));
        }
    } else {
        proof {
            assert(chars@.take(0) =~= Seq::<char>::empty());
            assert(last_dot(chars@) is None);
        }
        let mut i: usize = 0;
        while i < n
            invariant
                n == chars@.len(),
                i <= n,
                out@ == chars@.take(i as int),
            decreases n - i,
        {
            out.push(chars[i]);
            proof {
                assert(out@ =~= chars@.take(i + 1));
            }
            i = i + 1;
        }
        out.push('_');
        push_dec(timestamp_ms, &mut out);
        proof {
            reveal_strlit("_");
            assert("_"@ =~= seq!['_']);
            assert(chars@.take(n as int) =~= chars@);
            assert(out@ =~= spec_dest_name(name@, timestamp_ms as nat));
        }
    }
    strutil::chars_to_string(&out)
}

/// The sending engine: a configuration and the helpers named by it.
pub struct Mailer {
    /// The run's configuration.
    pub config: Config,
}

impl Mailer {
    /// An engine over the given configuration.
    pub fn new(config: Config) -> (r: Mailer)
        ensures
            r.config == config,
    {
        Mailer { config }
    }

    /// Fills `{filename}` into a template.
    pub fn process_template(template: &str, filename: &str) -> (r: String)
        ensures
            r@ == message::replace_seq(template@, "{filename}"@, filename@),
    {
        proof {
            reveal_strlit("{filename}");
        }
        message::replace_str(template, "{filename}", filename)
    }

    /// The file name of a path, `未知文件` when the path has none.
    pub fn get_filename(path: &str) -> (r: String)
        ensures
            r@ == spec_filename(path@),
    {
        let chars = strutil::str_chars(path);
        let mut e = chars.len();
        proof {
            assert(chars@.take(chars@.len() as int) =~= chars@);
        }
        while e > 0 && chars[e - 1] == '/'
            invariant
                e <= chars@.len(),
                strip_trailing_slashes(chars@) == strip_trailing_slashes(chars@.take(e as int)),
            decreases e,
        {
            proof {
                assert(chars@.take(e as int).drop_last() =~= chars@.take(e - 1));
                assert(chars@.take(e as int).last() == chars@[e - 1]);
            }
            e = e - 1;
        }
        proof {
            if e > 0 {
                assert(chars@.take(e as int).last() == chars@[e - 1]);
            }
            assert(strip_trailing_slashes(chars@) == chars@.take(e as int));
        }
        let mut a = e;
        while a > 0 && chars[a - 1] != '/'
            invariant
                a <= e <= chars@.len(),
                forall|j: int| a <= j < e ==> chars@[j] != '/',
            decreases a,
        {
            a = a - 1;
        }
        proof {
            let te = chars@.take(e as int);
            assert(forall|j: int| a <= j < te.len() ==> te[j] != '/');
            if a > 0 {
                assert(te[a - 1] == chars@[a - 1]);
                lemma_last_component_stop(te, a as int);
            } else {
                lemma_last_component_all(te);
                assert(te.skip(0) =~= te);
            }
            assert(last_component(chars@.take(e as int)) == chars@.take(e as int).skip(a as int));
            assert(chars@.take(e as int).skip(a as int) =~= chars@.subrange(a as int, e as int));
        }
        let mut out: Vec<char> = Vec::new();
        let mut i = a;
        while i < e
            invariant
                a <= i <= e <= chars@.len(),
                out@ == chars@.subrange(a as int, i as int),
            decreases e - i,
        {
            out.push(chars[i]);
            proof {
                assert(out@ =~= chars@.subrange(a as int, i + 1));
            }
            i = i + 1;
        }
        let f = strutil::chars_to_string(&out);
        if f.as_str().is_empty() || strutil::str_eq(f.as_str(), ".") || strutil::str_eq(
            f.as_str(),
            "..",
        ) {
            "未知文件".to_owned()
        } else {
            f
        }
    }
}

proof fn lemma_last_component_stop(s: Seq<char>, a: int)
    requires
        0 < a <= s.len(),
        s[a - 1] == '/',
        forall|j: int| a <= j < s.len() ==> s[j] != '/',
    ensures
        last_component(s) == s.skip(a),
    decreases s.len(),
{
    if s.len() > a {
        assert(s.last() != '/');
        lemma_last_component_stop(s.drop_last(), a);
        assert(s.drop_last().skip(a).push(s.last()) =~= s.skip(a));
    } else {
        assert(s.last() == '/');
        assert(s.skip(a) =~= Seq::<char>::empty());
    }
}

proof fn lemma_last_component_all(s: Seq<char>)
    requires
        forall|j: int| 0 <= j < s.len() ==> s[j] != '/',
    ensures
        last_component(s) == s,
    decreases s.len(),
{
    if s.len() > 0 {
        lemma_last_component_all(s.drop_last());
        assert(s.drop_last().push(s.last()) =~= s);
    }
}

} // verus!
