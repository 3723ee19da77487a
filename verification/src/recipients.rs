//! The recipient list.
//!
//! The configured `to` field is a comma-separated list; each element is
//! trimmed and empty elements are discarded. The surviving order is the order
//! of the `RCPT TO` commands and of the rebuilt `To:` header.

use vstd::prelude::*;

use crate::strutil;

verus! {

/// Whether `c` is blank for the purpose of trimming list elements.
pub open spec fn is_space(c: char) -> bool {
    c == ' ' || c == '\t' || c == '\n' || c == '\r' || c == '\u{0B}' || c == '\u{0C}'
}

/// `s` without its leading blanks.
pub open spec fn trim_start(s: Seq<char>) -> Seq<char>
    decreases s.len(),
{
    if s.len() > 0 && is_space(s[0]) {
        trim_start(s.drop_first())
    } else {
        s
    }
}

/// `s` without its trailing blanks.
pub open spec fn trim_end(s: Seq<char>) -> Seq<char>
    decreases s.len(),
{
    if s.len() > 0 && is_space(s.last()) {
        trim_end(s.drop_last())
    } else {
        s
    }
}

/// `s` without leading and trailing blanks.
pub open spec fn trim(s: Seq<char>) -> Seq<char> {
    trim_end(trim_start(s))
}

/// The comma-separated pieces of `s`, blanks and all; one piece more than
/// there are commas.
pub open spec fn split_commas(s: Seq<char>) -> Seq<Seq<char>> {
    split_acc(s, Seq::empty())
}

/// Splitting helper: `cur` is the piece read so far.
pub open spec fn split_acc(s: Seq<char>, cur: Seq<char>) -> Seq<Seq<char>>
    decreases s.len(),
{
    if s.len() == 0 {
        seq![cur]
    } else if s[0] == ',' {
        seq![cur] + split_acc(s.drop_first(), Seq::empty())
    } else {
        split_acc(s.drop_first(), cur.push(s[0]))
    }
}

/// The effective recipient list of a `to` field: its comma-separated pieces,
/// trimmed, with empty elements discarded, in order.
pub open spec fn spec_recipients(s: Seq<char>) -> Seq<Seq<char>> {
    split_commas(s).map_values(|p: Seq<char>| trim(p)).filter(|p: Seq<char>| p.len() > 0)
}

/// Trimming a piece: the longest subrange free of leading and trailing
/// blanks.
fn trim_chars(piece: &Vec<char>) -> (r: Vec<char>)
    ensures
        r@ == trim(piece@),
{
    let n = piece.len();
    let mut a: usize = 0;
    proof {
        assert(piece@.skip(0) =~= piece@);
    }
    while a < n && is_space_exec(piece[a])
        invariant
            n == piece@.len(),
            a <= n,
            trim_start(piece@) == trim_start(piece@.skip(a as int)),
        decreases n - a,
    {
        proof {
            assert(piece@.skip(a as int).drop_first() =~= piece@.skip(a + 1));
        }
        a = a + 1;
    }
    proof {
        if a < n {
            assert(trim_start(piece@.skip(a as int)) == piece@.skip(a as int));
        } else {
            assert(piece@.skip(a as int) =~= Seq::<char>::empty());
            assert(trim_start(piece@) =~= piece@.skip(a as int));
        }
    }
    let mut b: usize = n;
    proof {
        assert(piece@.skip(a as int).take(n - a) =~= piece@.skip(a as int));
    }
    while b > a && is_space_exec(piece[b - 1])
        invariant
            n == piece@.len(),
            a <= b <= n,
            trim_start(piece@) == piece@.skip(a as int),
            trim_end(piece@.skip(a as int)) == trim_end(piece@.skip(a as int).take(b - a)),
        decreases b,
    {
        proof {
            assert(piece@.skip(a as int).take(b - a).drop_last() =~= piece@.skip(a as int).take(
                b - 1 - a,
            ));
            assert(piece@.skip(a as int).take(b - a).last() == piece@[b - 1]);
        }
        b = b - 1;
    }
    proof {
        if b > a {
            assert(piece@.skip(a as int).take(b - a).last() == piece@[b - 1]);
            assert(trim_end(piece@.skip(a as int).take(b - a)) == piece@.skip(a as int).take(
                b - a,
            ));
        } else {
            assert(piece@.skip(a as int).take(b - a) =~= Seq::<char>::empty());
            assert(trim_end(piece@.skip(a as int).take(b - a)) =~= piece@.skip(a as int).take(
                b - a,
            ));
        }
    }
    let mut out: Vec<char> = Vec::new();
    let mut i: usize = a;
    while i < b
        invariant
            a <= i <= b <= n,
            n == piece@.len(),
            out@ == piece@.skip(a as int).take(i - a),
        decreases b - i,
    {
        out.push(piece[i]);
        proof {
            assert(out@ =~= piece@.skip(a as int).take(i + 1 - a));
        }
        i = i + 1;
    }
    out
}

fn is_space_exec(c: char) -> (r: bool)
    ensures
        r == is_space(c),
{
    c == ' ' || c == '\t' || c == '\n' || c == '\r' || c == '\u{0B}' || c == '\u{0C}'
}

/// Splits the `to` field into the effective recipient list: comma-separated,
/// each element trimmed, empty elements discarded, order preserved.
pub fn parse_recipients(to: &str) -> (r: Vec<String>)
    ensures
        r@.map_values(|s: String| s@) == spec_recipients(to@),
{
    let chars = strutil::str_chars(to);
    let n = chars.len();
    let mut pieces: Vec<Vec<char>> = Vec::new();
    let mut cur: Vec<char> = Vec::new();
    let mut i: usize = 0;
    proof {
        assert(chars@.skip(0) =~= chars@);
        assert(pieces@.map_values(|p: Vec<char>| p@) + split_acc(chars@, cur@) =~= split_acc(
            chars@,
            cur@,
        ));
    }
    while i < n
        invariant
            n == chars@.len(),
            i <= n,
            split_commas(chars@) == pieces@.map_values(|p: Vec<char>| p@) + split_acc(
                chars@.skip(i as int),
                cur@,
            ),
        decreases n - i,
    {
        let c = chars[i];
        proof {
            assert(chars@.skip(i as int)[0] == chars@[i as int]);
            assert(chars@.skip(i as int).drop_first() =~= chars@.skip(i + 1));
        }
        if c == ',' {
            let done = cur;
            cur = Vec::new();
            pieces.push(done);
            proof {
                assert(pieces@.map_values(|p: Vec<char>| p@) =~= pieces@.drop_last().map_values(
                    |p: Vec<char>| p@,
                ).push(pieces@.last()@));
                assert(pieces@.drop_last().map_values(|p: Vec<char>| p@) + (seq![pieces@.last()@]
                    + split_acc(chars@.skip(i + 1), Seq::empty())) =~= pieces@.map_values(
                    |p: Vec<char>| p@,
                ) + split_acc(chars@.skip(i + 1), Seq::empty()));
            }
        } else {
            cur.push(c);
        }
        i = i + 1;
    }
    proof {
        assert(chars@.skip(n as int) =~= Seq::<char>::empty());
        assert(split_acc(chars@.skip(n as int), cur@) =~= seq![cur@]);
    }
    pieces.push(cur);
    proof {
        assert(pieces@.map_values(|p: Vec<char>| p@) =~= pieces@.drop_last().map_values(
            |p: Vec<char>| p@,
        ).push(pieces@.last()@));
        assert(split_commas(chars@) == pieces@.map_values(|p: Vec<char>| p@));
    }
    let mut out: Vec<String> = Vec::new();
    let ghost mapped = split_commas(chars@).map_values(|p: Seq<char>| trim(p));
    let mut k: usize = 0;
    while k < pieces.len()
        invariant
            pieces@.len() == mapped.len(),
            mapped == pieces@.map_values(|p: Vec<char>| p@).map_values(|p: Seq<char>| trim(p)),
            k <= pieces.len(),
            out@.map_values(|s: String| s@) == mapped.take(k as int).filter(
                |p: Seq<char>| p.len() > 0,
            ),
        decreases pieces.len() - k,
    {
        let t = trim_chars(&pieces[k]);
        proof {
            assert(mapped.take(k + 1).drop_last() =~= mapped.take(k as int));
            assert(mapped.take(k + 1).last() == trim(pieces@[k as int]@));
            reveal(Seq::filter);
        }
        if t.len() > 0 {
            out.push(strutil::chars_to_string(&t));
            proof {
                assert(out@.map_values(|s: String| s@) =~= out@.drop_last().map_values(
                    |s: String| s@,
                ).push(out@.last()@));
            }
        }
        k = k + 1;
    }
    proof {
        assert(mapped.take(mapped.len() as int) =~= mapped);
    }
    out
}

} // verus!
