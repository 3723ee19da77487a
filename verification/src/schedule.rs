//! Scheduling: source enumeration, partitioning across workers, batching
//! within a worker, the worker count, and the round loop's decisions.

use vstd::prelude::*;

use crate::config::ProcessMode;
use crate::mailer;
use crate::strutil;

verus! {

/// One entry of a directory walk, as the application hands it over: the path
/// and whether it is a regular file.
#[derive(Debug, Clone)]
pub struct FileEntry {
    /// The entry's path.
    pub path: String,
    /// Whether the entry is a regular file.
    pub is_file: bool,
}

/// The extension of a path: the part of its file name after the last dot,
/// none when the name has no dot or only a leading one.
pub open spec fn spec_extension(path: Seq<char>) -> Option<Seq<char>> {
    let f = mailer::last_component(path);
    match mailer::last_dot(f) {
        Some(d) => if d > 0 {
            Some(f.skip(d + 1))
        } else {
            None
        },
        None => None,
    }
}

/// Whether a walk entry is selected for the message-file mode: a regular
/// file whose extension equals `ext`, case-sensitively.
pub open spec fn spec_selected(e: FileEntry, ext: Seq<char>) -> bool {
    e.is_file && spec_extension(e.path@) == Some(ext)
}

/// The extension of a path, executable form.
fn path_extension(path: &str) -> (r: Option<String>)
    ensures
        match (&r, spec_extension(path@)) {
            (Some(a), Some(b)) => a@ == b,
            (None, None) => true,
            _ => false,
        },
{
    let chars = strutil::str_chars(path);
    let n = chars.len();
    let mut a = n;
    while a > 0 && chars[a - 1] != '/'
        invariant
            a <= n,
            n == chars@.len(),
            forall|j: int| a <= j < n ==> chars@[j] != '/',
        decreases a,
    {
        a = a - 1;
    }
    proof {
        if a > 0 {
            lemma_component_after_slash(chars@, a as int);
        } else {
            lemma_component_no_slash(chars@);
        }
        assert(mailer::last_component(chars@) == chars@.skip(a as int));
    }
    let mut d = n;
    proof {
        assert(chars@.skip(a as int).take(n - a) =~= chars@.skip(a as int));
    }
    while d > a && chars[d - 1] != '.'
        invariant
            a <= d <= n,
            n == chars@.len(),
            mailer::last_dot(chars@.skip(a as int)) == mailer::last_dot(
                chars@.skip(a as int).take(d - a),
            ),
        decreases d,
    {
        proof {
            assert(chars@.skip(a as int).take(d - a).drop_last() =~= chars@.skip(a as int).take(
                d - 1 - a,
            ));
            assert(chars@.skip(a as int).take(d - a).last() == chars@[d - 1]);
        }
        d = d - 1;
    }
    if d <= a {
        proof {
            assert(chars@.skip(a as int).take(0) =~= Seq::<char>::empty());
        }
        return None;
    }
    proof {
        assert(chars@.skip(a as int).take(d - a).last() == chars@[d - 1]);
        assert(mailer::last_dot(chars@.skip(a as int)) == Some(d - 1 - a));
    }
    if d - a == 1 {
        return None;
    }
    let mut out: Vec<char> = Vec::new();
    let mut i = d;
    while i < n
        invariant
            a < d <= i <= n,
            n == chars@.len(),
            out@ == chars@.subrange(d as int, i as int),
        decreases n - i,
    {
        out.push(chars[i]);
        proof {
            assert(out@ =~= chars@.subrange(d as int, i + 1));
        }
        i = i + 1;
    }
    proof {
        assert(chars@.skip(a as int).skip(d - a) =~= chars@.subrange(d as int, n as int));
    }
    Some(strutil::chars_to_string(&out))
}

proof fn lemma_component_after_slash(s: Seq<char>, a: int)
    requires
        0 < a <= s.len(),
        s[a - 1] == '/',
        forall|j: int| a <= j < s.len() ==> s[j] != '/',
    ensures
        mailer::last_component(s) == s.skip(a),
    decreases s.len(),
{
    if s.len() > a {
        lemma_component_after_slash(s.drop_last(), a);
        assert(s.drop_last().skip(a).push(s.last()) =~= s.skip(a));
    } else {
        assert(s.skip(a) =~= Seq::<char>::empty());
    }
}

proof fn lemma_component_no_slash(s: Seq<char>)
    requires
        forall|j: int| 0 <= j < s.len() ==> s[j] != '/',
    ensures
        mailer::last_component(s) == s,
    decreases s.len(),
{
    if s.len() > 0 {
        lemma_component_no_slash(s.drop_last());
        assert(s.drop_last().push(s.last()) =~= s);
    }
}

/// The message files of a walked directory: every regular file whose
/// extension equals `extension`, in walk order.
pub fn collect_email_files(entries: &Vec<FileEntry>, extension: &str) -> (r: Vec<String>)
    ensures
        r@.map_values(|p: String| p@) == entries@.filter(
            |e: FileEntry| spec_selected(e, extension@),
        ).map_values(|e: FileEntry| e.path@),
{
    let mut out: Vec<String> = Vec::new();
    let mut i: usize = 0;
    while i < entries.len()
        invariant
            i <= entries@.len(),
            out@.map_values(|p: String| p@) == entries@.take(i as int).filter(
                |e: FileEntry| spec_selected(e, extension@),
            ).map_values(|e: FileEntry| e.path@),
        decreases entries@.len() - i,
    {
        let selected = entries[i].is_file && (match path_extension(entries[i].path.as_str()) {
            Some(x) => strutil::str_eq(x.as_str(), extension),
            None => false,
        });
        proof {
            let p = |e: FileEntry| spec_selected(e, extension@);
            assert(entries@.take(i + 1).drop_last() =~= entries@.take(i as int));
            assert(entries@.take(i + 1).last() == entries@[i as int]);
            reveal(Seq::filter);
            if selected {
                assert(entries@.take(i + 1).filter(p) == entries@.take(i as int).filter(p).push(
                    entries@[i as int],
                ));
            } else {
                assert(entries@.take(i + 1).filter(p) == entries@.take(i as int).filter(p));
            }
        }
        if selected {
            out.push(entries[i].path.clone());
            proof {
                let p = |e: FileEntry| spec_selected(e, extension@);
                assert(out@.map_values(|q: String| q@) =~= out@.drop_last().map_values(
                    |q: String| q@,
                ).push(out@.last()@));
                assert(entries@.take(i as int).filter(p).push(entries@[i as int]).map_values(
                    |e: FileEntry| e.path@,
                ) =~= entries@.take(i as int).filter(p).map_values(|e: FileEntry| e.path@).push(
                    entries@[i as int].path@,
                ));
            }
        }
        i = i + 1;
    }
    proof {
        assert(entries@.take(entries@.len() as int) =~= entries@);
    }
    out
}

/// Every regular file of a walked directory, in walk order — the sources of
/// the attachment-directory mode.
pub fn collect_all_files(entries: &Vec<FileEntry>) -> (r: Vec<String>)
    ensures
        r@.map_values(|p: String| p@) == entries@.filter(|e: FileEntry| e.is_file).map_values(
            |e: FileEntry| e.path@,
        ),
{
    let mut out: Vec<String> = Vec::new();
    let mut i: usize = 0;
    while i < entries.len()
        invariant
            i <= entries@.len(),
            out@.map_values(|p: String| p@) == entries@.take(i as int).filter(
                |e: FileEntry| e.is_file,
            ).map_values(|e: FileEntry| e.path@),
        decreases entries@.len() - i,
    {
        let selected = entries[i].is_file;
        proof {
            let p = |e: FileEntry| e.is_file;
            assert(entries@.take(i + 1).drop_last() =~= entries@.take(i as int));
            assert(entries@.take(i + 1).last() == entries@[i as int]);
            reveal(Seq::filter);
            if selected {
                assert(entries@.take(i + 1).filter(p) == entries@.take(i as int).filter(p).push(
                    entries@[i as int],
                ));
            } else {
                assert(entries@.take(i + 1).filter(p) == entries@.take(i as int).filter(p));
            }
        }
        if selected {
            out.push(entries[i].path.clone());
            proof {
                let p = |e: FileEntry| e.is_file;
                assert(out@.map_values(|q: String| q@) =~= out@.drop_last().map_values(
                    |q: String| q@,
                ).push(out@.last()@));
                assert(entries@.take(i as int).filter(p).push(entries@[i as int]).map_values(
                    |e: FileEntry| e.path@,
                ) =~= entries@.take(i as int).filter(p).map_values(|e: FileEntry| e.path@).push(
                    entries@[i as int].path@,
                ));
            }
        }
        i = i + 1;
    }
    proof {
        assert(entries@.take(entries@.len() as int) =~= entries@);
    }
    out
}

/// `items` cut into consecutive pieces of `size`, the last one possibly
/// shorter; the pieces concatenate back to `items`.
pub open spec fn spec_chunks(items: Seq<String>, size: int) -> Seq<Seq<String>>
    decreases items.len(),
    when size >= 1
{
    if items.len() == 0 {
        Seq::empty()
    } else if items.len() <= size {
        seq![items]
    } else {
        seq![items.take(size)] + spec_chunks(items.skip(size), size)
    }
}

/// Concatenating the chunks gives back the items: nothing is lost, nothing
/// reordered, nothing duplicated.
pub proof fn lemma_chunks_flatten(items: Seq<String>, size: int)
    requires
        size >= 1,
    ensures
        spec_chunks(items, size).flatten() == items,
    decreases items.len(),
{
    if items.len() == 0 {
        assert(spec_chunks(items, size).flatten() =~= items);
    } else if items.len() <= size {
        assert(seq![items].first() == items);
        assert(seq![items].drop_first() =~= Seq::<Seq<String>>::empty());
        assert(Seq::<Seq<String>>::empty().flatten() == Seq::<String>::empty());
        assert(seq![items].flatten() == items + Seq::<String>::empty());
        assert(items + Seq::<String>::empty() =~= items);
    } else {
        lemma_chunks_flatten(items.skip(size), size);
        assert((seq![items.take(size)] + spec_chunks(items.skip(size), size)).flatten()
            =~= items.take(size) + spec_chunks(items.skip(size), size).flatten()) by {
            assert((seq![items.take(size)] + spec_chunks(items.skip(size), size)).drop_first()
                =~= spec_chunks(items.skip(size), size));
        }
        assert(items.take(size) + items.skip(size) =~= items);
    }
}

/// Every chunk is nonempty and no longer than `size`.
pub proof fn lemma_chunks_sizes(items: Seq<String>, size: int)
    requires
        size >= 1,
    ensures
        forall|i: int|
            0 <= i < spec_chunks(items, size).len() ==> 0 < (#[trigger] spec_chunks(
                items,
                size,
            )[i]).len() <= size,
    decreases items.len(),
{
    if items.len() > size {
        lemma_chunks_sizes(items.skip(size), size);
        assert forall|i: int|
            0 <= i < spec_chunks(items, size).len() implies 0 < (#[trigger] spec_chunks(
            items,
            size,
        )[i]).len() <= size by {
            if i > 0 {
                assert(spec_chunks(items, size)[i] == spec_chunks(items.skip(size), size)[i - 1]);
            }
        }
    }
}

/// Cuts `items` into consecutive pieces of `size`, the last one possibly
/// shorter.
pub fn chunk_list(items: &Vec<String>, size: usize) -> (r: Vec<Vec<String>>)
    requires
        size >= 1,
    ensures
        r@.map_values(|c: Vec<String>| c@) == spec_chunks(items@, size as int),
{
    let mut out: Vec<Vec<String>> = Vec::new();
    let mut i: usize = 0;
    let n = items.len();
    proof {
        assert(items@.skip(0) =~= items@);
        assert(out@.map_values(|c: Vec<String>| c@) + spec_chunks(items@, size as int)
            =~= spec_chunks(items@, size as int));
    }
    while i < n
        invariant
            size >= 1,
            n == items@.len(),
            i <= n,
            spec_chunks(items@, size as int) == out@.map_values(|c: Vec<String>| c@)
                + spec_chunks(items@.skip(i as int), size as int),
        decreases n - i,
    {
        let remaining = n - i;
        let take = if remaining < size {
            remaining
        } else {
            size
        };
        let mut piece: Vec<String> = Vec::new();
        let mut j: usize = 0;
        while j < take
            invariant
                n == items@.len(),
                i + take <= n,
                j <= take,
                piece@ == items@.skip(i as int).take(j as int),
            decreases take - j,
        {
            piece.push(items[i + j].clone());
            proof {
                assert(piece@ =~= items@.skip(i as int).take(j + 1));
            }
            j = j + 1;
        }
        out.push(piece);
        proof {
            let rest = items@.skip(i as int);
            if rest.len() <= size as int {
                assert(rest.take(take as int) =~= rest);
                assert(spec_chunks(rest, size as int) == seq![rest]);
            } else {
                assert(rest.skip(size as int) =~= items@.skip(i + size));
            }
            assert(out@.map_values(|c: Vec<String>| c@) =~= out@.drop_last().map_values(
                |c: Vec<String>| c@,
            ).push(out@.last()@));
            assert(out@.drop_last().map_values(|c: Vec<String>| c@) + (seq![
                items@.skip(i as int).take(take as int),
            ] + spec_chunks(items@.skip(i + take), size as int)) =~= out@.map_values(
                |c: Vec<String>| c@,
            ) + spec_chunks(items@.skip(i + take), size as int));
        }
        i = i + take;
    }
    proof {
        assert(items@.skip(i as int) =~= Seq::<String>::empty());
        assert(out@.map_values(|c: Vec<String>| c@) + spec_chunks(
            items@.skip(i as int),
            size as int,
        ) =~= out@.map_values(|c: Vec<String>| c@));
    }
    out
}

/// The size of each worker's contiguous chunk: the source count divided by
/// the worker count, rounded up (written over `len - 1` so that it needs no
/// case split; the two forms agree for every positive `len`).
pub open spec fn spec_chunk_size(len: int, workers: int) -> int {
    (len - 1) / workers + 1
}

/// Partitions the sources into at most `workers` contiguous chunks of equal
/// ceiling size; the chunks concatenate back to the full list, in order.
pub fn partition_sources(files: &Vec<String>, workers: usize) -> (r: Vec<Vec<String>>)
    requires
        workers >= 1,
    ensures
        r@.map_values(|c: Vec<String>| c@) == spec_chunks(
            files@,
            spec_chunk_size(files@.len() as int, workers as int),
        ) || (files@.len() == 0 && r@.len() == 0),
        files@.len() == 0 ==> r@.len() == 0,
    {
    if files.len() == 0 {
        return Vec::new();
    }
    let len = files.len();
    let size = (len - 1) / workers + 1;
    chunk_list(files, size)
}

/// One worker's batches: its chunk cut into runs of the configured batch
/// size — a batch size of zero behaves as one, every message in a batch of
/// its own.
pub fn make_batches(chunk: &Vec<String>, batch_size: usize) -> (r: Vec<Vec<String>>)
    ensures
        r@.map_values(|c: Vec<String>| c@) == spec_chunks(
            chunk@,
            if batch_size == 0 {
                1int
            } else {
                batch_size as int
            },
        ),
{
    let size = if batch_size == 0 {
        1
    } else {
        batch_size
    };
    chunk_list(chunk, size)
}

/// Batch-size-one isolation: with a batch size of one, every batch holds a
/// single source, and `keep_session_after_batch` never keeps the session —
/// so no two transactions ever share a connection.
pub proof fn lemma_batch_size_one_isolation(chunk: Seq<String>, reset: bool)
    ensures
        forall|i: int|
            0 <= i < spec_chunks(chunk, 1).len() ==> (#[trigger] spec_chunks(chunk, 1)[i]).len()
                == 1,
        !(1usize != 1 && !reset),
{
    lemma_chunks_sizes(chunk, 1);
}

/// What the round loop does after one round, as the iteration policy
/// demands: a failed round is surfaced unless looping (then it is retried
/// after the retry pause); a completed run or a stop request ends the loop;
/// otherwise the next round follows the loop pause.
#[derive(Debug, Clone, Copy, PartialEq, Eq, Structural)]
pub enum RoundStep {
    /// Wait this many seconds, then run the next round.
    SleepThenNext(u64),
    /// The round failed in loop mode: wait this many seconds, then retry.
    RetryAfter(u64),
    /// The run is over.
    Stop,
    /// Surface the round's error to the caller.
    Fail,
}

/// The iteration decision after one round. `rounds_done` counts completed
/// rounds, the one just finished included.
pub fn round_decision(
    loop_mode: bool,
    repeat: u32,
    rounds_done: u32,
    cancelled: bool,
    round_failed: bool,
    loop_interval: u64,
    retry_interval: u64,
) -> (r: RoundStep)
    ensures
        r == if round_failed {
            if !loop_mode || cancelled {
                RoundStep::Fail
            } else {
                RoundStep::RetryAfter(retry_interval)
            }
        } else if cancelled {
            RoundStep::Stop
        } else if !loop_mode && rounds_done >= repeat {
            RoundStep::Stop
        } else {
            RoundStep::SleepThenNext(loop_interval)
        },
{
    if round_failed {
        if !loop_mode || cancelled {
            RoundStep::Fail
        } else {
            RoundStep::RetryAfter(retry_interval)
        }
    } else if cancelled {
        RoundStep::Stop
    } else if !loop_mode && rounds_done >= repeat {
        RoundStep::Stop
    } else {
        RoundStep::SleepThenNext(loop_interval)
    }
}

/// Relies on `num_cpus::get`: the host's logical CPU count, always at least
/// one.
#[verifier::external_body]
fn logical_cpus() -> (r: usize)
    ensures
        r >= 1,
{
    num_cpus::get()
}

/// The worker count a policy resolves to: a positive fixed count is taken as
/// is; `auto` — and a degenerate fixed zero — take the logical CPU count.
pub fn resolve_worker_count(mode: &ProcessMode) -> (r: usize)
    ensures
        r >= 1,
        match *mode {
            ProcessMode::Fixed(n) => n > 0 ==> r == n,
            ProcessMode::Auto => true,
        },
{
    match mode {
        ProcessMode::Fixed(n) => if *n > 0 {
            *n
        } else {
            logical_cpus()
        },
        ProcessMode::Auto => logical_cpus(),
    }
}

} // verus!
