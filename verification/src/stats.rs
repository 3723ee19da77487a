//! The run statistics accumulator.
//!
//! Each worker fills a `Stats` of its own; the scheduler merges them. The
//! central bookkeeping rule: every failure is filed under an error class, and
//! for each class the occurrence count always equals the length of that
//! class's failed-file list — both are updated in one step, by
//! `increment_error` alone.

use vstd::prelude::*;

verus! {

/// One error class with its occurrence count and its failed files, in order
/// of appearance.
#[derive(Debug, Clone)]
pub struct ErrorEntry {
    /// The error-class text.
    pub class: String,
    /// How many failures were filed under this class.
    pub count: usize,
    /// The source path of each failure filed under this class, in order.
    pub files: Vec<String>,
}

/// Aggregated outcome of a run.
#[derive(Debug, Clone)]
pub struct Stats {
    /// Messages for which the server acknowledged the `DATA` step.
    pub email_count: usize,
    /// Per-message time to read and prepare the content, in milliseconds.
    pub parse_durations: Vec<u64>,
    /// Per-message time on the wire, in milliseconds.
    pub send_durations: Vec<u64>,
    /// Wall-clock time of the producing run, in milliseconds.
    pub total_duration_ms: u64,
    /// Failures before the envelope (unreadable or unparsable sources).
    pub parse_errors: usize,
    /// Failures recorded through `increment_error`.
    pub send_errors: usize,
    /// Error classes with their counts and failed-file lists.
    pub error_details: Vec<ErrorEntry>,
}

/// The index of the entry for class `k`, if one exists.
pub open spec fn find_class(entries: Seq<ErrorEntry>, k: Seq<char>) -> Option<int> {
    if exists|i: int| 0 <= i < entries.len() && entries[i].class@ == k {
        Some(choose|i: int| 0 <= i < entries.len() && entries[i].class@ == k)
    } else {
        None
    }
}

/// When class texts are distinct, `find_class` returns exactly the index of
/// the matching entry.
proof fn lemma_find_unique(entries: Seq<ErrorEntry>, k: Seq<char>, i: int)
    requires
        forall|a: int, b: int|
            0 <= a < b < entries.len() ==> entries[a].class@ != entries[b].class@,
        0 <= i < entries.len(),
        entries[i].class@ == k,
    ensures
        find_class(entries, k) == Some(i),
{
    let w = choose|w: int| 0 <= w < entries.len() && entries[w].class@ == k;
    if w < i {
        assert(entries[w].class@ != entries[i].class@);
    } else if i < w {
        assert(entries[i].class@ != entries[w].class@);
    }
}

/// The failed-file list of an entry, as sequences.
pub open spec fn files_view(e: ErrorEntry) -> Seq<Seq<char>> {
    e.files@.map_values(|f: String| f@)
}

/// `post` is `pre` with exactly one failure filed under `class` for `path`:
/// that class's count and file list grew together by one, the total failure
/// count grew by one, and nothing else moved.
pub open spec fn stats_failed_once(pre: Stats, post: Stats, class: Seq<char>, path: Seq<char>) -> bool {
    &&& post.email_count == pre.email_count
    &&& post.parse_durations == pre.parse_durations
    &&& post.send_durations == pre.send_durations
    &&& post.total_duration_ms == pre.total_duration_ms
    &&& post.parse_errors == pre.parse_errors
    &&& post.send_errors == pre.send_errors + 1
    &&& post.spec_count(class) == pre.spec_count(class) + 1
    &&& post.spec_files(class) == pre.spec_files(class).push(path)
    &&& forall|k: Seq<char>| k != class ==> post.spec_count(k) == pre.spec_count(k)
    &&& forall|k: Seq<char>| k != class ==> post.spec_files(k) == pre.spec_files(k)
}

/// `post` is `pre` with exactly one delivered message recorded: the success
/// count grew by one, the timing samples were appended, and nothing else
/// moved.
pub open spec fn stats_success_once(pre: Stats, post: Stats, parse_ms: u64, send_ms: u64) -> bool {
    &&& post.email_count == pre.email_count + 1
    &&& post.parse_durations@ == pre.parse_durations@.push(parse_ms)
    &&& post.send_durations@ == pre.send_durations@.push(send_ms)
    &&& post.total_duration_ms == pre.total_duration_ms
    &&& post.parse_errors == pre.parse_errors
    &&& post.send_errors == pre.send_errors
    &&& post.error_details == pre.error_details
}

impl Stats {
    /// The occurrence count recorded for class `k`.
    pub open spec fn spec_count(&self, k: Seq<char>) -> nat {
        match find_class(self.error_details@, k) {
            Some(i) => self.error_details@[i].count as nat,
            None => 0,
        }
    }

    /// The failed files recorded for class `k`, in order.
    pub open spec fn spec_files(&self, k: Seq<char>) -> Seq<Seq<char>> {
        match find_class(self.error_details@, k) {
            Some(i) => files_view(self.error_details@[i]),
            None => Seq::empty(),
        }
    }

    /// Accounting well-formedness: class texts are distinct, every count
    /// equals its file list's length, and no count exceeds the total failure
    /// count.
    pub open spec fn wf(&self) -> bool {
        &&& forall|i: int, j: int|
            0 <= i < j < self.error_details@.len()
                ==> self.error_details@[i].class@ != self.error_details@[j].class@
        &&& forall|i: int|
            0 <= i < self.error_details@.len()
                ==> (#[trigger] self.error_details@[i]).count == self.error_details@[i].files@.len()
        &&& forall|i: int|
            0 <= i < self.error_details@.len()
                ==> (#[trigger] self.error_details@[i]).count <= self.send_errors
    }

    /// A fresh accumulator: everything zero, no classes.
    pub fn new() -> (r: Stats)
        ensures
            r.wf(),
            r.email_count == 0,
            r.parse_durations@ == Seq::<u64>::empty(),
            r.send_durations@ == Seq::<u64>::empty(),
            r.total_duration_ms == 0,
            r.parse_errors == 0,
            r.send_errors == 0,
            r.error_details@ == Seq::<ErrorEntry>::empty(),
    {
        Stats {
            email_count: 0,
            parse_durations: Vec::new(),
            send_durations: Vec::new(),
            total_duration_ms: 0,
            parse_errors: 0,
            send_errors: 0,
            error_details: Vec::new(),
        }
    }

    /// The index of the first entry whose class equals `class`, if any.
    fn find_entry(entries: &Vec<ErrorEntry>, class: &str) -> (r: Option<usize>)
        ensures
            match r {
                Some(i) => i < entries@.len() && entries@[i as int].class@ == class@,
                None => forall|j: int| 0 <= j < entries@.len() ==> entries@[j].class@ != class@,
            },
    {
        let n = entries.len();
        let mut i: usize = 0;
        while i < n
            invariant
                n == entries@.len(),
                i <= n,
                forall|j: int| 0 <= j < i ==> entries@[j].class@ != class@,
            decreases n - i,
        {
            if crate::strutil::str_eq(entries[i].class.as_str(), class) {
                return Some(i);
            }
            i = i + 1;
        }
        None
    }

    /// Files one failure: the class's count rises by one, the path joins the
    /// class's file list, and the total failure count rises by one — all in
    /// the same step, so counts and file lists can never drift apart.
    pub fn increment_error(&mut self, error_type: &str, file_path: &str)
        requires
            old(self).wf(),
            old(self).send_errors < usize::MAX,
        ensures
            final(self).wf(),
            final(self).email_count == old(self).email_count,
            final(self).parse_durations == old(self).parse_durations,
            final(self).send_durations == old(self).send_durations,
            final(self).total_duration_ms == old(self).total_duration_ms,
            final(self).parse_errors == old(self).parse_errors,
            final(self).send_errors == old(self).send_errors + 1,
            final(self).spec_count(error_type@) == old(self).spec_count(error_type@) + 1,
            final(self).spec_files(error_type@) == old(self).spec_files(error_type@).push(
                file_path@,
            ),
            forall|k: Seq<char>|
                k != error_type@ ==> final(self).spec_count(k) == old(self).spec_count(k),
            forall|k: Seq<char>|
                k != error_type@ ==> final(self).spec_files(k) == old(self).spec_files(k),
    {
        let found = Self::find_entry(&self.error_details, error_type);
        if let Some(i) = found {
            let entry = &mut self.error_details[i];
            entry.count = entry.count + 1;
            entry.files.push(file_path.to_owned());
            self.send_errors = self.send_errors + 1;
            proof {
                let ed = self.error_details@;
                let oed = old(self).error_details@;
                assert(forall|j: int|
                    0 <= j < ed.len() && j != i ==> ed[j] == oed[j]);
                lemma_find_unique(oed, error_type@, i as int);
                assert(forall|a: int, b: int|
                    0 <= a < b < ed.len() ==> ed[a].class@ != ed[b].class@);
                lemma_find_unique(ed, error_type@, i as int);
                assert(files_view(ed[i as int]) =~= files_view(oed[i as int]).push(file_path@));
                assert forall|k: Seq<char>| k != error_type@ implies final(self).spec_count(k)
                    == old(self).spec_count(k) && final(self).spec_files(k) == old(
                    self,
                ).spec_files(k) by {
                    lemma_find_class_stable(oed, ed, i as int, k);
                }
            }
        } else {
            let mut files: Vec<String> = Vec::new();
            files.push(file_path.to_owned());
            self.error_details.push(
                ErrorEntry { class: error_type.to_owned(), count: 1, files },
            );
            self.send_errors = self.send_errors + 1;
            proof {
                let ed = self.error_details@;
                let oed = old(self).error_details@;
                assert(find_class(oed, error_type@) is None);
                assert(ed[ed.len() - 1].class@ == error_type@);
                assert(forall|a: int, b: int|
                    0 <= a < b < ed.len() ==> ed[a].class@ != ed[b].class@);
                lemma_find_unique(ed, error_type@, ed.len() - 1);
                assert(files_view(ed[ed.len() - 1]) =~= Seq::<Seq<char>>::empty().push(
                    file_path@,
                ));
                assert forall|k: Seq<char>| k != error_type@ implies final(self).spec_count(k)
                    == old(self).spec_count(k) && final(self).spec_files(k) == old(
                    self,
                ).spec_files(k) by {
                    lemma_find_class_append(oed, ed, k);
                }
            }
        }
    }

    /// Records a delivered message with its timings.
    pub fn record_success(&mut self, parse_ms: u64, send_ms: u64)
        requires
            old(self).wf(),
            old(self).email_count < usize::MAX,
        ensures
            final(self).wf(),
            final(self).email_count == old(self).email_count + 1,
            final(self).parse_durations@ == old(self).parse_durations@.push(parse_ms),
            final(self).send_durations@ == old(self).send_durations@.push(send_ms),
            final(self).total_duration_ms == old(self).total_duration_ms,
            final(self).parse_errors == old(self).parse_errors,
            final(self).send_errors == old(self).send_errors,
            final(self).error_details == old(self).error_details,
    {
        self.email_count = self.email_count + 1;
        self.parse_durations.push(parse_ms);
        self.send_durations.push(send_ms);
    }

    /// Records a delivered message with its wire timing alone — the
    /// attachment modes take no separate preparation sample.
    pub fn record_send_success(&mut self, send_ms: u64)
        requires
            old(self).wf(),
            old(self).email_count < usize::MAX,
        ensures
            final(self).wf(),
            final(self).email_count == old(self).email_count + 1,
            final(self).parse_durations == old(self).parse_durations,
            final(self).send_durations@ == old(self).send_durations@.push(send_ms),
            final(self).total_duration_ms == old(self).total_duration_ms,
            final(self).parse_errors == old(self).parse_errors,
            final(self).send_errors == old(self).send_errors,
            final(self).error_details == old(self).error_details,
    {
        self.email_count = self.email_count + 1;
        self.send_durations.push(send_ms);
    }

    /// The occurrence count recorded for a class, zero when absent.
    pub fn error_count(&self, error_type: &str) -> (r: usize)
        requires
            self.wf(),
        ensures
            r == self.spec_count(error_type@),
    {
        match Self::find_entry(&self.error_details, error_type) {
            Some(i) => {
                proof {
                    lemma_find_unique(self.error_details@, error_type@, i as int);
                }
                self.error_details[i].count
            },
            None => {
                proof {
                    assert(find_class(self.error_details@, error_type@) is None);
                }
                0
            },
        }
    }

    /// The failed files recorded for a class, empty when absent.
    pub fn failed_files(&self, error_type: &str) -> (r: Vec<String>)
        requires
            self.wf(),
        ensures
            r@.map_values(|f: String| f@) == self.spec_files(error_type@),
    {
        match Self::find_entry(&self.error_details, error_type) {
            Some(i) => {
                proof {
                    lemma_find_unique(self.error_details@, error_type@, i as int);
                }
                let r = self.error_details[i].files.clone();
                proof {
                    assert(r@.map_values(|f: String| f@) =~= files_view(
                        self.error_details@[i as int],
                    ));
                }
                r
            },
            None => {
                proof {
                    assert(find_class(self.error_details@, error_type@) is None);
                    assert(Seq::<String>::empty().map_values(|f: String| f@)
                        =~= Seq::<Seq<char>>::empty());
                }
                Vec::new()
            },
        }
    }

    /// Adds `count` occurrences and their `files` under `class`.
    fn add_entry(&mut self, class: &str, count: usize, files: &Vec<String>)
        requires
            old(self).wf(),
            count == files@.len(),
            old(self).spec_count(class@) + count <= old(self).send_errors,
        ensures
            final(self).wf(),
            final(self).email_count == old(self).email_count,
            final(self).parse_durations == old(self).parse_durations,
            final(self).send_durations == old(self).send_durations,
            final(self).total_duration_ms == old(self).total_duration_ms,
            final(self).parse_errors == old(self).parse_errors,
            final(self).send_errors == old(self).send_errors,
            final(self).spec_count(class@) == old(self).spec_count(class@) + count,
            final(self).spec_files(class@) == old(self).spec_files(class@) + files@.map_values(
                |f: String| f@,
            ),
            forall|k: Seq<char>|
                k != class@ ==> final(self).spec_count(k) == old(self).spec_count(k),
            forall|k: Seq<char>|
                k != class@ ==> final(self).spec_files(k) == old(self).spec_files(k),
    {
        let found = Self::find_entry(&self.error_details, class);
        if let Some(i) = found {
            proof {
                lemma_find_unique(old(self).error_details@, class@, i as int);
            }
            let entry = &mut self.error_details[i];
            entry.count = entry.count + count;
            entry.files.extend_from_slice(files.as_slice());
            proof {
                let ed = self.error_details@;
                let oed = old(self).error_details@;
                assert(forall|j: int| 0 <= j < ed.len() && j != i ==> ed[j] == oed[j]);
                lemma_find_unique(ed, class@, i as int);
                assert(files_view(ed[i as int]) =~= files_view(oed[i as int])
                    + files@.map_values(|f: String| f@));
                assert forall|k: Seq<char>| k != class@ implies final(self).spec_count(k) == old(
                    self,
                ).spec_count(k) && final(self).spec_files(k) == old(self).spec_files(k) by {
                    lemma_find_class_stable(oed, ed, i as int, k);
                }
            }
        } else {
            self.error_details.push(
                ErrorEntry { class: class.to_owned(), count, files: files.clone() },
            );
            proof {
                let ed = self.error_details@;
                let oed = old(self).error_details@;
                assert(find_class(oed, class@) is None);
                assert(ed[ed.len() - 1].class@ == class@);
                assert(forall|a: int, b: int|
                    0 <= a < b < ed.len() ==> ed[a].class@ != ed[b].class@);
                lemma_find_unique(ed, class@, ed.len() - 1);
                assert(files_view(ed[ed.len() - 1]) =~= Seq::<Seq<char>>::empty()
                    + files@.map_values(|f: String| f@));
                assert forall|k: Seq<char>| k != class@ implies final(self).spec_count(k) == old(
                    self,
                ).spec_count(k) && final(self).spec_files(k) == old(self).spec_files(k) by {
                    lemma_find_class_append(oed, ed, k);
                }
            }
        }
    }

    /// Folds another accumulator into this one: counts are summed, sample
    /// vectors and per-class file lists are concatenated in order. The
    /// wall-clock duration is left alone; the caller owns it.
    pub fn merge(&mut self, other: &Stats)
        requires
            old(self).wf(),
            other.wf(),
            old(self).email_count + other.email_count <= usize::MAX,
            old(self).parse_errors + other.parse_errors <= usize::MAX,
            old(self).send_errors + other.send_errors <= usize::MAX,
        ensures
            final(self).wf(),
            final(self).email_count == old(self).email_count + other.email_count,
            final(self).parse_durations@ == old(self).parse_durations@ + other.parse_durations@,
            final(self).send_durations@ == old(self).send_durations@ + other.send_durations@,
            final(self).total_duration_ms == old(self).total_duration_ms,
            final(self).parse_errors == old(self).parse_errors + other.parse_errors,
            final(self).send_errors == old(self).send_errors + other.send_errors,
            forall|k: Seq<char>|
                #![trigger final(self).spec_count(k)]
                final(self).spec_count(k) == old(self).spec_count(k) + other.spec_count(k),
            forall|k: Seq<char>|
                #![trigger final(self).spec_files(k)]
                final(self).spec_files(k) == old(self).spec_files(k) + other.spec_files(k),
    {
        self.email_count = self.email_count + other.email_count;
        self.parse_durations.extend_from_slice(other.parse_durations.as_slice());
        self.send_durations.extend_from_slice(other.send_durations.as_slice());
        self.parse_errors = self.parse_errors + other.parse_errors;
        self.send_errors = self.send_errors + other.send_errors;
        let ghost pre = *self;
        let n = other.error_details.len();
        let mut i: usize = 0;
        while i < n
            invariant
                self.wf(),
                other.wf(),
                old(self).wf(),
                pre.error_details == old(self).error_details,
                pre.send_errors == old(self).send_errors + other.send_errors,
                n == other.error_details@.len(),
                i <= n,
                self.email_count == pre.email_count,
                self.parse_durations == pre.parse_durations,
                self.send_durations == pre.send_durations,
                self.total_duration_ms == pre.total_duration_ms,
                self.parse_errors == pre.parse_errors,
                self.send_errors == pre.send_errors,
                forall|j: int|
                    #![trigger other.error_details@[j]]
                    i <= j < n ==> self.spec_count(other.error_details@[j].class@) == pre.spec_count(
                        other.error_details@[j].class@,
                    ) && self.spec_files(other.error_details@[j].class@) == pre.spec_files(
                        other.error_details@[j].class@,
                    ),
                forall|j: int|
                    #![trigger other.error_details@[j]]
                    0 <= j < i ==> self.spec_count(other.error_details@[j].class@)
                        == pre.spec_count(other.error_details@[j].class@)
                        + other.error_details@[j].count,
                forall|j: int|
                    #![trigger other.error_details@[j]]
                    0 <= j < i ==> self.spec_files(other.error_details@[j].class@)
                        == pre.spec_files(other.error_details@[j].class@) + files_view(
                        other.error_details@[j],
                    ),
                forall|k: Seq<char>|
                    #![trigger self.spec_count(k)]
                    (forall|j: int|
                        0 <= j < n ==> (#[trigger] other.error_details@[j]).class@ != k) ==> (
                    self.spec_count(k) == pre.spec_count(k) && self.spec_files(k)
                        == pre.spec_files(k)),
            decreases n - i,
        {
            let e = &other.error_details[i];
            proof {
                assert(other.error_details@[i as int].count <= other.send_errors);
                assert(other.error_details@[i as int].count
                    == other.error_details@[i as int].files@.len());
                assert(pre.error_details@ == old(self).error_details@);
                assert(pre.spec_count(e.class@) <= old(self).send_errors) by {
                    match find_class(pre.error_details@, e.class@) {
                        Some(w) => {
                            assert(old(self).error_details@[w].count <= old(self).send_errors);
                        },
                        None => {},
                    }
                }
                assert(self.spec_count(e.class@) == pre.spec_count(e.class@));
                assert(self.spec_count(e.class@) + e.count <= self.send_errors);
            }
            let ghost mid = *self;
            self.add_entry(e.class.as_str(), e.count, &e.files);
            proof {
                assert(files_view(other.error_details@[i as int]) =~= e.files@.map_values(
                    |f: String| f@,
                ));
                assert forall|j: int|
                    #![trigger other.error_details@[j]]
                    0 <= j < i + 1 implies self.spec_count(other.error_details@[j].class@)
                    == pre.spec_count(other.error_details@[j].class@)
                    + other.error_details@[j].count && self.spec_files(
                    other.error_details@[j].class@,
                ) == pre.spec_files(other.error_details@[j].class@) + files_view(
                    other.error_details@[j],
                ) by {
                    assert(other.error_details@[i as int] == *e);
                    if j < i {
                        assert(other.error_details@[j].class@ != e.class@);
                        assert(mid.spec_count(other.error_details@[j].class@) == pre.spec_count(
                            other.error_details@[j].class@,
                        ) + other.error_details@[j].count);
                        assert(self.spec_count(other.error_details@[j].class@)
                            == mid.spec_count(other.error_details@[j].class@));
                        assert(self.spec_files(other.error_details@[j].class@)
                            == mid.spec_files(other.error_details@[j].class@));
                    } else {
                        assert(mid.spec_count(e.class@) == pre.spec_count(e.class@));
                        assert(mid.spec_files(e.class@) == pre.spec_files(e.class@));
                        assert(self.spec_count(e.class@) == mid.spec_count(e.class@) + e.count);
                        assert(self.spec_files(e.class@) == mid.spec_files(e.class@)
                            + e.files@.map_values(|f: String| f@));
                    }
                }
            }
            i = i + 1;
        }
        proof {
            assert forall|k: Seq<char>|
                #![trigger final(self).spec_count(k)]
                #![trigger final(self).spec_files(k)]
                final(self).spec_count(k) == pre.spec_count(k) + other.spec_count(k)
                && final(self).spec_files(k) == pre.spec_files(k) + other.spec_files(k) by {
                match find_class(other.error_details@, k) {
                    Some(j) => {
                        assert(other.error_details@[j].class@ == k);
                        assert(other.spec_count(k) == other.error_details@[j].count);
                    },
                    None => {
                        assert(forall|j: int|
                            0 <= j < n ==> (#[trigger] other.error_details@[j]).class@ != k);
                        assert(self.spec_count(k) == pre.spec_count(k));
                        assert(self.spec_files(k) =~= pre.spec_files(k) + other.spec_files(k));
                    },
                }
            }
        }
    }

    /// Every class's count equals the length of its failed-file list — for
    /// classes never seen, both are zero. This holds of every well-formed
    /// accumulator, hence of every value this module hands out.
    pub proof fn lemma_counts_match_file_lists(&self, k: Seq<char>)
        requires
            self.wf(),
        ensures
            self.spec_count(k) == self.spec_files(k).len(),
    {
    }
}

/// Replacing one entry while keeping its class leaves lookups of every other
/// class unchanged.
proof fn lemma_find_class_stable(oed: Seq<ErrorEntry>, ed: Seq<ErrorEntry>, i: int, k: Seq<char>)
    requires
        oed.len() == ed.len(),
        0 <= i < ed.len(),
        forall|j: int| 0 <= j < ed.len() && j != i ==> ed[j] == oed[j],
        ed[i].class@ == oed[i].class@,
        k != ed[i].class@,
        forall|a: int, b: int| 0 <= a < b < oed.len() ==> oed[a].class@ != oed[b].class@,
    ensures
        find_class(ed, k) == find_class(oed, k),
        find_class(ed, k) matches Some(w) ==> ed[w] == oed[w],
{
    assert(forall|a: int| 0 <= a < ed.len() ==> ed[a].class@ == oed[a].class@);
    assert(forall|a: int, b: int| 0 <= a < b < ed.len() ==> ed[a].class@ != ed[b].class@);
    if exists|w: int| 0 <= w < ed.len() && ed[w].class@ == k {
        let w = choose|w: int| 0 <= w < ed.len() && ed[w].class@ == k;
        assert(oed[w].class@ == k);
        lemma_find_unique(ed, k, w);
        lemma_find_unique(oed, k, w);
        assert(w != i);
    } else {
        assert(forall|w: int| 0 <= w < oed.len() ==> oed[w].class@ != k);
    }
}

/// Appending an entry of a new class leaves lookups of every other class
/// unchanged.
proof fn lemma_find_class_append(oed: Seq<ErrorEntry>, ed: Seq<ErrorEntry>, k: Seq<char>)
    requires
        ed.len() == oed.len() + 1,
        forall|j: int| 0 <= j < oed.len() ==> ed[j] == oed[j],
        k != ed[ed.len() - 1].class@,
        forall|a: int, b: int| 0 <= a < b < ed.len() ==> ed[a].class@ != ed[b].class@,
    ensures
        find_class(ed, k) == find_class(oed, k),
        find_class(ed, k) matches Some(w) ==> 0 <= w < oed.len() && ed[w] == oed[w],
{
    assert(forall|a: int, b: int| 0 <= a < b < oed.len() ==> oed[a].class@ != oed[b].class@);
    if exists|w: int| 0 <= w < ed.len() && ed[w].class@ == k {
        let w = choose|w: int| 0 <= w < ed.len() && ed[w].class@ == k;
        assert(w != ed.len() - 1);
        assert(oed[w].class@ == k);
        lemma_find_unique(ed, k, w);
        lemma_find_unique(oed, k, w);
    } else {
        assert(forall|w: int| 0 <= w < oed.len() ==> oed[w].class@ != k);
    }
}

} // verus!
