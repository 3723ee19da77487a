use rsendmail::config::ProcessMode;
use rsendmail::schedule::{
    chunk_list, collect_all_files, collect_email_files, make_batches, partition_sources,
    resolve_worker_count, round_decision, FileEntry, RoundStep,
};
use rsendmail::stats::Stats;

fn paths(v: Vec<Vec<String>>) -> Vec<String> {
    v.into_iter().flatten().collect()
}

/// Partitioning totality: the chunks concatenate back to the full source
/// list, in order.
#[test]
fn partition_totality() {
    let files: Vec<String> = (0..10).map(|i| format!("f{i}.eml")).collect();
    for workers in 1..12 {
        let chunks = partition_sources(&files, workers);
        assert_eq!(paths(chunks.clone()), files);
        assert!(chunks.len() <= workers);
        for c in &chunks {
            assert!(!c.is_empty());
        }
    }
    assert!(partition_sources(&Vec::new(), 4).is_empty());
}

#[test]
fn partition_shapes() {
    let files: Vec<String> = (0..5).map(|i| i.to_string()).collect();
    let chunks = partition_sources(&files, 2);
    assert_eq!(chunks.len(), 2);
    assert_eq!(chunks[0], vec!["0", "1", "2"]);
    assert_eq!(chunks[1], vec!["3", "4"]);
}

/// Batch-size-one isolation: every batch holds one source, so every
/// transaction gets a connection of its own.
#[test]
fn batches_of_one() {
    let chunk: Vec<String> = (0..4).map(|i| i.to_string()).collect();
    let batches = make_batches(&chunk, 1);
    assert_eq!(batches.len(), 4);
    for b in &batches {
        assert_eq!(b.len(), 1);
    }
    assert_eq!(paths(batches), chunk);
    // A batch size of zero behaves the same.
    assert_eq!(make_batches(&chunk, 0).len(), 4);
}

#[test]
fn batches_cover_chunk() {
    let chunk: Vec<String> = (0..7).map(|i| i.to_string()).collect();
    let batches = make_batches(&chunk, 3);
    assert_eq!(batches.len(), 3);
    assert_eq!(batches[2].len(), 1);
    assert_eq!(paths(batches), chunk);
    let one = chunk_list(&chunk, 7);
    assert_eq!(one.len(), 1);
}

#[test]
fn email_file_selection() {
    let entries = vec![
        FileEntry { path: "d/a.eml".to_string(), is_file: true },
        FileEntry { path: "d/sub".to_string(), is_file: false },
        FileEntry { path: "d/sub/b.eml".to_string(), is_file: true },
        FileEntry { path: "d/readme.txt".to_string(), is_file: true },
        FileEntry { path: "d/noext".to_string(), is_file: true },
        FileEntry { path: "d/.eml".to_string(), is_file: true },
        FileEntry { path: "d/upper.EML".to_string(), is_file: true },
    ];
    let selected = collect_email_files(&entries, "eml");
    assert_eq!(selected, vec!["d/a.eml", "d/sub/b.eml"]);
    let all = collect_all_files(&entries);
    assert_eq!(all.len(), 6);
    assert!(!all.contains(&"d/sub".to_string()));
}

#[test]
fn worker_count_resolution() {
    assert_eq!(resolve_worker_count(&ProcessMode::Fixed(3)), 3);
    assert!(resolve_worker_count(&ProcessMode::Auto) >= 1);
    assert!(resolve_worker_count(&ProcessMode::Fixed(0)) >= 1);
}

#[test]
fn round_decisions() {
    // A failed round outside loop mode surfaces the error.
    assert_eq!(round_decision(false, 3, 1, false, true, 1, 5), RoundStep::Fail);
    // A failed round in loop mode is retried after the retry pause.
    assert_eq!(
        round_decision(true, 3, 1, false, true, 1, 5),
        RoundStep::RetryAfter(5)
    );
    // A failed round in loop mode after a stop request still fails.
    assert_eq!(round_decision(true, 3, 1, true, true, 1, 5), RoundStep::Fail);
    // A stop request ends the run.
    assert_eq!(round_decision(false, 3, 1, true, false, 1, 5), RoundStep::Stop);
    // All rounds done.
    assert_eq!(round_decision(false, 3, 3, false, false, 1, 5), RoundStep::Stop);
    // More rounds to go: wait the loop pause.
    assert_eq!(
        round_decision(false, 3, 2, false, false, 1, 5),
        RoundStep::SleepThenNext(1)
    );
    // Loop mode never runs out of rounds.
    assert_eq!(
        round_decision(true, 1, 900, false, false, 2, 5),
        RoundStep::SleepThenNext(2)
    );
}

/// Counts and file lists always move together, and merging sums them.
#[test]
fn stats_accounting() {
    let mut a = Stats::new();
    a.increment_error("读取文件失败: x", "a.eml");
    a.increment_error("读取文件失败: x", "b.eml");
    a.increment_error("邮件发送超时", "c.eml");
    assert_eq!(a.error_count("读取文件失败: x"), 2);
    assert_eq!(
        a.failed_files("读取文件失败: x"),
        vec!["a.eml".to_string(), "b.eml".to_string()]
    );
    assert_eq!(a.error_count("邮件发送超时"), a.failed_files("邮件发送超时").len());
    assert_eq!(a.error_count("nothing"), 0);
    assert_eq!(a.send_errors, 3);

    let mut b = Stats::new();
    b.record_success(4, 9);
    b.increment_error("读取文件失败: x", "d.eml");
    b.merge(&a);
    assert_eq!(b.email_count, 1);
    assert_eq!(b.send_errors, 4);
    assert_eq!(b.error_count("读取文件失败: x"), 3);
    assert_eq!(
        b.failed_files("读取文件失败: x"),
        vec!["d.eml".to_string(), "a.eml".to_string(), "b.eml".to_string()]
    );
    assert_eq!(b.error_count("邮件发送超时"), 1);
    assert_eq!(b.parse_durations, vec![4]);
    assert_eq!(b.send_durations, vec![9]);
}
