use gitterm::progress::{Category, ProgressEvent, ProgressPair, ProgressState};
use gitterm::remote::RemoteOpts;
use gitterm::widget::category_label;

fn ev(category: Category, current: u64, total: u64) -> ProgressEvent {
    ProgressEvent { category, current, total }
}

fn pair(current: u64, total: u64) -> ProgressPair {
    ProgressPair { current, total }
}

#[test]
fn aggregate_is_the_sum_of_latest_per_category() {
    let mut s = ProgressState::new();
    s.store(ev(Category::Count, 1, 10));
    s.store(ev(Category::Pack, 2, 5));
    s.store(ev(Category::Count, 4, 10));
    s.store(ev(Category::Push, 3, 6));
    s.store(ev(Category::Compress, 2, 4));
    assert_eq!(s.count, pair(4, 10));
    assert_eq!(s.aggregate(), (4 + 2 + 3 + 2, 10 + 5 + 6 + 4));
}

#[test]
fn aggregate_ignores_interleaving_order() {
    let mut a = ProgressState::new();
    a.store(ev(Category::Count, 1, 10));
    a.store(ev(Category::Compress, 2, 4));
    a.store(ev(Category::Pack, 3, 5));
    a.store(ev(Category::Push, 4, 6));

    let mut b = ProgressState::new();
    b.store(ev(Category::Push, 4, 6));
    b.store(ev(Category::Pack, 3, 5));
    b.store(ev(Category::Compress, 2, 4));
    b.store(ev(Category::Count, 1, 10));

    assert_eq!(a, b);
    assert_eq!(a.aggregate(), b.aggregate());
    assert_eq!(a.aggregate(), (10, 25));
}

#[test]
fn counting_line_updates_only_count() {
    let mut opts = RemoteOpts::new();
    opts.handle_sideband(&b"Counting objects: 42% (21/50)".to_vec());
    assert_eq!(opts.state.count, pair(21, 50));
    assert_eq!(opts.state.compress, pair(0, 0));
    assert_eq!(opts.state.pack, pair(0, 0));
    assert_eq!(opts.state.push, pair(0, 0));
    assert!(opts.stdout.is_empty());
}

#[test]
fn compressing_line_updates_only_compress() {
    let mut opts = RemoteOpts::new();
    opts.handle_sideband(&b"Compressing objects: 50% (2/4)".to_vec());
    assert_eq!(opts.state.compress, pair(2, 4));
    assert_eq!(opts.state.count, pair(0, 0));
    assert!(opts.stdout.is_empty());
}

#[test]
fn unrecognized_line_is_captured_verbatim() {
    let mut opts = RemoteOpts::new();
    let line = b"Resolving deltas: 100% (5/5)\n".to_vec();
    opts.handle_sideband(&line);
    assert_eq!(opts.stdout, line);
    assert_eq!(opts.state, ProgressState::new());
}

#[test]
fn captured_lines_accumulate_in_order() {
    let mut opts = RemoteOpts::new();
    opts.handle_sideband(&b"hello ".to_vec());
    opts.handle_sideband(&b"world".to_vec());
    assert_eq!(opts.stdout, b"hello world".to_vec());
}

#[test]
fn end_to_end_counting_then_compressing() {
    let mut opts = RemoteOpts::new();
    opts.handle_sideband(&b"Counting objects: 10% (1/10)".to_vec());
    opts.handle_sideband(&b"Counting objects: 50% (5/10)".to_vec());
    opts.handle_sideband(&b"Compressing objects: 50% (2/4)".to_vec());
    opts.handle_sideband(&b"Compressing objects: 100% (4/4)".to_vec());
    assert_eq!(opts.state.count, pair(5, 10));
    assert_eq!(opts.state.compress, pair(4, 4));
    assert_eq!(opts.state.aggregate(), (9, 14));
}

#[test]
fn prefixed_line_is_still_recognized() {
    let mut opts = RemoteOpts::new();
    opts.handle_sideband(&b"remote: Compressing objects: 50% (2/4)\r".to_vec());
    assert_eq!(opts.state.compress, pair(2, 4));
    assert!(opts.stdout.is_empty());
}

#[test]
fn oversized_value_reads_as_zero() {
    let mut opts = RemoteOpts::new();
    opts.handle_sideband(&b"Counting objects: 1% (99999999999999999999/7)".to_vec());
    assert_eq!(opts.state.count, pair(0, 7));
}

#[test]
fn structured_pack_and_push_events() {
    let mut opts = RemoteOpts::new();
    opts.handle_pack(3, 7);
    opts.handle_push(2, 5);
    assert_eq!(opts.state.pack, pair(3, 7));
    assert_eq!(opts.state.push, pair(2, 5));
    assert_eq!(opts.state.aggregate(), (5, 12));
}

#[test]
fn failure_clears_widget_and_propagates_error() {
    let mut opts = RemoteOpts::new();
    opts.handle_sideband(&b"Counting objects: 10% (1/10)".to_vec());
    assert!(!opts.widget.cleared);
    let r: Result<gitterm::remote::Reply, String> = opts.conclude(Err("boom".to_string()));
    assert!(opts.widget.cleared);
    match r {
        Err(e) => assert_eq!(e, "boom"),
        Ok(_) => panic!("the transport failure must propagate"),
    }
}

#[test]
fn success_returns_captured_bytes() {
    let mut opts = RemoteOpts::new();
    opts.handle_sideband(&b"warning: stale ref\n".to_vec());
    let r: Result<gitterm::remote::Reply, String> = opts.conclude(Ok(()));
    assert!(opts.widget.cleared);
    match r {
        Ok(reply) => assert_eq!(reply.stdout, b"warning: stale ref\n".to_vec()),
        Err(_) => panic!("a successful operation must yield a reply"),
    }
}

#[test]
fn into_reply_hands_back_stdout() {
    let mut opts = RemoteOpts::new();
    opts.handle_sideband(&b"done\n".to_vec());
    let reply = opts.into_reply();
    assert_eq!(reply.stdout, b"done\n".to_vec());
}

#[test]
fn category_labels() {
    assert_eq!(category_label(Category::Count), "Counting");
    assert_eq!(category_label(Category::Compress), "Compressing");
    assert_eq!(category_label(Category::Pack), "Packing");
    assert_eq!(category_label(Category::Push), "Pushing");
}

#[test]
fn undecodable_line_is_diagnostic_even_with_the_pattern() {
    let mut opts = RemoteOpts::new();
    let mut line = vec![0xff];
    line.extend_from_slice(b"Counting objects: 1% (1/2)");
    opts.handle_sideband(&line);
    assert_eq!(opts.stdout, line);
    assert_eq!(opts.state.count, pair(0, 0));
}

#[test]
fn digits_without_the_full_pattern_are_diagnostic() {
    let mut opts = RemoteOpts::new();
    let line = b"Counting objects: 42%".to_vec();
    opts.handle_sideband(&line);
    assert_eq!(opts.stdout, line);
    assert_eq!(opts.state.count, pair(0, 0));
}
