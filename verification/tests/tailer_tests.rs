use log_collector::checkpoint::{handle_file_removal, Checkpoint, FileState, RemovalAction};
use log_collector::payload::{build_payload, read_data_chunk};
use log_collector::tailer::{after_read, LineAccumulator, ReadStep, Tailer, IDLE_SLEEP_MS};

fn tailer_lines(lines: Vec<Vec<u8>>) -> Vec<String> {
    lines.into_iter().map(|l| String::from_utf8(l).unwrap()).collect()
}

#[test]
fn feed_hands_out_complete_lines_only() {
    let mut acc = LineAccumulator::new();
    assert_eq!(tailer_lines(acc.feed(b"one\ntwo\nthr")), vec!["one", "two"]);
    assert_eq!(acc.pending(), 3);
}

#[test]
fn partial_line_is_kept_until_its_newline() {
    let mut acc = LineAccumulator::new();
    assert_eq!(acc.feed(b"par").len(), 0);
    assert_eq!(acc.feed(b"ti").len(), 0);
    assert_eq!(acc.pending(), 5);
    assert_eq!(tailer_lines(acc.feed(b"al\nnext")), vec!["partial"]);
    assert_eq!(acc.pending(), 4);
    assert_eq!(tailer_lines(acc.feed(b"\n")), vec!["next"]);
    assert_eq!(acc.pending(), 0);
}

#[test]
fn split_reads_give_the_same_lines_as_one_read() {
    let text: &[u8] = b"alpha\nbeta\n\ngamma\ndel";
    let mut whole = LineAccumulator::new();
    let expected = whole.feed(text);
    for cut in 0..text.len() + 1 {
        let mut acc = LineAccumulator::new();
        let mut got = acc.feed(&text[..cut]);
        got.extend(acc.feed(&text[cut..]));
        assert_eq!(got, expected);
        assert_eq!(acc.pending(), whole.pending());
    }
    assert_eq!(tailer_lines(expected), vec!["alpha", "beta", "", "gamma"]);
}

#[test]
fn finish_emits_the_partial_line_once() {
    let mut acc = LineAccumulator::new();
    acc.feed(b"done\nrest");
    assert_eq!(acc.finish(), Some(b"rest".to_vec()));
    assert_eq!(acc.finish(), None);
    assert_eq!(acc.pending(), 0);
}

#[test]
fn offset_advances_by_the_bytes_of_the_lines() {
    let mut t = Tailer::new(7, "/var/log/a.log".to_string(), 100);
    let lines = t.on_chunk(b"ab\ncde\nfg");
    assert_eq!(tailer_lines(lines), vec!["ab", "cde"]);
    assert_eq!(t.offset, 107);
    assert_eq!(t.lines.pending(), 2);
    let lines = t.on_chunk(b"h\n");
    assert_eq!(tailer_lines(lines), vec!["fgh"]);
    assert_eq!(t.offset, 111);
    assert_eq!(t.inode, 7);
    assert_eq!(t.path, "/var/log/a.log");
}

#[test]
fn empty_file_idles_and_emits_nothing() {
    let mut t = Tailer::new(1, "/var/log/empty.log".to_string(), 0);
    assert_eq!(after_read(0), ReadStep::Idle(IDLE_SLEEP_MS));
    assert_eq!(after_read(0), ReadStep::Idle(100));
    assert_eq!(t.on_chunk(b"").len(), 0);
    assert_eq!(t.offset, 0);
    assert_eq!(t.drain(), None);
    assert_eq!(t.offset, 0);
    assert_eq!(after_read(12), ReadStep::Process);
}

#[test]
fn truncation_starts_over_at_zero() {
    let mut t = Tailer::new(1, "/var/log/a.log".to_string(), 0);
    t.on_chunk(b"0123456789\npart");
    assert_eq!(t.offset, 11);
    assert!(!t.check_truncation(11));
    assert!(!t.check_truncation(500));
    assert_eq!(t.offset, 11);
    assert_eq!(t.lines.pending(), 4);
    assert!(t.check_truncation(10));
    assert_eq!(t.offset, 0);
    assert_eq!(t.lines.pending(), 0);
}

#[test]
fn drain_hands_over_the_last_partial_line() {
    let mut t = Tailer::new(1, "/var/log/a.log".to_string(), 10);
    t.on_chunk(b"x\nlast words");
    assert_eq!(t.offset, 12);
    assert_eq!(t.drain(), Some(b"last words".to_vec()));
    assert_eq!(t.offset, 22);
    assert_eq!(t.drain(), None);
}

#[test]
fn payload_holds_a_copy_of_the_chunk() {
    let mut data = vec![1u8, 2, 3, 4];
    let p = build_payload(9, 64, &data);
    data[0] = 99;
    assert_eq!(p.inode, 9);
    assert_eq!(p.offset, 64);
    assert_eq!(p.size, 4);
    assert_eq!(p.payload_data_size(), 4);
    assert!(!p.payload_data_empty());
    assert_eq!(p.data(), &[1u8, 2, 3, 4]);
    let empty = build_payload(9, 64, &[]);
    assert!(empty.payload_data_empty());
    assert_eq!(empty.payload_data_size(), 0);
}

#[test]
fn read_data_chunk_takes_what_was_read() {
    let buffer = [10u8, 20, 30, 40, 50];
    assert_eq!(read_data_chunk(&buffer, 0), None);
    let chunk = read_data_chunk(&buffer, 3).unwrap();
    assert_eq!(&chunk[..], &[10u8, 20, 30]);
    let whole = read_data_chunk(&buffer, 5).unwrap();
    assert_eq!(whole.len(), 5);
}

#[test]
fn checkpoint_offsets_never_move_back() {
    let mut c = Checkpoint::new();
    assert_eq!(c.saved_offset(5), 0);
    assert!(!c.contains(5));
    assert!(c.advance(5, "/var/log/a.log".to_string(), 40));
    assert_eq!(c.saved_offset(5), 40);
    assert!(!c.advance(5, "/var/log/a.log".to_string(), 39));
    assert_eq!(c.saved_offset(5), 40);
    assert!(c.advance(5, "/var/log/a.log".to_string(), 40));
    assert!(c.advance(5, "/var/log/a.log.1".to_string(), 90));
    assert_eq!(c.saved_offset(5), 90);
    assert_eq!(c.files.get(&5).unwrap().path, "/var/log/a.log.1");
    assert_eq!(c.saved_offset(6), 0);
}

#[test]
fn checkpoint_reset_and_remove() {
    let mut c = Checkpoint::new();
    c.advance(5, "/var/log/a.log".to_string(), 40);
    c.reset(5, "/var/log/a.log".to_string());
    assert_eq!(c.saved_offset(5), 0);
    assert!(c.contains(5));
    assert_eq!(
        c.remove(5),
        Some(FileState { path: "/var/log/a.log".to_string(), inode: 5, offset: 0 })
    );
    assert_eq!(c.remove(5), None);
    assert!(!c.contains(5));
}

#[test]
fn file_state_is_copied_as_it_is() {
    let s = FileState { path: "/var/log/a.log".to_string(), inode: 77, offset: 1234 };
    assert_eq!(s.duplicate(), s);
}

#[test]
fn removal_is_judged_by_what_is_on_disk() {
    assert_eq!(handle_file_removal(None, None), RemovalAction::Ignore);
    assert_eq!(handle_file_removal(None, Some(3)), RemovalAction::Ignore);
    assert_eq!(handle_file_removal(Some(3), None), RemovalAction::Deleted);
    assert_eq!(handle_file_removal(Some(3), Some(3)), RemovalAction::StillValid);
    assert_eq!(handle_file_removal(Some(3), Some(4)), RemovalAction::Rotated { new_inode: 4 });
}
