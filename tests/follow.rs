use tail_chaser::{Action, Check, Event, FileMeta, TailError, TailedFile};

fn stat(len: u64, ino: u64, now: u64) -> Event {
    Event::Stat { meta: FileMeta::new(len, ino), now }
}

#[test]
fn starts_at_current_end() {
    let t = TailedFile::new(String::from("/var/log/app.log"), FileMeta::new(42, 9), 0);
    assert_eq!(t.offset(), 42);
    assert_eq!(t.delay(), 100);
    assert_eq!(t.path(), "/var/log/app.log");
}

#[test]
fn set_delay_changes_pause() {
    let mut t = TailedFile::new(String::from("f"), FileMeta::new(0, 1), 0);
    t.set_delay(250);
    assert_eq!(t.delay(), 250);
    assert_eq!(t.offset(), 0);
}

#[test]
fn append_is_emitted_once() {
    let mut t = TailedFile::new(String::from("f"), FileMeta::new(10, 5), 0);
    assert_eq!(t.follow(Event::Read(b"hello\n".to_vec())), Action::Stat);
    assert_eq!(t.follow(stat(16, 5, 100)), Action::Emit(String::from("hello\n")));
    assert_eq!(t.offset(), 16);
    assert_eq!(t.follow(Event::Read(Vec::new())), Action::Idle);
    assert_eq!(t.offset(), 16);
}

#[test]
fn multibyte_text_is_decoded() {
    let mut t = TailedFile::new(String::from("f"), FileMeta::new(0, 5), 0);
    let bytes = "żółw €".as_bytes().to_vec();
    let n = bytes.len() as u64;
    assert_eq!(t.follow(Event::Read(bytes)), Action::Stat);
    assert_eq!(t.follow(stat(n, 5, 1)), Action::Emit(String::from("żółw €")));
    assert_eq!(t.offset(), n);
}

#[test]
fn quiet_file_stays_unchanged() {
    let mut t = TailedFile::new(String::from("f"), FileMeta::new(8, 3), 0);
    for _ in 0..3 {
        assert_eq!(t.follow(Event::Read(Vec::new())), Action::Idle);
    }
    assert_eq!(t.check_updates(FileMeta::new(8, 3), 1_000), Check::Unchanged);
    assert_eq!(t.check_updates(FileMeta::new(8, 3), 60_000), Check::Probe);
    assert_eq!(t.offset(), 8);
}

#[test]
fn quiet_probe_of_same_file_is_unchanged() {
    // After a rotation the offset is behind the size, so a read can be non-empty
    // while the size stands still.
    let mut t = TailedFile::new(String::from("f"), FileMeta::new(4, 1), 0);
    assert_eq!(t.follow(Event::Read(b"x".to_vec())), Action::Stat);
    assert_eq!(t.follow(stat(4, 1, 10_000)), Action::Probe);
    assert_eq!(t.follow(Event::Probed(FileMeta::new(4, 1))), Action::Emit(String::from("x")));
    assert_eq!(t.offset(), 4);
}

#[test]
fn rotation_after_quiet_period_resets_offset() {
    let mut t = TailedFile::new(String::from("f"), FileMeta::new(20, 1), 0);
    assert_eq!(t.follow(Event::Read(b"tail".to_vec())), Action::Stat);
    assert_eq!(t.follow(stat(20, 1, 5_001)), Action::Probe);
    assert_eq!(t.follow(Event::Probed(FileMeta::new(3, 2))), Action::Adopt);
    assert_eq!(t.offset(), 0);
    assert_eq!(t.follow(Event::Adopted), Action::Emit(String::from("tail")));
    assert_eq!(t.offset(), 0);
    // the next read starts at the new file's beginning
    assert_eq!(t.follow(Event::Read(b"new".to_vec())), Action::Stat);
    assert_eq!(t.follow(stat(3, 2, 5_100)), Action::Emit(String::from("new")));
    assert_eq!(t.offset(), 0);
}

#[test]
fn threshold_is_strict() {
    let t = TailedFile::new(String::from("f"), FileMeta::new(20, 1), 1_000);
    assert_eq!(t.check_updates(FileMeta::new(20, 1), 6_000), Check::Unchanged);
    assert_eq!(t.check_updates(FileMeta::new(20, 1), 6_001), Check::Probe);
    assert_eq!(t.check_updates(FileMeta::new(20, 1), 500), Check::Unchanged);
}

#[test]
fn rotation_does_not_fire_early() {
    let mut t = TailedFile::new(String::from("f"), FileMeta::new(0, 1), 0);
    assert_eq!(t.follow(Event::Read(b"ab".to_vec())), Action::Stat);
    assert_eq!(t.follow(stat(2, 1, 10_000)), Action::Emit(String::from("ab")));
    // the path is replaced right after that append
    assert_eq!(t.follow(Event::Read(b"c".to_vec())), Action::Stat);
    assert_eq!(t.follow(stat(3, 1, 10_500)), Action::Emit(String::from("c")));
    assert_eq!(t.offset(), 3);
    assert_eq!(t.follow(Event::Read(b"d".to_vec())), Action::Stat);
    assert_eq!(t.follow(stat(3, 1, 12_000)), Action::Emit(String::from("d")));
    assert_eq!(t.offset(), 3);
    assert_eq!(t.check_updates(FileMeta::new(3, 1), 15_500), Check::Unchanged);
    assert_eq!(t.check_updates(FileMeta::new(3, 1), 15_501), Check::Probe);
}

#[test]
fn other_instance_with_other_size_is_not_an_update() {
    let t = TailedFile::new(String::from("f"), FileMeta::new(3, 1), 0);
    assert_eq!(t.check_updates(FileMeta::new(9, 2), 1), Check::Unchanged);
    assert_eq!(t.check_updates(FileMeta::new(9, 1), 1), Check::Updated);
}

#[test]
fn empty_read_is_idempotent() {
    let mut t = TailedFile::new(String::from("f"), FileMeta::new(7, 1), 0);
    assert_eq!(t.follow(Event::Read(Vec::new())), Action::Idle);
    assert_eq!(t.follow(Event::Read(Vec::new())), Action::Idle);
    assert_eq!(t.offset(), 7);
    assert_eq!(t.follow(Event::Read(b"z".to_vec())), Action::Stat);
}

#[test]
fn truncation_in_place_moves_offset_down() {
    let mut t = TailedFile::new(String::from("f"), FileMeta::new(50, 1), 0);
    assert_eq!(t.follow(Event::Read(b"q".to_vec())), Action::Stat);
    assert_eq!(t.follow(stat(5, 1, 10)), Action::Emit(String::from("q")));
    assert_eq!(t.offset(), 5);
}

#[test]
fn invalid_text_fails_the_cycle() {
    let mut t = TailedFile::new(String::from("f"), FileMeta::new(0, 1), 0);
    assert_eq!(t.follow(Event::Read(vec![0x66, 0xff, 0xfe])), Action::Stat);
    assert_eq!(t.follow(stat(3, 1, 10)), Action::Fail(TailError::Decode));
    assert_eq!(t.offset(), 3);
}

#[test]
fn invalid_text_fails_after_rotation() {
    let mut t = TailedFile::new(String::from("f"), FileMeta::new(2, 1), 0);
    assert_eq!(t.follow(Event::Read(vec![0xc3])), Action::Stat);
    assert_eq!(t.follow(stat(2, 1, 6_000)), Action::Probe);
    assert_eq!(t.follow(Event::Probed(FileMeta::new(0, 2))), Action::Adopt);
    assert_eq!(t.follow(Event::Adopted), Action::Fail(TailError::Decode));
}

#[test]
fn event_out_of_turn_is_refused() {
    let mut t = TailedFile::new(String::from("f"), FileMeta::new(2, 1), 0);
    assert_eq!(t.follow(Event::Adopted), Action::Fail(TailError::OutOfTurn));
    assert_eq!(t.follow(stat(9, 1, 5)), Action::Fail(TailError::OutOfTurn));
    assert_eq!(t.offset(), 2);
    assert_eq!(t.follow(Event::Read(b"k".to_vec())), Action::Stat);
    assert_eq!(t.follow(Event::Read(b"k".to_vec())), Action::Fail(TailError::OutOfTurn));
    assert_eq!(t.follow(stat(3, 1, 6)), Action::Emit(String::from("k")));
    assert_eq!(t.offset(), 3);
}
