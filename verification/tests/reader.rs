use led_ctrl::channel::Channel;
use led_ctrl::reader::{
    drain, turn, LogEntry, ReadResult, READ_BUFFER_LEN, READ_PAUSE_MILLIS,
};

#[test]
fn reader_constants() {
    assert_eq!(READ_BUFFER_LEN, 32);
    assert_eq!(READ_PAUSE_MILLIS, 10);
}

#[test]
fn entries_of_single_reads() {
    assert_eq!(ReadResult::Bytes(0).entry(), LogEntry::Discarded { len: 0 });
    assert_eq!(ReadResult::Bytes(5).entry(), LogEntry::Discarded { len: 5 });
    assert_eq!(ReadResult::Bytes(32).entry(), LogEntry::Discarded { len: 32 });
    assert_eq!(ReadResult::Bytes(33).entry(), LogEntry::Discarded { len: 32 });
    assert_eq!(ReadResult::Bytes(usize::MAX).entry(), LogEntry::Discarded { len: 32 });
    assert_eq!(ReadResult::Failure.entry(), LogEntry::ReadError);
}

#[test]
fn n_failures_give_n_error_entries_and_the_reader_goes_on() {
    for n in [0usize, 1, 2, 17, 100] {
        let mut reads = vec![ReadResult::Failure; n];
        reads.push(ReadResult::Bytes(4));
        reads.push(ReadResult::Failure);
        reads.push(ReadResult::Bytes(32));
        let log = drain(&reads);
        assert_eq!(log.len(), n + 3);
        assert!(log[..n].iter().all(|e| *e == LogEntry::ReadError));
        assert_eq!(log[n], LogEntry::Discarded { len: 4 });
        assert_eq!(log[n + 1], LogEntry::ReadError);
        assert_eq!(log[n + 2], LogEntry::Discarded { len: 32 });
        let errors = log.iter().filter(|e| **e == LogEntry::ReadError).count();
        assert_eq!(errors, n + 1);
    }
}

#[test]
fn no_reads_no_log() {
    assert_eq!(drain(&[]), Vec::<LogEntry>::new());
}

#[test]
fn a_turn_leaves_the_channel_as_it_was() {
    let mut channel = Channel::new();
    assert_eq!(turn(&mut channel, 9, ReadResult::Bytes(3)), Some(LogEntry::Discarded { len: 3 }));
    assert!(channel.is_free());
    assert_eq!(turn(&mut channel, 9, ReadResult::Failure), Some(LogEntry::ReadError));
    assert!(channel.is_free());
    assert!(channel.wire().is_empty());
}

#[test]
fn a_turn_waits_for_a_writer() {
    let mut channel = Channel::new();
    assert!(channel.begin_write(1, b"LED_ON".to_vec()));
    assert_eq!(turn(&mut channel, 9, ReadResult::Bytes(3)), None);
    assert_eq!(channel.holder(), Some(1));
    assert_eq!(turn(&mut channel, 1, ReadResult::Failure), None);
    assert_eq!(channel.holder(), Some(1));
}

#[test]
fn a_turn_does_not_end_a_read_under_way() {
    let mut channel = Channel::new();
    assert!(channel.begin_read(9));
    assert_eq!(turn(&mut channel, 9, ReadResult::Bytes(3)), None);
    assert_eq!(channel.holder(), Some(9));
}
