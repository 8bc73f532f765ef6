use led_ctrl::channel::Channel;
use led_ctrl::command::{Command, Family, Operation, Terminator};
use led_ctrl::link::Progress;

#[test]
fn new_channel_is_free_and_silent() {
    let channel = Channel::new();
    assert!(channel.is_free());
    assert_eq!(channel.holder(), None);
    assert!(channel.wire().is_empty());
}

#[test]
fn one_write_in_pieces() {
    let mut channel = Channel::new();
    assert!(channel.begin_write(1, b"LED_GREEN".to_vec()));
    assert_eq!(channel.holder(), Some(1));
    assert_eq!(channel.write_some(1, 3), Progress::Pending);
    assert_eq!(channel.wire().as_slice(), b"LED");
    assert_eq!(channel.write_some(1, 0), Progress::Pending);
    assert_eq!(channel.wire().as_slice(), b"LED");
    assert_eq!(channel.write_some(1, 5), Progress::Pending);
    assert_eq!(channel.wire().as_slice(), b"LED_GREE");
    assert_eq!(channel.write_some(1, 100), Progress::Done);
    assert_eq!(channel.wire().as_slice(), b"LED_GREEN");
    assert!(channel.is_free());
    assert_eq!(channel.write_some(1, 5), Progress::Refused);
    assert_eq!(channel.wire().as_slice(), b"LED_GREEN");
}

#[test]
fn an_empty_frame_ends_with_the_first_step() {
    let mut channel = Channel::new();
    assert!(channel.begin_write(1, Vec::new()));
    assert!(!channel.is_free());
    assert_eq!(channel.write_some(1, 0), Progress::Done);
    assert!(channel.is_free());
    assert!(channel.wire().is_empty());
}

#[test]
fn only_the_holder_writes() {
    let mut channel = Channel::new();
    assert!(channel.begin_write(1, b"LED_ON".to_vec()));
    assert!(!channel.begin_write(2, b"ULED_OFF".to_vec()));
    assert!(!channel.begin_write(1, b"ULED_OFF".to_vec()));
    assert_eq!(channel.write_some(2, 4), Progress::Refused);
    assert!(!channel.fault(2));
    assert!(channel.wire().is_empty());
    assert_eq!(channel.holder(), Some(1));
    assert_eq!(channel.write_some(1, 6), Progress::Done);
    assert_eq!(channel.wire().as_slice(), b"LED_ON");
}

#[test]
fn concurrent_writes_do_not_interleave() {
    let first = Command::new(Family::Managed, Operation::White).frame(Terminator::CrLf);
    let second = Command::new(Family::Raw, Operation::Blue).frame(Terminator::CrLf);
    let mut channel = Channel::new();
    let mut first_done = false;
    let mut second_begun = false;
    let mut second_done = false;
    assert!(channel.begin_write(1, first.clone()));
    // the two tasks take turns, one byte at a time
    let mut rounds = 0;
    while !(first_done && second_done) {
        rounds += 1;
        assert!(rounds < 100);
        if !first_done {
            first_done = channel.write_some(1, 1) == Progress::Done;
        }
        if !second_begun {
            second_begun = channel.begin_write(2, second.clone());
            assert_eq!(second_begun, first_done);
        } else if !second_done {
            second_done = channel.write_some(2, 1) == Progress::Done;
        }
    }
    let mut expected = first.clone();
    expected.extend_from_slice(&second);
    assert_eq!(channel.wire(), &expected);
    assert_eq!(channel.wire().as_slice(), b"LED_WHITE\r\nULED_BLUE\r\n");
    assert!(channel.is_free());
}

#[test]
fn concurrent_writes_in_either_order_are_whole() {
    let a = b"LED_RED".to_vec();
    let b = b"ULED_IM".to_vec();
    for b_first in [false, true] {
        let mut channel = Channel::new();
        let (one, two) = if b_first { (&b, &a) } else { (&a, &b) };
        let (t1, t2) = if b_first { (2, 1) } else { (1, 2) };
        assert!(channel.begin_write(t1, one.clone()));
        assert!(!channel.begin_write(t2, two.clone()));
        assert_eq!(channel.write_some(t1, 4), Progress::Pending);
        assert!(!channel.begin_write(t2, two.clone()));
        assert_eq!(channel.write_some(t2, 4), Progress::Refused);
        assert_eq!(channel.write_some(t1, 4), Progress::Done);
        assert!(channel.begin_write(t2, two.clone()));
        assert_eq!(channel.write_some(t1, 4), Progress::Refused);
        assert_eq!(channel.write_some(t2, 7), Progress::Done);
        let mut expected = one.clone();
        expected.extend_from_slice(two);
        assert_eq!(channel.wire(), &expected);
    }
}

#[test]
fn a_fault_ends_the_write_and_frees_the_handle() {
    let mut channel = Channel::new();
    assert!(!channel.fault(1));
    assert!(channel.begin_write(1, b"LED_BLUE".to_vec()));
    assert_eq!(channel.write_some(1, 5), Progress::Pending);
    assert!(channel.fault(1));
    assert!(channel.is_free());
    assert_eq!(channel.wire().as_slice(), b"LED_B");
    assert_eq!(channel.write_some(1, 5), Progress::Refused);
    assert!(!channel.fault(1));
    assert!(channel.begin_write(2, b"LED_OFF".to_vec()));
    assert_eq!(channel.write_some(2, 7), Progress::Done);
    assert_eq!(channel.wire().as_slice(), b"LED_BLED_OFF");
}

#[test]
fn a_reader_holds_the_handle_between_begin_and_end() {
    let mut channel = Channel::new();
    assert!(channel.begin_read(9));
    assert_eq!(channel.holder(), Some(9));
    assert!(!channel.begin_read(9));
    assert!(!channel.begin_read(8));
    assert!(!channel.begin_write(1, b"LED_ON".to_vec()));
    assert_eq!(channel.write_some(9, 3), Progress::Refused);
    assert!(!channel.fault(9));
    assert!(!channel.end_read(8));
    assert_eq!(channel.holder(), Some(9));
    assert!(channel.end_read(9));
    assert!(channel.is_free());
    assert!(!channel.end_read(9));
    assert!(channel.begin_write(1, b"LED_ON".to_vec()));
    assert!(!channel.begin_read(9));
    assert!(!channel.end_read(1));
    assert_eq!(channel.write_some(1, 6), Progress::Done);
    assert_eq!(channel.wire().as_slice(), b"LED_ON");
}
