use led_ctrl::command::{Command, Family, Operation, Terminator};
use led_ctrl::text::{bytes_equal, text_equal};

const TABLE: [(&str, &str, Family, Operation); 16] = [
    ("/on", "LED_ON", Family::Managed, Operation::On),
    ("/off", "LED_OFF", Family::Managed, Operation::Off),
    ("/intensity_plus", "LED_IP", Family::Managed, Operation::IntensityPlus),
    ("/intensity_minus", "LED_IM", Family::Managed, Operation::IntensityMinus),
    ("/white", "LED_WHITE", Family::Managed, Operation::White),
    ("/red", "LED_RED", Family::Managed, Operation::Red),
    ("/green", "LED_GREEN", Family::Managed, Operation::Green),
    ("/blue", "LED_BLUE", Family::Managed, Operation::Blue),
    ("/raw/on", "ULED_ON", Family::Raw, Operation::On),
    ("/raw/off", "ULED_OFF", Family::Raw, Operation::Off),
    ("/raw/intensity_plus", "ULED_IP", Family::Raw, Operation::IntensityPlus),
    ("/raw/intensity_minus", "ULED_IM", Family::Raw, Operation::IntensityMinus),
    ("/raw/white", "ULED_WHITE", Family::Raw, Operation::White),
    ("/raw/red", "ULED_RED", Family::Raw, Operation::Red),
    ("/raw/green", "ULED_GREEN", Family::Raw, Operation::Green),
    ("/raw/blue", "ULED_BLUE", Family::Raw, Operation::Blue),
];

#[test]
fn every_route_maps_to_its_wire_text() {
    for (route, wire, family, operation) in TABLE {
        let command = Command::new(family, operation);
        assert_eq!(command.route(), route);
        assert_eq!(command.wire_text(), wire);
        assert_eq!(Command::from_route(route), Some(command));
    }
}

#[test]
fn table_is_complete_and_in_order() {
    let all = Command::all();
    assert_eq!(all.len(), 16);
    for (i, (route, wire, family, operation)) in TABLE.into_iter().enumerate() {
        assert_eq!(all[i], Command { family, operation });
        assert_eq!(all[i].route(), route);
        assert_eq!(all[i].wire_text(), wire);
    }
}

#[test]
fn routes_and_wire_texts_are_distinct() {
    let all = Command::all();
    for i in 0..all.len() {
        for j in 0..all.len() {
            if i != j {
                assert_ne!(all[i].route(), all[j].route());
                assert_ne!(all[i].wire_text(), all[j].wire_text());
            }
        }
    }
}

#[test]
fn families_differ_in_the_prefix_only() {
    for operation in [
        Operation::On,
        Operation::Off,
        Operation::IntensityPlus,
        Operation::IntensityMinus,
        Operation::White,
        Operation::Red,
        Operation::Green,
        Operation::Blue,
    ] {
        let managed = Command::new(Family::Managed, operation);
        let raw = Command::new(Family::Raw, operation);
        assert_eq!(format!("U{}", managed.wire_text()), raw.wire_text());
        assert_eq!(format!("/raw{}", managed.route()), raw.route());
    }
}

#[test]
fn unmapped_paths_lead_to_no_command() {
    for path in [
        "",
        "/",
        "on",
        "/ON",
        "/on/",
        "/on ",
        "/raw",
        "/raw/",
        "raw/on",
        "/raw/raw/on",
        "/red?x=1",
        "/intensity",
        "/intensity_plus_",
        "/purple",
        "/r\u{e9}d",
        "/\u{1f4a1}",
    ] {
        assert_eq!(Command::from_route(path), None, "{path:?}");
    }
}

#[test]
fn frame_without_terminator_is_the_text() {
    let red = Command::new(Family::Managed, Operation::Red);
    assert_eq!(red.frame(Terminator::Bare), b"LED_RED".to_vec());
    let dim = Command::new(Family::Raw, Operation::IntensityMinus);
    assert_eq!(dim.frame(Terminator::Bare), b"ULED_IM".to_vec());
}

#[test]
fn frame_with_terminator_ends_in_cr_lf() {
    let red = Command::new(Family::Managed, Operation::Red);
    assert_eq!(red.frame(Terminator::CrLf), b"LED_RED\r\n".to_vec());
    assert_eq!(Terminator::CrLf.text(), "\r\n");
    assert_eq!(Terminator::Bare.text(), "");
    for command in Command::all() {
        let mut expected = command.wire_text().as_bytes().to_vec();
        assert_eq!(command.frame(Terminator::Bare), expected);
        expected.extend_from_slice(b"\r\n");
        assert_eq!(command.frame(Terminator::CrLf), expected);
    }
}

#[test]
fn texts_compare_character_for_character() {
    assert!(text_equal("", ""));
    assert!(text_equal("/red", "/red"));
    assert!(!text_equal("/red", "/reD"));
    assert!(!text_equal("/red", "/red "));
    assert!(!text_equal("/red", ""));
    assert!(text_equal("\u{e9}", "\u{e9}"));
    assert!(!text_equal("\u{e9}", "e"));
}

#[test]
fn bytes_compare_byte_for_byte() {
    assert!(bytes_equal(b"", b""));
    assert!(bytes_equal(b"abc", b"abc"));
    assert!(!bytes_equal(b"abc", b"abd"));
    assert!(!bytes_equal(b"abc", b"ab"));
    assert!(!bytes_equal(b"", b"a"));
}
