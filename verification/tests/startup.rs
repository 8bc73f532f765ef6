use led_ctrl::startup::{default_hostname, Outcome, Stage, BAUD_RATE, DEFAULT_PORT};

const OUTCOMES: [Outcome; 7] = [
    Outcome::DeviceOpened,
    Outcome::DeviceRefused,
    Outcome::ReaderStarted,
    Outcome::AddressParsed,
    Outcome::AddressInvalid,
    Outcome::Bound,
    Outcome::BindFailed,
];

fn run(outcomes: &[Outcome]) -> Stage {
    outcomes.iter().fold(Stage::first(), |stage, outcome| stage.next(*outcome))
}

#[test]
fn defaults() {
    assert_eq!(BAUD_RATE, 38400);
    assert_eq!(DEFAULT_PORT, 80);
    assert_eq!(default_hostname(), "0.0.0.0");
}

#[test]
fn startup_in_order() {
    assert_eq!(Stage::first(), Stage::OpenDevice);
    assert_eq!(run(&[Outcome::DeviceOpened]), Stage::StartReader);
    assert_eq!(run(&[Outcome::DeviceOpened, Outcome::ReaderStarted]), Stage::ParseAddress);
    assert_eq!(
        run(&[Outcome::DeviceOpened, Outcome::ReaderStarted, Outcome::AddressParsed]),
        Stage::Bind
    );
    assert_eq!(
        run(&[
            Outcome::DeviceOpened,
            Outcome::ReaderStarted,
            Outcome::AddressParsed,
            Outcome::Bound
        ]),
        Stage::Serve
    );
    assert!(Stage::Bind.listens());
    assert!(Stage::Serve.listens());
    assert!(!Stage::OpenDevice.listens());
    assert!(!Stage::StartReader.listens());
    assert!(!Stage::ParseAddress.listens());
    assert!(!Stage::Stopped.listens());
}

#[test]
fn every_failure_stops_startup() {
    assert_eq!(run(&[Outcome::DeviceRefused]), Stage::Stopped);
    assert_eq!(
        run(&[Outcome::DeviceOpened, Outcome::ReaderStarted, Outcome::AddressInvalid]),
        Stage::Stopped
    );
    assert_eq!(
        run(&[
            Outcome::DeviceOpened,
            Outcome::ReaderStarted,
            Outcome::AddressParsed,
            Outcome::BindFailed
        ]),
        Stage::Stopped
    );
}

#[test]
fn an_unopenable_device_never_leads_to_a_listener() {
    for a in OUTCOMES {
        for b in OUTCOMES {
            for c in OUTCOMES {
                for d in OUTCOMES {
                    let mut stage = Stage::first().next(Outcome::DeviceRefused);
                    assert_eq!(stage, Stage::Stopped);
                    for outcome in [a, b, c, d] {
                        stage = stage.next(outcome);
                        assert_eq!(stage, Stage::Stopped);
                        assert!(!stage.listens());
                    }
                }
            }
        }
    }
}

#[test]
fn outcomes_out_of_turn_change_nothing() {
    assert_eq!(Stage::OpenDevice.next(Outcome::Bound), Stage::OpenDevice);
    assert_eq!(Stage::OpenDevice.next(Outcome::AddressParsed), Stage::OpenDevice);
    assert_eq!(Stage::StartReader.next(Outcome::DeviceRefused), Stage::StartReader);
    assert_eq!(Stage::Bind.next(Outcome::DeviceRefused), Stage::Bind);
    for outcome in OUTCOMES {
        assert_eq!(Stage::Serve.next(outcome), Stage::Serve);
        assert_eq!(Stage::Stopped.next(outcome), Stage::Stopped);
    }
}
