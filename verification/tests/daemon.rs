use fanservice::backend::{Backend, DryRun};
use fanservice::channel::Received;
use fanservice::client::Client;
use fanservice::daemon::{Daemon, Error, Step};
use fanservice::gamma::{GammaCurve, SAMPLES, SEGMENTS, UNIT};
use fanservice::policy::{duty_for_excess, MIN_FAN};
use fanservice::protocol::{DecodeError, Message};

fn curve_for(bits: u64) -> GammaCurve {
    let gamma = f64::from_bits(bits);
    let samples: Vec<u32> = (0..SAMPLES)
        .map(|i| ((i as f64 / SEGMENTS as f64).powf(gamma) * UNIT as f64).round() as u32)
        .collect();
    GammaCurve::from_samples(samples).unwrap()
}

fn started() -> Daemon {
    Daemon::new("/run/fanservice/control", GammaCurve::identity()).unwrap()
}

#[test]
fn new_daemon_keeps_its_path_and_curve() {
    let daemon = started();
    assert_eq!(daemon.sock_path(), "/run/fanservice/control");
    assert_eq!(daemon.apply_gamma(250_000), 250_000);
    assert_eq!(daemon.speed_factor_for_excess(-22_500), 500_000);
    assert_eq!(daemon.speed_for_excess(-22_500), 550_000);
}

#[test]
fn new_daemon_refuses_a_path_no_socket_can_have() {
    assert!(matches!(
        Daemon::new("/run/\0/control", GammaCurve::identity()),
        Err(Error::Io(_))
    ));
    let too_long = "s".repeat(200);
    assert!(matches!(Daemon::new(&too_long, GammaCurve::identity()), Err(Error::Io(_))));
}

#[test]
fn daemon_error_wraps_an_io_error() {
    let e = Error::from(std::io::Error::from(std::io::ErrorKind::AddrInUse));
    let Error::Io(inner) = e;
    assert_eq!(inner.kind(), std::io::ErrorKind::AddrInUse);
}

#[test]
fn set_gamma_from_a_client_changes_the_next_duty() {
    let mut daemon = started();
    let mut backend = DryRun::new().unwrap();
    let readings = vec![-22_500i64];

    let before = daemon.tick(&readings);
    assert_eq!(before, 550_000);
    assert!(backend.set_speed(before).is_ok());

    let client = Client::connect(daemon.sock_path()).unwrap();
    let datagram = client.set_gamma(2.2f64.to_bits());
    let step = Daemon::handle_message(&Received::Datagram(datagram));
    assert_eq!(step, Step::Rebuild(2.2f64.to_bits()));
    assert!(step.keeps_draining());
    if let Step::Rebuild(bits) = step {
        daemon.set_gamma(curve_for(bits));
    }
    assert_eq!(Daemon::handle_message(&Received::WouldBlock), Step::Drained);

    let after = daemon.tick(&readings);
    let rebuilt = curve_for(2.2f64.to_bits());
    assert_eq!(after, duty_for_excess(&rebuilt, -22_500));
    assert_ne!(after, duty_for_excess(&GammaCurve::identity(), -22_500));
    // sample eight is 217638; nine tenths of it, rounded down, above the floor
    assert_eq!(after, 295_874);
    assert!(backend.set_speed(after).is_ok());
}

#[test]
fn cool_sensors_settle_at_the_floor() {
    let mut daemon = started();
    // one hot tick, then ten at or below forty under the maximum
    assert_eq!(daemon.tick(&vec![0, -50_000]), UNIT);
    let mut duty = 0;
    for tick in 0..10 {
        duty = daemon.tick(&vec![-40_000, -61_000, -45_500]);
        if tick < 9 {
            assert_eq!(duty, UNIT);
        }
    }
    assert_eq!(duty, MIN_FAN);
    for _ in 0..25 {
        assert_eq!(daemon.tick(&vec![-40_000, -61_000, -45_500]), MIN_FAN);
    }
}

#[test]
fn cool_sensors_from_the_start_give_the_floor() {
    let mut daemon = started();
    for _ in 0..10 {
        assert_eq!(daemon.tick(&vec![-40_001]), MIN_FAN);
    }
}

#[test]
fn tick_takes_the_worst_reading() {
    let mut daemon = started();
    assert_eq!(daemon.tick(&vec![-40_000, -22_500, -30_000]), 550_000);
    // the window remembers it
    assert_eq!(daemon.tick(&vec![-40_000]), 550_000);
}

#[test]
fn garbage_on_the_channel_does_not_end_the_drain() {
    let mut daemon = started();
    let garbage = Daemon::handle_message(&Received::Datagram(vec![0xde, 0xad, 0xbe, 0xef]));
    assert_eq!(garbage, Step::Malformed(DecodeError::Truncated));
    assert!(garbage.keeps_draining());

    let unknown = Daemon::handle_message(&Received::Datagram(vec![9; 12]));
    assert_eq!(unknown, Step::Malformed(DecodeError::UnknownVariant(0x0909_0909)));
    assert!(unknown.keeps_draining());

    let valid = Message::SetGamma(2.0f64.to_bits()).encode();
    let step = Daemon::handle_message(&Received::Datagram(valid));
    assert_eq!(step, Step::Rebuild(2.0f64.to_bits()));
    if let Step::Rebuild(bits) = step {
        daemon.set_gamma(curve_for(bits));
    }
    assert_eq!(daemon.apply_gamma(500_000), 250_000);
}

#[test]
fn unusable_exponents_are_rejected_and_the_drain_goes_on() {
    for gamma in [0.0f64, -1.0, f64::NAN, f64::INFINITY] {
        let m = Message::SetGamma(gamma.to_bits());
        let step = Daemon::handle_message(&Received::Datagram(m.encode()));
        assert_eq!(step, Step::Reject(m));
        assert!(step.keeps_draining());
    }
}

#[test]
fn drain_ends_when_nothing_is_pending_or_receiving_fails() {
    let drained = Daemon::handle_message(&Received::WouldBlock);
    assert_eq!(drained, Step::Drained);
    assert!(!drained.keeps_draining());
    let failed = Daemon::handle_message(&Received::Failed);
    assert_eq!(failed, Step::Failed);
    assert!(!failed.keeps_draining());
}
