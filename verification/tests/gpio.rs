use dg_sysfs::classes::gpio::{
    nanos_from_timespec, pin_value, PinLevel, PinMode, PinPull, PwmAction, PwmEvent, PwmPhase,
    PwmSignal, PwmSignalSettings, PwmState, BUSYWAIT_MAX, STEADY_REST_NS,
};

#[test]
fn levels_and_modes_as_written() {
    assert_eq!(PinLevel::Low.as_bytes(), b"0".to_vec());
    assert_eq!(PinLevel::High.as_bytes(), b"1".to_vec());
    assert_eq!(PinMode::Output.as_bytes(), b"out".to_vec());
    assert_eq!(PinMode::Input.as_bytes(), b"in".to_vec());
    assert_eq!(PinPull::Off.bits(), 0b00);
    assert_eq!(PinPull::Down.bits(), 0b01);
    assert_eq!(PinPull::Up.bits(), 0b10);
}

#[test]
fn pin_value_reads_first_character() {
    assert_eq!(pin_value("1\n"), Some(1));
    assert_eq!(pin_value("0"), Some(0));
    assert_eq!(pin_value("7x"), Some(7));
    assert_eq!(pin_value("+1"), None);
    assert_eq!(pin_value("x"), None);
}

#[test]
fn written_level_reads_back() {
    for (l, n) in [(PinLevel::Low, 0u8), (PinLevel::High, 1u8)] {
        let text = String::from_utf8(l.as_bytes()).unwrap();
        assert_eq!(pin_value(&text), Some(n));
    }
}

#[test]
fn timespec_nanos() {
    assert_eq!(nanos_from_timespec(2, 5), Some(2_000_000_005));
    assert_eq!(nanos_from_timespec(i64::MAX / 1_000_000_000 + 1, 0), None);
    assert_eq!(nanos_from_timespec(i64::MAX / 1_000_000_000, 999_999_999), None);
}

#[test]
fn high_and_low_messages() {
    assert_eq!(
        PwmSignal::high(),
        PwmSignal::Update(PwmSignalSettings { period: 20_000_000, pulse_width: 20_000_000 })
    );
    assert_eq!(
        PwmSignal::low(),
        PwmSignal::Update(PwmSignalSettings { period: 20_000_000, pulse_width: 0 })
    );
    assert_eq!(
        PwmSignal::update(5, 3),
        PwmSignal::Update(PwmSignalSettings { period: 5, pulse_width: 3 })
    );
}

#[test]
fn update_clamps_pulse_to_period() {
    let mut s = PwmState::new(0, 0, 0);
    assert_eq!(s.step(PwmEvent::Message(PwmSignal::update(1_000, 5_000))), PwmAction::PollMessage);
    assert_eq!(s.period_ns, 1_000);
    assert_eq!(s.pulse_width_ns, 1_000);
}

#[test]
fn stop_ends_signal() {
    let mut s = PwmState::new(1, 1, 0);
    assert_eq!(s.step(PwmEvent::Message(PwmSignal::Stop)), PwmAction::Exit);
    assert_eq!(s.phase, PwmPhase::Stopped);
    assert_eq!(s.step(PwmEvent::Done), PwmAction::Exit);
}

#[test]
fn steady_high_and_low() {
    let mut s = PwmState::new(0, 0, 0);
    s.step(PwmEvent::Message(PwmSignal::high()));
    assert_eq!(s.step(PwmEvent::NoMessage), PwmAction::SetPin(PinLevel::High));
    assert_eq!(s.step(PwmEvent::Done), PwmAction::Sleep(STEADY_REST_NS));
    assert_eq!(s.step(PwmEvent::Done), PwmAction::PollMessage);
    s.step(PwmEvent::Message(PwmSignal::low()));
    assert_eq!(s.step(PwmEvent::NoMessage), PwmAction::SetPin(PinLevel::Low));
    assert_eq!(s.step(PwmEvent::Done), PwmAction::Sleep(10_000_000));
    assert_eq!(s.step(PwmEvent::Done), PwmAction::PollMessage);
}

#[test]
fn long_pulse_cycle() {
    // 1 ms pulse in a 2 ms period, period started at t = 1000.
    let mut s = PwmState::new(2_000_000, 1_000_000, 1000);
    assert_eq!(s.step(PwmEvent::NoMessage), PwmAction::SetPin(PinLevel::High));
    assert_eq!(s.step(PwmEvent::Done), PwmAction::Sleep((1_000_000 - BUSYWAIT_MAX) as u64));
    assert_eq!(s.step(PwmEvent::Done), PwmAction::ReadClock);
    assert_eq!(s.step(PwmEvent::Clock(500_000)), PwmAction::ReadClock);
    assert_eq!(s.phase, PwmPhase::HighSpin);
    assert_eq!(s.step(PwmEvent::Clock(1_000_950)), PwmAction::SetPin(PinLevel::Low));
    assert_eq!(s.step(PwmEvent::Done), PwmAction::ReadClock);
    // 1_000_000 ns of the period remain at t = 1_001_000.
    assert_eq!(s.step(PwmEvent::Clock(1_001_000)), PwmAction::Sleep(800_000));
    assert_eq!(s.step(PwmEvent::Done), PwmAction::ReadClock);
    assert_eq!(s.step(PwmEvent::Clock(1_990_000)), PwmAction::ReadClock);
    assert_eq!(s.step(PwmEvent::Clock(2_000_950)), PwmAction::PollMessage);
    assert_eq!(s.start_ns, 2_000_950);
    assert_eq!(s.phase, PwmPhase::Poll);
}

#[test]
fn short_pulse_busy_waits() {
    let mut s = PwmState::new(200_000, 100_000, 0);
    assert_eq!(s.step(PwmEvent::NoMessage), PwmAction::SetPin(PinLevel::High));
    assert_eq!(s.step(PwmEvent::Done), PwmAction::ReadClock);
    assert_eq!(s.step(PwmEvent::Clock(99_900)), PwmAction::SetPin(PinLevel::Low));
    assert_eq!(s.step(PwmEvent::Done), PwmAction::ReadClock);
    assert_eq!(s.step(PwmEvent::Clock(100_000)), PwmAction::ReadClock);
    assert_eq!(s.phase, PwmPhase::LowSpin);
}

#[test]
fn initial_settings_are_not_clamped() {
    let s = PwmState::new(10, 20, 0);
    assert_eq!(s.pulse_width_ns, 20);
    assert_eq!(s.period_ns, 10);
    let big = PwmState::new(u128::from(u64::MAX) + 2, 0, 0);
    assert_eq!(big.period_ns, 1);
}

#[test]
fn full_pulse_of_any_period_holds_high() {
    let mut s = PwmState::new(5_000_000, 5_000_000, 0);
    assert_eq!(s.step(PwmEvent::NoMessage), PwmAction::SetPin(PinLevel::High));
    assert_eq!(s.step(PwmEvent::Done), PwmAction::Sleep(STEADY_REST_NS));
    assert_eq!(s.step(PwmEvent::Done), PwmAction::PollMessage);
    assert_eq!(s, PwmState::new(5_000_000, 5_000_000, 0));
}

#[test]
fn pulse_lowers_only_after_its_width() {
    // 100 us pulse in a 200 us period starting at t = 0: lowered once
    // 100 us - 100 ns have passed, the next period once 200 us - 100 ns have.
    let mut s = PwmState::new(200_000, 100_000, 0);
    s.step(PwmEvent::NoMessage);
    s.step(PwmEvent::Done);
    assert_eq!(s.step(PwmEvent::Clock(99_899)), PwmAction::ReadClock);
    assert_eq!(s.step(PwmEvent::Clock(99_900)), PwmAction::SetPin(PinLevel::Low));
    s.step(PwmEvent::Done);
    s.step(PwmEvent::Clock(150_000));
    assert_eq!(s.step(PwmEvent::Clock(199_899)), PwmAction::ReadClock);
    assert_eq!(s.step(PwmEvent::Clock(199_900)), PwmAction::PollMessage);
    assert_eq!(s.start_ns, 199_900);
    assert_eq!(s.step(PwmEvent::NoMessage), PwmAction::SetPin(PinLevel::High));
}
