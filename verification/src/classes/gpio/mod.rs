//! GPIO pins through sysfs: the values written to their files, and the
//! timing of a software PWM signal on a pin.

use vstd::prelude::*;
use crate::text::{chars_of, parse_unsigned, parse_unsigned_in};

verus! {

/// Name of the GPIO class directory under `/sys/class`.
pub const GPIO_CLASS: &'static str = "gpio";

/// The output level of a pin.
#[derive(Debug, PartialEq, Eq, Copy, Clone, Structural)]
pub enum PinLevel {
    Low,
    High,
}

/// What is written to a pin's `value` file for a level: "0" or "1".
pub open spec fn level_bytes(l: PinLevel) -> Seq<u8> {
    match l {
        PinLevel::Low => seq![0x30u8],
        PinLevel::High => seq![0x31u8],
    }
}

/// The number of a level: 0 for low, 1 for high.
pub open spec fn level_number(l: PinLevel) -> nat {
    match l {
        PinLevel::Low => 0,
        PinLevel::High => 1,
    }
}

impl PinLevel {
    /// What is written to a pin's `value` file for this level.
    pub fn as_bytes(&self) -> (r: Vec<u8>)
        ensures
            r@ == level_bytes(*self),
    {
        match self {
            PinLevel::Low => vec![0x30],
            PinLevel::High => vec![0x31],
        }
    }
}

/// The pull resistor setting of a pin.
#[derive(Debug, PartialEq, Eq, Copy, Clone, Structural)]
pub enum PinPull {
    Off,
    Down,
    Up,
}

impl PinPull {
    /// The two-bit code of the setting: 0b00 off, 0b01 down, 0b10 up.
    pub fn bits(&self) -> (r: u8)
        ensures
            r == match self {
                PinPull::Off => 0u8,
                PinPull::Down => 1u8,
                PinPull::Up => 2u8,
            },
    {
        match self {
            PinPull::Off => 0b00,
            PinPull::Down => 0b01,
            PinPull::Up => 0b10,
        }
    }
}

/// The direction of a pin.
#[derive(Debug, PartialEq, Eq, Copy, Clone, Structural)]
pub enum PinMode {
    Output,
    Input,
}

impl PinMode {
    /// What is written to a pin's `direction` file for this mode: "out" or
    /// "in".
    pub fn as_bytes(&self) -> (r: Vec<u8>)
        ensures
            r@ == match self {
                PinMode::Output => seq![0x6Fu8, 0x75, 0x74],
                PinMode::Input => seq![0x69u8, 0x6E],
            },
    {
        match self {
            PinMode::Output => vec![0x6F, 0x75, 0x74],
            PinMode::Input => vec![0x69, 0x6E],
        }
    }
}

/// The level read from the contents of a pin's `value` file: its first
/// character read as a number, which it is when it is a decimal digit.
/// The first character must be a one-byte (ASCII) one.
pub fn pin_value(contents: &str) -> (r: Option<u8>)
    requires
        contents@.len() > 0,
        (contents@[0] as u32) < 128,
    ensures
        match r {
            Some(v) => parse_unsigned(contents@.subrange(0, 1), u8::MAX as nat) == Some(v as nat),
            None => parse_unsigned(contents@.subrange(0, 1), u8::MAX as nat) is None,
        },
        r is Some <==> 48 <= (contents@[0] as u32) <= 57,
{
    let cs = chars_of(contents);
    let r = parse_unsigned_in(&cs, 0, 1, 255);
    proof {
        let d = contents@.subrange(0, 1);
        assert(d.len() == 1 && d[0] == contents@[0]);
        if 48 <= (contents@[0] as u32) <= 57 {
            assert(d.drop_last() =~= Seq::<char>::empty());
            assert(crate::text::decimal_value(d.drop_last()) == 0);
            assert(d.last() == d[0]);
            assert(crate::text::decimal_value(d) <= 9);
            assert(crate::text::unsigned_digits(d) == d);
            assert(crate::text::all_digits(d));
        } else if contents@[0] == '+' {
            assert(crate::text::unsigned_digits(d).len() == 0);
        } else {
            assert(crate::text::unsigned_digits(d) == d);
            assert(!crate::text::is_digit(d[0]));
        }
    }
    match r {
        Some(v) => Some(v as u8),
        None => None,
    }
}

/// The nanoseconds of a clock reading of `sec` seconds and `nsec`
/// nanoseconds, `sec * 1_000_000_000 + nsec`; `None` when that product or
/// that sum leaves the range of `i64`.
pub fn nanos_from_timespec(sec: i64, nsec: i64) -> (r: Option<i64>)
    ensures
        match r {
            Some(v) => v == sec * 1_000_000_000 + nsec,
            None => {
                ||| sec * 1_000_000_000 < i64::MIN
                ||| sec * 1_000_000_000 > i64::MAX
                ||| sec * 1_000_000_000 + nsec < i64::MIN
                ||| sec * 1_000_000_000 + nsec > i64::MAX
            },
        },
{
    match sec.checked_mul(1_000_000_000) {
        Some(s) => s.checked_add(nsec),
        None => None,
    }
}

/// The default PWM period, in microseconds.
pub const DEFAULT_PWN_PERIOD_US: u64 = 20000;

/// Below this many nanoseconds of waiting, a PWM signal busy-waits instead
/// of sleeping.
pub const SLEEP_THRESHOLD: i64 = 250_000;

/// How much of a wait a PWM signal keeps for busy-waiting after a sleep.
pub const BUSYWAIT_MAX: i64 = 200_000;

/// How early a busy-wait ends, to allow for the cost of reading the clock.
pub const BUSYWAIT_REMAINDER: i64 = 100;

/// How long a PWM signal rests, in nanoseconds, while it holds a steady
/// level (10 ms).
pub const STEADY_REST_NS: u64 = 10_000_000;

/// A period and a pulse width for a PWM signal, in nanoseconds.
#[derive(Debug, PartialEq, Eq, Copy, Clone, Structural)]
pub struct PwmSignalSettings {
    pub period: u128,
    pub pulse_width: u128,
}

/// A message to the thread that drives a PWM signal.
#[derive(Debug, PartialEq, Eq, Copy, Clone, Structural)]
pub enum PwmSignal {
    Stop,
    Update(PwmSignalSettings),
}

impl PwmSignal {
    /// Drive the pin with the given period and pulse width, in nanoseconds.
    pub fn update(period: u128, pulse_width: u128) -> (r: PwmSignal)
        ensures
            r == PwmSignal::Update(PwmSignalSettings { period, pulse_width }),
    {
        PwmSignal::Update(PwmSignalSettings { period, pulse_width })
    }

    /// Hold the pin high: a pulse as long as the default period.
    pub fn high() -> (r: PwmSignal)
        ensures
            r == PwmSignal::Update(
                PwmSignalSettings {
                    period: (DEFAULT_PWN_PERIOD_US * 1000) as u128,
                    pulse_width: (DEFAULT_PWN_PERIOD_US * 1000) as u128,
                },
            ),
    {
        let ns = (DEFAULT_PWN_PERIOD_US as u128) * 1000;
        PwmSignal::Update(PwmSignalSettings { period: ns, pulse_width: ns })
    }

    /// Hold the pin low: no pulse within the default period.
    pub fn low() -> (r: PwmSignal)
        ensures
            r == PwmSignal::Update(
                PwmSignalSettings { period: (DEFAULT_PWN_PERIOD_US * 1000) as u128, pulse_width: 0 },
            ),
    {
        let ns = (DEFAULT_PWN_PERIOD_US as u128) * 1000;
        PwmSignal::Update(PwmSignalSettings { period: ns, pulse_width: 0 })
    }
}

/// Where the thread that drives a PWM signal is in its cycle.
#[derive(Debug, PartialEq, Eq, Copy, Clone, Structural)]
pub enum PwmPhase {
    /// Taking the messages that have arrived.
    Poll,
    /// The pin has been set high for a pulse.
    RaisedHigh,
    /// The pin has been set low because the pulse width is zero or less.
    HeldLow,
    /// Resting while the level stays steady.
    Resting,
    /// Sleeping through the first part of the pulse.
    HighSleeping,
    /// Busy-waiting for the end of the pulse.
    HighSpin,
    /// The pin has been set low at the end of the pulse.
    Lowered,
    /// Reading the clock to see how much of the period is left.
    LowCheck,
    /// Sleeping through the first part of the rest of the period.
    LowSleeping,
    /// Busy-waiting for the end of the period.
    LowSpin,
    /// A stop message was taken: the signal has ended.
    Stopped,
}

/// What the thread that drives a PWM signal does next.
#[derive(Debug, PartialEq, Eq, Copy, Clone, Structural)]
pub enum PwmAction {
    /// Take the next message, if one has arrived.
    PollMessage,
    /// Write a level to the pin.
    SetPin(PinLevel),
    /// Sleep for this many nanoseconds.
    Sleep(u64),
    /// Read the monotonic clock, in nanoseconds.
    ReadClock,
    /// End the signal.
    Exit,
}

/// What happened since the last action of a PWM signal.
#[derive(Debug, PartialEq, Eq, Copy, Clone, Structural)]
pub enum PwmEvent {
    /// A message was taken.
    Message(PwmSignal),
    /// No message was waiting.
    NoMessage,
    /// The pin was written, or the sleep is over.
    Done,
    /// The clock reads this many nanoseconds.
    Clock(i64),
}

/// The state of a PWM signal: its period and pulse width, in nanoseconds,
/// the clock reading at which the current period started, and where it is
/// in the cycle.
#[derive(Debug, PartialEq, Eq, Copy, Clone, Structural)]
pub struct PwmState {
    pub period_ns: i64,
    pub pulse_width_ns: i64,
    pub start_ns: i64,
    pub phase: PwmPhase,
}

/// `a - b`, clamped to the range of `i64`.
pub open spec fn sat_sub_i64(a: i64, b: i64) -> i64 {
    if a - b < i64::MIN {
        i64::MIN
    } else if a - b > i64::MAX {
        i64::MAX
    } else {
        (a - b) as i64
    }
}

fn saturating_sub_i64(a: i64, b: i64) -> (r: i64)
    ensures
        r == sat_sub_i64(a, b),
{
    match a.checked_sub(b) {
        Some(v) => v,
        None => if b > 0 {
            i64::MIN
        } else {
            i64::MAX
        },
    }
}

/// Whether `e` is an event that a PWM signal in phase `p` waits for: a
/// message or its absence while polling, a clock reading while waiting on
/// the clock, the end of the last write or sleep otherwise.
pub open spec fn awaits(p: PwmPhase, e: PwmEvent) -> bool {
    match p {
        PwmPhase::Poll => e is Message || e is NoMessage,
        PwmPhase::HighSpin | PwmPhase::LowCheck | PwmPhase::LowSpin => e is Clock,
        PwmPhase::Stopped => true,
        _ => e is Done,
    }
}

/// The settings that a PWM signal takes from an update message: the period
/// and the pulse width as `i64` nanoseconds (the low 64 bits), the pulse no
/// longer than the period.
pub open spec fn apply_update(s: PwmState, u: PwmSignalSettings) -> PwmState {
    let pw = u.pulse_width as i64;
    let per = u.period as i64;
    PwmState {
        period_ns: per,
        pulse_width_ns: if pw > per {
            per
        } else {
            pw
        },
        start_ns: s.start_ns,
        phase: PwmPhase::Poll,
    }
}

/// The next state and action of a PWM signal in state `s` after event `e`.
///
/// While polling, an update message replaces the settings and a stop
/// message ends the signal; when no message is waiting, the pin is set high
/// if the pulse width is positive and low otherwise. A steady level (a
/// pulse that fills the period, or no pulse) rests 10 ms and polls again.
/// Otherwise the pulse is held for its width counted from the start of the
/// period, then the pin is set low until the period is over, and a new
/// period starts at that clock reading. A wait of at least
/// [`SLEEP_THRESHOLD`] sleeps for all but [`BUSYWAIT_MAX`] of it; a
/// busy-wait ends once no more than [`BUSYWAIT_REMAINDER`] is left.
pub open spec fn pwm_next(s: PwmState, e: PwmEvent) -> (PwmState, PwmAction) {
    let pw = s.pulse_width_ns;
    let per = s.period_ns;
    let with_phase = |p: PwmPhase| PwmState { phase: p, ..s };
    match s.phase {
        PwmPhase::Poll => match e {
            PwmEvent::Message(PwmSignal::Update(u)) => (apply_update(s, u), PwmAction::PollMessage),
            PwmEvent::Message(PwmSignal::Stop) => (
                with_phase(PwmPhase::Stopped),
                PwmAction::Exit,
            ),
            _ => if pw > 0 {
                (with_phase(PwmPhase::RaisedHigh), PwmAction::SetPin(PinLevel::High))
            } else {
                (with_phase(PwmPhase::HeldLow), PwmAction::SetPin(PinLevel::Low))
            },
        },
        PwmPhase::RaisedHigh => if pw == per {
            (with_phase(PwmPhase::Resting), PwmAction::Sleep(STEADY_REST_NS))
        } else if pw >= SLEEP_THRESHOLD {
            (
                with_phase(PwmPhase::HighSleeping),
                PwmAction::Sleep(sat_sub_i64(pw, BUSYWAIT_MAX) as u64),
            )
        } else {
            (with_phase(PwmPhase::HighSpin), PwmAction::ReadClock)
        },
        PwmPhase::HeldLow => (with_phase(PwmPhase::Resting), PwmAction::Sleep(STEADY_REST_NS)),
        PwmPhase::Resting => (with_phase(PwmPhase::Poll), PwmAction::PollMessage),
        PwmPhase::HighSleeping => (with_phase(PwmPhase::HighSpin), PwmAction::ReadClock),
        PwmPhase::HighSpin => {
            let now = e->Clock_0;
            if sat_sub_i64(pw, sat_sub_i64(now, s.start_ns)) <= BUSYWAIT_REMAINDER {
                (with_phase(PwmPhase::Lowered), PwmAction::SetPin(PinLevel::Low))
            } else {
                (s, PwmAction::ReadClock)
            }
        },
        PwmPhase::Lowered => (with_phase(PwmPhase::LowCheck), PwmAction::ReadClock),
        PwmPhase::LowCheck => {
            let now = e->Clock_0;
            let remaining = sat_sub_i64(per, sat_sub_i64(now, s.start_ns));
            if remaining >= SLEEP_THRESHOLD {
                (
                    with_phase(PwmPhase::LowSleeping),
                    PwmAction::Sleep(sat_sub_i64(remaining, BUSYWAIT_MAX) as u64),
                )
            } else {
                (with_phase(PwmPhase::LowSpin), PwmAction::ReadClock)
            }
        },
        PwmPhase::LowSleeping => (with_phase(PwmPhase::LowSpin), PwmAction::ReadClock),
        PwmPhase::LowSpin => {
            let now = e->Clock_0;
            if sat_sub_i64(per, sat_sub_i64(now, s.start_ns)) <= BUSYWAIT_REMAINDER {
                (PwmState { start_ns: now, phase: PwmPhase::Poll, ..s }, PwmAction::PollMessage)
            } else {
                (s, PwmAction::ReadClock)
            }
        },
        PwmPhase::Stopped => (s, PwmAction::Exit),
    }
}

/// Whatever an update message asks for, the pulse width that the signal
/// takes is no longer than its period.
pub proof fn law_update_keeps_pulse_within_period(s: PwmState, u: PwmSignalSettings)
    ensures
        apply_update(s, u).pulse_width_ns <= apply_update(s, u).period_ns,
        s.phase == PwmPhase::Poll ==> pwm_next(s, PwmEvent::Message(PwmSignal::Update(u))) == (
            apply_update(s, u),
            PwmAction::PollMessage,
        ),
{
}

/// A stop message ends the signal, and an ended signal stays ended.
pub proof fn law_stop_ends_signal(s: PwmState, e: PwmEvent)
    ensures
        s.phase == PwmPhase::Poll ==> pwm_next(s, PwmEvent::Message(PwmSignal::Stop)) == (
            PwmState { phase: PwmPhase::Stopped, ..s },
            PwmAction::Exit,
        ),
        s.phase == PwmPhase::Stopped ==> pwm_next(s, e) == (s, PwmAction::Exit),
{
}

/// After [`PwmSignal::high`], the signal sets the pin high, rests, and polls
/// again: it never sets the pin low.
pub proof fn law_high_signal_holds_pin_high(s: PwmState)
    requires
        s.phase == PwmPhase::Poll,
    ensures
        ({
            let u = PwmSignalSettings { period: 20_000_000, pulse_width: 20_000_000 };
            let s1 = pwm_next(s, PwmEvent::Message(PwmSignal::Update(u))).0;
            let (s2, a2) = pwm_next(s1, PwmEvent::NoMessage);
            let (s3, a3) = pwm_next(s2, PwmEvent::Done);
            let (s4, a4) = pwm_next(s3, PwmEvent::Done);
            &&& a2 == PwmAction::SetPin(PinLevel::High)
            &&& a3 == PwmAction::Sleep(STEADY_REST_NS)
            &&& a4 == PwmAction::PollMessage
            &&& s4 == s1
        }),
{
    let u = PwmSignalSettings { period: 20_000_000, pulse_width: 20_000_000 };
    assert((u.pulse_width as i64) == 20_000_000i64);
}

/// After [`PwmSignal::low`], or any settings without a positive pulse, the
/// signal sets the pin low, rests, and polls again: it never sets the pin
/// high.
pub proof fn law_no_pulse_holds_pin_low(s: PwmState)
    requires
        s.phase == PwmPhase::Poll,
        s.pulse_width_ns <= 0,
    ensures
        ({
            let (s2, a2) = pwm_next(s, PwmEvent::NoMessage);
            let (s3, a3) = pwm_next(s2, PwmEvent::Done);
            let (s4, a4) = pwm_next(s3, PwmEvent::Done);
            &&& a2 == PwmAction::SetPin(PinLevel::Low)
            &&& a3 == PwmAction::Sleep(STEADY_REST_NS)
            &&& a4 == PwmAction::PollMessage
            &&& s4 == s
        }),
{
}

/// Any pulse that fills its whole period holds the pin high: the signal
/// sets the pin high, rests, and polls again, and never sets it low.
pub proof fn law_full_pulse_holds_pin_high(s: PwmState)
    requires
        s.phase == PwmPhase::Poll,
        s.pulse_width_ns > 0,
        s.pulse_width_ns == s.period_ns,
    ensures
        ({
            let (s2, a2) = pwm_next(s, PwmEvent::NoMessage);
            let (s3, a3) = pwm_next(s2, PwmEvent::Done);
            let (s4, a4) = pwm_next(s3, PwmEvent::Done);
            &&& a2 == PwmAction::SetPin(PinLevel::High)
            &&& a3 == PwmAction::Sleep(STEADY_REST_NS)
            &&& a4 == PwmAction::PollMessage
            &&& s4 == s
        }),
{
}

/// With a pulse shorter than its period, each period sets the pin high at
/// its start, sets it low once the pulse width (less the busy-wait
/// margin) has passed since the start, and starts the next period once
/// the whole period (less that margin) has passed, at that clock reading.
/// No other step writes the pin.
pub proof fn law_pulse_within_each_period(s: PwmState, e: PwmEvent, now: i64)
    requires
        0 < s.pulse_width_ns < s.period_ns,
    ensures
        s.phase == PwmPhase::Poll ==> pwm_next(s, PwmEvent::NoMessage) == (
            PwmState { phase: PwmPhase::RaisedHigh, ..s },
            PwmAction::SetPin(PinLevel::High),
        ),
        s.phase == PwmPhase::RaisedHigh ==> pwm_next(s, e).0.phase == PwmPhase::HighSleeping
            || pwm_next(s, e).0.phase == PwmPhase::HighSpin,
        s.phase == PwmPhase::HighSpin ==> pwm_next(s, PwmEvent::Clock(now)) == if sat_sub_i64(
            now,
            s.start_ns,
        ) >= s.pulse_width_ns - BUSYWAIT_REMAINDER {
            (PwmState { phase: PwmPhase::Lowered, ..s }, PwmAction::SetPin(PinLevel::Low))
        } else {
            (s, PwmAction::ReadClock)
        },
        s.phase == PwmPhase::LowSpin ==> pwm_next(s, PwmEvent::Clock(now)) == if sat_sub_i64(
            now,
            s.start_ns,
        ) >= s.period_ns - BUSYWAIT_REMAINDER {
            (PwmState { start_ns: now, phase: PwmPhase::Poll, ..s }, PwmAction::PollMessage)
        } else {
            (s, PwmAction::ReadClock)
        },
        s.phase != PwmPhase::Poll && s.phase != PwmPhase::HighSpin ==> !(pwm_next(s, e).1 is SetPin),
{
}

/// A pulse long enough to sleep through, in a longer period, is slept
/// through for its width less the busy-wait margin, whatever the period:
/// the pin stays high for the pulse width of each period, not for the rest
/// of it.
pub proof fn law_pulse_sleep_follows_width(s: PwmState, e: PwmEvent)
    requires
        s.phase == PwmPhase::RaisedHigh,
        0 < s.pulse_width_ns < s.period_ns,
        s.pulse_width_ns >= SLEEP_THRESHOLD,
    ensures
        pwm_next(s, e) == (
            PwmState { phase: PwmPhase::HighSleeping, ..s },
            PwmAction::Sleep((s.pulse_width_ns - BUSYWAIT_MAX) as u64),
        ),
        pwm_next(s, e).1 == pwm_next(PwmState { period_ns: i64::MAX, ..s }, e).1,
{
}

/// Once the pin is low, the signal sleeps through what is left of the
/// period less the busy-wait margin, when that much is left, and
/// busy-waits otherwise: the low time depends on the period and on how
/// long ago the period started, never on the pulse width.
pub proof fn law_low_rest_follows_period(s: PwmState, now: i64)
    requires
        s.phase == PwmPhase::LowCheck,
        s.period_ns > 0,
        0 <= now - s.start_ns <= s.period_ns,
    ensures
        s.period_ns - (now - s.start_ns) >= SLEEP_THRESHOLD ==> pwm_next(s, PwmEvent::Clock(now))
            == (
            PwmState { phase: PwmPhase::LowSleeping, ..s },
            PwmAction::Sleep((s.period_ns - (now - s.start_ns) - BUSYWAIT_MAX) as u64),
        ),
        s.period_ns - (now - s.start_ns) < SLEEP_THRESHOLD ==> pwm_next(s, PwmEvent::Clock(now))
            == (PwmState { phase: PwmPhase::LowSpin, ..s }, PwmAction::ReadClock),
{
}

/// A pulse too short to sleep through is busy-waited from its start: the
/// signal reads the clock straight away, whatever the period.
pub proof fn law_short_pulse_spins_at_once(s: PwmState, e: PwmEvent)
    requires
        s.phase == PwmPhase::RaisedHigh,
        0 < s.pulse_width_ns < s.period_ns,
        s.pulse_width_ns < SLEEP_THRESHOLD,
    ensures
        pwm_next(s, e) == (PwmState { phase: PwmPhase::HighSpin, ..s }, PwmAction::ReadClock),
{
}

/// Whether `e` is what doing action `a` gives: a message or none after
/// polling, the end of the write or sleep after one, a clock reading after
/// reading the clock.
pub open spec fn answers(a: PwmAction, e: PwmEvent) -> bool {
    match a {
        PwmAction::PollMessage => e is Message || e is NoMessage,
        PwmAction::SetPin(_) | PwmAction::Sleep(_) => e is Done,
        PwmAction::ReadClock => e is Clock,
        PwmAction::Exit => true,
    }
}

/// Doing each action that the signal asks for, and handing back what it
/// gave, always hands the signal an event that it waits for; a new signal
/// starts by polling.
pub proof fn law_events_follow_actions(s: PwmState, e: PwmEvent, next: PwmEvent)
    requires
        awaits(s.phase, e),
        answers(pwm_next(s, e).1, next),
    ensures
        awaits(pwm_next(s, e).0.phase, next),
        answers(PwmAction::PollMessage, next) ==> awaits(PwmPhase::Poll, next),
{
}

/// While a pulse is held, the pin is only ever set low.
pub proof fn law_pulse_ends_low(s: PwmState, now: i64)
    requires
        s.phase == PwmPhase::HighSpin,
    ensures
        pwm_next(s, PwmEvent::Clock(now)).1 == PwmAction::SetPin(PinLevel::Low) || pwm_next(
            s,
            PwmEvent::Clock(now),
        ).1 == PwmAction::ReadClock,
{
}

/// The text written to a pin's `value` file for a level reads back as that
/// level's number.
pub proof fn law_written_level_reads_back(l: PinLevel)
    ensures
        parse_unsigned(level_bytes(l).map_values(|b: u8| b as char), u8::MAX as nat) == Some(
            level_number(l),
        ),
{
    let c = level_bytes(l).map_values(|b: u8| b as char);
    assert(c.len() == 1);
    assert(c.drop_last() =~= Seq::<char>::empty());
    assert(crate::text::decimal_value(Seq::<char>::empty()) == 0);
    assert(c[0] == c.last());
    match l {
        PinLevel::Low => assert((0x30u8 as char) as u32 == 48),
        PinLevel::High => assert((0x31u8 as char) as u32 == 49),
    }
    assert(crate::text::unsigned_digits(c) == c);
}

impl PwmState {
    /// A PWM signal that starts at clock reading `now_ns` with the given
    /// period and pulse width (taken as `i64` nanoseconds, the low 64 bits,
    /// as they are), about to poll for messages.
    pub fn new(period: u128, pulse_width: u128, now_ns: i64) -> (r: PwmState)
        ensures
            r == (PwmState {
                period_ns: period as i64,
                pulse_width_ns: pulse_width as i64,
                start_ns: now_ns,
                phase: PwmPhase::Poll,
            }),
    {
        PwmState {
            period_ns: period as i64,
            pulse_width_ns: pulse_width as i64,
            start_ns: now_ns,
            phase: PwmPhase::Poll,
        }
    }

    /// Takes event `e` and gives the next action, as [`pwm_next`] says.
    pub fn step(&mut self, e: PwmEvent) -> (r: PwmAction)
        requires
            awaits(old(self).phase, e),
        ensures
            (*final(self), r) == pwm_next(*old(self), e),
    {
        let pw = self.pulse_width_ns;
        let per = self.period_ns;
        match self.phase {
            PwmPhase::Poll => match e {
                PwmEvent::Message(PwmSignal::Update(u)) => {
                    let new_pw = u.pulse_width as i64;
                    let new_per = u.period as i64;
                    self.period_ns = new_per;
                    self.pulse_width_ns = if new_pw > new_per {
                        new_per
                    } else {
                        new_pw
                    };
                    PwmAction::PollMessage
                },
                PwmEvent::Message(PwmSignal::Stop) => {
                    self.phase = PwmPhase::Stopped;
                    PwmAction::Exit
                },
                _ => if pw > 0 {
                    self.phase = PwmPhase::RaisedHigh;
                    PwmAction::SetPin(PinLevel::High)
                } else {
                    self.phase = PwmPhase::HeldLow;
                    PwmAction::SetPin(PinLevel::Low)
                },
            },
            PwmPhase::RaisedHigh => if pw == per {
                self.phase = PwmPhase::Resting;
                PwmAction::Sleep(STEADY_REST_NS)
            } else if pw >= SLEEP_THRESHOLD {
                self.phase = PwmPhase::HighSleeping;
                PwmAction::Sleep(saturating_sub_i64(pw, BUSYWAIT_MAX) as u64)
            } else {
                self.phase = PwmPhase::HighSpin;
                PwmAction::ReadClock
            },
            PwmPhase::HeldLow => {
                self.phase = PwmPhase::Resting;
                PwmAction::Sleep(STEADY_REST_NS)
            },
            PwmPhase::Resting => {
                self.phase = PwmPhase::Poll;
                PwmAction::PollMessage
            },
            PwmPhase::HighSleeping => {
                self.phase = PwmPhase::HighSpin;
                PwmAction::ReadClock
            },
            PwmPhase::HighSpin => {
                let now = match e {
                    PwmEvent::Clock(t) => t,
                    _ => 0,
                };
                if saturating_sub_i64(pw, saturating_sub_i64(now, self.start_ns))
                    <= BUSYWAIT_REMAINDER {
                    self.phase = PwmPhase::Lowered;
                    PwmAction::SetPin(PinLevel::Low)
                } else {
                    PwmAction::ReadClock
                }
            },
            PwmPhase::Lowered => {
                self.phase = PwmPhase::LowCheck;
                PwmAction::ReadClock
            },
            PwmPhase::LowCheck => {
                let now = match e {
                    PwmEvent::Clock(t) => t,
                    _ => 0,
                };
                let remaining = saturating_sub_i64(per, saturating_sub_i64(now, self.start_ns));
                if remaining >= SLEEP_THRESHOLD {
                    self.phase = PwmPhase::LowSleeping;
                    PwmAction::Sleep(saturating_sub_i64(remaining, BUSYWAIT_MAX) as u64)
                } else {
                    self.phase = PwmPhase::LowSpin;
                    PwmAction::ReadClock
                }
            },
            PwmPhase::LowSleeping => {
                self.phase = PwmPhase::LowSpin;
                PwmAction::ReadClock
            },
            PwmPhase::LowSpin => {
                let now = match e {
                    PwmEvent::Clock(t) => t,
                    _ => 0,
                };
                if saturating_sub_i64(per, saturating_sub_i64(now, self.start_ns))
                    <= BUSYWAIT_REMAINDER {
                    self.start_ns = now;
                    self.phase = PwmPhase::Poll;
                    PwmAction::PollMessage
                } else {
                    PwmAction::ReadClock
                }
            },
            PwmPhase::Stopped => PwmAction::Exit,
        }
    }
}

} // verus!
