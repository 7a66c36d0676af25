//! One wand: its reports, its calibration and its feedback.

use std::collections::hash_map::DefaultHasher;
use std::hash::Hasher;
use vstd::prelude::*;
use vstd::std_specs::cmp::PartialEqSpec;
use vstd::std_specs::cmp::PartialEqSpecImpl;
use vstd::std_specs::hash::DefaultHasherAdditionalSpecFns;

use crate::controller::proto::zcm1::{GetInput, SetLED};
use crate::controller::proto::{decoded, framed, Address, Getter, Primary, ProtocolError, Setter};
use crate::ratio::Ratio;

pub use crate::controller::calibration::Calibration;
pub use crate::controller::connect::{ConnectError, Handshake, Progress, Stage};

pub mod calibration;
pub mod connect;
pub mod hid;
pub mod proto;

verus! {

/// What the host asks a wand to show: the colour of its light and the
/// strength of its rumble motor.
#[derive(Debug, Clone, Copy, Eq)]
pub struct Feedback {
    /// Red, green and blue, 0 to 255 each.
    pub rgb: (u8, u8, u8),
    /// Rumble strength, 0 to 255.
    pub rumble: u8,
}

impl Feedback {
    /// Light off, motor off.
    pub open spec fn new_spec() -> Feedback {
        Feedback { rgb: (0u8, 0u8, 0u8), rumble: 0 }
    }

    /// Light off, motor off.
    #[verifier::when_used_as_spec(new_spec)]
    pub fn new() -> (r: Self)
        ensures
            r == (Feedback { rgb: (0u8, 0u8, 0u8), rumble: 0 }),
    {
        Self { rgb: (0, 0, 0), rumble: 0 }
    }

    /// The same feedback with another colour.
    pub fn led_color(self, color: (u8, u8, u8)) -> (r: Self)
        ensures
            r == (Feedback { rgb: color, rumble: self.rumble }),
    {
        Self { rgb: color, rumble: self.rumble }
    }

    /// The same feedback with the light off.
    pub fn led_off(self) -> (r: Self)
        ensures
            r == (Feedback { rgb: (0u8, 0u8, 0u8), rumble: self.rumble }),
    {
        Self { rgb: (0, 0, 0), rumble: self.rumble }
    }

    /// The same feedback with another rumble strength.
    pub fn rumble(self, rumble: u8) -> (r: Self)
        ensures
            r == (Feedback { rgb: self.rgb, rumble }),
    {
        Self { rgb: self.rgb, rumble }
    }

    /// The same feedback with the colour given by its three channels.
    pub fn with_color(self, r: u8, g: u8, b: u8) -> (out: Self)
        ensures
            out == (Feedback { rgb: (r, g, b), rumble: self.rumble }),
    {
        Self { rgb: (r, g, b), rumble: self.rumble }
    }

    /// The same feedback with another rumble strength.
    pub fn with_rumble(self, rumble: u8) -> (r: Self)
        ensures
            r == (Feedback { rgb: self.rgb, rumble }),
    {
        Self { rgb: self.rgb, rumble }
    }
}

impl PartialEq for Feedback {
    fn eq(&self, other: &Self) -> (r: bool) {
        self.rgb.0 == other.rgb.0 && self.rgb.1 == other.rgb.1 && self.rgb.2 == other.rgb.2
            && self.rumble == other.rumble
    }
}

impl PartialEqSpecImpl for Feedback {
    open spec fn obeys_eq_spec() -> bool {
        true
    }

    open spec fn eq_spec(&self, other: &Self) -> bool {
        self.rgb.0 == other.rgb.0 && self.rgb.1 == other.rgb.1 && self.rgb.2 == other.rgb.2
            && self.rumble == other.rumble
    }
}

impl Default for Feedback {
    fn default() -> (r: Self)
        ensures
            r == (Feedback { rgb: (0u8, 0u8, 0u8), rumble: 0 }),
    {
        Self::new()
    }
}

/// Three fractions, one for each axis.
#[derive(Debug, Clone, Copy, PartialEq, Eq, Structural)]
pub struct Vector3 {
    pub x: Ratio,
    pub y: Ratio,
    pub z: Ratio,
}

impl Vector3 {
    /// The acceleration of a wand that stands upright at rest: one g along
    /// the third axis.
    pub open spec fn at_rest() -> Vector3 {
        Vector3 {
            x: Ratio { num: 0, den: 1 },
            y: Ratio { num: 0, den: 1 },
            z: Ratio { num: 1, den: 1 },
        }
    }

    /// The acceleration of a wand that stands upright at rest.
    pub fn rest() -> (v: Vector3)
        ensures
            v == Self::at_rest(),
    {
        Vector3 { x: Ratio::new(0, 1), y: Ratio::new(0, 1), z: Ratio::new(1, 1) }
    }

    /// The vector with zero on each axis.
    pub fn zero() -> (v: Vector3)
        ensures
            v == (Vector3 {
                x: Ratio { num: 0, den: 1 },
                y: Ratio { num: 0, den: 1 },
                z: Ratio { num: 0, den: 1 },
            }),
    {
        Vector3 { x: Ratio::zero(), y: Ratio::zero(), z: Ratio::zero() }
    }
}

/// The buttons of a wand. A flag is set while its button is held down.
#[derive(Debug, Clone, Copy, PartialEq, Eq)]
pub struct Buttons {
    pub square: bool,
    pub triangle: bool,
    pub cross: bool,
    pub circle: bool,
    pub start: bool,
    pub select: bool,
    pub logo: bool,
    pub swoosh: bool,
    /// Whether the trigger counts as pulled, and how far it is pulled: a
    /// fraction from 0 to 1.
    pub trigger: (bool, Ratio),
}

impl Buttons {
    pub const BIT_SELECT: u32 = 0;

    pub const BIT_START: u32 = 3;

    pub const BIT_TRIANGLE: u32 = 12;

    pub const BIT_CIRCLE: u32 = 13;

    pub const BIT_CROSS: u32 = 14;

    pub const BIT_SQUARE: u32 = 15;

    pub const BIT_LOGO: u32 = 16;

    pub const BIT_SWOOSH: u32 = 19;

    pub const BIT_TRIGGER: u32 = 20;

    /// Whether a bit of the button bitmap is set. Bit 0 is the lowest.
    pub open spec fn is_set(buttons: u32, bit: u32) -> bool {
        buttons & (1u32 << bit) != 0
    }

    /// How far the trigger is pulled: the mean of its two readings over 255.
    pub open spec fn pulled(trigger_1: u8, trigger_2: u8) -> Ratio {
        Ratio { num: (trigger_1 + trigger_2) as i64, den: 510 }
    }

    /// The buttons that a bitmap and the two trigger readings stand for.
    pub open spec fn decoded(buttons: u32, trigger_1: u8, trigger_2: u8) -> Buttons {
        Buttons {
            square: Self::is_set(buttons, 15),
            triangle: Self::is_set(buttons, 12),
            cross: Self::is_set(buttons, 14),
            circle: Self::is_set(buttons, 13),
            start: Self::is_set(buttons, 3),
            select: Self::is_set(buttons, 0),
            logo: Self::is_set(buttons, 16),
            swoosh: Self::is_set(buttons, 19),
            trigger: (Self::is_set(buttons, 20), Self::pulled(trigger_1, trigger_2)),
        }
    }

    /// A bitmap with a single bit set has that bit set and no other, so
    /// it stands for one button at most.
    pub proof fn lemma_single_bit(bit: u32, other: u32)
        requires
            bit < 32,
            other < 32,
        ensures
            Self::is_set(1u32 << bit, other) == (bit == other),
    {
        assert(((1u32 << bit) & (1u32 << other) != 0) == (bit == other)) by (bit_vector)
            requires
                bit < 32,
                other < 32,
        ;
    }

    /// No button held, trigger released.
    pub fn released() -> (b: Buttons)
        ensures
            b == Self::decoded(0, 0, 0),
    {
        assert(forall|bit: u32| bit < 32 ==> 0u32 & (1u32 << bit) == 0) by (bit_vector);
        Buttons {
            square: false,
            triangle: false,
            cross: false,
            circle: false,
            start: false,
            select: false,
            logo: false,
            swoosh: false,
            trigger: (false, Ratio::new(0, 510)),
        }
    }

    fn bit(buttons: u32, bit: u32) -> (r: bool)
        requires
            bit < 32,
        ensures
            r == Self::is_set(buttons, bit),
    {
        buttons & (1u32 << bit) != 0
    }

    /// Reads the buttons out of the bitmap and the two trigger readings of
    /// an input report.
    pub fn decode(buttons: u32, trigger_1: u8, trigger_2: u8) -> (b: Buttons)
        ensures
            b == Self::decoded(buttons, trigger_1, trigger_2),
    {
        Buttons {
            square: Self::bit(buttons, Self::BIT_SQUARE),
            triangle: Self::bit(buttons, Self::BIT_TRIANGLE),
            cross: Self::bit(buttons, Self::BIT_CROSS),
            circle: Self::bit(buttons, Self::BIT_CIRCLE),
            start: Self::bit(buttons, Self::BIT_START),
            select: Self::bit(buttons, Self::BIT_SELECT),
            logo: Self::bit(buttons, Self::BIT_LOGO),
            swoosh: Self::bit(buttons, Self::BIT_SWOOSH),
            trigger: (
                Self::bit(buttons, Self::BIT_TRIGGER),
                Ratio::new(trigger_1 as i64 + trigger_2 as i64, 510),
            ),
        }
    }
}

/// What a wand says of its battery.
#[derive(Debug, Clone, Copy, PartialEq, Eq, Structural)]
pub enum Battery {
    /// Running on the battery, which is filled to so many percent.
    Draining(u8),
    Charging,
    Charged,
    Unknown,
}

impl Battery {
    /// The state that the battery byte of an input report stands for.
    pub open spec fn decoded(level: u8) -> Battery {
        if level <= 0x04 {
            Battery::Draining((level * 20) as u8)
        } else if level == 0xEE {
            Battery::Charging
        } else if level == 0xEF {
            Battery::Charged
        } else {
            Battery::Unknown
        }
    }

    /// Reads the battery byte of an input report.
    pub fn decode(level: u8) -> (b: Battery)
        ensures
            b == Self::decoded(level),
    {
        if level <= 0x04 {
            Battery::Draining(level * 20)
        } else if level == 0xEE {
            Battery::Charging
        } else if level == 0xEF {
            Battery::Charged
        } else {
            Battery::Unknown
        }
    }
}

/// The latest reading of a wand.
#[derive(Debug, Clone, Copy, PartialEq, Eq)]
pub struct Input {
    /// Acceleration in g: about one in length while the wand is at rest.
    pub accelerometer: Vector3,
    /// Rate of turn, in units of the reference rate of 80 turns a minute.
    pub gyroscope: Vector3,
    pub buttons: Buttons,
}

impl Input {
    /// The reading that an input report stands for under a calibration.
    pub open spec fn decoded(calibration: Calibration, report: GetInput) -> Input {
        Input {
            accelerometer: calibration.acceleration(report.accel_1, report.accel_2),
            gyroscope: calibration.rotation(report.gyro_1, report.gyro_2),
            buttons: Buttons::decoded(report.buttons, report.trigger_1, report.trigger_2),
        }
    }

    /// The reading of a wand that has not reported yet.
    pub open spec fn blank() -> Input {
        Input {
            accelerometer: Vector3 {
                x: Ratio { num: 0, den: 1 },
                y: Ratio { num: 0, den: 1 },
                z: Ratio { num: 0, den: 1 },
            },
            gyroscope: Vector3 {
                x: Ratio { num: 0, den: 1 },
                y: Ratio { num: 0, den: 1 },
                z: Ratio { num: 0, den: 1 },
            },
            buttons: Buttons::decoded(0, 0, 0),
        }
    }

    /// Turns an input report into a reading.
    pub fn decode(calibration: &Calibration, report: &GetInput) -> (input: Input)
        ensures
            input == Self::decoded(*calibration, *report),
    {
        Input {
            accelerometer: calibration.accelerometer(report.accel_1, report.accel_2),
            gyroscope: calibration.gyrometer(report.gyro_1, report.gyro_2),
            buttons: Buttons::decode(report.buttons, report.trigger_1, report.trigger_2),
        }
    }
}

impl Default for Input {
    fn default() -> (input: Self)
        ensures
            input == Input::blank(),
    {
        Input {
            accelerometer: Vector3::zero(),
            gyroscope: Vector3::zero(),
            buttons: Buttons::released(),
        }
    }
}

/// Shortest time between two sends of a changed value, in nanoseconds.
pub const MIN_UPDATE: u64 = 10_000_000;

/// Longest time without a send, in nanoseconds: after it the value is sent
/// again though it has not changed, in case an earlier send was lost.
pub const MAX_UPDATE: u64 = 1_000_000_000;

/// A value that is sent to a device at a limited pace.
///
/// Instants are counted in nanoseconds from an origin that the caller picks.
pub struct Limiter<T> {
    value: T,
    dirty: bool,
    updated: u64,
}

impl<T> Limiter<T> {
    /// The value that was set last.
    pub closed spec fn target(self) -> T {
        self.value
    }

    /// Whether the value has changed since it was sent last.
    pub closed spec fn dirty(self) -> bool {
        self.dirty
    }

    /// The instant of the last send.
    pub closed spec fn updated(self) -> u64 {
        self.updated
    }

    /// The time from one instant to a later one, zero if it is not later.
    pub open spec fn since(updated: u64, now: u64) -> int {
        if now >= updated {
            now - updated
        } else {
            0
        }
    }

    /// Whether a send is due at `now` for a value that was sent last at
    /// `updated`: the value has changed and the last send is at least the
    /// shortest time ago, or the last send is at least the longest time ago.
    pub open spec fn due_at(dirty: bool, updated: u64, now: u64) -> bool {
        (dirty && Self::since(updated, now) >= MIN_UPDATE) || Self::since(updated, now)
            >= MAX_UPDATE
    }

    /// The time since the last send, zero if `now` lies before it.
    pub open spec fn elapsed(self, now: u64) -> int {
        Self::since(self.updated(), now)
    }

    /// Whether a send is due at `now`.
    pub open spec fn due(self, now: u64) -> bool {
        Self::due_at(self.dirty(), self.updated(), now)
    }

    /// The pacing holds the sends apart and never lets them end: nothing is
    /// due before the shortest time is over, whatever has changed; a send
    /// is due once the longest time is over, whether or not anything has
    /// changed; and in between a send is due exactly if something has
    /// changed.
    pub proof fn lemma_pacing(self, now: u64)
        ensures
            self.elapsed(now) < MIN_UPDATE ==> !self.due(now),
            self.elapsed(now) >= MAX_UPDATE ==> self.due(now),
            MIN_UPDATE <= self.elapsed(now) < MAX_UPDATE ==> (self.due(now) <==> self.dirty()),
    {
    }

    /// The value that was set last.
    pub fn get(&self) -> (value: &T)
        ensures
            *value == self.target(),
    {
        &self.value
    }
}

impl<T: PartialEq> Limiter<T> {
    /// A limiter that holds `initial`, not sent yet, with the clock started
    /// at `now`.
    pub fn new(initial: T, now: u64) -> (limiter: Self)
        ensures
            limiter.target() == initial,
            limiter.dirty(),
            limiter.updated() == now,
    {
        Self { value: initial, dirty: true, updated: now }
    }

    /// Stores a new value. The limiter becomes dirty if the value differs
    /// from the one it held.
    pub fn set(&mut self, value: T)
        ensures
            final(self).target() == value,
            final(self).updated() == old(self).updated(),
            old(self).dirty() ==> final(self).dirty(),
            T::obeys_eq_spec() ==> final(self).dirty() == (old(self).dirty() || !value.eq_spec(
                &old(self).target(),
            )),
    {
        if value != self.value {
            self.dirty = true;
        }
        self.value = value;
    }

    /// Says whether the value is to be sent at `now`, and hands it out if
    /// so. The limiter is then clean and its clock starts again at `now`.
    pub fn update(&mut self, now: u64) -> (r: Option<&T>)
        ensures
            old(self).due(now) ==> r == Some(&old(self).target()) && final(self).target() == old(self).target() && !final(self).dirty() && final(self).updated() == now,
            !old(self).due(now) ==> r is None && *final(self) == *old(self),
    {
        let elapsed = if now >= self.updated {
            now - self.updated
        } else {
            0
        };
        if (elapsed >= MIN_UPDATE && self.dirty) || elapsed >= MAX_UPDATE {
            self.updated = now;
            self.dirty = false;
            return Some(&self.value);
        }
        None
    }
}

/// The identity of the wand with a given address: a hash of the six bytes.
pub open spec fn identity(address: Seq<u8>) -> u64 {
    DefaultHasher::spec_finish(seq![address])
}

/// One connected wand: who it is, how its readings are calibrated, what it
/// reported last and what it is asked to show.
pub struct Controller {
    path: String,
    address: Address,
    calibration: Calibration,
    input: Input,
    battery: Battery,
    feedback: Limiter<Feedback>,
}

impl Controller {
    /// The device node that the wand was opened at.
    pub closed spec fn device(self) -> Seq<char> {
        self.path@
    }

    /// The address of the wand.
    pub closed spec fn address(self) -> Seq<u8> {
        self.address@
    }

    /// The calibration of the wand.
    pub closed spec fn calibration(self) -> Calibration {
        self.calibration
    }

    /// The latest reading.
    pub closed spec fn reading(self) -> Input {
        self.input
    }

    /// The latest word on the battery.
    pub closed spec fn charge(self) -> Battery {
        self.battery
    }

    /// The feedback that the wand is asked to show, and its pacing.
    pub closed spec fn limiter(self) -> Limiter<Feedback> {
        self.feedback
    }

    /// Whether this is a wand that has just been connected at `now`: no
    /// reading yet, battery unknown, light and motor off and not sent yet.
    pub open spec fn fresh(self, now: u64) -> bool {
        &&& self.reading() == Input::blank()
        &&& self.charge() == Battery::Unknown
        &&& self.limiter().target() == Feedback::new_spec()
        &&& self.limiter().dirty()
        &&& self.limiter().updated() == now
    }

    /// The session of a wand whose address and calibration have been read.
    pub fn new(path: String, address: Address, calibration: Calibration, now: u64) -> (c: Self)
        ensures
            c.device() == path@,
            c.address() == address@,
            c.calibration() == calibration,
            c.fresh(now),
    {
        Self {
            path,
            address,
            calibration,
            input: Input::default(),
            battery: Battery::Unknown,
            feedback: Limiter::new(Feedback::new(), now),
        }
    }

    /// The device node that the wand was opened at.
    pub fn path(&self) -> (path: &String)
        ensures
            path@ == self.device(),
    {
        &self.path
    }

    /// The address of the wand.
    pub fn serial(&self) -> (address: &Address)
        ensures
            address@ == self.address(),
    {
        &self.address
    }

    /// A number that stands for this wand as long as it is connected.
    pub fn id(&self) -> (id: u64)
        ensures
            id == identity(self.address()),
    {
        let mut hasher = DefaultHasher::new();
        hasher.write(self.address.as_ref().as_slice());
        hasher.finish()
    }

    /// The latest reading.
    pub fn input(&self) -> (input: &Input)
        ensures
            *input == self.reading(),
    {
        &self.input
    }

    /// The latest word on the battery.
    pub fn battery(&self) -> (battery: Battery)
        ensures
            battery == self.charge(),
    {
        self.battery
    }

    /// Asks the wand to show a feedback. It is sent when the pacing allows.
    pub fn feedback(&mut self, feedback: Feedback)
        ensures
            final(self).limiter().target() == feedback,
            final(self).limiter().updated() == old(self).limiter().updated(),
            final(self).limiter().dirty() == (old(self).limiter().dirty() || feedback != old(self).limiter().target()),
            final(self).device() == old(self).device(),
            final(self).address() == old(self).address(),
            final(self).calibration() == old(self).calibration(),
            final(self).reading() == old(self).reading(),
            final(self).charge() == old(self).charge(),
    {
        self.feedback.set(feedback);
    }

    /// The report to write at `now`, if the pacing says that one is due:
    /// the framed bytes that set light and motor. The pacing then starts
    /// over.
    pub fn pending(&mut self, now: u64) -> (r: Option<Vec<u8>>)
        ensures
            old(self).limiter().due(now) ==> r is Some && r->Some_0@ == framed::<SetLED>(
                SetLED::of(old(self).limiter().target()),
            ) && final(self).limiter().target() == old(self).limiter().target() && !final(self).limiter().dirty() && final(self).limiter().updated() == now,
            !old(self).limiter().due(now) ==> r is None && final(self).limiter() == old(self).limiter(),
            final(self).device() == old(self).device(),
            final(self).address() == old(self).address(),
            final(self).calibration() == old(self).calibration(),
            final(self).reading() == old(self).reading(),
            final(self).charge() == old(self).charge(),
    {
        match self.feedback.update(now) {
            Some(feedback) => {
                let led = SetLED::from(feedback);
                Some(<Primary as Setter<SetLED>>::set(&led))
            },
            None => None,
        }
    }

    /// Takes in the buffer of one input report. A buffer that holds a
    /// report replaces the reading and the battery state as a whole; any
    /// other buffer is refused and changes nothing.
    pub fn update(&mut self, buffer: &[u8]) -> (r: Result<(), ProtocolError>)
        ensures
            match decoded::<GetInput>(buffer@) {
                Ok(report) => r is Ok && final(self).reading() == Input::decoded(
                    old(self).calibration(),
                    report,
                ) && final(self).charge() == Battery::decoded(report.battery),
                Err(e) => r == Err::<(), ProtocolError>(e) && final(self).reading() == old(self).reading() && final(self).charge() == old(self).charge(),
            },
            final(self).device() == old(self).device(),
            final(self).address() == old(self).address(),
            final(self).calibration() == old(self).calibration(),
            final(self).limiter() == old(self).limiter(),
    {
        match <Primary as Getter<GetInput>>::get(buffer) {
            Ok(report) => {
                self.input = Input::decode(&self.calibration, &report);
                self.battery = Battery::decode(report.battery);
                Ok(())
            },
            Err(e) => Err(e),
        }
    }
}

} // verus!
