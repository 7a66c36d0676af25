use std::collections::hash_map::DefaultHasher;
use std::hash::Hasher;

use psmove::controller::proto::zcm1::{GetCalibration, GetCalibrationInner, GetInput, Vector};
use psmove::controller::proto::{Feature, Get, Getter, ProtocolError, Report};
use psmove::controller::{
    Battery, Buttons, Calibration, ConnectError, Controller, Feedback, Handshake, Input, Limiter,
    Progress, Stage, Vector3, MAX_UPDATE, MIN_UPDATE,
};
use psmove::ratio::Ratio;

const MS: u64 = 1_000_000;

fn float(ratio: Ratio) -> f64 {
    ratio.num as f64 / ratio.den as f64
}

fn put16(block: &mut [u8], at: usize, value: u16) {
    block[at] = (value & 0xFF) as u8;
    block[at + 1] = (value >> 8) as u8;
}

/// A factory block whose bounds are `min` and `max` on each accelerometer
/// axis and `rest` and `full` on each gyroscope axis.
fn factory_block(min: Vector, max: Vector, rest: Vector, full: Vector) -> [u8; 141] {
    let mut block = [0u8; 141];
    put16(&mut block, 2 + 6 * 1, min.x);
    put16(&mut block, 2 + 6 * 5 + 2, min.y);
    put16(&mut block, 2 + 6 * 2 + 4, min.z);
    put16(&mut block, 2 + 6 * 3, max.x);
    put16(&mut block, 2 + 6 * 4 + 2, max.y);
    put16(&mut block, 2 + 6 * 0 + 4, max.z);
    put16(&mut block, 40, rest.x);
    put16(&mut block, 42, rest.y);
    put16(&mut block, 44, rest.z);
    put16(&mut block, 68, full.x);
    put16(&mut block, 76 + 2, full.y);
    put16(&mut block, 84 + 4, full.z);
    block
}

fn plain_block() -> [u8; 141] {
    factory_block(
        Vector { x: 0x6000, y: 0x6000, z: 0x6000 },
        Vector { x: 0xA000, y: 0xA000, z: 0xA000 },
        Vector { x: 0x8000, y: 0x8000, z: 0x8000 },
        Vector { x: 0x9000, y: 0x9000, z: 0x9000 },
    )
}

fn plain_calibration() -> Calibration {
    Calibration::from(GetCalibrationInner::unpack(&plain_block()))
}

fn chunk_reply(block: &[u8; 141], part: usize) -> Vec<u8> {
    let tags = [0x00u8, 0x01, 0x82];
    let mut reply = vec![0x10, tags[part]];
    reply.extend_from_slice(&block[47 * part..47 * (part + 1)]);
    reply
}

fn address_reply(address: [u8; 6]) -> Vec<u8> {
    let mut reply = vec![0x04];
    reply.extend_from_slice(&address);
    reply.extend_from_slice(&[0xA0, 0xA1, 0xA2, 0xA3, 0xA4, 0xA5]);
    reply
}

fn pending(progress: Result<Progress, ConnectError>) -> Handshake {
    match progress {
        Ok(Progress::Pending(next)) => next,
        Ok(Progress::Connected(_)) => panic!("connected too early"),
        Err(e) => panic!("refused: {:?}", e),
    }
}

fn connect(path: &str, address: [u8; 6], now: u64) -> Controller {
    let block = plain_block();
    let h = Handshake::start(path.to_string());
    let h = pending(h.advance(&address_reply(address), now));
    let h = pending(h.advance(&chunk_reply(&block, 2), now));
    let h = pending(h.advance(&chunk_reply(&block, 0), now));
    match h.advance(&chunk_reply(&block, 1), now) {
        Ok(Progress::Connected(controller)) => controller,
        _ => panic!("not connected"),
    }
}

fn input_report() -> Vec<u8> {
    vec![
        0x01, // id
        0x09, 0x80, 0x11, 0xA7, // buttons and sequence counter
        0x00, 0xFF, // trigger
        1, 2, 3, 4, // reserved
        0x55, // time, high byte
        0x03, // battery
        0x00, 0x80, 0x34, 0x12, 0xFF, 0xFF, // first accelerometer sample
        0x02, 0x80, 0x36, 0x12, 0xFD, 0xFF, // second accelerometer sample
        0x00, 0x70, 0x00, 0x80, 0x00, 0x90, // first gyroscope sample
        0x00, 0x70, 0x00, 0x80, 0x00, 0x90, // second gyroscope sample
        0xAB, 0xCD, 0xEF, 0x12, 0x34, 0x56, // temperature and magnetometer
        0x66, // time, low byte
        9, 8, 7, 6, 5, // extension data
    ]
}

#[test]
fn normalize_maps_the_range_onto_minus_one_to_one() {
    assert_eq!(Vector::normalize(0x8000), Ratio { num: 0, den: 32768 });
    assert_eq!(Vector::normalize(0), Ratio { num: -32768, den: 32768 });
    assert_eq!(Vector::normalize(0xFFFF), Ratio { num: 32767, den: 32768 });
    assert_eq!(float(Vector::normalize(0x8000)), 0.0);
    assert_eq!(float(Vector::normalize(0)), -1.0);
    assert!((float(Vector::normalize(0xFFFF)) - 0.999969).abs() < 1e-6);
}

#[test]
fn vector_axes_are_normalized() {
    let v = Vector { x: 0x8000, y: 0x4000, z: 0xC000 };
    assert_eq!(float(v.x()), 0.0);
    assert_eq!(float(v.y()), -0.5);
    assert_eq!(float(v.z()), 0.5);
}

#[test]
fn calibration_takes_bounds_from_fixed_samples() {
    let mut block = [0u8; 141];
    for (i, byte) in block.iter_mut().enumerate() {
        *byte = i as u8;
    }
    let report = GetCalibrationInner::unpack(&block);
    let calibration = Calibration::from(report);
    let m = calibration.accelerometer_m();
    // x: samples 1 and 3, y: samples 5 and 4, z: samples 2 and 0
    assert_eq!(m.x, Ratio { num: 65536, den: 0x1514 - 0x0908 });
    assert_eq!(m.y, Ratio { num: 65536, den: 0x1D1C - 0x2322 });
    assert_eq!(m.z, Ratio { num: 65536, den: 0x0706 - 0x1312 });
    let b = calibration.accelerometer_b();
    assert_eq!(b.x, Ratio { num: 65536 - 0x0908 - 0x1514, den: 0x1514 - 0x0908 });
    assert_eq!(b.y, Ratio { num: 65536 - 0x2322 - 0x1D1C, den: 0x1D1C - 0x2322 });
    assert_eq!(b.z, Ratio { num: 65536 - 0x1312 - 0x0706, den: 0x0706 - 0x1312 });
    let g = calibration.gyroscope();
    assert_eq!(g.x, Ratio { num: 32768, den: 0x4544 - 0x2928 });
    assert_eq!(g.y, Ratio { num: 32768, den: 0x4F4E - 0x2B2A });
    assert_eq!(g.z, Ratio { num: 32768, den: 0x5958 - 0x2D2C });
}

#[test]
fn scale_and_bias_take_the_bounds_to_minus_one_and_one() {
    let pairs = [(0x6000u16, 0xA000u16), (0u16, 0xFFFFu16), (0x7ABC, 0x8123), (0xA000, 0x6000)];
    for (min, max) in pairs {
        let bound = Vector { x: min, y: min, z: min };
        let top = Vector { x: max, y: max, z: max };
        let zero = Vector { x: 0x8000, y: 0x8000, z: 0x8000 };
        let calibration =
            Calibration::from(GetCalibrationInner::unpack(&factory_block(bound, top, zero, top)));
        let scale = float(calibration.accelerometer_m().x);
        let bias = float(calibration.accelerometer_b().x);
        let low = float(Vector::normalize(min));
        let high = float(Vector::normalize(max));
        assert!((scale * low + bias + 1.0).abs() < 1e-9);
        assert!((scale * high + bias - 1.0).abs() < 1e-9);
        assert_eq!(float(calibration.accelerometer(bound, bound).x), -1.0);
        assert_eq!(float(calibration.accelerometer(top, top).x), 1.0);
    }
}

#[test]
fn accelerometer_is_mean_times_scale_plus_bias() {
    let calibration = plain_calibration();
    let first = Vector { x: 0x8000, y: 0x1234, z: 0xFFFF };
    let second = Vector { x: 0x8002, y: 0x1236, z: 0xFFFD };
    let a = calibration.accelerometer(first, second);
    assert_eq!(a.x, Ratio { num: 2, den: 16384 });
    assert_eq!(a.y, Ratio { num: -56214, den: 16384 });
    assert_eq!(a.z, Ratio { num: 65532, den: 16384 });
    let scale = float(calibration.accelerometer_m().y);
    let bias = float(calibration.accelerometer_b().y);
    let mean = (float(first.y()) + float(second.y())) / 2.0;
    assert!((float(a.y) - (mean * scale + bias)).abs() < 1e-9);
}

#[test]
fn gyroscope_is_mean_times_scale() {
    let calibration = plain_calibration();
    let sample = Vector { x: 0x7000, y: 0x8000, z: 0x9000 };
    let g = calibration.gyrometer(sample, sample);
    assert_eq!(g.x, Ratio { num: -8192, den: 8192 });
    assert_eq!(g.y, Ratio { num: 0, den: 8192 });
    assert_eq!(g.z, Ratio { num: 8192, den: 8192 });
    let scale = float(calibration.gyroscope().x);
    assert_eq!(scale, 8.0);
    assert!((float(g.x) - float(sample.x()) * scale).abs() < 1e-9);
}

#[test]
fn only_bit_15_is_square() {
    let buttons = Buttons::decode(1 << 15, 0, 255);
    assert!(buttons.square);
    assert!(!buttons.triangle);
    assert!(!buttons.cross);
    assert!(!buttons.circle);
    assert!(!buttons.start);
    assert!(!buttons.select);
    assert!(!buttons.logo);
    assert!(!buttons.swoosh);
    assert!(!buttons.trigger.0);
    assert_eq!(buttons.trigger.1, Ratio { num: 255, den: 510 });
    assert_eq!(float(buttons.trigger.1), 0.5);
}

#[test]
fn each_button_has_its_bit() {
    assert!(Buttons::decode(1 << 0, 0, 0).select);
    assert!(Buttons::decode(1 << 3, 0, 0).start);
    assert!(Buttons::decode(1 << 12, 0, 0).triangle);
    assert!(Buttons::decode(1 << 13, 0, 0).circle);
    assert!(Buttons::decode(1 << 14, 0, 0).cross);
    assert!(Buttons::decode(1 << 15, 0, 0).square);
    assert!(Buttons::decode(1 << 16, 0, 0).logo);
    assert!(Buttons::decode(1 << 19, 0, 0).swoosh);
    assert!(Buttons::decode(1 << 20, 0, 0).trigger.0);
    let unnamed = !((1u32 << 0)
        | (1 << 3)
        | (1 << 12)
        | (1 << 13)
        | (1 << 14)
        | (1 << 15)
        | (1 << 16)
        | (1 << 19)
        | (1 << 20));
    assert_eq!(Buttons::decode(unnamed, 0, 0), Buttons::released());
    assert_eq!(Buttons::decode(0, 0, 0), Buttons::released());
}

#[test]
fn trigger_is_the_mean_of_two_readings() {
    assert_eq!(float(Buttons::decode(0, 0, 0).trigger.1), 0.0);
    assert_eq!(float(Buttons::decode(0, 255, 255).trigger.1), 1.0);
    assert_eq!(Buttons::decode(0, 10, 20).trigger.1, Ratio { num: 30, den: 510 });
}

#[test]
fn battery_byte_is_classified() {
    assert_eq!(Battery::decode(0x00), Battery::Draining(0));
    assert_eq!(Battery::decode(0x01), Battery::Draining(20));
    assert_eq!(Battery::decode(0x02), Battery::Draining(40));
    assert_eq!(Battery::decode(0x03), Battery::Draining(60));
    assert_eq!(Battery::decode(0x04), Battery::Draining(80));
    assert_eq!(Battery::decode(0x05), Battery::Unknown);
    assert_eq!(Battery::decode(0xEE), Battery::Charging);
    assert_eq!(Battery::decode(0xEF), Battery::Charged);
    assert_eq!(Battery::decode(0xFF), Battery::Unknown);
}

#[test]
fn feedback_builders_set_one_thing() {
    assert_eq!(Feedback::new(), Feedback { rgb: (0, 0, 0), rumble: 0 });
    assert_eq!(Feedback::default(), Feedback::new());
    let f = Feedback::new().led_color((1, 2, 3)).rumble(4);
    assert_eq!(f, Feedback { rgb: (1, 2, 3), rumble: 4 });
    assert_eq!(f.led_off(), Feedback { rgb: (0, 0, 0), rumble: 4 });
    assert_eq!(f.with_color(7, 8, 9), Feedback { rgb: (7, 8, 9), rumble: 4 });
    assert_eq!(f.with_rumble(10), Feedback { rgb: (1, 2, 3), rumble: 10 });
    assert!(f != f.with_rumble(10));
    assert!(f != f.with_color(1, 2, 4));
}

#[test]
fn limiter_paces_and_resends() {
    assert_eq!(MIN_UPDATE, 10 * MS);
    assert_eq!(MAX_UPDATE, 1000 * MS);
    let t0 = 5_000 * MS;
    let mut limiter = Limiter::new(Feedback::new(), t0);
    limiter.set(Feedback::new().rumble(9));
    assert_eq!(limiter.update(t0 + 5 * MS), None);
    assert_eq!(limiter.update(t0 + 15 * MS), Some(&Feedback::new().rumble(9)));
    // nothing has changed: nothing is sent until the longest time is over
    assert_eq!(limiter.update(t0 + 30 * MS), None);
    assert_eq!(limiter.update(t0 + 15 * MS + 999 * MS), None);
    assert_eq!(limiter.update(t0 + 15 * MS + 1005 * MS), Some(&Feedback::new().rumble(9)));
    assert_eq!(limiter.update(t0 + 15 * MS + 1005 * MS + 999 * MS), None);
}

#[test]
fn limiter_bounds_are_inclusive() {
    let mut limiter = Limiter::new(1u8, 0);
    assert_eq!(limiter.update(10 * MS - 1), None);
    assert_eq!(limiter.update(10 * MS), Some(&1));
    assert_eq!(limiter.update(10 * MS + 1000 * MS - 1), None);
    assert_eq!(limiter.update(10 * MS + 1000 * MS), Some(&1));
}

#[test]
fn limiter_is_dirty_only_after_a_change() {
    let mut limiter = Limiter::new(1u8, 0);
    assert_eq!(limiter.update(20 * MS), Some(&1));
    limiter.set(1);
    assert_eq!(*limiter.get(), 1);
    assert_eq!(limiter.update(40 * MS), None);
    limiter.set(2);
    assert_eq!(*limiter.get(), 2);
    assert_eq!(limiter.update(40 * MS), Some(&2));
    // a change that is taken back stays a change
    limiter.set(3);
    limiter.set(2);
    assert_eq!(limiter.update(60 * MS), Some(&2));
}

#[test]
fn limiter_counts_no_time_backwards() {
    let mut limiter = Limiter::new(1u8, 1000 * MS);
    assert_eq!(limiter.update(0), None);
    assert_eq!(limiter.update(1010 * MS), Some(&1));
}

#[test]
fn handshake_asks_for_address_then_calibration() {
    let block = plain_block();
    let h = Handshake::start("/dev/hidraw3".to_string());
    assert_eq!(h.stage, Stage::Address);
    assert_eq!(h.request(), <Feature as Getter<psmove::controller::proto::zcm1::GetAddress>>::request());
    let h = pending(h.advance(&address_reply([1, 2, 3, 4, 5, 6]), 0));
    assert!(matches!(h.stage, Stage::First { .. }));
    assert_eq!(h.request(), <Feature as Getter<GetCalibration>>::request());
    let h = pending(h.advance(&chunk_reply(&block, 0), 0));
    assert!(matches!(h.stage, Stage::Second { .. }));
    assert_eq!(h.request(), <Feature as Getter<GetCalibration>>::request());
    let h = pending(h.advance(&chunk_reply(&block, 1), 0));
    assert!(matches!(h.stage, Stage::Third { .. }));
    assert_eq!(h.path, "/dev/hidraw3");
    match h.advance(&chunk_reply(&block, 2), 77) {
        Ok(Progress::Connected(controller)) => {
            assert_eq!(controller.path(), "/dev/hidraw3");
            assert_eq!(controller.serial().as_ref(), &[1, 2, 3, 4, 5, 6]);
            assert_eq!(controller.battery(), Battery::Unknown);
            assert_eq!(*controller.input(), Input::default());
        }
        _ => panic!("not connected"),
    }
}

#[test]
fn handshake_ends_at_the_first_refused_reply() {
    let block = plain_block();
    let h = Handshake::start("a".to_string());
    assert!(matches!(
        h.advance(&chunk_reply(&block, 0), 0),
        Err(ConnectError::Protocol(ProtocolError::Length { expected: 13, found: 49 }))
    ));
    let h = Handshake::start("a".to_string());
    let mut wrong = address_reply([1, 2, 3, 4, 5, 6]);
    wrong[0] = 0x05;
    assert!(matches!(
        h.advance(&wrong, 0),
        Err(ConnectError::Protocol(ProtocolError::ReportId { wanted: 0x04, got: 0x05 }))
    ));
    let h = Handshake::start("a".to_string());
    let h = pending(h.advance(&address_reply([1, 2, 3, 4, 5, 6]), 0));
    assert!(matches!(
        h.advance(&address_reply([1, 2, 3, 4, 5, 6]), 0),
        Err(ConnectError::Protocol(ProtocolError::Length { expected: 49, found: 13 }))
    ));
    let h = Handshake::start("a".to_string());
    let h = pending(h.advance(&address_reply([1, 2, 3, 4, 5, 6]), 0));
    let h = pending(h.advance(&chunk_reply(&block, 0), 0));
    let mut short = chunk_reply(&block, 1);
    short.pop();
    assert!(matches!(
        h.advance(&short, 0),
        Err(ConnectError::Protocol(ProtocolError::Length { expected: 49, found: 48 }))
    ));
}

#[test]
fn handshake_needs_all_three_chunks() {
    let block = plain_block();
    let h = Handshake::start("a".to_string());
    let h = pending(h.advance(&address_reply([1, 2, 3, 4, 5, 6]), 0));
    let h = pending(h.advance(&chunk_reply(&block, 0), 0));
    let h = pending(h.advance(&chunk_reply(&block, 1), 0));
    assert!(matches!(h.advance(&chunk_reply(&block, 1), 0), Err(ConnectError::InsufficientData)));
}

#[test]
fn identity_follows_the_address() {
    let a = connect("a", [1, 2, 3, 4, 5, 6], 0);
    let again = connect("b", [1, 2, 3, 4, 5, 6], 9);
    let other = connect("a", [1, 2, 3, 4, 5, 7], 0);
    assert_eq!(a.id(), again.id());
    assert_ne!(a.id(), other.id());
    assert_eq!(a.serial().as_string(), "06:05:04:03:02:01");

    let mut hasher = DefaultHasher::new();
    hasher.write(&[1, 2, 3, 4, 5, 6]);
    assert_eq!(a.id(), hasher.finish());
}

#[test]
fn update_replaces_the_reading_as_a_whole() {
    let mut controller = connect("a", [1, 2, 3, 4, 5, 6], 0);
    assert_eq!(controller.update(&input_report()), Ok(()));
    let input = *controller.input();
    assert_eq!(
        input.accelerometer,
        Vector3 {
            x: Ratio { num: 2, den: 16384 },
            y: Ratio { num: -56214, den: 16384 },
            z: Ratio { num: 65532, den: 16384 },
        }
    );
    assert_eq!(
        input.gyroscope,
        Vector3 {
            x: Ratio { num: -8192, den: 8192 },
            y: Ratio { num: 0, den: 8192 },
            z: Ratio { num: 8192, den: 8192 },
        }
    );
    assert_eq!(input.buttons, Buttons::decode(0x0A11_8009, 0x00, 0xFF));
    assert!(input.buttons.select && input.buttons.start && input.buttons.square);
    assert!(input.buttons.logo && input.buttons.trigger.0);
    assert!(!input.buttons.swoosh && !input.buttons.cross);
    assert_eq!(controller.battery(), Battery::Draining(60));
}

#[test]
fn update_refuses_what_is_no_input_report() {
    let mut controller = connect("a", [1, 2, 3, 4, 5, 6], 0);
    assert_eq!(controller.update(&input_report()), Ok(()));
    let before = *controller.input();

    let mut wrong = input_report();
    wrong[0] = 0x02;
    wrong[12] = 0xEE;
    assert_eq!(
        controller.update(&wrong),
        Err(ProtocolError::ReportId { wanted: 0x01, got: 0x02 })
    );
    assert_eq!(
        controller.update(&input_report()[..30]),
        Err(ProtocolError::Length { expected: 49, found: 30 })
    );
    assert_eq!(*controller.input(), before);
    assert_eq!(controller.battery(), Battery::Draining(60));
}

#[test]
fn feedback_is_sent_when_due() {
    let mut controller = connect("a", [1, 2, 3, 4, 5, 6], 100 * MS);
    // the first feedback is due once the shortest time is over
    assert_eq!(controller.pending(105 * MS), None);
    assert_eq!(controller.pending(110 * MS), Some(vec![0x06, 0, 0, 0, 0, 0, 0, 0, 0]));
    assert_eq!(controller.pending(200 * MS), None);
    controller.feedback(Feedback::new().led_color((10, 20, 30)).rumble(40));
    assert_eq!(controller.pending(200 * MS), Some(vec![0x06, 0, 10, 20, 30, 0, 40, 0, 0]));
    controller.feedback(Feedback::new().led_color((10, 20, 30)).rumble(40));
    assert_eq!(controller.pending(300 * MS), None);
    assert_eq!(controller.pending(1200 * MS), Some(vec![0x06, 0, 10, 20, 30, 0, 40, 0, 0]));
}

#[test]
fn input_report_decodes_under_a_calibration() {
    let calibration = plain_calibration();
    let report = GetInput::parse(&input_report()[1..]).unwrap();
    let input = Input::decode(&calibration, &report);
    assert_eq!(input.accelerometer, calibration.accelerometer(report.accel_1, report.accel_2));
    assert_eq!(input.gyroscope, calibration.gyrometer(report.gyro_1, report.gyro_2));
    assert_eq!(input.buttons, Buttons::decode(report.buttons, report.trigger_1, report.trigger_2));
    assert_eq!(GetInput::len() + 1, input_report().len());
}

#[test]
fn a_single_bit_is_one_button_at_most() {
    for bit in 0..28u32 {
        let buttons = Buttons::decode(1 << bit, 0, 0);
        let flags = [
            (0u32, buttons.select),
            (3, buttons.start),
            (12, buttons.triangle),
            (13, buttons.circle),
            (14, buttons.cross),
            (15, buttons.square),
            (16, buttons.logo),
            (19, buttons.swoosh),
            (20, buttons.trigger.0),
        ];
        for (place, flag) in flags {
            assert_eq!(flag, place == bit);
        }
    }
}
