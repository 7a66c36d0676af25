use std::collections::{HashMap, HashSet};

use psmove::controller::proto::ProtocolError;
use psmove::controller::{
    Battery, ConnectError, Controller, Handshake, Input, Progress, Vector3,
};
use psmove::engine::animation::{Color, Interpolation, Keyframe};
use psmove::engine::history::DEPTH;
use psmove::engine::players::{Player, PlayerData, Players, UpdateError, MAX_FAILS, TIMEOUT};
use psmove::ratio::Ratio;

const MS: u64 = 1_000_000;

fn block() -> [u8; 141] {
    let mut block = [0u8; 141];
    for (i, byte) in block.iter_mut().enumerate() {
        *byte = (i * 7) as u8;
    }
    block
}

fn chunk_reply(part: usize) -> Vec<u8> {
    let tags = [0x00u8, 0x01, 0x82];
    let mut reply = vec![0x10, tags[part]];
    reply.extend_from_slice(&block()[47 * part..47 * (part + 1)]);
    reply
}

fn step(progress: Result<Progress, ConnectError>) -> Handshake {
    match progress {
        Ok(Progress::Pending(next)) => next,
        _ => panic!("handshake went wrong"),
    }
}

fn connect(path: &str, last: u8, now: u64) -> Controller {
    let mut address = vec![0x04, 1, 2, 3, 4, 5, last];
    address.extend_from_slice(&[0; 6]);
    let h = Handshake::start(path.to_string());
    let h = step(h.advance(&address, now));
    let h = step(h.advance(&chunk_reply(0), now));
    let h = step(h.advance(&chunk_reply(1), now));
    match h.advance(&chunk_reply(2), now) {
        Ok(Progress::Connected(controller)) => controller,
        _ => panic!("not connected"),
    }
}

fn input_report(battery: u8) -> Vec<u8> {
    let mut report = vec![0u8; 49];
    report[0] = 0x01;
    report[12] = battery;
    report
}

fn three() -> (Players, Vec<u64>) {
    let mut players = Players::new();
    let mut ids = Vec::new();
    for (i, path) in ["/dev/hidraw0", "/dev/hidraw1", "/dev/hidraw2"].iter().enumerate() {
        let controller = connect(path, i as u8, 0);
        ids.push(controller.id());
        assert!(!players.contains(controller.id()));
        players.add_device(controller);
    }
    (players, ids)
}

#[test]
fn limits_of_the_register() {
    assert_eq!(MAX_FAILS, 10);
    assert_eq!(TIMEOUT, 1000 * MS);
}

#[test]
fn new_player_is_dark_and_still() {
    let player = Player::new(connect("a", 1, 0));
    assert_eq!(player.failed(), 0);
    assert!(player.rumble().is_idle());
    assert_eq!(player.rumble().value(), 0);
    assert!(player.color().is_idle());
    assert_eq!(player.color().value(), Color { r: 0, g: 0, b: 0 });
    assert_eq!(player.id(), player.controller().id());
    assert_eq!(*player.input(), Input::default());
    assert_eq!(player.battery(), Battery::Unknown);
}

#[test]
fn register_keeps_wands_in_order() {
    let (players, ids) = three();
    assert_eq!(players.count(), 3);
    assert_eq!(players.keys(), ids);
    assert_eq!(players.iter().len(), 3);
    for (player, id) in players.iter().iter().zip(ids.iter()) {
        assert_eq!(player.id(), *id);
    }
    assert_eq!(players.get(ids[1]).unwrap().controller().path(), "/dev/hidraw1");
    let unknown = ids[0] ^ ids[1] ^ ids[2] ^ 1;
    assert_eq!(players.get(unknown).is_some(), ids.contains(&unknown));
    assert_eq!(players.contains(unknown), ids.contains(&unknown));
    assert!(players.contains(ids[2]));
    assert_eq!(Players::new().count(), 0);
}

#[test]
fn removed_path_drops_its_wand_only() {
    let (mut players, ids) = three();
    players.remove(&"/dev/hidraw1".to_string());
    assert_eq!(players.keys(), vec![ids[0], ids[2]]);
    assert!(players.get(ids[1]).is_none());
    players.remove(&"/dev/hidraw9".to_string());
    assert_eq!(players.keys(), vec![ids[0], ids[2]]);
    players.remove(&"/dev/hidraw0".to_string());
    players.remove(&"/dev/hidraw2".to_string());
    assert_eq!(players.count(), 0);
}

#[test]
fn reconnected_wand_may_be_added_again() {
    let (mut players, ids) = three();
    players.remove(&"/dev/hidraw1".to_string());
    let again = connect("/dev/hidraw7", 1, 0);
    assert_eq!(again.id(), ids[1]);
    assert!(!players.contains(again.id()));
    players.add_device(again);
    assert_eq!(players.keys(), vec![ids[0], ids[2], ids[1]]);
}

#[test]
fn success_clears_and_failure_counts() {
    let mut player = Player::new(connect("a", 1, 0));
    assert_eq!(player.complete(None), Err(UpdateError::Unanswered));
    assert_eq!(player.failed(), 1);
    assert_eq!(
        player.complete(Some(&[0x01, 0x02])),
        Err(UpdateError::Protocol(ProtocolError::Length { expected: 49, found: 2 }))
    );
    assert_eq!(player.failed(), 2);
    let mut wrong = input_report(0x02);
    wrong[0] = 0x07;
    assert_eq!(
        player.complete(Some(&wrong)),
        Err(UpdateError::Protocol(ProtocolError::ReportId { wanted: 0x01, got: 0x07 }))
    );
    assert_eq!(player.failed(), 3);
    assert_eq!(player.battery(), Battery::Unknown);
    assert_eq!(player.complete(Some(&input_report(0x02))), Ok(()));
    assert_eq!(player.failed(), 0);
    assert_eq!(player.battery(), Battery::Draining(40));
    assert_eq!(player.complete(None), Err(UpdateError::Unanswered));
    assert_eq!(player.failed(), 1);
    assert_eq!(player.battery(), Battery::Draining(40));
}

#[test]
fn ten_failures_in_a_row_evict() {
    let (mut players, ids) = three();
    let good = Some(input_report(0x04));
    for round in 1..=9 {
        let plans = players.prepare(16 * MS, round * 16 * MS);
        assert_eq!(plans.len(), 3);
        players.complete(&vec![good.clone(), None, good.clone()]);
        assert_eq!(players.evict(), Vec::<u64>::new());
        assert_eq!(players.count(), 3);
        assert_eq!(players.get(ids[1]).unwrap().failed(), round as usize);
        assert_eq!(players.get(ids[0]).unwrap().failed(), 0);
    }
    players.prepare(16 * MS, 160 * MS);
    players.complete(&vec![good.clone(), None, good.clone()]);
    assert_eq!(players.evict(), vec![ids[1]]);
    assert_eq!(players.keys(), vec![ids[0], ids[2]]);
    assert!(players.get(ids[1]).is_none());
    assert!(!players.contains(ids[1]));
    assert!(players.iter().iter().all(|player| player.id() != ids[1]));
    // the wand that is gone gets no further update
    let plans = players.prepare(16 * MS, 176 * MS);
    assert_eq!(plans.len(), 2);
    players.complete(&vec![good.clone(), good.clone()]);
    assert_eq!(players.evict(), Vec::<u64>::new());
    assert_eq!(players.count(), 2);
}

#[test]
fn a_success_in_between_starts_the_count_again() {
    let (mut players, ids) = three();
    let good = Some(input_report(0x04));
    for _ in 0..9 {
        players.complete(&vec![None, good.clone(), good.clone()]);
        assert!(players.evict().is_empty());
    }
    players.complete(&vec![good.clone(), good.clone(), good.clone()]);
    assert!(players.evict().is_empty());
    for _ in 0..9 {
        players.complete(&vec![None, good.clone(), good.clone()]);
        assert!(players.evict().is_empty());
    }
    assert_eq!(players.get(ids[0]).unwrap().failed(), 9);
    players.complete(&vec![None, good.clone(), good.clone()]);
    assert_eq!(players.evict(), vec![ids[0]]);
}

#[test]
fn missing_answers_count_as_failures() {
    let (mut players, ids) = three();
    players.complete(&vec![Some(input_report(0xEE))]);
    assert_eq!(players.get(ids[0]).unwrap().failed(), 0);
    assert_eq!(players.get(ids[0]).unwrap().battery(), Battery::Charging);
    assert_eq!(players.get(ids[1]).unwrap().failed(), 1);
    assert_eq!(players.get(ids[2]).unwrap().failed(), 1);
    players.complete(&Vec::new());
    assert_eq!(players.get(ids[0]).unwrap().failed(), 1);
    assert_eq!(players.get(ids[1]).unwrap().failed(), 2);
}

#[test]
fn all_failing_wands_go_at_once() {
    let (mut players, ids) = three();
    for _ in 0..10 {
        players.complete(&vec![None, Some(input_report(0)), None]);
    }
    assert_eq!(players.evict(), vec![ids[0], ids[2]]);
    assert_eq!(players.keys(), vec![ids[1]]);
}

#[test]
fn prepare_hands_out_what_the_animations_show() {
    let (mut players, ids) = three();
    assert!(players.set_color(ids[0], Color { r: 1, g: 2, b: 3 }));
    assert!(players.set_rumble(ids[0], 4));
    assert!(players.animate_rumble(
        ids[2],
        vec![Keyframe::new(100 * MS, 200, Interpolation::Linear)]
    ));
    assert!(players.animate_color(
        ids[2],
        vec![Keyframe::new(50 * MS, Color { r: 255, g: 255, b: 255 }, Interpolation::End)]
    ));
    // too early for any report
    assert_eq!(players.prepare(5 * MS, 5 * MS), vec![None, None, None]);
    let plans = players.prepare(45 * MS, 50 * MS);
    assert_eq!(
        plans,
        vec![
            Some(vec![0x06, 0, 1, 2, 3, 0, 4, 0, 0]),
            Some(vec![0x06, 0, 0, 0, 0, 0, 0, 0, 0]),
            Some(vec![0x06, 0, 255, 255, 255, 0, 100, 0, 0]),
        ]
    );
    // only what has changed is sent again
    let plans = players.prepare(25 * MS, 75 * MS);
    assert_eq!(plans, vec![None, None, Some(vec![0x06, 0, 255, 255, 255, 0, 150, 0, 0])]);
    assert_eq!(players.get(ids[2]).unwrap().rumble().value(), 150);
    assert!(players.get(ids[2]).unwrap().color().is_idle());
}

#[test]
fn animations_of_unknown_wands_are_not_touched() {
    let (mut players, ids) = three();
    let unknown = ids.iter().fold(1u64, |a, b| a.wrapping_mul(31).wrapping_add(*b));
    if !ids.contains(&unknown) {
        assert!(!players.set_rumble(unknown, 1));
        assert!(!players.set_color(unknown, Color { r: 1, g: 1, b: 1 }));
        assert!(!players.animate_rumble(unknown, Vec::new()));
        assert!(!players.animate_color(unknown, Vec::new()));
    }
    for player in players.iter() {
        assert!(player.rumble().is_idle());
        assert!(player.color().is_idle());
    }
}

#[test]
fn player_animations_can_be_changed_in_place() {
    let mut player = Player::new(connect("a", 1, 0));
    player.rumble_mut().set(9);
    player.color_mut().animate(vec![Keyframe::from(10 * MS, Color { r: 9, g: 9, b: 9 })]);
    assert_eq!(player.rumble().value(), 9);
    assert!(!player.color().is_idle());
    assert_eq!(player.prepare(10 * MS, 10 * MS), Some(vec![0x06, 0, 9, 9, 9, 0, 9, 0, 0]));
    assert!(player.color().is_idle());
}

#[test]
fn player_data_is_a_map_by_wand() {
    let mut data: PlayerData<u32> = PlayerData::new();
    assert_eq!(data.len(), 0);
    assert_eq!(data.get(1), None);
    assert!(!data.remove(1));

    let ids: HashSet<u64> = [3u64, 5, 8].into_iter().collect();
    let mut data = PlayerData::init(ids, || 7u32);
    assert_eq!(data.len(), 3);
    assert_eq!(data.get(3), Some(&7));
    assert_eq!(data.get(5), Some(&7));
    assert_eq!(data.get(8), Some(&7));
    assert_eq!(data.get(4), None);
    let mut keys = data.keys();
    keys.sort();
    assert_eq!(keys, vec![3, 5, 8]);

    *data.get_mut(5).unwrap() = 50;
    assert!(data.get_mut(6).is_none());
    assert_eq!(data.get(5), Some(&50));
    assert_eq!(data.len(), 3);
    let mut entries: Vec<(u64, u32)> = data.iter().into_iter().map(|(id, d)| (id, *d)).collect();
    entries.sort();
    assert_eq!(entries, vec![(3, 7), (5, 50), (8, 7)]);

    assert!(data.remove(3));
    assert!(!data.remove(3));
    assert_eq!(data.len(), 2);
    data.reset();
    assert_eq!(data.len(), 0);
    assert!(data.keys().is_empty());
}

#[test]
fn player_data_takes_over_a_map() {
    let mut map = HashMap::new();
    map.insert(1u64, "one");
    map.insert(2u64, "two");
    let data = PlayerData::init_with(map);
    assert_eq!(data.len(), 2);
    assert_eq!(data.get(2), Some(&"two"));
}

#[test]
fn wands_are_paired_with_their_data() {
    let (players, ids) = three();
    let mut map = HashMap::new();
    map.insert(ids[2], 'c');
    map.insert(ids[0], 'a');
    map.insert(ids[0] ^ 0x5555, 'x');
    let mut data = PlayerData::init_with(map);
    let pairs = players.with_data(&mut data).existing();
    let seen: Vec<(u64, char)> = pairs.iter().map(|(p, d)| (p.id(), **d)).collect();
    assert_eq!(seen, vec![(ids[0], 'a'), (ids[2], 'c')]);
}

#[test]
fn data_without_wand_or_without_consent_goes() {
    let (mut players, ids) = three();
    let mut map = HashMap::new();
    map.insert(ids[0], 10u8);
    map.insert(ids[1], 20u8);
    map.insert(ids[2], 30u8);
    let mut data = PlayerData::init_with(map);
    players.remove(&"/dev/hidraw1".to_string());
    players.with_data(&mut data).update(|_player, value| *value >= 20);
    assert_eq!(data.len(), 1);
    assert_eq!(data.get(ids[2]), Some(&30));
    assert_eq!(data.get(ids[0]), None);
    assert_eq!(data.get(ids[1]), None);
    players.with_data(&mut data).update(|player, _value| player.failed() == 0);
    assert_eq!(data.len(), 1);
}

#[test]
fn every_wand_is_listed_with_or_without_data() {
    let (players, ids) = three();
    let mut map = HashMap::new();
    map.insert(ids[1], 'b');
    let mut data = PlayerData::init_with(map);
    let pairs = players.with_data(&mut data).each();
    let seen: Vec<(u64, Option<char>)> = pairs.iter().map(|(p, d)| (p.id(), d.copied())).collect();
    assert_eq!(seen, vec![(ids[0], None), (ids[1], Some('b')), (ids[2], None)]);
}

fn reading(x: u16) -> Vec<u8> {
    let mut report = input_report(0);
    // both accelerometer samples, first axis
    report[13] = (x & 0xFF) as u8;
    report[14] = (x >> 8) as u8;
    report[19] = (x & 0xFF) as u8;
    report[20] = (x >> 8) as u8;
    report
}

#[test]
fn new_player_has_been_at_rest() {
    let player = Player::new(connect("a", 1, 0));
    let rest = Vector3 {
        x: Ratio { num: 0, den: 1 },
        y: Ratio { num: 0, den: 1 },
        z: Ratio { num: 1, den: 1 },
    };
    assert_eq!(Vector3::rest(), rest);
    assert_eq!(DEPTH, 4);
    assert_eq!(player.acceleration(true), vec![rest; 4]);
    assert_eq!(player.acceleration(false), vec![rest]);
}

#[test]
fn history_keeps_the_latest_four_accelerations() {
    let mut player = Player::new(connect("a", 1, 0));
    let rest = Vector3::rest();
    let mut seen = Vec::new();
    for x in [100u16, 200, 300] {
        assert_eq!(player.complete(Some(&reading(x))), Ok(()));
        seen.push(player.input().accelerometer);
    }
    assert_ne!(seen[0], seen[1]);
    assert_ne!(seen[1], seen[2]);
    assert_eq!(player.acceleration(true), vec![rest, seen[0], seen[1], seen[2]]);
    assert_eq!(player.acceleration(false), vec![seen[2]]);

    // a failed update leaves the reading, which is written once more
    assert_eq!(player.complete(None), Err(UpdateError::Unanswered));
    assert_eq!(player.acceleration(true), vec![seen[0], seen[1], seen[2], seen[2]]);

    for x in [400u16, 500] {
        assert_eq!(player.complete(Some(&reading(x))), Ok(()));
        seen.push(player.input().accelerometer);
    }
    assert_eq!(player.acceleration(true), vec![seen[2], seen[2], seen[3], seen[4]]);
    assert_eq!(player.acceleration(false), vec![seen[4]]);
}

#[test]
fn preparing_an_update_leaves_the_history() {
    let mut player = Player::new(connect("a", 1, 0));
    assert_eq!(player.complete(Some(&reading(100))), Ok(()));
    let before = player.acceleration(true);
    player.prepare(16 * MS, 16 * MS);
    player.rumble_mut().set(3);
    assert_eq!(player.acceleration(true), before);
}
