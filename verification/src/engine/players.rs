//! The register of connected wands and the data that others keep for them.

use std::collections::hash_map::Entry;
use std::collections::{HashMap, HashSet};
use vstd::prelude::*;
use vstd::std_specs::hash::spec_hash_map_iter;
use vstd::std_specs::iter::IteratorSpec;

use crate::controller::proto::zcm1::{GetInput, SetLED};
use crate::controller::proto::{decoded, framed, ProtocolError};
use crate::controller::{identity, Battery, Controller, Feedback, Input, Limiter, Vector3};
use crate::engine::animation::{Animated, Color, Keyframe};
use crate::engine::history::{readings, written, History, DEPTH};

verus! {

/// The number that stands for a connected wand.
pub type PlayerId = u64;

/// Time that one update of a wand may take, in nanoseconds. An update that
/// takes longer is given up and counts as failed.
pub const TIMEOUT: u64 = 1_000_000_000;

/// Number of failed updates in a row after which a wand is dropped.
pub const MAX_FAILS: usize = 10;

/// Why an update of a wand failed.
#[derive(Debug, Clone, Copy, PartialEq, Eq, Structural)]
pub enum UpdateError {
    /// The wand did not answer in time, or could not be read or written.
    Unanswered,
    /// The wand answered with something that is no input report.
    Protocol(ProtocolError),
}

/// A connected wand with its latest accelerations, its animated feedback
/// and its record of failures.
pub struct Player {
    controller: Controller,
    acceleration: History,
    rumble: Animated<u8>,
    color: Animated<Color>,
    failed: usize,
}

impl Player {
    /// The wand itself.
    pub closed spec fn session(self) -> Controller {
        self.controller
    }

    /// Number of updates that have failed in a row.
    pub closed spec fn fails(self) -> usize {
        self.failed
    }

    /// The accelerations that the latest updates have left, the oldest
    /// first.
    pub closed spec fn history(self) -> Seq<Vector3> {
        readings(self.acceleration)
    }

    /// The animated strength of the rumble motor.
    pub closed spec fn motor(self) -> Animated<u8> {
        self.rumble
    }

    /// The animated colour of the light.
    pub closed spec fn light(self) -> Animated<Color> {
        self.color
    }

    /// The number that stands for the wand.
    pub open spec fn ident(self) -> PlayerId {
        identity(self.session().address())
    }

    /// The feedback that the animations ask for.
    pub open spec fn shown(self) -> Feedback {
        Feedback {
            rgb: (self.light().current().r, self.light().current().g, self.light().current().b),
            rumble: self.motor().current(),
        }
    }

    /// Whether the wand does not show `feedback` yet, as far as is known:
    /// an earlier change has not been sent, or `feedback` is a change.
    pub open spec fn stale(self, feedback: Feedback) -> bool {
        self.session().limiter().dirty() || feedback != self.session().limiter().target()
    }

    /// Whether a report is written at `now` if `feedback` is asked for.
    pub open spec fn sends(self, feedback: Feedback, now: u64) -> bool {
        Limiter::<Feedback>::due_at(
            self.stale(feedback),
            self.session().limiter().updated(),
            now,
        )
    }

    /// The bytes of an answer, if there is an answer.
    pub open spec fn heard(reply: Option<&[u8]>) -> Option<Seq<u8>> {
        match reply {
            Some(buffer) => Some(buffer@),
            None => None,
        }
    }

    /// The input report that an update has brought, if it has brought one.
    pub open spec fn report(reply: Option<Seq<u8>>) -> Option<GetInput> {
        match reply {
            Some(buffer) => match decoded::<GetInput>(buffer) {
                Ok(report) => Some(report),
                Err(_) => None,
            },
            None => None,
        }
    }

    /// How an update has ended.
    pub open spec fn outcome(reply: Option<Seq<u8>>) -> Result<(), UpdateError> {
        match reply {
            Some(buffer) => match decoded::<GetInput>(buffer) {
                Ok(_) => Ok(()),
                Err(e) => Err(UpdateError::Protocol(e)),
            },
            None => Err(UpdateError::Unanswered),
        }
    }

    /// What the start of an update at `now`, `duration` nanoseconds after
    /// the one before, makes of a player, and what it hands out: the
    /// animations have run on, the wand is asked to show what they have
    /// come to, and the report that sets it is handed out if one is due.
    pub open spec fn prepares(self, duration: u64, now: u64, after: Player, r: Option<Vec<u8>>) -> bool {
        &&& self.motor().updated(duration, after.motor())
        &&& self.light().updated(duration, after.light())
        &&& after.fails() == self.fails()
        &&& after.history() == self.history()
        &&& after.ident() == self.ident()
        &&& after.session().device() == self.session().device()
        &&& after.session().address() == self.session().address()
        &&& after.session().calibration() == self.session().calibration()
        &&& after.session().reading() == self.session().reading()
        &&& after.session().charge() == self.session().charge()
        &&& after.session().limiter().target() == after.shown()
        &&& if self.sends(after.shown(), now) {
            &&& r is Some
            &&& r->Some_0@ == framed::<SetLED>(SetLED::of(after.shown()))
            &&& !after.session().limiter().dirty()
            &&& after.session().limiter().updated() == now
        } else {
            &&& r is None
            &&& after.session().limiter().dirty() == self.stale(after.shown())
            &&& after.session().limiter().updated() == self.session().limiter().updated()
        }
    }

    /// What the end of an update makes of a player: an answer that holds an
    /// input report replaces the reading and clears the record of
    /// failures; anything else adds a failure and leaves the reading.
    pub open spec fn completes(self, reply: Option<Seq<u8>>, after: Player) -> bool {
        &&& after.ident() == self.ident()
        &&& after.session().device() == self.session().device()
        &&& after.session().address() == self.session().address()
        &&& after.session().calibration() == self.session().calibration()
        &&& after.session().limiter() == self.session().limiter()
        &&& after.motor() == self.motor()
        &&& after.light() == self.light()
        &&& after.fails() == Self::counted(self.fails(), Self::outcome(reply) is Ok)
        &&& after.history() == written(self.history(), after.session().reading().accelerometer)
        &&& match Self::report(reply) {
            Some(report) => after.session().reading() == Input::decoded(
                self.session().calibration(),
                report,
            ) && after.session().charge() == Battery::decoded(report.battery),
            None => after.session().reading() == self.session().reading()
                && after.session().charge() == self.session().charge(),
        }
    }

    /// Whether another player is this one but for its rumble animation.
    pub open spec fn but_motor(self, after: Player) -> bool {
        &&& after.session() == self.session()
        &&& after.history() == self.history()
        &&& after.light() == self.light()
        &&& after.fails() == self.fails()
    }

    /// Whether another player is this one but for its colour animation.
    pub open spec fn but_light(self, after: Player) -> bool {
        &&& after.session() == self.session()
        &&& after.history() == self.history()
        &&& after.motor() == self.motor()
        &&& after.fails() == self.fails()
    }

    /// The record of failures after one more update: a success clears it, a
    /// failure adds one.
    pub open spec fn counted(fails: usize, success: bool) -> usize {
        if success {
            0
        } else if fails < usize::MAX {
            (fails + 1) as usize
        } else {
            fails
        }
    }

    /// The player of a wand that has just been connected: light and motor
    /// off, nothing failed yet.
    pub fn new(controller: Controller) -> (p: Player)
        ensures
            p.session() == controller,
            p.fails() == 0,
            p.history() == Seq::new(DEPTH as nat, |i: int| Vector3::at_rest()),
            p.motor().idle_spec() && p.motor().base() == 0,
            p.light().idle_spec() && p.light().base() == (Color { r: 0, g: 0, b: 0 }),
    {
        Player {
            controller,
            acceleration: History::new_with(Vector3::rest()),
            rumble: Animated::idle(0),
            color: Animated::idle(Color { r: 0, g: 0, b: 0 }),
            failed: 0,
        }
    }

    /// The number that stands for the wand.
    pub fn id(&self) -> (id: PlayerId)
        ensures
            id == self.ident(),
    {
        self.controller.id()
    }

    /// The latest reading of the wand.
    pub fn input(&self) -> (input: &Input)
        ensures
            *input == self.session().reading(),
    {
        self.controller.input()
    }

    /// The latest word of the wand on its battery.
    pub fn battery(&self) -> (battery: Battery)
        ensures
            battery == self.session().charge(),
    {
        self.controller.battery()
    }

    /// The wand itself.
    pub fn controller(&self) -> (controller: &Controller)
        ensures
            *controller == self.session(),
    {
        &self.controller
    }

    /// The animated strength of the rumble motor.
    pub fn rumble(&self) -> (rumble: &Animated<u8>)
        ensures
            *rumble == self.motor(),
    {
        &self.rumble
    }

    /// The animated strength of the rumble motor, to set or animate.
    pub fn rumble_mut(&mut self) -> (rumble: &mut Animated<u8>)
        ensures
            *rumble == old(self).motor(),
            final(self).motor() == *final(rumble),
            old(self).but_motor(*final(self)),
    {
        &mut self.rumble
    }

    /// The animated colour of the light.
    pub fn color(&self) -> (color: &Animated<Color>)
        ensures
            *color == self.light(),
    {
        &self.color
    }

    /// The animated colour of the light, to set or animate.
    pub fn color_mut(&mut self) -> (color: &mut Animated<Color>)
        ensures
            *color == old(self).light(),
            final(self).light() == *final(color),
            old(self).but_light(*final(self)),
    {
        &mut self.color
    }

    /// The accelerations that the latest updates have left, the oldest
    /// first: all that are kept, for a mean over them, or the latest one
    /// alone. A new player holds accelerations of a wand at rest.
    pub fn acceleration(&self, avg: bool) -> (all: Vec<Vector3>)
        ensures
            all@ == if avg {
                self.history()
            } else if self.history().len() == 0 {
                Seq::<Vector3>::empty()
            } else {
                seq![self.history().last()]
            },
    {
        if avg {
            self.acceleration.oldest_ordered()
        } else {
            match self.acceleration.recent() {
                Some(reading) => vec![reading],
                None => Vec::new(),
            }
        }
    }

    /// Number of updates that have failed in a row.
    pub fn failed(&self) -> (n: usize)
        ensures
            n == self.fails(),
    {
        self.failed
    }

    /// Starts one update at `now`, `duration` nanoseconds after the one
    /// before: lets the animations run on, asks the wand to show what they
    /// have come to, and hands out the report to write if one is due.
    pub fn prepare(&mut self, duration: u64, now: u64) -> (r: Option<Vec<u8>>)
        ensures
            old(self).prepares(duration, now, *final(self), r),
    {
        self.rumble.update(duration);
        self.color.update(duration);
        let color = self.color.value();
        self.controller.feedback(Feedback { rgb: color.int_rgb_tup(), rumble: self.rumble.value() });
        self.controller.pending(now)
    }

    /// Ends one update with what came of it: the buffer that the wand
    /// answered with, or nothing if it did not answer in time or could not
    /// be reached. A buffer that holds an input report replaces the reading
    /// and clears the record of failures. Anything else adds a failure and
    /// leaves the reading as it was.
    pub fn complete(&mut self, reply: Option<&[u8]>) -> (r: Result<(), UpdateError>)
        ensures
            old(self).completes(Self::heard(reply), *final(self)),
            r == Self::outcome(Self::heard(reply)),
    {
        let r = match reply {
            Some(buffer) => match self.controller.update(buffer) {
                Ok(()) => Ok(()),
                Err(e) => Err(UpdateError::Protocol(e)),
            },
            None => Err(UpdateError::Unanswered),
        };
        match r {
            Ok(()) => {
                self.failed = 0;
            },
            Err(_) => {
                if self.failed < usize::MAX {
                    self.failed = self.failed + 1;
                }
            },
        }
        self.acceleration.write(self.controller.input().accelerometer);
        r
    }
}

/// Whether no two players of a sequence stand for the same wand.
pub open spec fn distinct(players: Seq<Player>) -> bool {
    forall|i: int, j: int|
        0 <= i < j < players.len() ==> (#[trigger] players[i]).ident() != (
        #[trigger] players[j]).ident()
}

/// Whether a player of a sequence stands for the wand with a number.
pub open spec fn listed(players: Seq<Player>, id: PlayerId) -> bool {
    exists|i: int| 0 <= i < players.len() && (#[trigger] players[i]).ident() == id
}

proof fn lemma_filter_distinct(players: Seq<Player>, keep: spec_fn(Player) -> bool)
    requires
        distinct(players),
    ensures
        distinct(players.filter(keep)),
        forall|i: int|
            0 <= i < players.filter(keep).len() ==> players.contains(
                #[trigger] players.filter(keep)[i],
            ),
    decreases players.len(),
{
    reveal(Seq::filter);
    if players.len() > 0 {
        let front = players.drop_last();
        assert forall|i: int, j: int| 0 <= i < j < front.len() implies (#[trigger] front[i]).ident()
            != (#[trigger] front[j]).ident() by {
            assert(front[i] == players[i] && front[j] == players[j]);
        }
        lemma_filter_distinct(front, keep);
        let kept = front.filter(keep);
        assert forall|i: int| 0 <= i < kept.len() implies players.contains(#[trigger] kept[i]) by {
            let k = choose|k: int| 0 <= k < front.len() && front[k] == kept[i];
            assert(players[k] == kept[i]);
        }
        if keep(players.last()) {
            let all = kept.push(players.last());
            assert forall|i: int, j: int| 0 <= i < j < all.len() implies (#[trigger] all[i]).ident()
                != (#[trigger] all[j]).ident() by {
                if j == kept.len() {
                    let k = choose|k: int| 0 <= k < front.len() && front[k] == kept[i];
                    assert(players[k] == kept[i]);
                    assert(players[players.len() - 1] == all[j]);
                } else {
                    assert(all[i] == kept[i] && all[j] == kept[j]);
                }
            }
            assert forall|i: int| 0 <= i < all.len() implies players.contains(#[trigger] all[i]) by {
                if i == kept.len() {
                    assert(players[players.len() - 1] == all[i]);
                } else {
                    assert(all[i] == kept[i]);
                }
            }
        }
    }
}

/// The record of failures after `n` more updates that all fail.
pub open spec fn failures(fails: usize, n: nat) -> usize
    decreases n,
{
    if n == 0 {
        fails
    } else {
        Player::counted(failures(fails, (n - 1) as nat), false)
    }
}

/// Whatever the record of a wand was: after as many failed updates in a
/// row as are allowed, the wand counts as failing.
pub proof fn lemma_failures_reach_limit(fails: usize)
    ensures
        failures(fails, MAX_FAILS as nat) >= MAX_FAILS,
{
    assert forall|n: nat| n <= MAX_FAILS implies #[trigger] failures(fails, n) >= n by {
        lemma_failures_grow(fails, n);
    }
}

proof fn lemma_failures_grow(fails: usize, n: nat)
    requires
        n <= MAX_FAILS,
    ensures
        failures(fails, n) >= n,
    decreases n,
{
    if n > 0 {
        lemma_failures_grow(fails, (n - 1) as nat);
    }
}

/// A wand that counts as failing is not among the wands that an eviction
/// leaves, and no other wand is dropped.
pub proof fn lemma_eviction(players: Seq<Player>, i: int)
    requires
        distinct(players),
        0 <= i < players.len(),
    ensures
        listed(players.filter(Players::healthy()), players[i].ident()) <==> players[i].fails()
            < MAX_FAILS,
{
    let keep = Players::healthy();
    let left = players.filter(keep);
    lemma_filter_distinct(players, keep);
    if players[i].fails() < MAX_FAILS {
        players.lemma_filter_contains(keep, i);
        let k = choose|k: int| 0 <= k < left.len() && left[k] == players[i];
        assert(left[k].ident() == players[i].ident());
    } else {
        if listed(left, players[i].ident()) {
            let k = choose|k: int| 0 <= k < left.len() && (#[trigger] left[k]).ident() == players[i].ident();
            players.lemma_filter_pred(keep, k);
            assert(players.contains(left[k]));
            let j = choose|j: int| 0 <= j < players.len() && players[j] == left[k];
            if j < i {
                assert(players[j].ident() != players[i].ident());
            } else if i < j {
                assert(players[i].ident() != players[j].ident());
            }
        }
    }
}

/// The connected wands. No two of them stand for the same wand.
pub struct Players {
    players: Vec<Player>,
}

impl View for Players {
    type V = Seq<Player>;

    closed spec fn view(&self) -> Seq<Player> {
        self.players@
    }
}

impl Players {
    /// What holds of every register: no two players stand for the same
    /// wand.
    #[verifier::type_invariant]
    pub closed spec fn wf(self) -> bool {
        distinct(self.players@)
    }

    /// The players of a well-formed register are distinct.
    pub proof fn lemma_wf(self)
        requires
            self.wf(),
        ensures
            distinct(self@),
    {
    }

    /// Whether the wand at a device node is to stay when that node is gone.
    pub open spec fn elsewhere(path: Seq<char>) -> spec_fn(Player) -> bool {
        |p: Player| p.session().device() != path
    }

    /// Whether a wand has failed less often in a row than is allowed.
    pub open spec fn healthy() -> spec_fn(Player) -> bool {
        |p: Player| p.fails() < MAX_FAILS
    }

    /// Whether a wand has failed as often in a row as is allowed.
    pub open spec fn failing() -> spec_fn(Player) -> bool {
        |p: Player| p.fails() >= MAX_FAILS
    }

    /// A register without wands.
    pub fn new() -> (players: Players)
        ensures
            players.wf(),
            players@ == Seq::<Player>::empty(),
    {
        Players { players: Vec::new() }
    }

    /// Number of connected wands.
    pub fn count(&self) -> (n: usize)
        ensures
            n == self@.len(),
    {
        self.players.len()
    }

    /// The connected wands, in the order in which they were connected.
    pub fn iter(&self) -> (players: &[Player])
        ensures
            players@ == self@,
    {
        self.players.as_slice()
    }

    fn position(&self, id: PlayerId) -> (r: Option<usize>)
        ensures
            match r {
                Some(i) => i < self@.len() && self@[i as int].ident() == id,
                None => !listed(self@, id),
            },
    {
        let mut i: usize = 0;
        while i < self.players.len()
            invariant
                i <= self.players@.len(),
                forall|j: int| 0 <= j < i ==> (#[trigger] self.players@[j]).ident() != id,
            decreases self.players@.len() - i,
        {
            if self.players[i].id() == id {
                return Some(i);
            }
            i += 1;
        }
        None
    }

    /// Whether the wand with a number is connected.
    pub fn contains(&self, id: PlayerId) -> (r: bool)
        ensures
            r == listed(self@, id),
    {
        self.position(id).is_some()
    }

    /// The wand with a number, if it is connected.
    pub fn get(&self, id: PlayerId) -> (r: Option<&Player>)
        ensures
            match r {
                Some(player) => self@.contains(*player) && player.ident() == id,
                None => !listed(self@, id),
            },
    {
        match self.position(id) {
            Some(i) => Some(&self.players[i]),
            None => None,
        }
    }

    /// The numbers of the connected wands, in the order of the wands.
    pub fn keys(&self) -> (keys: Vec<PlayerId>)
        ensures
            keys@ == self@.map_values(|p: Player| p.ident()),
    {
        let mut keys: Vec<PlayerId> = Vec::new();
        let mut i: usize = 0;
        while i < self.players.len()
            invariant
                i <= self.players@.len(),
                keys@ == self.players@.take(i as int).map_values(|p: Player| p.ident()),
            decreases self.players@.len() - i,
        {
            keys.push(self.players[i].id());
            proof {
                assert(self.players@.take(i + 1).map_values(|p: Player| p.ident())
                    =~= self.players@.take(i as int).map_values(|p: Player| p.ident()).push(
                    self.players@[i as int].ident(),
                ));
            }
            i += 1;
        }
        proof {
            assert(self.players@.take(self.players@.len() as int) =~= self.players@);
        }
        keys
    }

    /// Takes in a wand that has just been connected. Its number must not be
    /// that of a wand that is connected already.
    pub fn add_device(&mut self, controller: Controller)
        requires
            !listed(old(self)@, identity(controller.address())),
        ensures
            final(self).wf(),
            final(self)@.len() == old(self)@.len() + 1,
            final(self)@.drop_last() == old(self)@,
            final(self)@.last().session() == controller,
            final(self)@.last().fails() == 0,
            final(self)@.last().history() == Seq::new(DEPTH as nat, |i: int| Vector3::at_rest()),
            final(self)@.last().motor().idle_spec() && final(self)@.last().motor().base() == 0,
            final(self)@.last().light().idle_spec() && final(self)@.last().light().base() == (
            Color { r: 0, g: 0, b: 0 }),
    {
        proof {
            use_type_invariant(&*self);
        }
        let player = Player::new(controller);
        let ghost before = self.players@;
        let mut players = Vec::new();
        core::mem::swap(&mut self.players, &mut players);
        players.push(player);
        proof {
            assert(players@.drop_last() =~= before);
            assert forall|i: int, j: int| 0 <= i < j < players@.len() implies (
            #[trigger] players@[i]).ident() != (#[trigger] players@[j]).ident() by {
                assert(players@[i] == before[i]);
                if j < before.len() {
                    assert(players@[j] == before[j]);
                }
            }
        }
        self.players = players;
    }

    /// Drops the wand at a device node that is gone, if one is connected
    /// there. The others stay, in their order.
    pub fn remove(&mut self, path: &String)
        ensures
            final(self).wf(),
            final(self)@ == old(self)@.filter(Self::elsewhere(path@)),
    {
        proof {
            use_type_invariant(&*self);
        }
        let mut players = Vec::new();
        core::mem::swap(&mut self.players, &mut players);
        let ghost all = players@;
        let ghost keep = Self::elsewhere(path@);
        let mut kept: Vec<Player> = Vec::new();
        for player in it: players.into_iter()
            invariant
                it.seq() == all,
                keep == Self::elsewhere(path@),
                kept@ == all.take(it.index() as int).filter(keep),
        {
            proof {
                reveal(Seq::filter);
                assert(all.take(it.index() + 1).drop_last() =~= all.take(it.index() as int));
            }
            if *player.controller.path() != *path {
                kept.push(player);
            }
        }
        proof {
            assert(all.take(all.len() as int) =~= all);
            lemma_filter_distinct(all, keep);
        }
        self.players = kept;
    }

    /// Sets the rumble strength of a wand, in place of whatever its animation was doing.
    /// Says whether the wand is connected; if it is not, nothing happens.
    pub fn set_rumble(&mut self, id: PlayerId, value: u8) -> (found: bool)
        ensures
            final(self).wf(),
            found == listed(old(self)@, id),
            final(self)@.len() == old(self)@.len(),
            forall|i: int|
                0 <= i < old(self)@.len() ==> if (#[trigger] old(self)@[i]).ident() == id {
                    &&& old(self)@[i].but_motor(final(self)@[i])
                    &&& final(self)@[i].motor().idle_spec()
                    &&& final(self)@[i].motor().base() == value
                    &&& final(self)@[i].motor().timeline() == Seq::<Keyframe<u8>>::empty()
                    &&& final(self)@[i].motor().elapsed() == 0
                } else {
                    final(self)@[i] == old(self)@[i]
                },
    {
        proof {
            use_type_invariant(&*self);
        }
        match self.position(id) {
            Some(i) => {
                let mut players = Vec::new();
                core::mem::swap(&mut self.players, &mut players);
                let ghost before = players@;
                players[i].rumble.set(value);
                proof {
                    assert forall|a: int, b: int| 0 <= a < b < players@.len() implies (
                    #[trigger] players@[a]).ident() != (#[trigger] players@[b]).ident() by {
                        assert(players@[a].ident() == before[a].ident());
                        assert(players@[b].ident() == before[b].ident());
                    }
                }
                self.players = players;
                true
            },
            None => false,
        }
    }

    /// Queues keyframes for the rumble strength of a wand.
    /// Says whether the wand is connected; if it is not, nothing happens.
    pub fn animate_rumble(&mut self, id: PlayerId, keyframes: Vec<Keyframe<u8>>) -> (found: bool)
        ensures
            final(self).wf(),
            found == listed(old(self)@, id),
            final(self)@.len() == old(self)@.len(),
            forall|i: int|
                0 <= i < old(self)@.len() ==> if (#[trigger] old(self)@[i]).ident() == id {
                    &&& old(self)@[i].but_motor(final(self)@[i])
                    &&& !final(self)@[i].motor().idle_spec()
                    &&& final(self)@[i].motor().base() == old(self)@[i].motor().base()
                    &&& final(self)@[i].motor().timeline() == old(self)@[i].motor().timeline()
                        + keyframes@
                    &&& final(self)@[i].motor().elapsed() == old(self)@[i].motor().elapsed()
                } else {
                    final(self)@[i] == old(self)@[i]
                },
    {
        proof {
            use_type_invariant(&*self);
        }
        match self.position(id) {
            Some(i) => {
                let mut players = Vec::new();
                core::mem::swap(&mut self.players, &mut players);
                let ghost before = players@;
                players[i].rumble.animate(keyframes);
                proof {
                    assert forall|a: int, b: int| 0 <= a < b < players@.len() implies (
                    #[trigger] players@[a]).ident() != (#[trigger] players@[b]).ident() by {
                        assert(players@[a].ident() == before[a].ident());
                        assert(players@[b].ident() == before[b].ident());
                    }
                }
                self.players = players;
                true
            },
            None => false,
        }
    }

    /// Sets the colour of a wand, in place of whatever its animation was doing.
    /// Says whether the wand is connected; if it is not, nothing happens.
    pub fn set_color(&mut self, id: PlayerId, value: Color) -> (found: bool)
        ensures
            final(self).wf(),
            found == listed(old(self)@, id),
            final(self)@.len() == old(self)@.len(),
            forall|i: int|
                0 <= i < old(self)@.len() ==> if (#[trigger] old(self)@[i]).ident() == id {
                    &&& old(self)@[i].but_light(final(self)@[i])
                    &&& final(self)@[i].light().idle_spec()
                    &&& final(self)@[i].light().base() == value
                    &&& final(self)@[i].light().timeline() == Seq::<Keyframe<Color>>::empty()
                    &&& final(self)@[i].light().elapsed() == 0
                } else {
                    final(self)@[i] == old(self)@[i]
                },
    {
        proof {
            use_type_invariant(&*self);
        }
        match self.position(id) {
            Some(i) => {
                let mut players = Vec::new();
                core::mem::swap(&mut self.players, &mut players);
                let ghost before = players@;
                players[i].color.set(value);
                proof {
                    assert forall|a: int, b: int| 0 <= a < b < players@.len() implies (
                    #[trigger] players@[a]).ident() != (#[trigger] players@[b]).ident() by {
                        assert(players@[a].ident() == before[a].ident());
                        assert(players@[b].ident() == before[b].ident());
                    }
                }
                self.players = players;
                true
            },
            None => false,
        }
    }

    /// Queues keyframes for the colour of a wand.
    /// Says whether the wand is connected; if it is not, nothing happens.
    pub fn animate_color(&mut self, id: PlayerId, keyframes: Vec<Keyframe<Color>>) -> (found: bool)
        ensures
            final(self).wf(),
            found == listed(old(self)@, id),
            final(self)@.len() == old(self)@.len(),
            forall|i: int|
                0 <= i < old(self)@.len() ==> if (#[trigger] old(self)@[i]).ident() == id {
                    &&& old(self)@[i].but_light(final(self)@[i])
                    &&& !final(self)@[i].light().idle_spec()
                    &&& final(self)@[i].light().base() == old(self)@[i].light().base()
                    &&& final(self)@[i].light().timeline() == old(self)@[i].light().timeline()
                        + keyframes@
                    &&& final(self)@[i].light().elapsed() == old(self)@[i].light().elapsed()
                } else {
                    final(self)@[i] == old(self)@[i]
                },
    {
        proof {
            use_type_invariant(&*self);
        }
        match self.position(id) {
            Some(i) => {
                let mut players = Vec::new();
                core::mem::swap(&mut self.players, &mut players);
                let ghost before = players@;
                players[i].color.animate(keyframes);
                proof {
                    assert forall|a: int, b: int| 0 <= a < b < players@.len() implies (
                    #[trigger] players@[a]).ident() != (#[trigger] players@[b]).ident() by {
                        assert(players@[a].ident() == before[a].ident());
                        assert(players@[b].ident() == before[b].ident());
                    }
                }
                self.players = players;
                true
            },
            None => false,
        }
    }

    /// The answer of the wand at a place, if there is one: the answers
    /// come in the order of the wands, and a wand without an answer has
    /// none.
    pub open spec fn answer(replies: Seq<Option<Vec<u8>>>, i: int) -> Option<Seq<u8>> {
        if 0 <= i < replies.len() {
            match replies[i] {
                Some(buffer) => Some(buffer@),
                None => None,
            }
        } else {
            None
        }
    }

    /// Starts one update of every wand at `now`, `duration` nanoseconds
    /// after the one before. For each wand, in the order of the wands, the
    /// report to write is handed out if one is due.
    pub fn prepare(&mut self, duration: u64, now: u64) -> (plans: Vec<Option<Vec<u8>>>)
        ensures
            final(self).wf(),
            final(self)@.len() == old(self)@.len(),
            plans@.len() == old(self)@.len(),
            forall|i: int|
                0 <= i < old(self)@.len() ==> (#[trigger] old(self)@[i]).prepares(
                    duration,
                    now,
                    final(self)@[i],
                    plans@[i],
                ),
    {
        proof {
            use_type_invariant(&*self);
        }
        let mut players = Vec::new();
        core::mem::swap(&mut self.players, &mut players);
        let ghost all = players@;
        let mut kept: Vec<Player> = Vec::new();
        let mut plans: Vec<Option<Vec<u8>>> = Vec::new();
        for player in it: players.into_iter()
            invariant
                it.seq() == all,
                kept@.len() == it.index(),
                plans@.len() == it.index(),
                forall|i: int|
                    0 <= i < it.index() ==> (#[trigger] all[i]).prepares(
                        duration,
                        now,
                        kept@[i],
                        plans@[i],
                    ),
        {
            let mut player = player;
            let plan = player.prepare(duration, now);
            kept.push(player);
            plans.push(plan);
        }
        proof {
            assert forall|i: int, j: int| 0 <= i < j < kept@.len() implies (
            #[trigger] kept@[i]).ident() != (#[trigger] kept@[j]).ident() by {
                assert(all[i].prepares(duration, now, kept@[i], plans@[i]));
                assert(all[j].prepares(duration, now, kept@[j], plans@[j]));
            }
        }
        self.players = kept;
        plans
    }

    /// Ends one update of every wand with what came of it. The answers
    /// come in the order of the wands; a wand that did not answer in time
    /// or could not be reached has none.
    pub fn complete(&mut self, replies: &Vec<Option<Vec<u8>>>)
        ensures
            final(self).wf(),
            final(self)@.len() == old(self)@.len(),
            forall|i: int|
                0 <= i < old(self)@.len() ==> (#[trigger] old(self)@[i]).completes(
                    Self::answer(replies@, i),
                    final(self)@[i],
                ),
    {
        proof {
            use_type_invariant(&*self);
        }
        let mut players = Vec::new();
        core::mem::swap(&mut self.players, &mut players);
        let ghost all = players@;
        let mut kept: Vec<Player> = Vec::new();
        for player in it: players.into_iter()
            invariant
                it.seq() == all,
                kept@.len() == it.index(),
                forall|i: int|
                    0 <= i < it.index() ==> (#[trigger] all[i]).completes(
                        Self::answer(replies@, i),
                        kept@[i],
                    ),
        {
            let mut player = player;
            let i = kept.len();
            if i < replies.len() {
                match &replies[i] {
                    Some(buffer) => {
                        let _ = player.complete(Some(buffer.as_slice()));
                    },
                    None => {
                        let _ = player.complete(None);
                    },
                }
            } else {
                let _ = player.complete(None);
            }
            kept.push(player);
        }
        proof {
            assert forall|i: int, j: int| 0 <= i < j < kept@.len() implies (
            #[trigger] kept@[i]).ident() != (#[trigger] kept@[j]).ident() by {
                assert(all[i].completes(Self::answer(replies@, i), kept@[i]));
                assert(all[j].completes(Self::answer(replies@, j), kept@[j]));
            }
        }
        self.players = kept;
    }

    /// Drops the wands that have failed as often in a row as is allowed,
    /// and names them. The others stay, in their order.
    pub fn evict(&mut self) -> (evicted: Vec<PlayerId>)
        ensures
            final(self).wf(),
            final(self)@ == old(self)@.filter(Self::healthy()),
            evicted@ == old(self)@.filter(Self::failing()).map_values(|p: Player| p.ident()),
    {
        proof {
            use_type_invariant(&*self);
        }
        let mut players = Vec::new();
        core::mem::swap(&mut self.players, &mut players);
        let ghost all = players@;
        let mut kept: Vec<Player> = Vec::new();
        let mut evicted: Vec<PlayerId> = Vec::new();
        for player in it: players.into_iter()
            invariant
                it.seq() == all,
                kept@ == all.take(it.index() as int).filter(Self::healthy()),
                evicted@ == all.take(it.index() as int).filter(Self::failing()).map_values(
                    |p: Player| p.ident(),
                ),
        {
            proof {
                reveal(Seq::filter);
                assert(all.take(it.index() + 1).drop_last() =~= all.take(it.index() as int));
            }
            if player.failed >= MAX_FAILS {
                evicted.push(player.id());
                proof {
                    let before = all.take(it.index() as int).filter(Self::failing());
                    assert(before.push(player).map_values(|p: Player| p.ident())
                        =~= before.map_values(|p: Player| p.ident()).push(player.ident()));
                }
            } else {
                kept.push(player);
            }
        }
        proof {
            assert(all.take(all.len() as int) =~= all);
            lemma_filter_distinct(all, Self::healthy());
        }
        self.players = kept;
        evicted
    }
}

/// What others keep for the connected wands, by the number of the wand.
pub struct PlayerData<D> {
    data: HashMap<PlayerId, D>,
}

impl<D> View for PlayerData<D> {
    type V = Map<PlayerId, D>;

    closed spec fn view(&self) -> Map<PlayerId, D> {
        self.data@
    }
}

impl<D> PlayerData<D> {
    /// An entry for each wand of a set, each made by one call of `f`.
    pub fn init<F: Fn() -> D>(players: HashSet<PlayerId>, f: F) -> (data: Self)
        requires
            f.requires(()),
        ensures
            data@.dom() == players@,
            forall|id: PlayerId| #[trigger] data@.contains_key(id) ==> f.ensures((), data@[id]),
    {
        broadcast use vstd::std_specs::hash::group_hash_axioms;

        let mut data: HashMap<PlayerId, D> = HashMap::new();
        let ids = players.iter();
        let ghost all: Seq<PlayerId> = ids.remaining().unref();
        for id in it: ids
            invariant
                f.requires(()),
                it.seq().unref() == all,
                all.to_set() == players@,
                data@.dom() == all.take(it.index() as int).to_set(),
                forall|id: PlayerId| #[trigger] data@.contains_key(id) ==> f.ensures((), data@[id]),
        {
            let ghost before = all.take(it.index() as int);
            data.insert(*id, f());
            proof {
                let after = all.take(it.index() + 1);
                assert(after =~= before.push(*id));
                assert(after.to_set() =~= before.to_set().insert(*id)) by {
                    assert forall|x: PlayerId| after.to_set().contains(x)
                        <==> before.to_set().insert(*id).contains(x) by {
                        if after.contains(x) {
                            let k = choose|k: int| 0 <= k < after.len() && after[k] == x;
                            if k < before.len() {
                                assert(before[k] == x);
                            }
                        }
                        if before.contains(x) {
                            let k = choose|k: int| 0 <= k < before.len() && before[k] == x;
                            assert(after[k] == x);
                        }
                        if x == *id {
                            assert(after[before.len() as int] == x);
                        }
                    }
                }
            }
        }
        proof {
            assert(all.take(all.len() as int) =~= all);
        }
        Self { data }
    }

    /// The entries of a map.
    pub fn init_with(data: HashMap<PlayerId, D>) -> (r: Self)
        ensures
            r@ == data@,
    {
        Self { data }
    }

    /// No entries.
    pub fn new() -> (r: Self)
        ensures
            r@ == Map::<PlayerId, D>::empty(),
    {
        Self { data: HashMap::new() }
    }

    /// Drops all entries.
    pub fn reset(&mut self)
        ensures
            final(self)@ == Map::<PlayerId, D>::empty(),
    {
        self.data.clear();
    }

    /// The entry of a wand, if it has one.
    pub fn get(&self, player: PlayerId) -> (r: Option<&D>)
        ensures
            match r {
                Some(data) => self@.contains_key(player) && *data == self@[player],
                None => !self@.contains_key(player),
            },
    {
        broadcast use vstd::std_specs::hash::group_hash_axioms;

        self.data.get(&player)
    }

    /// The entry of a wand, to change it, if the wand has one.
    pub fn get_mut(&mut self, player: PlayerId) -> (r: Option<&mut D>)
        ensures
            match r {
                Some(data) => old(self)@.contains_key(player) && *data == old(self)@[player]
                    && final(self)@ == old(self)@.insert(player, *final(data)),
                None => !old(self)@.contains_key(player) && final(self)@ == old(self)@,
            },
    {
        broadcast use vstd::std_specs::hash::group_hash_axioms;

        match self.data.entry(player) {
            Entry::Occupied(entry) => Some(entry.into_mut()),
            Entry::Vacant(_) => None,
        }
    }

    /// The wands that have an entry, each once, in no particular order.
    pub fn keys(&self) -> (keys: Vec<PlayerId>)
        ensures
            keys@.to_set() == self@.dom(),
            keys@.no_duplicates(),
    {
        broadcast use vstd::std_specs::hash::group_hash_axioms;

        let mut keys: Vec<PlayerId> = Vec::new();
        let ids = self.data.keys();
        let ghost all: Seq<PlayerId> = ids.remaining().unref();
        for id in it: ids
            invariant
                it.seq().unref() == all,
                keys@ == all.take(it.index() as int),
        {
            keys.push(*id);
            proof {
                assert(all.take(it.index() + 1) =~= all.take(it.index() as int).push(*id));
            }
        }
        proof {
            assert(all.take(all.len() as int) =~= all);
        }
        keys
    }

    /// The entries, each once with the number of its wand, in no
    /// particular order.
    pub fn iter(&self) -> (entries: Vec<(PlayerId, &D)>)
        ensures
            entries@.len() == self@.len(),
            entries@.map_values(|entry: (PlayerId, &D)| entry.0).no_duplicates(),
            forall|i: int|
                0 <= i < entries@.len() ==> self@.contains_key((#[trigger] entries@[i]).0)
                    && *entries@[i].1 == self@[entries@[i].0],
    {
        broadcast use vstd::std_specs::hash::group_hash_axioms;

        let mut entries: Vec<(PlayerId, &D)> = Vec::new();
        let pairs = self.data.iter();
        let ghost all = pairs.remaining();
        for pair in it: pairs
            invariant
                it.seq() == all,
                all == spec_hash_map_iter(&self.data).remaining(),
                all.no_duplicates(),
                entries@.len() == it.index(),
                forall|i: int|
                    0 <= i < it.index() ==> (#[trigger] entries@[i]).0 == *all[i].0
                        && *entries@[i].1 == *all[i].1,
        {
            entries.push((*pair.0, pair.1));
        }
        proof {
            let ids = entries@.map_values(|entry: (PlayerId, &D)| entry.0);
            assert forall|i: int, j: int| 0 <= i < ids.len() && 0 <= j < ids.len() && i != j implies ids[i]
                != ids[j] by {
                assert(entries@[i].0 == *all[i].0);
                assert(entries@[j].0 == *all[j].0);
                assert(self.data@.contains_key(*all[i].0));
                assert(self.data@.contains_key(*all[j].0));
                if ids[i] == ids[j] {
                    assert(self.data@[*all[i].0] == *all[i].1);
                    assert(self.data@[*all[j].0] == *all[j].1);
                    assert(all[i] == all[j]);
                }
            }
            assert forall|i: int| 0 <= i < entries@.len() implies self@.contains_key(
                (#[trigger] entries@[i]).0,
            ) && *entries@[i].1 == self@[entries@[i].0] by {
                assert(entries@[i].0 == *all[i].0);
                assert(self.data@.contains_key(*all[i].0));
            }
        }
        entries
    }

    /// Drops the entry of a wand and says whether there was one.
    pub fn remove(&mut self, player: PlayerId) -> (r: bool)
        ensures
            r == old(self)@.contains_key(player),
            final(self)@ == old(self)@.remove(player),
    {
        broadcast use vstd::std_specs::hash::group_hash_axioms;

        self.data.remove(&player).is_some()
    }

    /// Number of entries.
    pub fn len(&self) -> (n: usize)
        ensures
            n == self@.len(),
    {
        broadcast use vstd::std_specs::hash::group_hash_axioms;

        self.data.len()
    }
}

/// The connected wands side by side with what others keep for them.
pub struct WithData<'a, D> {
    pub players: &'a Players,
    pub data: &'a mut PlayerData<D>,
}

/// What is left of the entries once `keep` has been asked about each: an
/// entry stays as it is if its wand is connected and `keep` says so of the
/// two; it goes if its wand is gone or `keep` says no.
pub open spec fn pruned<D, F: Fn(&Player, &D) -> bool>(
    players: Seq<Player>,
    before: Map<PlayerId, D>,
    keep: F,
    after: Map<PlayerId, D>,
) -> bool {
    &&& after.submap_of(before)
    &&& forall|id: PlayerId| #[trigger]
        before.contains_key(id) ==> if after.contains_key(id) {
            exists|i: int|
                0 <= i < players.len() && (#[trigger] players[i]).ident() == id && keep.ensures(
                    (&players[i], &before[id]),
                    true,
                )
        } else {
            forall|i: int|
                0 <= i < players.len() && (#[trigger] players[i]).ident() == id ==> keep.ensures(
                    (&players[i], &before[id]),
                    false,
                )
        }
}

impl<'a, D> WithData<'a, D> {
    /// All wands, each with its entry if it has one, in the order of the
    /// wands.
    pub fn each(self) -> (pairs: Vec<(&'a Player, Option<&'a D>)>)
        ensures
            final(self.data)@ == old(self.data)@,
            pairs@.len() == self.players@.len(),
            forall|i: int|
                0 <= i < pairs@.len() ==> *(#[trigger] pairs@[i]).0 == self.players@[i]
                    && match pairs@[i].1 {
                    Some(entry) => old(self.data)@.contains_key(self.players@[i].ident())
                        && *entry == old(self.data)@[self.players@[i].ident()],
                    None => !old(self.data)@.contains_key(self.players@[i].ident()),
                },
    {
        let WithData { players, data } = self;
        let data: &'a PlayerData<D> = data;
        let mut pairs: Vec<(&Player, Option<&D>)> = Vec::new();
        let all = players.iter();
        let mut i: usize = 0;
        while i < all.len()
            invariant
                i <= all@.len(),
                all@ == players@,
                pairs@.len() == i,
                forall|k: int|
                    0 <= k < i ==> *(#[trigger] pairs@[k]).0 == all@[k] && match pairs@[k].1 {
                        Some(entry) => data@.contains_key(all@[k].ident()) && *entry
                            == data@[all@[k].ident()],
                        None => !data@.contains_key(all@[k].ident()),
                    },
            decreases all@.len() - i,
        {
            let player = &all[i];
            pairs.push((player, data.get(player.id())));
            i += 1;
        }
        pairs
    }

    /// The wands that have an entry, each with its entry, in the order of
    /// the wands.
    pub fn existing(self) -> (pairs: Vec<(&'a Player, &'a D)>)
        ensures
            final(self.data)@ == old(self.data)@,
            pairs@.map_values(|pair: (&Player, &D)| *pair.0) == self.players@.filter(
                |p: Player| old(self.data)@.contains_key(p.ident()),
            ),
            forall|i: int|
                0 <= i < pairs@.len() ==> old(self.data)@.contains_key(
                    (#[trigger] pairs@[i]).0.ident(),
                ) && *pairs@[i].1 == old(self.data)@[pairs@[i].0.ident()],
    {
        let WithData { players, data } = self;
        let data: &'a PlayerData<D> = data;
        let mut pairs: Vec<(&Player, &D)> = Vec::new();
        let all = players.iter();
        let ghost has = |p: Player| data@.contains_key(p.ident());
        let mut i: usize = 0;
        while i < all.len()
            invariant
                i <= all@.len(),
                all@ == players@,
                has == |p: Player| data@.contains_key(p.ident()),
                pairs@.map_values(|pair: (&Player, &D)| *pair.0) == all@.take(i as int).filter(has),
                forall|k: int|
                    0 <= k < pairs@.len() ==> data@.contains_key((#[trigger] pairs@[k]).0.ident())
                        && *pairs@[k].1 == data@[pairs@[k].0.ident()],
            decreases all@.len() - i,
        {
            let player = &all[i];
            proof {
                reveal(Seq::filter);
                assert(all@.take(i + 1).drop_last() =~= all@.take(i as int));
            }
            let ghost before = pairs@;
            match data.get(player.id()) {
                Some(entry) => {
                    pairs.push((player, entry));
                    proof {
                        assert(pairs@.map_values(|pair: (&Player, &D)| *pair.0)
                            =~= before.map_values(|pair: (&Player, &D)| *pair.0).push(*player));
                    }
                },
                None => {},
            }
            i += 1;
        }
        proof {
            assert(all@.take(all@.len() as int) =~= all@);
        }
        pairs
    }

    /// Asks `keep` about each entry whose wand is connected, and drops the
    /// entries of which it says no together with those whose wand is gone.
    pub fn update<F: Fn(&Player, &D) -> bool>(self, keep: F)
        requires
            forall|p: &Player, d: &D| #[trigger] keep.requires((p, d)),
        ensures
            pruned(self.players@, old(self.data)@, keep, final(self.data)@),
    {
        proof {
            use_type_invariant(self.players);
        }
        let WithData { players, data } = self;
        let ghost before = data@;
        let keys = data.keys();
        let mut n: usize = 0;
        while n < keys.len()
            invariant
                n <= keys@.len(),
                distinct(players@),
                forall|p: &Player, d: &D| #[trigger] keep.requires((p, d)),
                keys@.to_set() == before.dom(),
                keys@.no_duplicates(),
                forall|key: PlayerId| #[trigger]
                    data@.contains_key(key) ==> before.contains_key(key) && data@[key]
                        == before[key],
                forall|k: int| n <= k < keys@.len() ==> data@.contains_key(#[trigger] keys@[k]),
                forall|k: int|
                    0 <= k < n ==> if data@.contains_key(#[trigger] keys@[k]) {
                        exists|i: int|
                            0 <= i < players@.len() && (#[trigger] players@[i]).ident() == keys@[k]
                                && keep.ensures((&players@[i], &before[keys@[k]]), true)
                    } else {
                        forall|i: int|
                            0 <= i < players@.len() && (#[trigger] players@[i]).ident() == keys@[k]
                                ==> keep.ensures((&players@[i], &before[keys@[k]]), false)
                    },
            decreases keys@.len() - n,
        {
            let id = keys[n];
            let ghost current = data@;
            assert(current.contains_key(keys@[n as int]));
            let found = players.position(id);
            let stays = match found {
                Some(i) => match data.get(id) {
                    Some(entry) => keep(&players.players[i], entry),
                    None => false,
                },
                None => false,
            };
            if !stays {
                data.remove(id);
            }
            proof {
                assert forall|key: PlayerId| #[trigger] data@.contains_key(key) implies before.contains_key(
                    key,
                ) && data@[key] == before[key] by {
                    assert(current.contains_key(key));
                }
                assert forall|k: int| 0 <= k < n implies (data@.contains_key(#[trigger] keys@[k])
                    <==> current.contains_key(keys@[k])) by {
                    assert(keys@[k] != keys@[n as int]);
                }
                assert forall|k: int| n < k < keys@.len() implies data@.contains_key(
                    #[trigger] keys@[k],
                ) by {
                    assert(keys@[k] != keys@[n as int]);
                }
                assert(current[id] == before[id]);
                if stays {
                    let i = found->Some_0 as int;
                    assert(players@[i].ident() == id);
                    assert(keep.ensures((&players@[i], &before[id]), true));
                } else {
                    assert(!data@.contains_key(id));
                    assert forall|i: int|
                        0 <= i < players@.len() && (#[trigger] players@[i]).ident()
                            == id implies keep.ensures((&players@[i], &before[id]), false) by {
                        match found {
                            Some(j) => {
                                if i != j as int {
                                    if i < j as int {
                                        assert(players@[i].ident() != players@[j as int].ident());
                                    } else {
                                        assert(players@[j as int].ident() != players@[i].ident());
                                    }
                                }
                            },
                            None => {
                                assert(!listed(players@, id));
                            },
                        }
                    }
                }
            }
            n += 1;
        }
        proof {
            assert forall|id: PlayerId| #[trigger] before.contains_key(id) implies if data@.contains_key(
                id,
            ) {
                exists|i: int|
                    0 <= i < players@.len() && (#[trigger] players@[i]).ident() == id
                        && keep.ensures((&players@[i], &before[id]), true)
            } else {
                forall|i: int|
                    0 <= i < players@.len() && (#[trigger] players@[i]).ident() == id
                        ==> keep.ensures((&players@[i], &before[id]), false)
            } by {
                assert(keys@.to_set().contains(id));
                let k = choose|k: int| 0 <= k < keys@.len() && keys@[k] == id;
                assert(keys@[k] == id);
            }
        }
    }
}

impl Players {
    /// Puts the connected wands side by side with what others keep for
    /// them.
    pub fn with_data<'a, D>(&'a self, data: &'a mut PlayerData<D>) -> (r: WithData<'a, D>)
        ensures
            r.players == self,
            *r.data == *old(data),
            *final(r.data) == *final(data),
    {
        WithData { players: self, data }
    }
}

} // verus!
