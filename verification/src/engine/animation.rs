//! Values that move over time along a queue of keyframes.
//!
//! Time is counted in nanoseconds.

use std::collections::VecDeque;
use vstd::prelude::*;

verus! {

/// How far a segment has come: the fraction `num / den`, from 0 to 1.
///
/// A fraction above 1 counts as 1. A segment without length has the phase
/// `0 / 0` until it is over, and counts as not begun.
#[derive(Debug, Clone, Copy, PartialEq, Eq, Structural)]
pub struct Phase {
    pub num: u64,
    pub den: u64,
}

impl Phase {
    /// The numerator, or the denominator if that is less: the phase is 1
    /// at most.
    pub open spec fn capped(self) -> u64 {
        if self.num > self.den {
            self.den
        } else {
            self.num
        }
    }
}

/// The shape of the way from one value to the next.
#[derive(Debug, Clone, Copy, PartialEq, Eq, Structural)]
pub enum Interpolation {
    /// In a straight line: the phase is the share of the time that is over.
    Linear,
    /// In one step at the end: the phase is 0 until the time is over.
    End,
}

impl Interpolation {
    /// The phase of a segment of which `elapsed` out of `duration` is over.
    pub open spec fn phase(self, elapsed: u64, duration: u64) -> Phase {
        match self {
            Interpolation::Linear => Phase { num: elapsed, den: duration },
            Interpolation::End => if elapsed < duration {
                Phase { num: 0, den: 1 }
            } else {
                Phase { num: 1, den: 1 }
            },
        }
    }

    /// The phase of a segment of which `elapsed` out of `duration` is over.
    pub fn apply(self, elapsed: u64, duration: u64) -> (p: Phase)
        ensures
            p == self.phase(elapsed, duration),
    {
        match self {
            Interpolation::Linear => Phase { num: elapsed, den: duration },
            Interpolation::End => if elapsed < duration {
                Phase { num: 0, den: 1 }
            } else {
                Phase { num: 1, den: 1 }
            },
        }
    }
}

/// Values between which one can move in a straight line.
pub trait Lerp: Sized {
    /// The value at a phase of the way from `a` to `b`.
    spec fn lerped(a: Self, b: Self, phase: Phase) -> Self;

    /// The value at a phase of the way from `a` to `b`.
    fn lerp(a: Self, b: Self, phase: Phase) -> (r: Self)
        ensures
            r == Self::lerped(a, b, phase),
    ;
}

/// The share `num / den` of a distance, rounded down.
pub open spec fn share(distance: nat, phase: Phase) -> int {
    if phase.den == 0 {
        0
    } else {
        (distance * phase.capped()) / (phase.den as int)
    }
}

/// The number at a phase of the way from `a` to `b`: `a` moved towards `b`
/// by the share of their distance, rounded down.
pub open spec fn lerped(a: int, b: int, phase: Phase) -> int {
    if a < b {
        a + share((b - a) as nat, phase)
    } else {
        a - share((a - b) as nat, phase)
    }
}

/// The byte at a phase of the way from `a` to `b`.
pub open spec fn lerped_u8(a: u8, b: u8, phase: Phase) -> u8 {
    lerped(a as int, b as int, phase) as u8
}

/// The share of a distance is no more than the distance.
pub proof fn lemma_share_bounds(distance: nat, phase: Phase)
    ensures
        0 <= share(distance, phase) <= distance,
{
    if phase.den != 0 {
        let d = distance as int;
        let n = phase.capped() as int;
        let m = phase.den as int;
        assert(0 <= (d * n) / m <= d) by (nonlinear_arith)
            requires
                0 <= d,
                0 <= n <= m,
                0 < m,
        ;
    }
}

/// A number on the way from `a` to `b` sets out at `a`, arrives at `b` and
/// lies between the two all the way.
pub proof fn lemma_lerped(a: int, b: int, phase: Phase)
    requires
        phase.den > 0,
    ensures
        phase.num == 0 ==> lerped(a, b, phase) == a,
        phase.num >= phase.den ==> lerped(a, b, phase) == b,
        a <= b ==> a <= lerped(a, b, phase) <= b,
        b <= a ==> b <= lerped(a, b, phase) <= a,
{
    let distance = if a < b {
        (b - a) as nat
    } else {
        (a - b) as nat
    };
    lemma_share_bounds(distance, phase);
    let d = distance as int;
    let m = phase.den as int;
    if phase.num == 0 {
        assert((d * 0) / m == 0) by (nonlinear_arith)
            requires
                m > 0,
        ;
    }
    if phase.num >= phase.den {
        assert((d * m) / m == d) by (nonlinear_arith)
            requires
                m > 0,
        ;
    }
}

fn step(distance: u64, phase: Phase) -> (r: u64)
    ensures
        r == share(distance as nat, phase),
        r <= distance,
{
    proof {
        lemma_share_bounds(distance as nat, phase);
    }
    if phase.den == 0 {
        0
    } else {
        let num = if phase.num > phase.den {
            phase.den
        } else {
            phase.num
        };
        assert(distance as u128 * num as u128 <= 0xFFFF_FFFF_FFFF_FFFF * 0xFFFF_FFFF_FFFF_FFFF)
            by (nonlinear_arith)
            requires
                distance <= 0xFFFF_FFFF_FFFF_FFFF,
                num <= 0xFFFF_FFFF_FFFF_FFFF,
        ;
        ((distance as u128 * num as u128) / phase.den as u128) as u64
    }
}

impl Lerp for u8 {
    open spec fn lerped(a: u8, b: u8, phase: Phase) -> u8 {
        lerped_u8(a, b, phase)
    }

    fn lerp(a: u8, b: u8, phase: Phase) -> (r: u8) {
        if a < b {
            a + step((b - a) as u64, phase) as u8
        } else {
            a - step((a - b) as u64, phase) as u8
        }
    }
}

/// A scalar in whatever unit the caller counts in, thousandths for one.
impl Lerp for i32 {
    open spec fn lerped(a: i32, b: i32, phase: Phase) -> i32 {
        lerped(a as int, b as int, phase) as i32
    }

    fn lerp(a: i32, b: i32, phase: Phase) -> (r: i32) {
        if a < b {
            (a as i64 + step((b as i64 - a as i64) as u64, phase) as i64) as i32
        } else {
            (a as i64 - step((a as i64 - b as i64) as u64, phase) as i64) as i32
        }
    }
}

/// A colour of the light: red, green and blue, 0 to 255 each.
#[derive(Debug, Clone, Copy, PartialEq, Eq, Structural)]
pub struct Color {
    pub r: u8,
    pub g: u8,
    pub b: u8,
}

impl Color {
    /// The colour with the three channels of a triple.
    pub fn from(rgb: (u8, u8, u8)) -> (c: Color)
        ensures
            c == (Color { r: rgb.0, g: rgb.1, b: rgb.2 }),
    {
        Color { r: rgb.0, g: rgb.1, b: rgb.2 }
    }

    /// The three channels as a triple.
    pub fn int_rgb_tup(&self) -> (rgb: (u8, u8, u8))
        ensures
            rgb == (self.r, self.g, self.b),
    {
        (self.r, self.g, self.b)
    }
}

impl Lerp for Color {
    /// Each channel moves on its own.
    open spec fn lerped(a: Color, b: Color, phase: Phase) -> Color {
        Color {
            r: lerped_u8(a.r, b.r, phase),
            g: lerped_u8(a.g, b.g, phase),
            b: lerped_u8(a.b, b.b, phase),
        }
    }

    fn lerp(a: Color, b: Color, phase: Phase) -> (r: Color) {
        Color {
            r: u8::lerp(a.r, b.r, phase),
            g: u8::lerp(a.g, b.g, phase),
            b: u8::lerp(a.b, b.b, phase),
        }
    }
}

/// One leg of an animation: the value to reach, the time that the way
/// takes, and the shape of the way.
#[derive(Debug)]
pub struct Keyframe<V> {
    /// The time from the end of the keyframe before, in nanoseconds.
    pub duration: u64,
    pub value: V,
    pub interpolation: Interpolation,
}

impl<V> Keyframe<V> {
    /// The keyframe that reaches `value` after `duration` nanoseconds.
    pub fn new(duration: u64, value: V, interpolation: Interpolation) -> (k: Self)
        ensures
            k == (Keyframe { duration, value, interpolation }),
    {
        Self { duration, value, interpolation }
    }

    /// The keyframe that holds the value before and jumps after `duration`
    /// nanoseconds.
    pub fn from(duration: u64, value: V) -> (k: Self)
        ensures
            k == (Keyframe { duration, value, interpolation: Interpolation::End }),
    {
        Self { duration, value, interpolation: Interpolation::End }
    }
}

/// Where a base value, a queue of keyframes and the time spent on the first
/// of them stand once every keyframe that the time has reached is taken
/// off: the value of the last one taken is the new base, and its duration
/// is taken off the time.
pub open spec fn settled<V>(base: V, timeline: Seq<Keyframe<V>>, elapsed: nat) -> (V, Seq<Keyframe<V>>, nat)
    decreases timeline.len(),
{
    if timeline.len() > 0 && elapsed >= timeline[0].duration {
        settled(timeline[0].value, timeline.drop_first(), (elapsed - timeline[0].duration) as nat)
    } else {
        (base, timeline, elapsed)
    }
}

/// Settling once after all the time has passed comes to the same as
/// settling after a part of it and again after the rest.
pub proof fn lemma_settled_twice<V>(base: V, timeline: Seq<Keyframe<V>>, elapsed: nat, more: nat)
    ensures
        ({
            let first = settled(base, timeline, elapsed);
            settled(first.0, first.1, first.2 + more) == settled(base, timeline, elapsed + more)
        }),
    decreases timeline.len(),
{
    if timeline.len() > 0 && elapsed >= timeline[0].duration {
        lemma_settled_twice(
            timeline[0].value,
            timeline.drop_first(),
            (elapsed - timeline[0].duration) as nat,
            more,
        );
    }
}

enum State<V> {
    Running { timeline: VecDeque<Keyframe<V>>, elapsed: u64 },
    Idle,
}

/// A value that stands still or moves along a queue of keyframes.
pub struct Animated<V> {
    state: State<V>,
    value: V,
}

impl<V> Animated<V> {
    /// The value that the animation stands at or last set out from.
    pub closed spec fn base(self) -> V {
        self.value
    }

    /// Whether the animation stands still.
    pub closed spec fn idle_spec(self) -> bool {
        self.state is Idle
    }

    /// The keyframes that are not reached yet; none while idle.
    pub closed spec fn timeline(self) -> Seq<Keyframe<V>> {
        match self.state {
            State::Running { timeline, elapsed } => timeline@,
            State::Idle => Seq::empty(),
        }
    }

    /// The time spent on the way to the first keyframe; zero while idle.
    pub closed spec fn elapsed(self) -> u64 {
        match self.state {
            State::Running { timeline, elapsed } => elapsed,
            State::Idle => 0,
        }
    }

    /// What holds of every animation: the time spent on the first keyframe
    /// is less than the keyframe takes, or it is zero.
    #[verifier::type_invariant]
    pub closed spec fn wf(self) -> bool {
        match self.state {
            State::Running { timeline, elapsed } => elapsed == 0 || (timeline@.len() > 0 && elapsed
                < timeline@[0].duration),
            State::Idle => true,
        }
    }

    /// What the accessors say of a well-formed animation.
    pub proof fn lemma_wf(self)
        requires
            self.wf(),
        ensures
            self.idle_spec() ==> self.timeline().len() == 0 && self.elapsed() == 0,
            self.elapsed() == 0 || (self.timeline().len() > 0 && self.elapsed()
                < self.timeline()[0].duration),
    {
    }
}

impl<V: Lerp + Copy> Animated<V> {
    /// The value that the animation shows: the base while nothing is
    /// queued, else the point between the base and the value of the first
    /// keyframe that the phase of the keyframe gives.
    pub open spec fn current(self) -> V {
        if self.timeline().len() > 0 {
            V::lerped(
                self.base(),
                self.timeline()[0].value,
                self.timeline()[0].interpolation.phase(self.elapsed(), self.timeline()[0].duration),
            )
        } else {
            self.base()
        }
    }

    /// What an animation becomes when `duration` nanoseconds pass: nothing
    /// changes while it is idle; else the time is added, the keyframes that
    /// it reaches are taken off, and the animation is idle if none is left.
    pub open spec fn updated(self, duration: u64, after: Self) -> bool {
        if self.idle_spec() {
            after.idle_spec() && after.base() == self.base()
        } else {
            let end = settled(self.base(), self.timeline(), (self.elapsed() + duration) as nat);
            &&& after.base() == end.0
            &&& after.timeline() == end.1
            &&& after.idle_spec() == (end.1.len() == 0)
            &&& after.elapsed() == if end.1.len() == 0 {
                0
            } else {
                end.2
            }
        }
    }

    /// Whether two animations cannot be told apart.
    pub open spec fn alike(self, other: Self) -> bool {
        &&& self.base() == other.base()
        &&& self.timeline() == other.timeline()
        &&& self.idle_spec() == other.idle_spec()
        &&& self.elapsed() == other.elapsed()
    }

    /// An animation depends on the time that has passed and not on the
    /// steps in which it passed: two updates in a row come to the same as
    /// one update by the sum of the two.
    pub proof fn lemma_update_adds(
        self,
        first: u64,
        second: u64,
        between: Self,
        stepwise: Self,
        at_once: Self,
    )
        requires
            self.wf(),
            between.wf(),
            first + second <= u64::MAX,
            self.updated(first, between),
            between.updated(second, stepwise),
            self.updated((first + second) as u64, at_once),
        ensures
            stepwise.alike(at_once),
    {
        if !self.idle_spec() {
            let start = (self.elapsed() + first) as nat;
            lemma_settled_twice(self.base(), self.timeline(), start, second as nat);
            let mid = settled(self.base(), self.timeline(), start);
            if mid.1.len() == 0 {
                assert(settled(mid.0, mid.1, mid.2 + second as nat) == (mid.0, mid.1, mid.2 + second as nat));
            }
        }
    }

    /// An animation that stands still at a value.
    pub fn idle(value: V) -> (a: Self)
        ensures
            a.wf(),
            a.idle_spec(),
            a.base() == value,
            a.timeline() == Seq::<Keyframe<V>>::empty(),
            a.elapsed() == 0,
    {
        Self { state: State::Idle, value }
    }

    /// Drops whatever is queued and stands still at a value, at once.
    pub fn set(&mut self, value: V)
        ensures
            final(self).wf(),
            final(self).idle_spec(),
            final(self).base() == value,
            final(self).timeline() == Seq::<Keyframe<V>>::empty(),
            final(self).elapsed() == 0,
    {
        self.state = State::Idle;
        self.value = value;
    }

    /// Queues keyframes. An idle animation sets out on them from its value;
    /// a running one takes them up after those it already has, and the time
    /// spent on its first keyframe stays.
    pub fn animate(&mut self, keyframes: Vec<Keyframe<V>>)
        ensures
            final(self).wf(),
            !final(self).idle_spec(),
            final(self).base() == old(self).base(),
            final(self).timeline() == old(self).timeline() + keyframes@,
            final(self).elapsed() == old(self).elapsed(),
    {
        proof {
            use_type_invariant(&*self);
        }
        let mut state = State::Idle;
        core::mem::swap(&mut self.state, &mut state);
        let (mut timeline, elapsed) = match state {
            State::Running { timeline, elapsed } => (timeline, elapsed),
            State::Idle => (VecDeque::new(), 0),
        };
        let ghost before = timeline@;
        let ghost added = keyframes@;
        for keyframe in it: keyframes.into_iter()
            invariant
                it.seq() == added,
                timeline@ == before + added.take(it.index() as int),
        {
            timeline.push_back(keyframe);
            proof {
                assert(before + added.take(it.index() + 1) =~= (before + added.take(
                    it.index() as int,
                )).push(keyframe));
            }
        }
        proof {
            assert(added.take(added.len() as int) =~= added);
        }
        self.state = State::Running { timeline, elapsed };
    }

    /// Stands still at a value and sets out on keyframes from there.
    pub fn set_and_animate(&mut self, value: V, keyframes: Vec<Keyframe<V>>)
        ensures
            final(self).wf(),
            !final(self).idle_spec(),
            final(self).base() == value,
            final(self).timeline() == keyframes@,
            final(self).elapsed() == 0,
    {
        self.set(value);
        self.animate(keyframes);
        proof {
            assert(Seq::<Keyframe<V>>::empty() + keyframes@ =~= keyframes@);
        }
    }

    /// Lets `duration` nanoseconds pass.
    pub fn update(&mut self, duration: u64)
        ensures
            final(self).wf(),
            old(self).updated(duration, *final(self)),
    {
        proof {
            use_type_invariant(&*self);
        }
        let mut state = State::Idle;
        core::mem::swap(&mut self.state, &mut state);
        match state {
            State::Idle => {},
            State::Running { mut timeline, elapsed } => {
                let ghost goal = settled(self.value, timeline@, (elapsed + duration) as nat);
                let mut value = self.value;
                let mut elapsed: u128 = elapsed as u128 + duration as u128;
                while timeline.len() > 0 && elapsed >= timeline[0].duration as u128
                    invariant
                        settled(value, timeline@, elapsed as nat) == goal,
                    decreases timeline@.len(),
                {
                    match timeline.pop_front() {
                        Some(keyframe) => {
                            value = keyframe.value;
                            elapsed = elapsed - keyframe.duration as u128;
                        },
                        None => {},
                    }
                }
                self.value = value;
                if timeline.len() > 0 {
                    self.state = State::Running { timeline, elapsed: elapsed as u64 };
                } else {
                    assert(timeline@ =~= Seq::<Keyframe<V>>::empty());
                }
            },
        }
    }

    /// The value that the animation shows now.
    pub fn value(&self) -> (v: V)
        ensures
            v == self.current(),
    {
        proof {
            use_type_invariant(self);
        }
        match &self.state {
            State::Running { timeline, elapsed } => {
                if timeline.len() > 0 {
                    let keyframe = &timeline[0];
                    let phase = keyframe.interpolation.apply(*elapsed, keyframe.duration);
                    V::lerp(self.value, keyframe.value, phase)
                } else {
                    self.value
                }
            },
            State::Idle => self.value,
        }
    }

    /// Whether the animation stands still.
    pub fn is_idle(&self) -> (r: bool)
        ensures
            r == self.idle_spec(),
    {
        match self.state {
            State::Idle => true,
            State::Running { .. } => false,
        }
    }
}

} // verus!
