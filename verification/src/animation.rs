//! Animations: when one runs, when it is over, and what its value is made of.
//!
//! Times are nanoseconds. The value of an easing curve or a spring part way is
//! floating-point arithmetic; what to evaluate, and on what, is decided here.
use vstd::prelude::*;
use crate::float::{F64, ONE_BITS};

verus! {

/// Nanoseconds in a millisecond.
pub const NANOS_PER_MILLI: u128 = 1_000_000;

/// An easing curve over `0..=1`.
#[derive(Clone, Copy, Debug, PartialEq, Eq, Structural)]
pub enum Curve {
    Linear,
    EaseOutQuad,
    EaseOutCubic,
    EaseOutExpo,
    CubicBezier { x1: F64, y1: F64, x2: F64, y2: F64 },
}

/// How stiff and how damped a spring is, and when it counts as at rest.
#[derive(Clone, Copy, Debug, PartialEq, Eq, Structural)]
pub struct SpringParams {
    pub damping_ratio: F64,
    pub stiffness: F64,
    pub epsilon: F64,
}

#[derive(Clone, Copy, Debug, PartialEq, Eq, Structural)]
pub struct Spring {
    pub from: F64,
    pub to: F64,
    pub initial_velocity: F64,
    pub params: SpringParams,
}

/// How long a spring moves: until it rests, and until it first reaches its
/// target, where that is known.
#[derive(Clone, Copy, Debug, PartialEq, Eq, Structural)]
pub struct SpringTimes {
    pub duration: u128,
    pub clamped_duration: Option<u128>,
}

#[derive(Clone, Copy, Debug, PartialEq, Eq, Structural)]
pub enum AnimationKind {
    Easing { curve: Curve },
    Spring { spring: Spring },
}

/// A time-based animation from `from` to `to`.
#[derive(Clone, Copy, Debug, PartialEq, Eq, Structural)]
pub struct Animation {
    pub from: F64,
    pub to: F64,
    pub initial_velocity: F64,
    pub is_off: bool,
    pub duration: u128,
    /// Time until the animation first reaches `to`.
    pub clamped_duration: u128,
    pub start_time: u128,
    pub kind: AnimationKind,
}

/// What an animation's value is at some moment.
#[derive(Clone, Copy, Debug, PartialEq, Eq, Structural)]
pub enum AnimationValue {
    /// Exactly this number.
    Exact { value: F64 },
    /// The curve at `passed / total`, stretched over `from..to`.
    Eased { curve: Curve, passed: u128, total: u128, from: F64, to: F64 },
    /// The spring after `passed`, held within ten times the range around `from..to`.
    Sprung { spring: Spring, passed: u128, from: F64, to: F64 },
}

/// Time from `start` to `now`; none if `now` comes first.
pub open spec fn time_between(start: u128, now: u128) -> int {
    if now >= start {
        now - start
    } else {
        0
    }
}

fn elapsed_since(start: u128, now: u128) -> (d: u128)
    ensures
        d == time_between(start, now),
{
    if now >= start {
        now - start
    } else {
        0
    }
}

impl Animation {
    pub open spec fn done_at(self, now: u128) -> bool {
        self.is_off || time_between(self.start_time, now) >= self.duration
    }

    pub open spec fn clamped_done_at(self, now: u128) -> bool {
        self.is_off || time_between(self.start_time, now) >= self.clamped_duration
    }

    pub open spec fn value_after(self, elapsed: u128) -> AnimationValue {
        if elapsed >= self.duration || self.is_off {
            AnimationValue::Exact { value: self.to }
        } else {
            match self.kind {
                AnimationKind::Easing { curve } => AnimationValue::Eased {
                    curve,
                    passed: elapsed,
                    total: self.duration,
                    from: self.from,
                    to: self.to,
                },
                AnimationKind::Spring { spring } => AnimationValue::Sprung {
                    spring,
                    passed: elapsed,
                    from: self.from,
                    to: self.to,
                },
            }
        }
    }

    pub open spec fn eased(from: F64, to: F64, duration_ms: u32, curve: Curve, now: u128) -> Animation {
        Animation {
            from,
            to,
            initial_velocity: F64 { bits: 0 },
            is_off: false,
            duration: (duration_ms * NANOS_PER_MILLI) as u128,
            clamped_duration: (duration_ms * NANOS_PER_MILLI) as u128,
            start_time: now,
            kind: AnimationKind::Easing { curve },
        }
    }

    pub open spec fn sprung(
        from: F64,
        to: F64,
        spring: Spring,
        times: SpringTimes,
        now: u128,
    ) -> Animation {
        Animation {
            from,
            to,
            initial_velocity: spring.initial_velocity,
            is_off: false,
            duration: times.duration,
            clamped_duration: match times.clamped_duration {
                Some(d) => d,
                None => times.duration,
            },
            start_time: now,
            kind: AnimationKind::Spring { spring: Spring { from, to, ..spring } },
        }
    }

    pub open spec fn off(now: u128) -> Animation {
        Animation {
            from: F64 { bits: 0 },
            to: F64 { bits: ONE_BITS },
            initial_velocity: F64 { bits: 0 },
            is_off: true,
            duration: 0,
            clamped_duration: 0,
            start_time: now,
            kind: AnimationKind::Easing { curve: Curve::Linear },
        }
    }

    /// An animation that reaches its target at once.
    pub fn new_off(now: u128) -> (a: Animation)
        ensures
            a == Animation::off(now),
    {
        Animation {
            from: F64 { bits: 0 },
            to: F64 { bits: ONE_BITS },
            initial_velocity: F64 { bits: 0 },
            is_off: true,
            duration: 0,
            clamped_duration: 0,
            start_time: now,
            kind: AnimationKind::Easing { curve: Curve::Linear },
        }
    }

    /// An easing animation that starts at `now`.
    pub fn ease(from: F64, to: F64, duration_ms: u32, curve: Curve, now: u128) -> (a: Animation)
        ensures
            a == Animation::eased(from, to, duration_ms, curve, now),
    {
        let duration: u128 = duration_ms as u128 * NANOS_PER_MILLI;
        Animation {
            from,
            to,
            initial_velocity: F64 { bits: 0 },
            is_off: false,
            duration,
            clamped_duration: duration,
            start_time: now,
            kind: AnimationKind::Easing { curve },
        }
    }

    /// A spring animation that starts at `now`; `times` are those of `spring`.
    pub fn spring(from: F64, to: F64, spring: Spring, times: SpringTimes, now: u128) -> (a: Animation)
        ensures
            a == Animation::sprung(from, to, spring, times, now),
    {
        Animation {
            from,
            to,
            initial_velocity: spring.initial_velocity,
            is_off: false,
            duration: times.duration,
            clamped_duration: match times.clamped_duration {
                Some(d) => d,
                None => times.duration,
            },
            start_time: now,
            kind: AnimationKind::Spring {
                spring: Spring {
                    from,
                    to,
                    initial_velocity: spring.initial_velocity,
                    params: spring.params,
                },
            },
        }
    }

    /// Whether `a` is the animation begun again between other values, of the same
    /// kind.
    pub open spec fn restarts_as(
        self,
        from: F64,
        to: F64,
        initial_velocity: F64,
        times: SpringTimes,
        now: u128,
        a: Animation,
    ) -> bool {
        if self.is_off {
            a == (Animation { from, to, start_time: now, ..self })
        } else {
            match self.kind {
                AnimationKind::Easing { curve } => a == Animation::eased(
                    from,
                    to,
                    (self.duration / NANOS_PER_MILLI) as u32,
                    curve,
                    now,
                ),
                AnimationKind::Spring { spring } => a == Animation::sprung(
                    from,
                    to,
                    Spring { from, to, initial_velocity, params: spring.params },
                    times,
                    now,
                ),
            }
        }
    }

    /// The animation begun again between other values, of the same kind; one
    /// that is off stays off. `times` are those of the new spring, and are
    /// read only if the animation is one.
    pub fn restarted(
        &self,
        from: F64,
        to: F64,
        initial_velocity: F64,
        times: SpringTimes,
        now: u128,
    ) -> (a: Animation)
        ensures
            self.restarts_as(from, to, initial_velocity, times, now, a),
    {
        if self.is_off {
            return Animation { from, to, start_time: now, ..*self };
        }
        match self.kind {
            AnimationKind::Easing { curve } => {
                let millis: u32 = #[verifier::truncate]
                ((self.duration / NANOS_PER_MILLI) as u32);
                Animation::ease(from, to, millis, curve, now)
            },
            AnimationKind::Spring { spring } => Animation::spring(
                from,
                to,
                Spring { from, to, initial_velocity, params: spring.params },
                times,
                now,
            ),
        }
    }

    /// Where the animation starts.
    pub fn from(&self) -> (v: F64)
        ensures
            v == self.from,
    {
        self.from
    }

    /// Where the animation ends.
    pub fn to(&self) -> (v: F64)
        ensures
            v == self.to,
    {
        self.to
    }

    /// How long the animation takes.
    pub fn duration(&self) -> (d: u128)
        ensures
            d == self.duration,
    {
        self.duration
    }

    /// Whether the animation has completed.
    pub fn is_done(&self, now: u128) -> (r: bool)
        ensures
            r == self.done_at(now),
    {
        self.is_off || elapsed_since(self.start_time, now) >= self.duration
    }

    /// Whether the animation has reached its target value.
    pub fn is_clamped_done(&self, now: u128) -> (r: bool)
        ensures
            r == self.clamped_done_at(now),
    {
        self.is_off || elapsed_since(self.start_time, now) >= self.clamped_duration
    }

    /// The value after some time.
    pub fn value_at(&self, elapsed: u128) -> (v: AnimationValue)
        ensures
            v == self.value_after(elapsed),
    {
        if elapsed >= self.duration || self.is_off {
            return AnimationValue::Exact { value: self.to };
        }
        match self.kind {
            AnimationKind::Easing { curve } => AnimationValue::Eased {
                curve,
                passed: elapsed,
                total: self.duration,
                from: self.from,
                to: self.to,
            },
            AnimationKind::Spring { spring } => AnimationValue::Sprung {
                spring,
                passed: elapsed,
                from: self.from,
                to: self.to,
            },
        }
    }

    pub open spec fn value_now(self, now: u128) -> AnimationValue {
        if self.is_off {
            AnimationValue::Exact { value: self.to }
        } else {
            self.value_after(time_between(self.start_time, now) as u128)
        }
    }

    /// The value at the time `now`.
    pub fn value(&self, now: u128) -> (v: AnimationValue)
        ensures
            v == self.value_now(now),
    {
        if self.is_off {
            return AnimationValue::Exact { value: self.to };
        }
        self.value_at(elapsed_since(self.start_time, now))
    }

    /// The value at the time `now`, which stays at the target once that has
    /// first been reached.
    pub fn clamped_value(&self, now: u128) -> (v: AnimationValue)
        ensures
            v == (if self.clamped_done_at(now) {
                AnimationValue::Exact { value: self.to }
            } else {
                self.value_now(now)
            }),
    {
        if self.is_clamped_done(now) {
            return AnimationValue::Exact { value: self.to };
        }
        self.value(now)
    }
}

/// An animation that is begun again, even one that is off, runs between the new
/// values.
pub proof fn restarts_take_new_values(
    before: Animation,
    from: F64,
    to: F64,
    initial_velocity: F64,
    times: SpringTimes,
    now: u128,
    after: Animation,
)
    requires
        before.restarts_as(from, to, initial_velocity, times, now, after),
    ensures
        after.from == from && after.to == to && after.start_time == now,
        after.is_off == before.is_off,
{
}

/// Once done, an animation stays done, and its value is its target.
pub proof fn done_is_final(a: Animation, now: u128, later: u128)
    requires
        now <= later,
        a.done_at(now),
    ensures
        a.done_at(later),
        a.value_now(later) == (AnimationValue::Exact { value: a.to }),
{
}

/// An easing animation never overshoots: it has reached its target exactly when
/// it is done.
pub proof fn easing_never_overshoots(
    from: F64,
    to: F64,
    duration_ms: u32,
    curve: Curve,
    start: u128,
    now: u128,
)
    ensures
        Animation::eased(from, to, duration_ms, curve, start).clamped_done_at(now)
            == Animation::eased(from, to, duration_ms, curve, start).done_at(now),
{
}

/// What moves is done once its time has passed, and at once if it is off; time
/// that runs backwards counts as none.
pub proof fn movements_take_their_time(a: Animation, now: u128)
    ensures
        a.is_off ==> a.done_at(now) && a.clamped_done_at(now),
        !a.is_off && now >= a.start_time ==> (a.done_at(now) <==> now - a.start_time >= a.duration)
            && (a.clamped_done_at(now) <==> now - a.start_time >= a.clamped_duration),
        !a.is_off && now < a.start_time ==> (a.done_at(now) <==> a.duration == 0),
{
}

/// A movement that is done is exactly at its end; before that its value comes
/// from its own kind, with its own ends, after the time that has passed.
pub proof fn movements_end_at_their_end(a: Animation, now: u128)
    ensures
        a.done_at(now) ==> a.value_now(now) == (AnimationValue::Exact { value: a.to }),
        !a.done_at(now) ==> {
            &&& a.kind matches AnimationKind::Easing { curve: c } ==> (
            a.value_now(now) matches AnimationValue::Eased { curve, passed, total, from, to }
                && curve == c && total == a.duration && from == a.from && to == a.to && passed
                < total && (now >= a.start_time ==> passed == now - a.start_time) && (now
                < a.start_time ==> passed == 0))
            &&& a.kind matches AnimationKind::Spring { spring: s } ==> (
            a.value_now(now) matches AnimationValue::Sprung { spring, passed, from, to } && spring
                == s && from == a.from && to == a.to && (now >= a.start_time ==> passed == now
                - a.start_time))
        },
{
}

/// A movement begins now and goes between the ends that it was given: by a curve
/// for its milliseconds, by a spring for as long as the spring takes, and a
/// movement that is off is over at once.
pub proof fn movements_begin_now(
    from: F64,
    to: F64,
    duration_ms: u32,
    curve: Curve,
    spring: Spring,
    times: SpringTimes,
    now: u128,
)
    ensures
        ({
            let e = Animation::eased(from, to, duration_ms, curve, now);
            &&& e.from == from && e.to == to && e.start_time == now && !e.is_off
            &&& e.duration == duration_ms * 1_000_000 && e.clamped_duration == e.duration
            &&& e.kind matches AnimationKind::Easing { curve: c } && c == curve
        }),
        ({
            let s = Animation::sprung(from, to, spring, times, now);
            &&& s.from == from && s.to == to && s.start_time == now && !s.is_off
            &&& s.duration == times.duration
            &&& times.clamped_duration matches Some(d) ==> s.clamped_duration == d
            &&& times.clamped_duration is None ==> s.clamped_duration == times.duration
            &&& s.kind matches AnimationKind::Spring { spring: k } && k.from == from && k.to == to
                && k.params == spring.params && k.initial_velocity == spring.initial_velocity
        }),
        Animation::off(now).is_off && Animation::off(now).done_at(now),
{
}

} // verus!
