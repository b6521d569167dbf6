//! Screen casts: which run, what each shows, and what ends them.
use vstd::prelude::*;
use vstd::multiset::Multiset;
use crate::decimal::{decimal, unsigned_text};
use crate::geometry::Size;
use crate::state::{AnvilState, Output, Space};
use crate::text::same;

verus! {

/// Number of a screen-cast session.
#[derive(Clone, Copy, Debug, PartialEq, Eq, Structural)]
pub struct CastSessionId(pub u64);

/// Number of a stream of a session.
#[derive(Clone, Copy, Debug, PartialEq, Eq, Structural)]
pub struct CastStreamId(pub u64);

/// Hands out the numbers of sessions and of streams, each from 1 on.
#[derive(Clone, Copy, Debug, PartialEq, Eq, Structural)]
pub struct IdCounter {
    pub next_session: u64,
    pub next_stream: u64,
}

/// The number after `n`, round again after the last.
pub open spec fn following(n: u64) -> u64 {
    if n == u64::MAX {
        0
    } else {
        (n + 1) as u64
    }
}

impl IdCounter {
    pub open spec fn fresh() -> IdCounter {
        IdCounter { next_session: 1, next_stream: 1 }
    }

    pub fn new() -> (c: IdCounter)
        ensures
            c == IdCounter::fresh(),
    {
        IdCounter { next_session: 1, next_stream: 1 }
    }

    /// The counter after it gave a session its number.
    pub open spec fn after_session(self) -> IdCounter {
        IdCounter { next_session: following(self.next_session), ..self }
    }

    /// The counter after it gave a stream its number.
    pub open spec fn after_stream(self) -> IdCounter {
        IdCounter { next_stream: following(self.next_stream), ..self }
    }

    /// The counter after the first `upto` calls, of which those that are true
    /// were for sessions and the others for streams.
    pub open spec fn after(self, calls: Seq<bool>, upto: int) -> IdCounter
        decreases upto,
    {
        if upto <= 0 {
            self
        } else if calls[upto - 1] {
            self.after(calls, upto - 1).after_session()
        } else {
            self.after(calls, upto - 1).after_stream()
        }
    }
}

/// How many of the first `upto` calls were for sessions, or for streams.
pub open spec fn calls_for(calls: Seq<bool>, sessions: bool, upto: int) -> int
    decreases upto,
{
    if upto <= 0 {
        0
    } else {
        calls_for(calls, sessions, upto - 1) + (if calls[upto - 1] == sessions {
            1int
        } else {
            0int
        })
    }
}

proof fn counts_are_calls(calls: Seq<bool>, upto: int)
    requires
        0 <= upto <= calls.len() < u64::MAX,
    ensures
        IdCounter::fresh().after(calls, upto).next_session == 1 + calls_for(calls, true, upto),
        IdCounter::fresh().after(calls, upto).next_stream == 1 + calls_for(calls, false, upto),
        0 <= calls_for(calls, true, upto),
        0 <= calls_for(calls, false, upto),
        calls_for(calls, true, upto) + calls_for(calls, false, upto) == upto,
    decreases upto,
{
    if upto > 0 {
        counts_are_calls(calls, upto - 1);
    }
}

proof fn calls_grow(calls: Seq<bool>, sessions: bool, i: int, j: int)
    requires
        0 <= i <= j <= calls.len(),
    ensures
        calls_for(calls, sessions, i) <= calls_for(calls, sessions, j),
        (forall|k: int| i <= k < j ==> calls[k] != sessions) ==> calls_for(calls, sessions, i)
            == calls_for(calls, sessions, j),
    decreases j - i,
{
    if i < j {
        calls_grow(calls, sessions, i, j - 1);
    }
}

/// Over any calls, as long as the numbers last, no number of a session is 0 or
/// comes twice: the later session has the higher number, the next one if no
/// session came between, and streams use none up. The same holds of streams.
pub proof fn numbers_grow(calls: Seq<bool>, i: int, j: int)
    requires
        0 <= i < j < calls.len() < u64::MAX,
    ensures
        ({
            let first = IdCounter::fresh().after(calls, i);
            let second = IdCounter::fresh().after(calls, j);
            let between = |sessions: bool| exists|k: int| i < k < j && calls[k] == sessions;
            &&& calls[i] ==> 1 <= first.next_session < second.next_session
            &&& calls[i] && !between(true) ==> second.next_session == first.next_session + 1
            &&& !calls[i] ==> 1 <= first.next_stream < second.next_stream
            &&& !calls[i] && !between(false) ==> second.next_stream == first.next_stream + 1
        }),
{
    counts_are_calls(calls, i);
    counts_are_calls(calls, j);
    calls_grow(calls, true, i + 1, j);
    calls_grow(calls, false, i + 1, j);
}

impl CastSessionId {
    /// A number that the counter has not handed out before (until it comes round).
    pub fn next(counter: &mut IdCounter) -> (id: CastSessionId)
        ensures
            id.0 == old(counter).next_session,
            *final(counter) == old(counter).after_session(),
    {
        let n: u64 = counter.next_session;
        counter.next_session = n.wrapping_add(1);
        CastSessionId(n)
    }

    pub fn get(self) -> (n: u64)
        ensures
            n == self.0,
    {
        self.0
    }

    /// The number in decimal.
    pub fn text(self) -> (s: String)
        ensures
            s@ == decimal(self.0 as int),
    {
        unsigned_text(self.0)
    }
}

impl CastStreamId {
    /// A number that the counter has not handed out before (until it comes round).
    pub fn next(counter: &mut IdCounter) -> (id: CastStreamId)
        ensures
            id.0 == old(counter).next_stream,
            *final(counter) == old(counter).after_stream(),
    {
        let n: u64 = counter.next_stream;
        counter.next_stream = n.wrapping_add(1);
        CastStreamId(n)
    }

    pub fn get(self) -> (n: u64)
        ensures
            n == self.0,
    {
        self.0
    }

    /// The number in decimal.
    pub fn text(self) -> (s: String)
        ensures
            s@ == decimal(self.0 as int),
    {
        unsigned_text(self.0)
    }
}

/// What a cast shows.
#[derive(Debug, PartialEq, Eq)]
pub enum CastTarget {
    Nothing,
    Output { output: u64, name: String },
    Window { id: u64 },
}

impl Clone for CastTarget {
    fn clone(&self) -> (r: CastTarget)
        ensures
            r == *self,
    {
        match self {
            CastTarget::Nothing => CastTarget::Nothing,
            CastTarget::Output { output, name } => CastTarget::Output {
                output: *output,
                name: name.clone(),
            },
            CastTarget::Window { id } => CastTarget::Window { id: *id },
        }
    }
}

impl CastTarget {
    pub open spec fn shows_output(self, id: u64) -> bool {
        self matches CastTarget::Output { output, .. } && output == id
    }

    /// The target that shows an output.
    pub fn output(output: &Output) -> (t: CastTarget)
        ensures
            t == (CastTarget::Output { output: output.id, name: output.name }),
    {
        CastTarget::Output { output: output.id, name: output.name.clone() }
    }

    /// Whether the target is this output.
    pub fn matches_output(&self, id: u64) -> (r: bool)
        ensures
            r == self.shows_output(id),
    {
        match self {
            CastTarget::Output { output, .. } => *output == id,
            _ => false,
        }
    }
}

/// How the cursor comes into a cast.
#[derive(Clone, Copy, Debug, PartialEq, Eq, Structural)]
pub enum CursorMode {
    Hidden,
    Embedded,
    Metadata,
}

/// A running stream.
#[derive(Debug, PartialEq, Eq)]
pub struct Cast {
    pub session_id: CastSessionId,
    pub stream_id: CastStreamId,
    pub target: CastTarget,
    pub cursor_mode: CursorMode,
    /// Whether the other side takes frames.
    pub active: bool,
    /// Whether the target was set after the start.
    pub dynamic_target: bool,
    /// When the last frame was rendered, in nanoseconds.
    pub last_frame_time: u128,
}

/// A stream that was asked for and whose target is still to come.
#[derive(Clone, Copy, Debug, PartialEq, Eq, Structural)]
pub struct PendingCast {
    pub session_id: CastSessionId,
    pub stream_id: CastStreamId,
    pub cursor_mode: CursorMode,
}

/// All that is known of screen casts.
#[derive(Debug, PartialEq, Eq)]
pub struct Screencasting {
    pub casts: Vec<Cast>,
    /// Whether the PipeWire connection is up.
    pub pipewire: bool,
    pub pending_dynamic_casts: Vec<PendingCast>,
}

impl Screencasting {
    pub fn new() -> (s: Screencasting)
        ensures
            s.casts@.len() == 0,
            !s.pipewire,
            s.pending_dynamic_casts@.len() == 0,
    {
        Screencasting { casts: Vec::new(), pipewire: false, pending_dynamic_casts: Vec::new() }
    }

    /// No casts, for a session that cannot have any.
    pub fn new_stub() -> (s: Screencasting)
        ensures
            s.casts@.len() == 0,
            !s.pipewire,
            s.pending_dynamic_casts@.len() == 0,
    {
        Screencasting::new()
    }
}

/// What is to be done outside after a change of the casts.
#[derive(Debug, PartialEq, Eq)]
pub struct CastEffects {
    /// Streams to disconnect, in this order.
    pub disconnect: Vec<CastStreamId>,
    /// Bus objects of sessions to stop, in this order.
    pub stop_sessions: Vec<String>,
    /// Outputs to redraw, in this order.
    pub redraw: Vec<u64>,
}

impl CastEffects {
    pub fn new() -> (e: CastEffects)
        ensures
            e.disconnect@.len() == 0,
            e.stop_sessions@.len() == 0,
            e.redraw@.len() == 0,
    {
        CastEffects { disconnect: Vec::new(), stop_sessions: Vec::new(), redraw: Vec::new() }
    }
}

/// A message from PipeWire.
#[derive(Clone, Copy, Debug, PartialEq, Eq, Structural)]
pub enum PwToState {
    StopCast { session_id: CastSessionId },
    Redraw { stream_id: CastStreamId },
    FatalError,
}

/// The path of a session's bus object.
pub open spec fn session_path(id: CastSessionId) -> Seq<char> {
    "/org/gnome/Mutter/ScreenCast/Session/u"@ + decimal(id.0 as int)
}

/// The path of a session's bus object.
pub fn session_object_path(id: CastSessionId) -> (p: String)
    ensures
        p@ == session_path(id),
{
    let mut path = "/org/gnome/Mutter/ScreenCast/Session/u".to_owned();
    path.append(id.text().as_str());
    path
}

/// The texts of some paths.
pub open spec fn path_texts(paths: Seq<String>) -> Seq<Seq<char>> {
    paths.map_values(|p: String| p@)
}

/// The bus objects that are told of the end of some sessions: theirs, where
/// there is a bus.
pub open spec fn told_paths(state: AnvilState, ids: Seq<CastSessionId>) -> Seq<Seq<char>> {
    if state.dbus {
        ids.map_values(|id: CastSessionId| session_path(id))
    } else {
        Seq::empty()
    }
}

/// `items` with the one at `at` taken out and the last one put in its place.
pub open spec fn taken<A>(items: Seq<A>, at: int) -> Seq<A> {
    items.update(at, items.last()).drop_last()
}

/// The streams of some casts.
pub open spec fn streams(casts: Seq<Cast>) -> Seq<CastStreamId> {
    casts.map_values(|c: Cast| c.stream_id)
}

/// The casts that stay when a session ends: going down from `upto`, each cast
/// of the session is taken out.
pub open spec fn stopped(casts: Seq<Cast>, id: CastSessionId, upto: int) -> Seq<Cast>
    decreases upto,
{
    if upto <= 0 {
        casts
    } else if casts[upto - 1].session_id == id {
        stopped(taken(casts, upto - 1), id, upto - 1)
    } else {
        stopped(casts, id, upto - 1)
    }
}

/// The streams of a session among the first `upto` casts, the last first.
pub open spec fn streams_of(casts: Seq<Cast>, id: CastSessionId, upto: int) -> Seq<CastStreamId>
    decreases upto,
{
    if upto <= 0 {
        Seq::empty()
    } else if casts[upto - 1].session_id == id {
        seq![casts[upto - 1].stream_id] + streams_of(casts, id, upto - 1)
    } else {
        streams_of(casts, id, upto - 1)
    }
}

/// The streams still to come, without those of a session.
pub open spec fn still_pending(pending: Seq<PendingCast>, id: CastSessionId) -> Seq<PendingCast> {
    pending.filter(|p: PendingCast| p.session_id != id)
}

/// Which casts belong to other sessions.
pub open spec fn of_other_session(id: CastSessionId) -> spec_fn(Cast) -> bool {
    |c: Cast| c.session_id != id
}

proof fn stopped_keeps_others(casts: Seq<Cast>, id: CastSessionId, upto: int)
    requires
        0 <= upto <= casts.len(),
        forall|i: int| upto <= i < casts.len() ==> (#[trigger] casts[i]).session_id != id,
    ensures
        stopped(casts, id, upto).to_multiset() == casts.to_multiset().filter(of_other_session(id)),
        forall|i: int|
            0 <= i < stopped(casts, id, upto).len() ==> (#[trigger] stopped(
                casts,
                id,
                upto,
            )[i]).session_id != id,
    decreases upto,
{
    broadcast use vstd::multiset::group_multiset_axioms;

    if upto <= 0 {
        casts.to_multiset_ensures();
        assert forall|c: Cast| casts.to_multiset().count(c) == casts.to_multiset().filter(
            of_other_session(id),
        ).count(c) by {
            if casts.to_multiset().count(c) > 0 {
                assert(casts.contains(c));
            }
        }
        assert(casts.to_multiset() =~= casts.to_multiset().filter(of_other_session(id)));
    } else if casts[upto - 1].session_id == id {
        let rest = taken(casts, upto - 1);
        assert forall|i: int| upto - 1 <= i < rest.len() implies (#[trigger] rest[i]).session_id
            != id by {
            if i == upto - 1 {
                assert(rest[i] == casts.last());
                assert(casts[casts.len() - 1].session_id != id);
            } else {
                assert(rest[i] == casts[i]);
            }
        }
        stopped_keeps_others(rest, id, upto - 1);
        taken_multiset(casts, upto - 1);
        assert(rest.to_multiset().filter(of_other_session(id)) =~= casts.to_multiset().filter(
            of_other_session(id),
        ));
    } else {
        stopped_keeps_others(casts, id, upto - 1);
    }
}

proof fn taken_multiset<A>(casts: Seq<A>, at: int)
    requires
        0 <= at < casts.len(),
    ensures
        taken(casts, at).to_multiset() == casts.to_multiset().remove(casts[at]),
{
    broadcast use vstd::multiset::group_multiset_axioms;

    casts.to_multiset_ensures();
    let last = casts.len() - 1;
    if at == last {
        assert(taken(casts, at) == casts.remove(at));
    } else {
        let front = casts.drop_last();
        assert(front == casts.remove(last));
        front.to_multiset_ensures();
        let gap = front.remove(at);
        vstd::seq_lib::to_multiset_insert(gap, at, casts.last());
        assert(taken(casts, at) == gap.insert(at, casts.last()));
        assert(gap.insert(at, casts.last()).to_multiset() == gap.to_multiset().insert(casts.last()));
        assert(gap.to_multiset() == front.to_multiset().remove(casts[at]));
        assert(front.to_multiset() == casts.to_multiset().remove(casts.last()));
        assert(casts.contains(casts[at]));
        assert(casts.to_multiset().count(casts.last()) > 0);
        assert(front.contains(front[at]));
        assert(front.to_multiset().count(casts[at]) > 0);
        assert(taken(casts, at).to_multiset() =~= casts.to_multiset().remove(casts[at]));
    }
}

proof fn streams_of_prefix(a: Seq<Cast>, b: Seq<Cast>, id: CastSessionId, upto: int)
    requires
        upto <= a.len(),
        upto <= b.len(),
        forall|i: int| 0 <= i < upto ==> a[i] == b[i],
    ensures
        streams_of(a, id, upto) == streams_of(b, id, upto),
    decreases upto,
{
    if upto > 0 {
        streams_of_prefix(a, b, id, upto - 1);
    }
}

proof fn no_streams()
    ensures
        Seq::<CastStreamId>::empty().to_multiset() == Multiset::<CastStreamId>::empty(),
{
    broadcast use vstd::multiset::group_multiset_axioms;

    let none = Seq::<CastStreamId>::empty();
    none.to_multiset_ensures();
    assert forall|x: CastStreamId| none.to_multiset().count(x) == 0 by {
        assert(!none.contains(x));
    }
    assert(none.to_multiset() =~= Multiset::<CastStreamId>::empty());
}

proof fn streams_leave_or_stay(casts: Seq<Cast>, id: CastSessionId, upto: int)
    requires
        0 <= upto <= casts.len(),
    ensures
        streams_of(casts, id, upto).to_multiset().add(
            streams(stopped(casts, id, upto)).to_multiset(),
        ) == streams(casts).to_multiset(),
    decreases upto,
{
    broadcast use vstd::multiset::group_multiset_axioms;

    if upto <= 0 {
        no_streams();
        assert(streams_of(casts, id, upto).to_multiset().add(
            streams(stopped(casts, id, upto)).to_multiset(),
        ) =~= streams(casts).to_multiset());
    } else if casts[upto - 1].session_id == id {
        let at = upto - 1;
        let stream = casts[at].stream_id;
        let rest = taken(casts, at);
        streams_leave_or_stay(rest, id, at);
        streams_of_prefix(casts, rest, id, at);
        taken_multiset(streams(casts), at);
        assert(streams(rest) == taken(streams(casts), at));
        let tail = streams_of(casts, id, at);
        assert(seq![stream] + tail == tail.insert(0, stream));
        vstd::seq_lib::to_multiset_insert(tail, 0, stream);
        streams(casts).to_multiset_ensures();
        assert(streams(casts).contains(streams(casts)[at]));
        assert(streams(casts).to_multiset().count(stream) > 0);
        assert(streams_of(casts, id, upto) == seq![stream] + tail);
        assert(stopped(casts, id, upto) == stopped(rest, id, at));
        let kept = streams(stopped(rest, id, at)).to_multiset();
        assert(tail.to_multiset().add(kept) == streams(casts).to_multiset().remove(stream));
        assert(streams_of(casts, id, upto).to_multiset() == tail.to_multiset().insert(stream));
        let all = streams(casts).to_multiset();
        assert(all.count(stream) > 0);
        assert forall|x: CastStreamId|
            tail.to_multiset().insert(stream).add(kept).count(x) == all.count(x) by {
            assert(tail.to_multiset().add(kept).count(x) == all.remove(stream).count(x));
        }
        assert(tail.to_multiset().insert(stream).add(kept) =~= all);
    } else {
        streams_leave_or_stay(casts, id, upto - 1);
    }
}

/// When a session ends, every stream is either disconnected or still there.
pub proof fn no_stream_is_lost(casts: Seq<Cast>, id: CastSessionId)
    ensures
        streams_of(casts, id, casts.len() as int).to_multiset().add(
            streams(stopped(casts, id, casts.len() as int)).to_multiset(),
        ) == streams(casts).to_multiset(),
{
    streams_leave_or_stay(casts, id, casts.len() as int);
}

/// Stopping a session takes out all of its casts, and no other.
pub proof fn stop_is_exact(casts: Seq<Cast>, id: CastSessionId)
    ensures
        stopped(casts, id, casts.len() as int).to_multiset() == casts.to_multiset().filter(
            of_other_session(id),
        ),
        forall|i: int|
            0 <= i < stopped(casts, id, casts.len() as int).len() ==> (#[trigger] stopped(
                casts,
                id,
                casts.len() as int,
            )[i]).session_id != id,
{
    stopped_keeps_others(casts, id, casts.len() as int);
}

impl AnvilState {
    /// Ends a session: its casts go, its pending streams go, and its bus object
    /// is told, where there is a bus.
    pub fn stop_cast(&mut self, session_id: CastSessionId, effects: &mut CastEffects)
        ensures
            final(self).screencasting.casts@ == stopped(
                old(self).screencasting.casts@,
                session_id,
                old(self).screencasting.casts@.len() as int,
            ),
            final(self).screencasting.pending_dynamic_casts@ == still_pending(
                old(self).screencasting.pending_dynamic_casts@,
                session_id,
            ),
            *final(self) == (AnvilState {
                screencasting: Screencasting {
                    pipewire: old(self).screencasting.pipewire,
                    ..final(self).screencasting
                },
                ..*old(self)
            }),
            final(effects).disconnect@ == old(effects).disconnect@ + streams_of(
                old(self).screencasting.casts@,
                session_id,
                old(self).screencasting.casts@.len() as int,
            ),
            path_texts(final(effects).stop_sessions@) == path_texts(old(effects).stop_sessions@)
                + told_paths(*old(self), seq![session_id]),
            final(effects).redraw@ == old(effects).redraw@,
    {
        let ghost casts0 = self.screencasting.casts@;
        let ghost gone0 = effects.disconnect@;
        let mut i: usize = self.screencasting.casts.len();
        while i > 0
            invariant
                i <= self.screencasting.casts@.len() <= casts0.len(),
                stopped(casts0, session_id, casts0.len() as int) == stopped(
                    self.screencasting.casts@,
                    session_id,
                    i as int,
                ),
                forall|k: int| 0 <= k < i ==> self.screencasting.casts@[k] == casts0[k],
                gone0 + streams_of(casts0, session_id, casts0.len() as int) == effects.disconnect@
                    + streams_of(casts0, session_id, i as int),
                self.screencasting.pending_dynamic_casts == old(self).screencasting.pending_dynamic_casts,
                *self == (AnvilState {
                    screencasting: Screencasting {
                        casts: self.screencasting.casts,
                        ..old(self).screencasting
                    },
                    ..*old(self)
                }),
                effects.stop_sessions@ == old(effects).stop_sessions@,
                effects.redraw@ == old(effects).redraw@,
            decreases i,
        {
            i = i - 1;
            if self.screencasting.casts[i].session_id == session_id {
                let cast = self.screencasting.casts.swap_remove(i);
                let ghost before = effects.disconnect@;
                effects.disconnect.push(cast.stream_id);
                assert(before + (seq![cast.stream_id] + streams_of(casts0, session_id, i as int))
                    =~= effects.disconnect@ + streams_of(casts0, session_id, i as int));
            }
        }
        assert(effects.disconnect@ + Seq::<CastStreamId>::empty() =~= effects.disconnect@);

        let ghost pending0 = self.screencasting.pending_dynamic_casts@;
        let mut kept: Vec<PendingCast> = Vec::new();
        let mut j: usize = 0;
        while j < self.screencasting.pending_dynamic_casts.len()
            invariant
                pending0 == self.screencasting.pending_dynamic_casts@,
                j <= pending0.len(),
                kept@ == still_pending(pending0.take(j as int), session_id),
            decreases pending0.len() - j,
        {
            let p = self.screencasting.pending_dynamic_casts[j];
            proof {
                assert(pending0.take(j + 1).drop_last() == pending0.take(j as int));
                reveal(Seq::filter);
            }
            if p.session_id != session_id {
                kept.push(p);
            }
            j = j + 1;
        }
        assert(pending0.take(pending0.len() as int) == pending0);
        self.screencasting.pending_dynamic_casts = kept;

        let ghost paths0 = effects.stop_sessions@;
        if self.dbus {
            effects.stop_sessions.push(session_object_path(session_id));
        }
        assert(path_texts(effects.stop_sessions@) =~= path_texts(paths0) + told_paths(
            *old(self),
            seq![session_id],
        ));
    }
}

/// Whether one of the casts belongs to the session.
pub open spec fn runs_session(casts: Seq<Cast>, id: CastSessionId) -> bool {
    exists|i: int| 0 <= i < casts.len() && (#[trigger] casts[i]).session_id == id
}

proof fn filter_twice(
    pending: Seq<PendingCast>,
    first: spec_fn(PendingCast) -> bool,
    second: spec_fn(PendingCast) -> bool,
    both: spec_fn(PendingCast) -> bool,
)
    requires
        forall|p: PendingCast| #[trigger] both(p) == (first(p) && second(p)),
    ensures
        pending.filter(first).filter(second) == pending.filter(both),
    decreases pending.len(),
{
    reveal(Seq::filter);
    if pending.len() > 0 {
        filter_twice(pending.drop_last(), first, second, both);
        let head = pending.drop_last().filter(first);
        assert(head.push(pending.last()).drop_last() == head);
    }
}

/// The streams still to come, without those of any of the sessions.
pub open spec fn pending_without(pending: Seq<PendingCast>, ids: Seq<CastSessionId>) -> Seq<
    PendingCast,
> {
    pending.filter(|p: PendingCast| !ids.contains(p.session_id))
}

/// The position of the first cast with this stream.
pub open spec fn cast_at(casts: Seq<Cast>, id: CastStreamId, at: int) -> bool {
    &&& 0 <= at < casts.len()
    &&& casts[at].stream_id == id
    &&& forall|i: int| 0 <= i < at ==> (#[trigger] casts[i]).stream_id != id
}

pub open spec fn lacks_stream(casts: Seq<Cast>, id: CastStreamId) -> bool {
    forall|i: int| 0 <= i < casts.len() ==> (#[trigger] casts[i]).stream_id != id
}

fn find_cast(casts: &Vec<Cast>, id: CastStreamId) -> (r: Option<usize>)
    ensures
        match r {
            Some(i) => cast_at(casts@, id, i as int),
            None => lacks_stream(casts@, id),
        },
{
    let mut i: usize = 0;
    while i < casts.len()
        invariant
            i <= casts@.len(),
            forall|k: int| 0 <= k < i ==> (#[trigger] casts@[k]).stream_id != id,
        decreases casts@.len() - i,
    {
        if casts[i].stream_id == id {
            return Some(i);
        }
        i = i + 1;
    }
    None
}

/// The ids of all outputs.
pub open spec fn output_ids(space: Space) -> Seq<u64> {
    space.outputs@.map_values(|o: Output| o.id)
}

/// The outputs to redraw for a cast: its own, if that is among those that live,
/// mapped or not; all that are mapped for a window; none for nothing.
pub open spec fn redrawn(space: Space, live: Seq<u64>, target: CastTarget) -> Seq<u64> {
    match target {
        CastTarget::Output { output, .. } => if live.contains(output) {
            seq![output]
        } else {
            Seq::empty()
        },
        CastTarget::Window { .. } => output_ids(space),
        CastTarget::Nothing => Seq::empty(),
    }
}

/// Whether `ids` are the sessions of the casts, each once.
pub open spec fn are_sessions(casts: Seq<Cast>, ids: Seq<CastSessionId>) -> bool {
    &&& ids.no_duplicates()
    &&& forall|id: CastSessionId| #[trigger] ids.contains(id) <==> runs_session(casts, id)
}

/// The distinct sessions of the casts, in the order of their first casts.
fn sessions(casts: &Vec<Cast>) -> (ids: Vec<CastSessionId>)
    ensures
        ids@.no_duplicates(),
        forall|id: CastSessionId| ids@.contains(id) <==> runs_session(casts@, id),
{
    let mut ids: Vec<CastSessionId> = Vec::new();
    let mut i: usize = 0;
    while i < casts.len()
        invariant
            i <= casts@.len(),
            ids@.no_duplicates(),
            forall|id: CastSessionId| #[trigger]
                ids@.contains(id) <==> runs_session(casts@.take(i as int), id),
        decreases casts@.len() - i,
    {
        let id = casts[i].session_id;
        let ghost before = ids@;
        let mut known = false;
        let mut j: usize = 0;
        while j < ids.len()
            invariant
                j <= ids@.len(),
                known == (exists|k: int| 0 <= k < j && ids@[k] == id),
            decreases ids@.len() - j,
        {
            if ids[j] == id {
                known = true;
            }
            j = j + 1;
        }
        assert(known == ids@.contains(id));
        if !known {
            ids.push(id);
        }
        let ghost seen = casts@.take(i as int);
        let ghost now = casts@.take(i + 1);
        assert forall|x: CastSessionId| #[trigger]
            ids@.contains(x) <==> runs_session(now, x) by {
            if runs_session(now, x) {
                let k = choose|k: int| 0 <= k < now.len() && (#[trigger] now[k]).session_id == x;
                if k < i {
                    assert(seen[k].session_id == x);
                    assert(before.contains(x));
                    let m = choose|m: int| 0 <= m < before.len() && before[m] == x;
                    assert(ids@[m] == x);
                } else {
                    assert(x == id);
                    if known {
                        assert(ids@.contains(x));
                    } else {
                        assert(ids@[before.len() as int] == x);
                    }
                }
            }
            if ids@.contains(x) {
                if before.contains(x) {
                    let k = choose|k: int|
                        0 <= k < seen.len() && (#[trigger] seen[k]).session_id == x;
                    assert(now[k].session_id == x);
                } else {
                    assert(x == id);
                    assert(now[i as int].session_id == x);
                }
            }
        }
        i = i + 1;
    }
    assert(casts@.take(casts@.len() as int) == casts@);
    ids
}

fn is_live(live: &Vec<u64>, output: u64) -> (r: bool)
    ensures
        r == live@.contains(output),
{
    let mut i: usize = 0;
    while i < live.len()
        invariant
            i <= live@.len(),
            forall|k: int| 0 <= k < i ==> live@[k] != output,
        decreases live@.len() - i,
    {
        if live[i] == output {
            return true;
        }
        i = i + 1;
    }
    false
}

impl AnvilState {
    /// Redraws what a cast shows.
    fn redraw_cast(&self, stream_id: CastStreamId, live: &Vec<u64>, effects: &mut CastEffects)
        ensures
            final(effects).disconnect@ == old(effects).disconnect@,
            final(effects).stop_sessions@ == old(effects).stop_sessions@,
            lacks_stream(self.screencasting.casts@, stream_id) ==> final(effects).redraw@ == old(effects).redraw@,
            forall|at: int| #[trigger]
                cast_at(self.screencasting.casts@, stream_id, at) ==> final(effects).redraw@ == old(effects).redraw@ + redrawn(self.space, live@, self.screencasting.casts@[at].target),
    {
        let found = find_cast(&self.screencasting.casts, stream_id);
        let i: usize = match found {
            Some(i) => i,
            None => {
                return;
            },
        };
        assert(forall|at: int|
            cast_at(self.screencasting.casts@, stream_id, at) ==> at == i);
        match &self.screencasting.casts[i].target {
            CastTarget::Output { output, .. } => {
                if is_live(live, *output) {
                    effects.redraw.push(*output);
                }
            },
            CastTarget::Window { .. } => {
                let ghost before = effects.redraw@;
                let mut k: usize = 0;
                while k < self.space.outputs.len()
                    invariant
                        k <= self.space.outputs@.len(),
                        effects.redraw@ == before + output_ids(self.space).take(k as int),
                        effects.disconnect@ == old(effects).disconnect@,
                        effects.stop_sessions@ == old(effects).stop_sessions@,
                    decreases self.space.outputs@.len() - k,
                {
                    effects.redraw.push(self.space.outputs[k].id);
                    k = k + 1;
                    assert(output_ids(self.space).take(k as int) == output_ids(self.space).take(
                        k - 1,
                    ).push(self.space.outputs@[k - 1].id));
                }
                assert(output_ids(self.space).take(k as int) == output_ids(self.space));
            },
            CastTarget::Nothing => {},
        }
    }

    /// Takes a message from PipeWire. After a fatal error there is no cast left
    /// and the connection is gone.
    pub fn on_pw_msg(&mut self, msg: PwToState, live: &Vec<u64>, effects: &mut CastEffects)
        ensures
            match msg {
                PwToState::StopCast { session_id } => {
                    &&& ended(*old(self), *final(self), session_id)
                    &&& told(*old(self), *old(effects), *final(effects), session_id)
                },
                PwToState::Redraw { stream_id } => {
                    &&& *final(self) == *old(self)
                    &&& final(effects).disconnect@ == old(effects).disconnect@
                    &&& final(effects).stop_sessions@ == old(effects).stop_sessions@
                    &&& lacks_stream(old(self).screencasting.casts@, stream_id) ==> final(effects).redraw@ == old(effects).redraw@
                    &&& forall|at: int| #[trigger]
                        cast_at(old(self).screencasting.casts@, stream_id, at) ==> final(effects).redraw@ == old(effects).redraw@ + redrawn(
                            old(self).space,
                            live@,
                            old(self).screencasting.casts@[at].target,
                        )
                },
                PwToState::FatalError => {
                    &&& !final(self).screencasting.pipewire
                    &&& final(effects).redraw@ == old(effects).redraw@
                    &&& !old(self).screencasting.pipewire ==> *final(self) == *old(self)
                        && *final(effects) == *old(effects)
                    &&& old(self).screencasting.pipewire ==> {
                        &&& final(self).screencasting.casts@.len() == 0
                        &&& final(self).screencasting.pending_dynamic_casts@ == old(self).screencasting.pending_dynamic_casts@.filter(
                            |p: PendingCast|
                                !runs_session(old(self).screencasting.casts@, p.session_id),
                        )
                        &&& final(effects).disconnect@.to_multiset() == old(effects).disconnect@.to_multiset().add(
                            streams(old(self).screencasting.casts@).to_multiset(),
                        )
                        &&& exists|ids: Seq<CastSessionId>| #[trigger]
                            are_sessions(old(self).screencasting.casts@, ids) && path_texts(
                                final(effects).stop_sessions@,
                            ) == path_texts(old(effects).stop_sessions@) + told_paths(
                                *old(self),
                                ids,
                            )
                    }
                },
            },
            final(self).space == old(self).space,
            final(self).layout == old(self).layout,
            final(self).config == old(self).config,
            final(self).dbus == old(self).dbus,
    {
        match msg {
            PwToState::StopCast { session_id } => {
                self.stop_cast(session_id, effects);
            },
            PwToState::Redraw { stream_id } => {
                self.redraw_cast(stream_id, live, effects);
            },
            PwToState::FatalError => {
                if self.screencasting.pipewire {
                    self.stop_all_casts(effects);
                    self.screencasting.pipewire = false;
                }
            },
        }
    }

    /// Ends every session that has a cast.
    fn stop_all_casts(&mut self, effects: &mut CastEffects)
        ensures
            final(self).screencasting.casts@.len() == 0,
            final(self).screencasting.pending_dynamic_casts@ == old(self).screencasting.pending_dynamic_casts@.filter(
                |p: PendingCast| !runs_session(old(self).screencasting.casts@, p.session_id),
            ),
            final(effects).disconnect@.to_multiset() == old(effects).disconnect@.to_multiset().add(
                streams(old(self).screencasting.casts@).to_multiset(),
            ),
            final(effects).redraw@ == old(effects).redraw@,
            exists|ids: Seq<CastSessionId>| #[trigger]
                are_sessions(old(self).screencasting.casts@, ids) && path_texts(
                    final(effects).stop_sessions@,
                ) == path_texts(old(effects).stop_sessions@) + told_paths(*old(self), ids),
            *final(self) == (AnvilState {
                screencasting: Screencasting {
                    pipewire: old(self).screencasting.pipewire,
                    ..final(self).screencasting
                },
                ..*old(self)
            }),
    {
        broadcast use vstd::multiset::group_multiset_axioms;

        let ids = sessions(&self.screencasting.casts);
        let ghost casts0 = self.screencasting.casts@;
        assert(are_sessions(casts0, ids@));
        self.stop_each(&ids, effects);
        proof {
            let casts = self.screencasting.casts@;
            casts0.to_multiset_ensures();
            casts.to_multiset_ensures();
            assert(casts.len() == 0) by {
                if casts.len() > 0 {
                    let c = casts[0];
                    assert(casts.contains(c));
                    assert(casts.to_multiset().count(c) > 0);
                    assert(casts0.to_multiset().count(c) > 0);
                    assert(casts0.contains(c));
                    assert(ids@.contains(c.session_id));
                }
            }
            assert(streams(casts) == Seq::<CastStreamId>::empty());
            no_streams();
            assert(effects.disconnect@.to_multiset() =~= old(effects).disconnect@.to_multiset().add(
                streams(casts0).to_multiset(),
            ));
            let by_ids = |p: PendingCast| !ids@.contains(p.session_id);
            let by_casts = |p: PendingCast| !runs_session(casts0, p.session_id);
            assert(by_ids =~= by_casts);
        }
    }
}

proof fn filter_all(pending: Seq<PendingCast>, keep: spec_fn(PendingCast) -> bool)
    requires
        forall|p: PendingCast| #[trigger] keep(p),
    ensures
        pending.filter(keep) == pending,
    decreases pending.len(),
{
    reveal(Seq::filter);
    if pending.len() > 0 {
        filter_all(pending.drop_last(), keep);
        assert(pending.drop_last().push(pending.last()) == pending);
    }
}

/// The sessions of the casts that show an output, one for each such cast.
pub open spec fn sessions_on(casts: Seq<Cast>, output: u64) -> Seq<CastSessionId>
    decreases casts.len(),
{
    if casts.len() == 0 {
        Seq::empty()
    } else if casts.last().target.shows_output(output) {
        sessions_on(casts.drop_last(), output).push(casts.last().session_id)
    } else {
        sessions_on(casts.drop_last(), output)
    }
}

/// The casts after the first `upto` sessions ended in turn.
pub open spec fn stopped_all(casts: Seq<Cast>, ids: Seq<CastSessionId>, upto: int) -> Seq<Cast>
    decreases upto,
{
    if upto <= 0 {
        casts
    } else {
        let before = stopped_all(casts, ids, upto - 1);
        stopped(before, ids[upto - 1], before.len() as int)
    }
}

/// The streams that are disconnected when the first `upto` sessions end in turn.
pub open spec fn streams_of_all(casts: Seq<Cast>, ids: Seq<CastSessionId>, upto: int) -> Seq<
    CastStreamId,
>
    decreases upto,
{
    if upto <= 0 {
        Seq::empty()
    } else {
        let before = stopped_all(casts, ids, upto - 1);
        streams_of_all(casts, ids, upto - 1) + streams_of(before, ids[upto - 1], before.len() as int)
    }
}

/// Which casts belong to none of the sessions.
pub open spec fn of_no_session(ids: Seq<CastSessionId>) -> spec_fn(Cast) -> bool {
    |c: Cast| !ids.contains(c.session_id)
}

impl AnvilState {
    /// Ends some sessions, one after the other.
    fn stop_each(&mut self, ids: &Vec<CastSessionId>, effects: &mut CastEffects)
        ensures
            final(self).screencasting.casts@.to_multiset() == old(self).screencasting.casts@.to_multiset().filter(
                of_no_session(ids@),
            ),
            final(effects).disconnect@.to_multiset().add(
                streams(final(self).screencasting.casts@).to_multiset(),
            ) == old(effects).disconnect@.to_multiset().add(
                streams(old(self).screencasting.casts@).to_multiset(),
            ),
            all_ended(old(self).screencasting.casts@, *old(self), *final(self), ids@),
            all_told(
                old(self).screencasting.casts@,
                *old(self),
                *old(effects),
                *final(effects),
                ids@,
            ),
    {
        broadcast use vstd::multiset::group_multiset_axioms;

        let ghost casts0 = self.screencasting.casts@;
        let ghost pending0 = self.screencasting.pending_dynamic_casts@;
        let ghost all = effects.disconnect@.to_multiset().add(streams(casts0).to_multiset());
        let ghost paths0 = path_texts(effects.stop_sessions@);
        let mut k: usize = 0;
        proof {
            filter_all(pending0, |p: PendingCast| !ids@.take(0).contains(p.session_id));
            assert(casts0.to_multiset() =~= casts0.to_multiset().filter(
                of_no_session(ids@.take(0)),
            ));
            assert(paths0 + told_paths(*self, ids@.take(0)) =~= paths0);
            assert(effects.disconnect@ + streams_of_all(casts0, ids@, 0) =~= effects.disconnect@);
        }
        while k < ids.len()
            invariant
                k <= ids@.len(),
                self.screencasting.casts@ == stopped_all(casts0, ids@, k as int),
                effects.disconnect@ == old(effects).disconnect@ + streams_of_all(
                    casts0,
                    ids@,
                    k as int,
                ),
                self.screencasting.casts@.to_multiset() == casts0.to_multiset().filter(
                    of_no_session(ids@.take(k as int)),
                ),
                self.screencasting.pending_dynamic_casts@ == pending_without(
                    pending0,
                    ids@.take(k as int),
                ),
                effects.disconnect@.to_multiset().add(
                    streams(self.screencasting.casts@).to_multiset(),
                ) == all,
                effects.redraw@ == old(effects).redraw@,
                path_texts(effects.stop_sessions@) == paths0 + told_paths(
                    *old(self),
                    ids@.take(k as int),
                ),
                *self == (AnvilState {
                    screencasting: Screencasting {
                        pipewire: old(self).screencasting.pipewire,
                        ..self.screencasting
                    },
                    ..*old(self)
                }),
            decreases ids@.len() - k,
        {
            let id = ids[k];
            let ghost casts1 = self.screencasting.casts@;
            let ghost gone1 = effects.disconnect@;
            self.stop_cast(id, effects);
            proof {
                let left = streams_of(casts1, id, casts1.len() as int);
                no_stream_is_lost(casts1, id);
                stop_is_exact(casts1, id);
                vstd::seq_lib::lemma_multiset_commutative(gone1, left);
                assert(effects.disconnect@.to_multiset().add(
                    streams(self.screencasting.casts@).to_multiset(),
                ) =~= all);
                taken_one_more(ids@, k as int);
                assert(self.screencasting.casts@.to_multiset() =~= casts0.to_multiset().filter(
                    of_no_session(ids@.take(k + 1)),
                ));
                filter_twice(
                    pending0,
                    |p: PendingCast| !ids@.take(k as int).contains(p.session_id),
                    |p: PendingCast| p.session_id != id,
                    |p: PendingCast| !ids@.take(k + 1).contains(p.session_id),
                );
                assert(paths0 + told_paths(*old(self), ids@.take(k as int)) + told_paths(
                    *old(self),
                    seq![id],
                ) =~= paths0 + told_paths(*old(self), ids@.take(k + 1)));
            }
            k = k + 1;
        }
        assert(ids@.take(k as int) == ids@);
    }

    /// Ends every session that shows an output.
    pub fn stop_casts_for_output(&mut self, output: u64, effects: &mut CastEffects)
        ensures
            ({
                let ids = sessions_on(old(self).screencasting.casts@, output);
                &&& final(self).screencasting.casts@.to_multiset() == old(self).screencasting.casts@.to_multiset().filter(
                    of_no_session(ids),
                )
                &&& all_ended(old(self).screencasting.casts@, *old(self), *final(self), ids)
                &&& all_told(
                    old(self).screencasting.casts@,
                    *old(self),
                    *old(effects),
                    *final(effects),
                    ids,
                )
            }),
    {
        let ghost casts0 = self.screencasting.casts@;
        let mut ids: Vec<CastSessionId> = Vec::new();
        let mut i: usize = 0;
        while i < self.screencasting.casts.len()
            invariant
                self.screencasting.casts@ == casts0,
                i <= casts0.len(),
                ids@ == sessions_on(casts0.take(i as int), output),
            decreases casts0.len() - i,
        {
            assert(casts0.take(i + 1).drop_last() == casts0.take(i as int));
            if self.screencasting.casts[i].target.matches_output(output) {
                ids.push(self.screencasting.casts[i].session_id);
            }
            i = i + 1;
        }
        assert(casts0.take(i as int) == casts0);
        self.stop_each(&ids, effects);
    }
}

/// Whether `after` is `before` with these casts, after some sessions ended.
pub open spec fn all_ended(
    casts: Seq<Cast>,
    before: AnvilState,
    after: AnvilState,
    ids: Seq<CastSessionId>,
) -> bool {
    &&& after.screencasting.casts@ == stopped_all(casts, ids, ids.len() as int)
    &&& after.screencasting.pending_dynamic_casts@ == pending_without(
        before.screencasting.pending_dynamic_casts@,
        ids,
    )
    &&& after == (AnvilState {
        screencasting: Screencasting {
            pipewire: before.screencasting.pipewire,
            ..after.screencasting
        },
        ..before
    })
}

/// Whether the outside is told of the end of some sessions, which had these
/// casts: their streams are disconnected and their bus objects are told, in turn.
pub open spec fn all_told(
    casts: Seq<Cast>,
    state: AnvilState,
    before: CastEffects,
    after: CastEffects,
    ids: Seq<CastSessionId>,
) -> bool {
    &&& after.disconnect@ == before.disconnect@ + streams_of_all(casts, ids, ids.len() as int)
    &&& after.redraw@ == before.redraw@
    &&& path_texts(after.stop_sessions@) == path_texts(before.stop_sessions@) + told_paths(
        state,
        ids,
    )
}

proof fn taken_one_more(ids: Seq<CastSessionId>, k: int)
    requires
        0 <= k < ids.len(),
    ensures
        forall|id: CastSessionId| #[trigger]
            ids.take(k + 1).contains(id) == (ids.take(k).contains(id) || id == ids[k]),
{
    assert(ids.take(k + 1) == ids.take(k).push(ids[k]));
    assert forall|id: CastSessionId| #[trigger]
        ids.take(k + 1).contains(id) == (ids.take(k).contains(id) || id == ids[k]) by {
        if ids.take(k).contains(id) {
            let m = choose|m: int| 0 <= m < k && ids.take(k)[m] == id;
            assert(ids.take(k + 1)[m] == id);
        }
        if id == ids[k] {
            assert(ids.take(k + 1)[k] == id);
        }
    }
}

/// What a stream is asked to show.
#[derive(Debug, PartialEq, Eq)]
pub enum StreamTargetId {
    Output { name: String },
    Window { id: u64 },
}

/// A message from the screen-cast service.
#[derive(Debug, PartialEq, Eq)]
pub enum ScreenCastToState {
    StartCast {
        session_id: CastSessionId,
        stream_id: CastStreamId,
        target: StreamTargetId,
        cursor_mode: CursorMode,
    },
    StopCast { session_id: CastSessionId },
}

/// A stream to start.
#[derive(Debug, PartialEq, Eq)]
pub struct StartRequest {
    pub session_id: CastSessionId,
    pub stream_id: CastStreamId,
    pub target: CastTarget,
    pub size: Size,
    /// Refresh rate in millihertz.
    pub refresh: u32,
    pub alpha: bool,
    pub cursor_mode: CursorMode,
}

/// How starting a stream went.
#[derive(Clone, Copy, Debug, PartialEq, Eq, Structural)]
pub enum StartOutcome {
    /// There is no buffer device, or no connection to PipeWire.
    NotConnected,
    /// There is a connection, but no format to render in.
    NoFormats,
    /// The stream could not be made.
    NotStarted,
    /// The stream is there.
    Started { active: bool },
}

/// `state`, connected to PipeWire if it was or if starting a stream got that
/// far.
pub open spec fn connected(state: AnvilState, outcome: StartOutcome) -> AnvilState {
    AnvilState {
        screencasting: Screencasting {
            pipewire: state.screencasting.pipewire || !(outcome is NotConnected),
            ..state.screencasting
        },
        ..state
    }
}

/// The size of frames of an output and its refresh rate.
pub open spec fn params_of(output: Output) -> (Size, u32) {
    let mode = output.mode->0;
    (output.transform.sized(mode.size), mode.refresh as u32)
}

/// The size of frames of an output and its refresh rate.
pub fn cast_params_for_output(output: &Output) -> (r: (Size, u32))
    requires
        output.mode is Some,
    ensures
        r == params_of(*output),
{
    let mode = output.mode.unwrap();
    let refresh: u32 = #[verifier::truncate]
    (mode.refresh as u32);
    (output.transform.transform_size(mode.size), refresh)
}

/// The position of the first output of this name.
pub open spec fn output_named(space: Space, name: Seq<char>, at: int) -> bool {
    &&& 0 <= at < space.outputs@.len()
    &&& space.outputs@[at].name@ == name
    &&& forall|i: int| 0 <= i < at ==> (#[trigger] space.outputs@[i]).name@ != name
}

/// The position of the first output of this name.
pub fn find_output_named(space: &Space, name: &str) -> (r: Option<usize>)
    ensures
        match r {
            Some(i) => output_named(*space, name@, i as int),
            None => forall|i: int|
                0 <= i < space.outputs@.len() ==> (#[trigger] space.outputs@[i]).name@ != name@,
        },
{
    let mut i: usize = 0;
    while i < space.outputs.len()
        invariant
            i <= space.outputs@.len(),
            forall|k: int| 0 <= k < i ==> (#[trigger] space.outputs@[k]).name@ != name@,
        decreases space.outputs@.len() - i,
    {
        if same(&space.outputs[i].name, name) {
            return Some(i);
        }
        i = i + 1;
    }
    None
}

/// The output that a stream's frames are measured by: the one of that name, or
/// the first that the window is on. Windows are numbered from 1, from the
/// bottom up.
pub open spec fn measured_by(space: Space, target: StreamTargetId, at: int) -> bool {
    match target {
        StreamTargetId::Output { name } => output_named(space, name@, at),
        StreamTargetId::Window { id } => {
            &&& 1 <= id <= space.windows@.len()
            &&& space.windows@[id - 1].outputs@.len() > 0
            &&& space.output_at(space.windows@[id - 1].outputs@[0], at)
        },
    }
}

/// What a cast of this target shows.
pub open spec fn cast_target(space: Space, target: StreamTargetId, at: int) -> CastTarget {
    match target {
        StreamTargetId::Output { name } => CastTarget::Output {
            output: space.outputs@[at].id,
            name: space.outputs@[at].name,
        },
        StreamTargetId::Window { id } => CastTarget::Window { id },
    }
}

impl AnvilState {
    fn locate(&self, target: &StreamTargetId) -> (r: Option<usize>)
        ensures
            match r {
                Some(i) => measured_by(self.space, *target, i as int),
                None => forall|at: int| !(#[trigger] measured_by(self.space, *target, at)),
            },
    {
        match target {
            StreamTargetId::Output { name } => find_output_named(&self.space, name),
            StreamTargetId::Window { id } => {
                let count: usize = self.space.windows.len();
                if *id < 1 || *id > count as u64 {
                    return None;
                }
                let window = &self.space.windows[(*id - 1) as usize];
                if window.outputs.len() == 0 {
                    return None;
                }
                self.space.find_output(window.outputs[0])
            },
        }
    }

    /// Takes a message from the screen-cast service. A stream whose target is
    /// there is to be started as the result says; a session whose target is not
    /// there is stopped.
    pub fn on_screen_cast_msg(&mut self, msg: ScreenCastToState, effects: &mut CastEffects) -> (r:
        Option<StartRequest>)
        requires
            msg matches ScreenCastToState::StartCast { target, .. } ==> forall|at: int| #[trigger]
                measured_by(old(self).space, target, at) ==> old(self).space.outputs@[at].mode is Some,
        ensures
            match msg {
                ScreenCastToState::StartCast { session_id, stream_id, target, cursor_mode } => {
                    &&& forall|at: int| #[trigger]
                        measured_by(old(self).space, target, at) ==> {
                            &&& *final(self) == *old(self)
                            &&& *final(effects) == *old(effects)
                            &&& r == Some(
                                StartRequest {
                                    session_id,
                                    stream_id,
                                    target: cast_target(old(self).space, target, at),
                                    size: params_of(old(self).space.outputs@[at]).0,
                                    refresh: params_of(old(self).space.outputs@[at]).1,
                                    alpha: false,
                                    cursor_mode,
                                },
                            )
                        }
                    &&& (forall|at: int| !(#[trigger] measured_by(old(self).space, target, at)))
                        ==> {
                        &&& r is None
                        &&& ended(*old(self), *final(self), session_id)
                        &&& told(*old(self), *old(effects), *final(effects), session_id)
                    }
                },
                ScreenCastToState::StopCast { session_id } => {
                    &&& r is None
                    &&& ended(*old(self), *final(self), session_id)
                    &&& told(*old(self), *old(effects), *final(effects), session_id)
                },
            },
    {
        match msg {
            ScreenCastToState::StartCast { session_id, stream_id, target, cursor_mode } => {
                let found = self.locate(&target);
                match found {
                    None => {
                        self.stop_cast(session_id, effects);
                        None
                    },
                    Some(i) => {
                        proof {
                            assert forall|at: int| #[trigger]
                                measured_by(self.space, target, at) implies at == i by {}
                        }
                        let (size, refresh) = cast_params_for_output(&self.space.outputs[i]);
                        let shown = match target {
                            StreamTargetId::Output { .. } => CastTarget::output(
                                &self.space.outputs[i],
                            ),
                            StreamTargetId::Window { id } => CastTarget::Window { id },
                        };
                        Some(
                            StartRequest {
                                session_id,
                                stream_id,
                                target: shown,
                                size,
                                refresh,
                                alpha: false,
                                cursor_mode,
                            },
                        )
                    },
                }
            },
            ScreenCastToState::StopCast { session_id } => {
                self.stop_cast(session_id, effects);
                None
            },
        }
    }

    /// Records how starting a stream went: a stream that is there joins the
    /// casts; the session of one that is not ends. A connection to PipeWire
    /// that was made on the way stays.
    pub fn finish_start_cast(
        &mut self,
        request: StartRequest,
        outcome: StartOutcome,
        effects: &mut CastEffects,
    )
        ensures
            match outcome {
                StartOutcome::Started { active } => {
                    &&& *final(effects) == *old(effects)
                    &&& final(self).screencasting.casts@ == old(self).screencasting.casts@.push(
                        Cast {
                            session_id: request.session_id,
                            stream_id: request.stream_id,
                            target: request.target,
                            cursor_mode: request.cursor_mode,
                            active,
                            dynamic_target: false,
                            last_frame_time: 0,
                        },
                    )
                    &&& *final(self) == (AnvilState {
                        screencasting: Screencasting {
                            casts: final(self).screencasting.casts,
                            ..connected(*old(self), outcome).screencasting
                        },
                        ..*old(self)
                    })
                },
                _ => {
                    &&& ended(connected(*old(self), outcome), *final(self), request.session_id)
                    &&& told(*old(self), *old(effects), *final(effects), request.session_id)
                },
            },
    {
        match outcome {
            StartOutcome::NotConnected => {},
            _ => {
                self.screencasting.pipewire = true;
            },
        }
        match outcome {
            StartOutcome::Started { active } => {
                self.screencasting.casts.push(
                    Cast {
                        session_id: request.session_id,
                        stream_id: request.stream_id,
                        target: request.target,
                        cursor_mode: request.cursor_mode,
                        active,
                        dynamic_target: false,
                        last_frame_time: 0,
                    },
                );
            },
            _ => {
                self.stop_cast(request.session_id, effects);
            },
        }
    }

    /// Gives a running stream another target.
    pub fn set_dynamic_cast_target(&mut self, stream_id: CastStreamId, target: CastTarget)
        ensures
            lacks_stream(old(self).screencasting.casts@, stream_id) ==> *final(self) == *old(self),
            forall|at: int| #[trigger]
                cast_at(old(self).screencasting.casts@, stream_id, at) ==> final(self).screencasting.casts@ == old(self).screencasting.casts@.update(
                    at,
                    Cast {
                        target,
                        dynamic_target: true,
                        ..old(self).screencasting.casts@[at]
                    },
                ),
            *final(self) == (AnvilState {
                screencasting: Screencasting {
                    casts: final(self).screencasting.casts,
                    ..old(self).screencasting
                },
                ..*old(self)
            }),
    {
        let found = find_cast(&self.screencasting.casts, stream_id);
        match found {
            Some(i) => {
                assert(forall|at: int|
                    cast_at(self.screencasting.casts@, stream_id, at) ==> at == i);
                let old_cast = &self.screencasting.casts[i];
                let new_cast = Cast {
                    session_id: old_cast.session_id,
                    stream_id: old_cast.stream_id,
                    target,
                    cursor_mode: old_cast.cursor_mode,
                    active: old_cast.active,
                    dynamic_target: true,
                    last_frame_time: old_cast.last_frame_time,
                };
                self.screencasting.casts.set(i, new_cast);
            },
            None => {},
        }
    }

    /// The size and refresh rate of streams without a target: those of the
    /// first output, or full HD at 60 Hz.
    pub open spec fn default_params(self) -> (Size, u32) {
        if self.space.outputs@.len() > 0 && self.space.outputs@[0].mode is Some {
            params_of(self.space.outputs@[0])
        } else {
            (Size { w: 1920, h: 1080 }, 60000)
        }
    }

    /// Takes the streams whose target is still to come, to be started with none.
    pub fn start_pending_dynamic_casts(&mut self) -> (r: Vec<StartRequest>)
        ensures
            final(self).screencasting.pending_dynamic_casts@.len() == 0,
            final(self).screencasting.casts@ == old(self).screencasting.casts@,
            *final(self) == (AnvilState {
                screencasting: Screencasting {
                    pending_dynamic_casts: final(self).screencasting.pending_dynamic_casts,
                    ..old(self).screencasting
                },
                ..*old(self)
            }),
            r@ == old(self).screencasting.pending_dynamic_casts@.map_values(
                |p: PendingCast|
                    StartRequest {
                        session_id: p.session_id,
                        stream_id: p.stream_id,
                        target: CastTarget::Nothing,
                        size: old(self).default_params().0,
                        refresh: old(self).default_params().1,
                        alpha: false,
                        cursor_mode: p.cursor_mode,
                    },
            ),
    {
        let (size, refresh) = if self.space.outputs.len() > 0
            && self.space.outputs[0].mode.is_some() {
            cast_params_for_output(&self.space.outputs[0])
        } else {
            (Size { w: 1920, h: 1080 }, 60000)
        };
        let mut requests: Vec<StartRequest> = Vec::new();
        let mut i: usize = 0;
        while i < self.screencasting.pending_dynamic_casts.len()
            invariant
                i <= self.screencasting.pending_dynamic_casts@.len(),
                requests@.len() == i,
                forall|k: int|
                    0 <= k < i ==> #[trigger] requests@[k] == (StartRequest {
                        session_id: self.screencasting.pending_dynamic_casts@[k].session_id,
                        stream_id: self.screencasting.pending_dynamic_casts@[k].stream_id,
                        target: CastTarget::Nothing,
                        size,
                        refresh,
                        alpha: false,
                        cursor_mode: self.screencasting.pending_dynamic_casts@[k].cursor_mode,
                    }),
            decreases self.screencasting.pending_dynamic_casts@.len() - i,
        {
            let p = self.screencasting.pending_dynamic_casts[i];
            requests.push(
                StartRequest {
                    session_id: p.session_id,
                    stream_id: p.stream_id,
                    target: CastTarget::Nothing,
                    size,
                    refresh,
                    alpha: false,
                    cursor_mode: p.cursor_mode,
                },
            );
            i = i + 1;
        }
        self.screencasting.pending_dynamic_casts = Vec::new();
        requests
    }
}

/// Whether `after` is `before` with a session ended.
pub open spec fn ended(before: AnvilState, after: AnvilState, id: CastSessionId) -> bool {
    &&& after.screencasting.casts@ == stopped(
        before.screencasting.casts@,
        id,
        before.screencasting.casts@.len() as int,
    )
    &&& after.screencasting.pending_dynamic_casts@ == still_pending(
        before.screencasting.pending_dynamic_casts@,
        id,
    )
    &&& after == (AnvilState {
        screencasting: Screencasting {
            pipewire: before.screencasting.pipewire,
            ..after.screencasting
        },
        ..before
    })
}

/// Whether `after` tells the outside of the end of a session.
pub open spec fn told(
    state: AnvilState,
    before: CastEffects,
    after: CastEffects,
    id: CastSessionId,
) -> bool {
    &&& after.disconnect@ == before.disconnect@ + streams_of(
        state.screencasting.casts@,
        id,
        state.screencasting.casts@.len() as int,
    )
    &&& after.redraw@ == before.redraw@
    &&& path_texts(after.stop_sessions@) == path_texts(before.stop_sessions@) + told_paths(
        state,
        seq![id],
    )
}

/// Whether a stream's frames have the right size.
#[derive(Clone, Copy, Debug, PartialEq, Eq, Structural)]
pub enum SizeCheck {
    Ready,
    Pending,
    Failed,
}

/// What is known of a cast's next frame so far.
#[derive(Clone, Copy, Debug, PartialEq, Eq, Structural)]
pub enum FrameEvent {
    /// An output is about to be shown.
    Begin,
    /// The size was checked.
    Sized { check: SizeCheck },
    /// The rate was checked; a limited stream takes no frame now.
    Timed { limited: bool },
    /// A frame was offered to the stream.
    Offered { rendered: bool },
}

/// What to do next for a cast's frame.
#[derive(Clone, Copy, Debug, PartialEq, Eq, Structural)]
pub enum FrameAction {
    /// Leave this cast for now.
    Skip,
    /// Bring the stream to the size of what it shows.
    EnsureSize,
    /// Check the rate, and schedule the next frame.
    CheckTime,
    /// Render, with the cursor in the picture or not.
    Render { embed_cursor: bool },
    /// Show nothing, where the window is gone.
    Clear,
    /// End the session.
    Stop { session_id: CastSessionId },
    /// Note the time of the frame if it was taken, and schedule the next one
    /// if so asked.
    Finish { taken: bool, schedule: bool },
}

/// What follows the events that outputs and windows have in common.
pub open spec fn after_event(cast: Cast, event: FrameEvent) -> FrameAction {
    match event {
        FrameEvent::Begin => FrameAction::EnsureSize,
        FrameEvent::Sized { check: SizeCheck::Ready } => FrameAction::CheckTime,
        FrameEvent::Sized { check: SizeCheck::Pending } => FrameAction::Skip,
        FrameEvent::Sized { check: SizeCheck::Failed } => FrameAction::Stop {
            session_id: cast.session_id,
        },
        FrameEvent::Timed { limited } => if limited {
            FrameAction::Skip
        } else {
            FrameAction::Render { embed_cursor: cast.cursor_mode is Embedded }
        },
        FrameEvent::Offered { rendered } => FrameAction::Finish { taken: rendered, schedule: true },
    }
}

/// Whether a cast takes part in showing an output: it is active, and shows that
/// output or some window.
pub open spec fn takes_output(cast: Cast, output: u64) -> bool {
    cast.active && (cast.target.shows_output(output) || cast.target is Window)
}

impl Cast {
    fn after(&self, event: FrameEvent) -> (action: FrameAction)
        ensures
            action == after_event(*self, event),
    {
        match event {
            FrameEvent::Begin => FrameAction::EnsureSize,
            FrameEvent::Sized { check } => match check {
                SizeCheck::Ready => FrameAction::CheckTime,
                SizeCheck::Pending => FrameAction::Skip,
                SizeCheck::Failed => FrameAction::Stop { session_id: self.session_id },
            },
            FrameEvent::Timed { limited } => if limited {
                FrameAction::Skip
            } else {
                let embed_cursor = match self.cursor_mode {
                    CursorMode::Embedded => true,
                    _ => false,
                };
                FrameAction::Render { embed_cursor }
            },
            FrameEvent::Offered { rendered } => FrameAction::Finish { taken: rendered, schedule: true },
        }
    }

    /// Whether the cast takes part in showing an output.
    fn takes_part(&self, output: u64) -> (r: bool)
        ensures
            r == takes_output(*self, output),
    {
        if !self.active {
            return false;
        }
        match &self.target {
            CastTarget::Output { output: shown, .. } => *shown == output,
            CastTarget::Window { .. } => true,
            CastTarget::Nothing => false,
        }
    }

    /// What to do next for the cast while an output is shown.
    pub fn render_for_output(&self, output: u64, event: FrameEvent) -> (action: FrameAction)
        ensures
            action == (if takes_output(*self, output) {
                after_event(*self, event)
            } else {
                FrameAction::Skip
            }),
    {
        if self.takes_part(output) {
            self.after(event)
        } else {
            FrameAction::Skip
        }
    }

    fn window_place(&self, space: &Space) -> (r: WindowPlace)
        ensures
            r == (if lost_window(*self, *space) {
                WindowPlace::Gone
            } else if takes_window(*self, *space) {
                WindowPlace::OnOutput
            } else {
                WindowPlace::Nowhere
            }),
    {
        if !self.active {
            return WindowPlace::Nowhere;
        }
        let id: u64 = match &self.target {
            CastTarget::Window { id } => *id,
            _ => {
                return WindowPlace::Nowhere;
            },
        };
        let count: usize = space.windows.len();
        if id < 1 || id > count as u64 {
            return WindowPlace::Gone;
        }
        if space.windows[(id - 1) as usize].outputs.len() == 0 {
            WindowPlace::Nowhere
        } else {
            WindowPlace::OnOutput
        }
    }

    /// What to do next for the cast of a window while an output is shown.
    pub fn render_for_window(&self, space: &Space, event: FrameEvent) -> (action: FrameAction)
        ensures
            action == window_action(*self, *space, event),
    {
        match self.window_place(space) {
            WindowPlace::Gone => match event {
                FrameEvent::Begin => FrameAction::Clear,
                FrameEvent::Offered { rendered } => FrameAction::Finish {
                    taken: rendered,
                    schedule: false,
                },
                _ => FrameAction::Skip,
            },
            WindowPlace::OnOutput => self.after(event),
            WindowPlace::Nowhere => FrameAction::Skip,
        }
    }

    /// The cast, with the time of a frame that it took.
    fn noted(&self, time: u128) -> (r: Cast)
        ensures
            r == (Cast { last_frame_time: time, ..*self }),
    {
        Cast {
            session_id: self.session_id,
            stream_id: self.stream_id,
            target: self.target.clone(),
            cursor_mode: self.cursor_mode,
            active: self.active,
            dynamic_target: self.dynamic_target,
            last_frame_time: time,
        }
    }
}

/// Where the window of a cast is.
#[derive(Clone, Copy, Debug, PartialEq, Eq, Structural)]
enum WindowPlace {
    Gone,
    OnOutput,
    /// On no output, or not shown now.
    Nowhere,
}

/// Whether a cast shows a window that is gone.
pub open spec fn lost_window(cast: Cast, space: Space) -> bool {
    cast.active && cast.target is Window && !(1 <= cast.target->id <= space.windows@.len())
}

/// Whether a cast shows a window that is on some output.
pub open spec fn takes_window(cast: Cast, space: Space) -> bool {
    &&& cast.active
    &&& cast.target is Window
    &&& 1 <= cast.target->id <= space.windows@.len()
    &&& space.windows@[cast.target->id - 1].outputs@.len() > 0
}

/// What to do for the cast of a window: one that is gone is cleared, one that
/// is on no output waits.
pub open spec fn window_action(cast: Cast, space: Space, event: FrameEvent) -> FrameAction {
    if lost_window(cast, space) {
        match event {
            FrameEvent::Begin => FrameAction::Clear,
            FrameEvent::Offered { rendered } => FrameAction::Finish {
                taken: rendered,
                schedule: false,
            },
            _ => FrameAction::Skip,
        }
    } else if takes_window(cast, space) {
        after_event(cast, event)
    } else {
        FrameAction::Skip
    }
}

/// What came of a cast's frame, as far as it was tried.
#[derive(Clone, Copy, Debug, PartialEq, Eq, Structural)]
pub struct FrameOutcome {
    pub check: SizeCheck,
    pub limited: bool,
    /// When the stream took the frame, if it did.
    pub taken: Option<u128>,
}

/// What a frame means for its cast.
#[derive(Clone, Copy, Debug, PartialEq, Eq, Structural)]
pub enum Verdict {
    /// Nothing changed.
    Unchanged,
    /// The stream took a frame.
    Taken { time: u128 },
    /// The stream cannot have the size of what it shows.
    Failed,
}

pub open spec fn verdict_of(outcome: FrameOutcome) -> Verdict {
    match outcome.check {
        SizeCheck::Failed => Verdict::Failed,
        SizeCheck::Pending => Verdict::Unchanged,
        SizeCheck::Ready => if outcome.limited {
            Verdict::Unchanged
        } else {
            taken_at(outcome.taken)
        },
    }
}

pub open spec fn taken_at(taken: Option<u128>) -> Verdict {
    match taken {
        Some(time) => Verdict::Taken { time },
        None => Verdict::Unchanged,
    }
}

/// What a frame means for a cast while an output is shown.
pub open spec fn output_verdict(cast: Cast, output: u64, outcome: FrameOutcome) -> Verdict {
    if takes_output(cast, output) {
        verdict_of(outcome)
    } else {
        Verdict::Unchanged
    }
}

/// What a frame means for the cast of a window.
pub open spec fn window_verdict(cast: Cast, space: Space, outcome: FrameOutcome) -> Verdict {
    if lost_window(cast, space) {
        taken_at(outcome.taken)
    } else if takes_window(cast, space) {
        verdict_of(outcome)
    } else {
        Verdict::Unchanged
    }
}

impl FrameOutcome {
    fn taken(&self) -> (r: Verdict)
        ensures
            r == taken_at(self.taken),
    {
        match self.taken {
            Some(time) => Verdict::Taken { time },
            None => Verdict::Unchanged,
        }
    }

    fn verdict(&self) -> (r: Verdict)
        ensures
            r == verdict_of(*self),
    {
        match self.check {
            SizeCheck::Failed => Verdict::Failed,
            SizeCheck::Pending => Verdict::Unchanged,
            SizeCheck::Ready => if self.limited {
                Verdict::Unchanged
            } else {
                self.taken()
            },
        }
    }
}

/// The casts, each with the time of the frame that it took.
pub open spec fn marked(casts: Seq<Cast>, verdicts: Seq<Verdict>) -> Seq<Cast> {
    Seq::new(
        casts.len(),
        |i: int|
            match verdicts[i] {
                Verdict::Taken { time } => Cast { last_frame_time: time, ..casts[i] },
                _ => casts[i],
            },
    )
}

/// The sessions of the casts that failed, in the order of the casts.
pub open spec fn failed_sessions(casts: Seq<Cast>, verdicts: Seq<Verdict>, to: int) -> Seq<
    CastSessionId,
>
    decreases to,
{
    if to <= 0 {
        Seq::empty()
    } else {
        let before = failed_sessions(casts, verdicts, to - 1);
        if verdicts[to - 1] is Failed {
            before.push(casts[to - 1].session_id)
        } else {
            before
        }
    }
}

/// Whether `after` is what verdicts on all casts make of `before`: the frames
/// that were taken are noted, and the sessions of the casts that failed ended.
pub open spec fn settled(
    before: AnvilState,
    said: CastEffects,
    after: AnvilState,
    says: CastEffects,
    verdicts: Seq<Verdict>,
) -> bool {
    let casts = before.screencasting.casts@;
    let ids = failed_sessions(casts, verdicts, casts.len() as int);
    &&& after.screencasting.casts@.to_multiset() == marked(casts, verdicts).to_multiset().filter(
        of_no_session(ids),
    )
    &&& all_ended(marked(casts, verdicts), before, after, ids)
    &&& all_told(marked(casts, verdicts), before, said, says, ids)
}

/// The verdicts on all casts while an output is shown.
pub open spec fn output_verdicts(casts: Seq<Cast>, output: u64, outcomes: Seq<FrameOutcome>) -> Seq<
    Verdict,
> {
    Seq::new(casts.len(), |i: int| output_verdict(casts[i], output, outcomes[i]))
}

/// The verdicts on all casts of windows.
pub open spec fn window_verdicts(
    casts: Seq<Cast>,
    space: Space,
    outcomes: Seq<FrameOutcome>,
) -> Seq<Verdict> {
    Seq::new(casts.len(), |i: int| window_verdict(casts[i], space, outcomes[i]))
}

impl Screencasting {
    /// Takes note of the frames that were taken. The sessions of the casts that
    /// failed are handed back.
    fn mark(&mut self, verdicts: &Vec<Verdict>) -> (ids: Vec<CastSessionId>)
        requires
            verdicts@.len() == old(self).casts@.len(),
        ensures
            final(self).casts@ == marked(old(self).casts@, verdicts@),
            *final(self) == (Screencasting { casts: final(self).casts, ..*old(self) }),
            ids@ == failed_sessions(
                old(self).casts@,
                verdicts@,
                old(self).casts@.len() as int,
            ),
    {
        let ghost casts0 = self.casts@;
        let mut ids: Vec<CastSessionId> = Vec::new();
        let mut i: usize = 0;
        while i < self.casts.len()
            invariant
                i <= casts0.len(),
                verdicts@.len() == casts0.len(),
                self.casts@.len() == casts0.len(),
                forall|k: int|
                    0 <= k < i ==> #[trigger] self.casts@[k] == marked(casts0, verdicts@)[k],
                forall|k: int| i <= k < casts0.len() ==> #[trigger] self.casts@[k] == casts0[k],
                ids@ == failed_sessions(casts0, verdicts@, i as int),
                *self == (Screencasting { casts: self.casts, ..*old(self) }),
            decreases casts0.len() - i,
        {
            match verdicts[i] {
                Verdict::Taken { time } => {
                    let cast = self.casts[i].noted(time);
                    self.casts.set(i, cast);
                },
                Verdict::Failed => {
                    ids.push(self.casts[i].session_id);
                },
                Verdict::Unchanged => {},
            }
            i = i + 1;
        }
        assert(self.casts@ =~= marked(casts0, verdicts@));
        ids
    }
}

/// Takes note of the frames that were offered to the casts while an output was
/// shown. The sessions whose streams cannot have its size are handed back.
pub fn render_for_screen_cast_inner(
    screencasting: &mut Screencasting,
    output: u64,
    outcomes: &Vec<FrameOutcome>,
) -> (ids: Vec<CastSessionId>)
    requires
        outcomes@.len() == old(screencasting).casts@.len(),
    ensures
        ({
            let casts = old(screencasting).casts@;
            let verdicts = output_verdicts(casts, output, outcomes@);
            &&& final(screencasting).casts@ == marked(casts, verdicts)
            &&& ids@ == failed_sessions(casts, verdicts, casts.len() as int)
        }),
        *final(screencasting) == (Screencasting {
            casts: final(screencasting).casts,
            ..*old(screencasting)
        }),
{
    let mut verdicts: Vec<Verdict> = Vec::new();
    let mut i: usize = 0;
    while i < outcomes.len()
        invariant
            i <= outcomes@.len(),
            outcomes@.len() == screencasting.casts@.len(),
            verdicts@.len() == i,
            forall|k: int|
                0 <= k < i ==> #[trigger] verdicts@[k] == output_verdict(
                    screencasting.casts@[k],
                    output,
                    outcomes@[k],
                ),
        decreases outcomes@.len() - i,
    {
        let verdict = if screencasting.casts[i].takes_part(output) {
            outcomes[i].verdict()
        } else {
            Verdict::Unchanged
        };
        verdicts.push(verdict);
        i = i + 1;
    }
    assert(verdicts@ =~= output_verdicts(screencasting.casts@, output, outcomes@));
    screencasting.mark(&verdicts)
}

/// Takes note of the frames that were offered to the casts of windows. The
/// sessions whose streams cannot have their window's size are handed back.
pub fn render_windows_for_screen_cast_inner(
    screencasting: &mut Screencasting,
    space: &Space,
    outcomes: &Vec<FrameOutcome>,
) -> (ids: Vec<CastSessionId>)
    requires
        outcomes@.len() == old(screencasting).casts@.len(),
    ensures
        ({
            let casts = old(screencasting).casts@;
            let verdicts = window_verdicts(casts, *space, outcomes@);
            &&& final(screencasting).casts@ == marked(casts, verdicts)
            &&& ids@ == failed_sessions(casts, verdicts, casts.len() as int)
        }),
        *final(screencasting) == (Screencasting {
            casts: final(screencasting).casts,
            ..*old(screencasting)
        }),
{
    let mut verdicts: Vec<Verdict> = Vec::new();
    let mut i: usize = 0;
    while i < outcomes.len()
        invariant
            i <= outcomes@.len(),
            outcomes@.len() == screencasting.casts@.len(),
            verdicts@.len() == i,
            forall|k: int|
                0 <= k < i ==> #[trigger] verdicts@[k] == window_verdict(
                    screencasting.casts@[k],
                    *space,
                    outcomes@[k],
                ),
        decreases outcomes@.len() - i,
    {
        let verdict = match screencasting.casts[i].window_place(space) {
            WindowPlace::Gone => outcomes[i].taken(),
            WindowPlace::OnOutput => outcomes[i].verdict(),
            WindowPlace::Nowhere => Verdict::Unchanged,
        };
        verdicts.push(verdict);
        i = i + 1;
    }
    assert(verdicts@ =~= window_verdicts(screencasting.casts@, *space, outcomes@));
    screencasting.mark(&verdicts)
}

impl AnvilState {
    /// Ends the sessions of the casts that failed.
    fn settle(
        &mut self,
        ids: &Vec<CastSessionId>,
        Ghost(before): Ghost<AnvilState>,
        Ghost(verdicts): Ghost<Seq<Verdict>>,
        effects: &mut CastEffects,
    )
        requires
            old(self).screencasting.casts@ == marked(before.screencasting.casts@, verdicts),
            *old(self) == (AnvilState {
                screencasting: Screencasting {
                    casts: old(self).screencasting.casts,
                    ..before.screencasting
                },
                ..before
            }),
            ids@ == failed_sessions(
                before.screencasting.casts@,
                verdicts,
                before.screencasting.casts@.len() as int,
            ),
        ensures
            settled(before, *old(effects), *final(self), *final(effects), verdicts),
    {
        self.stop_each(ids, effects);
    }

    /// Takes note of the frames that were offered to the casts while an output
    /// was shown, and ends the sessions whose streams cannot have its size.
    pub fn render_for_screen_cast(
        &mut self,
        output: u64,
        outcomes: &Vec<FrameOutcome>,
        effects: &mut CastEffects,
    )
        requires
            outcomes@.len() == old(self).screencasting.casts@.len(),
        ensures
            settled(
                *old(self),
                *old(effects),
                *final(self),
                *final(effects),
                output_verdicts(old(self).screencasting.casts@, output, outcomes@),
            ),
    {
        let ghost before = *self;
        let ghost verdicts = output_verdicts(self.screencasting.casts@, output, outcomes@);
        let ids = render_for_screen_cast_inner(&mut self.screencasting, output, outcomes);
        self.settle(&ids, Ghost(before), Ghost(verdicts), effects);
    }

    /// Takes note of the frames that were offered to the casts of windows, and
    /// ends the sessions whose streams cannot have their window's size.
    pub fn render_windows_for_screen_cast(
        &mut self,
        outcomes: &Vec<FrameOutcome>,
        effects: &mut CastEffects,
    )
        requires
            outcomes@.len() == old(self).screencasting.casts@.len(),
        ensures
            settled(
                *old(self),
                *old(effects),
                *final(self),
                *final(effects),
                window_verdicts(old(self).screencasting.casts@, old(self).space, outcomes@),
            ),
    {
        let ghost before = *self;
        let ghost verdicts = window_verdicts(self.screencasting.casts@, self.space, outcomes@);
        let ids = render_windows_for_screen_cast_inner(
            &mut self.screencasting,
            &self.space,
            outcomes,
        );
        self.settle(&ids, Ghost(before), Ghost(verdicts), effects);
    }
}

// ---- laws ----

/// Numbers follow each other, from one on, for sessions and for streams apart.
pub proof fn numbers_follow_each_other(c: IdCounter)
    ensures
        c.next_session < u64::MAX ==> c.after_session().next_session == c.next_session + 1,
        c.next_stream < u64::MAX ==> c.after_stream().next_stream == c.next_stream + 1,
        c.after_session().next_stream == c.next_stream,
        c.after_stream().next_session == c.next_session,
        IdCounter::fresh().next_session == 1 && IdCounter::fresh().next_stream == 1,
{
}

/// A cast takes part in the drawing of an output exactly if it runs and shows
/// that output or a window; one that is paused or shows something else does not.
pub proof fn casts_show_their_target(cast: Cast, output: u64)
    ensures
        !cast.active ==> !takes_output(cast, output),
        cast.target is Nothing ==> !takes_output(cast, output),
        cast.active && cast.target is Window ==> takes_output(cast, output),
        cast.target matches CastTarget::Output { output: id, .. } ==> (takes_output(cast, output)
            <==> cast.active && id == output),
{
}

/// A frame is rendered only once its size is right and its time has come; a size
/// that cannot be had ends the session of the cast, and the cursor is in the
/// picture exactly if it was asked for there.
pub proof fn frames_come_step_by_step(cast: Cast, event: FrameEvent)
    ensures
        event is Begin <==> after_event(cast, event) is EnsureSize,
        after_event(cast, event) is CheckTime <==> event == (FrameEvent::Sized {
            check: SizeCheck::Ready,
        }),
        after_event(cast, event) is Render <==> event == (FrameEvent::Timed { limited: false }),
        after_event(cast, event) matches FrameAction::Render { embed_cursor } ==> (embed_cursor
            <==> cast.cursor_mode is Embedded),
        event == (FrameEvent::Timed { limited: true }) ==> after_event(cast, event) is Skip,
        event == (FrameEvent::Sized { check: SizeCheck::Pending }) ==> after_event(
            cast,
            event,
        ) is Skip,
        event == (FrameEvent::Sized { check: SizeCheck::Failed }) ==> (after_event(
            cast,
            event,
        ) matches FrameAction::Stop { session_id } && session_id == cast.session_id),
        after_event(cast, event) is Stop ==> event is Sized,
        event matches FrameEvent::Offered { rendered } ==> (after_event(
            cast,
            event,
        ) matches FrameAction::Finish { taken, schedule } && taken == rendered && schedule),
{
}

/// A cast of a window that is gone is cleared and not drawn; one of a window that
/// is on no output waits; a cast of an output has no part in this.
pub proof fn lost_windows_are_cleared(cast: Cast, space: Space, event: FrameEvent)
    ensures
        !cast.active || !(cast.target is Window) ==> window_action(cast, space, event) is Skip,
        cast.active && cast.target is Window && (cast.target->id == 0 || cast.target->id
            > space.windows@.len()) ==> {
            &&& window_action(cast, space, FrameEvent::Begin) is Clear
            &&& !(window_action(cast, space, event) is Render)
            &&& !(window_action(cast, space, event) is Stop)
        },
        cast.active && cast.target is Window && 1 <= cast.target->id <= space.windows@.len() ==> {
            &&& space.windows@[cast.target->id - 1].outputs@.len() == 0 ==> window_action(
                cast,
                space,
                event,
            ) is Skip
            &&& space.windows@[cast.target->id - 1].outputs@.len() > 0 ==> window_action(
                cast,
                space,
                FrameEvent::Begin,
            ) is EnsureSize && window_action(
                cast,
                space,
                FrameEvent::Timed { limited: false },
            ) is Render
        },
{
}

/// A frame counts as taken, at its time, only where the size was right, the rate
/// allowed it and the stream took it; only a size that cannot be had fails.
pub proof fn frames_count_when_taken(outcome: FrameOutcome)
    ensures
        verdict_of(outcome) is Failed <==> outcome.check is Failed,
        verdict_of(outcome) is Taken <==> outcome.check is Ready && !outcome.limited
            && outcome.taken is Some,
        verdict_of(outcome) matches Verdict::Taken { time } ==> outcome.taken == Some(time),
{
}

/// What a cast that has no part brings does not matter, and a window that is gone
/// never fails.
pub proof fn only_those_that_take_part_are_judged(
    cast: Cast,
    output: u64,
    space: Space,
    outcome: FrameOutcome,
)
    ensures
        !cast.active ==> output_verdict(cast, output, outcome) is Unchanged && window_verdict(
            cast,
            space,
            outcome,
        ) is Unchanged,
        cast.active && cast.target.shows_output(output) ==> (output_verdict(
            cast,
            output,
            outcome,
        ) is Failed <==> outcome.check is Failed),
        !(cast.target is Window) ==> window_verdict(cast, space, outcome) is Unchanged,
        cast.target is Window && (cast.target->id == 0 || cast.target->id > space.windows@.len())
            ==> !(window_verdict(cast, space, outcome) is Failed),
{
}

/// A frame that was taken is noted with its time; nothing else of a cast changes.
pub proof fn taken_frames_are_noted(casts: Seq<Cast>, verdicts: Seq<Verdict>, i: int)
    requires
        verdicts.len() == casts.len(),
        0 <= i < casts.len(),
    ensures
        marked(casts, verdicts).len() == casts.len(),
        verdicts[i] matches Verdict::Taken { time } ==> marked(casts, verdicts)[i] == (Cast {
            last_frame_time: time,
            ..casts[i]
        }),
        !(verdicts[i] is Taken) ==> marked(casts, verdicts)[i] == casts[i],
        marked(casts, verdicts)[i].session_id == casts[i].session_id,
{
}

/// A session ends exactly if one of its casts has failed.
pub proof fn failures_end_their_session(
    casts: Seq<Cast>,
    verdicts: Seq<Verdict>,
    to: int,
    id: CastSessionId,
)
    requires
        0 <= to <= casts.len(),
        verdicts.len() == casts.len(),
    ensures
        failed_sessions(casts, verdicts, to).contains(id) <==> exists|i: int|
            0 <= i < to && (#[trigger] casts[i]).session_id == id && verdicts[i] is Failed,
    decreases to,
{
    if to > 0 {
        failures_end_their_session(casts, verdicts, to - 1, id);
        let before = failed_sessions(casts, verdicts, to - 1);
        let after = failed_sessions(casts, verdicts, to);
        if before.contains(id) {
            let k = choose|k: int| 0 <= k < before.len() && before[k] == id;
            assert(after[k] == id);
        }
        if verdicts[to - 1] is Failed && casts[to - 1].session_id == id {
            assert(after[before.len() as int] == id);
        }
        if after.contains(id) && !before.contains(id) {
            let k = choose|k: int| 0 <= k < after.len() && after[k] == id;
            if k < before.len() {
                assert(before[k] == id);
            }
            assert(casts[to - 1].session_id == id);
        }
    } else {
        assert(!failed_sessions(casts, verdicts, to).contains(id));
    }
}

/// The sessions that an output takes with it are those that show it.
pub proof fn outputs_take_their_sessions(casts: Seq<Cast>, output: u64, id: CastSessionId)
    ensures
        sessions_on(casts, output).contains(id) <==> exists|i: int|
            0 <= i < casts.len() && (#[trigger] casts[i]).session_id == id && (
            casts[i].target matches CastTarget::Output { output: o, .. } && o == output),
    decreases casts.len(),
{
    if casts.len() > 0 {
        let rest = casts.drop_last();
        outputs_take_their_sessions(rest, output, id);
        let before = sessions_on(rest, output);
        let after = sessions_on(casts, output);
        if before.contains(id) {
            let k = choose|k: int| 0 <= k < before.len() && before[k] == id;
            assert(after[k] == id);
            let i = choose|i: int|
                0 <= i < rest.len() && (#[trigger] rest[i]).session_id == id && (
                rest[i].target matches CastTarget::Output { output: o, .. } && o == output);
            assert(casts[i] == rest[i]);
        }
        if casts.last().target.shows_output(output) && casts.last().session_id == id {
            assert(after[before.len() as int] == id);
            assert(casts[casts.len() - 1].session_id == id);
        }
        if after.contains(id) && !before.contains(id) {
            let k = choose|k: int| 0 <= k < after.len() && after[k] == id;
            if k < before.len() {
                assert(before[k] == id);
            }
        }
        if exists|i: int|
            0 <= i < casts.len() && (#[trigger] casts[i]).session_id == id && (
            casts[i].target matches CastTarget::Output { output: o, .. } && o == output) {
            let i = choose|i: int|
                0 <= i < casts.len() && (#[trigger] casts[i]).session_id == id && (
                casts[i].target matches CastTarget::Output { output: o, .. } && o == output);
            if i < rest.len() {
                assert(rest[i] == casts[i]);
            }
        }
    } else {
        assert(!sessions_on(casts, output).contains(id));
    }
}

/// A cast of an output that is still there redraws that output, a cast of a
/// window every output, and one of nothing none.
pub proof fn redraws_are_of_the_target(space: Space, live: Seq<u64>, target: CastTarget, id: u64)
    ensures
        target is Nothing ==> redrawn(space, live, target).len() == 0,
        target matches CastTarget::Output { output, .. } ==> (redrawn(space, live, target).contains(
            id,
        ) <==> id == output && live.contains(id)),
        target is Window ==> redrawn(space, live, target).len() == space.outputs@.len()
            && forall|i: int|
            0 <= i < space.outputs@.len() ==> #[trigger] redrawn(space, live, target)[i]
                == space.outputs@[i].id,
{
    if let CastTarget::Output { output, .. } = target {
        if live.contains(output) {
            assert(redrawn(space, live, target)[0] == output);
        }
    }
}

/// A cast of an output is as large as the output is seen, and as fast.
pub proof fn casts_are_as_large_as_their_output(output: Output)
    requires
        output.mode is Some,
        output.mode->0.refresh >= 0,
    ensures
        ({
            let (size, refresh) = params_of(output);
            let mode = output.mode->0;
            &&& refresh == mode.refresh
            &&& output.transform is Normal || output.transform is Rot180
                || output.transform is Flipped || output.transform is Flipped180 ==> size == mode.size
            &&& output.transform is Rot90 || output.transform is Rot270
                || output.transform is Flipped90 || output.transform is Flipped270 ==> size.w
                == mode.size.h && size.h == mode.size.w
        }),
{
}

/// What is shown is what was asked for: the output of that name, or the window.
pub proof fn targets_are_what_was_asked_for(space: Space, target: StreamTargetId, at: int)
    requires
        measured_by(space, target, at),
    ensures
        target matches StreamTargetId::Output { name } ==> space.outputs@[at].name@ == name@ && (
        cast_target(space, target, at) matches CastTarget::Output { output, name: n } && output
            == space.outputs@[at].id && n@ == name@),
        target matches StreamTargetId::Window { id } ==> cast_target(space, target, at) == (
        CastTarget::Window { id }),
{
}

/// Only a first success brings the connection up, and nothing takes it down.
pub proof fn connections_come_up_once(state: AnvilState, outcome: StartOutcome)
    ensures
        state.screencasting.pipewire ==> connected(state, outcome).screencasting.pipewire,
        !state.screencasting.pipewire ==> (connected(state, outcome).screencasting.pipewire <==> !(
        outcome is NotConnected)),
        connected(state, outcome).screencasting.casts == state.screencasting.casts,
        connected(state, outcome).screencasting.pending_dynamic_casts
            == state.screencasting.pending_dynamic_casts,
{
}

/// What waits for a session stays exactly if it waits for another one, in order.
pub proof fn others_keep_waiting(pending: Seq<PendingCast>, id: CastSessionId, p: PendingCast)
    ensures
        still_pending(pending, id).contains(p) <==> pending.contains(p) && p.session_id != id,
{
    let keep = |p: PendingCast| p.session_id != id;
    let left = pending.filter(keep);
    if left.contains(p) {
        let i = choose|i: int| 0 <= i < left.len() && left[i] == p;
        pending.lemma_filter_pred(keep, i);
        pending.lemma_filter_contains_rev(keep, p);
    }
    if pending.contains(p) && p.session_id != id {
        let i = choose|i: int| 0 <= i < pending.len() && pending[i] == p;
        pending.lemma_filter_contains(keep, i);
    }
}

/// A session that ends takes its casts and what waits for it, and nothing else
/// changes; each of its streams is cut off, and the bus is told if there is one.
pub proof fn sessions_end_with_all_they_have(
    before: AnvilState,
    after: AnvilState,
    said: CastEffects,
    says: CastEffects,
    id: CastSessionId,
)
    requires
        ended(before, after, id),
        told(before, said, says, id),
    ensures
        after.space == before.space && after.config == before.config && after.layout
            == before.layout && after.dbus == before.dbus,
        after.screencasting.pipewire == before.screencasting.pipewire,
        after.screencasting.casts@.to_multiset() == before.screencasting.casts@.to_multiset().filter(
            |c: Cast| c.session_id != id,
        ),
        says.redraw@ == said.redraw@,
        !before.dbus ==> path_texts(says.stop_sessions@) == path_texts(said.stop_sessions@),
        before.dbus ==> path_texts(says.stop_sessions@) == path_texts(said.stop_sessions@).push(
            "/org/gnome/Mutter/ScreenCast/Session/u"@ + decimal(id.0 as int),
        ),
{
    stop_is_exact(before.screencasting.casts@, id);
    assert(of_other_session(id) =~= |c: Cast| c.session_id != id);
    if before.dbus {
        assert(told_paths(before, seq![id]) =~= seq![session_path(id)]);
        assert(path_texts(says.stop_sessions@) =~= path_texts(said.stop_sessions@).push(
            session_path(id),
        ));
    } else {
        assert(path_texts(says.stop_sessions@) =~= path_texts(said.stop_sessions@));
    }
}

/// Each cast is judged by its own outcome.
pub proof fn casts_are_judged_by_their_own_outcome(
    casts: Seq<Cast>,
    output: u64,
    space: Space,
    outcomes: Seq<FrameOutcome>,
    i: int,
)
    requires
        outcomes.len() == casts.len(),
        0 <= i < casts.len(),
    ensures
        output_verdicts(casts, output, outcomes).len() == casts.len(),
        window_verdicts(casts, space, outcomes).len() == casts.len(),
        output_verdicts(casts, output, outcomes)[i] is Failed <==> takes_output(casts[i], output)
            && outcomes[i].check is Failed,
        window_verdicts(casts, space, outcomes)[i] is Failed ==> outcomes[i].check is Failed
            && casts[i].target is Window && casts[i].active,
{
}

/// A cast without a target has the size and the rate of the first output, and
/// those of a common screen where there is none.
pub proof fn casts_without_a_target_have_a_size(state: AnvilState)
    ensures
        state.space.outputs@.len() == 0 ==> state.default_params() == (Size { w: 1920, h: 1080 }, 60000u32),
        state.space.outputs@.len() > 0 && state.space.outputs@[0].mode is None
            ==> state.default_params() == (Size { w: 1920, h: 1080 }, 60000u32),
        state.space.outputs@.len() > 0 && state.space.outputs@[0].mode is Some
            ==> state.default_params() == params_of(state.space.outputs@[0]),
{
}

/// A stream is the first that has its number, and an output the first of its
/// name.
pub proof fn the_first_of_a_number_counts(
    casts: Seq<Cast>,
    id: CastStreamId,
    space: Space,
    name: Seq<char>,
    at: int,
    other: int,
)
    ensures
        cast_at(casts, id, at) ==> casts[at].stream_id == id && !lacks_stream(casts, id),
        cast_at(casts, id, at) && cast_at(casts, id, other) ==> at == other,
        output_named(space, name, at) ==> space.outputs@[at].name@ == name,
        output_named(space, name, at) && output_named(space, name, other) ==> at == other,
{
}

/// A stream that is there is found, at the first place that has its number; and
/// so is an output by its name.
pub proof fn streams_and_outputs_are_found(
    casts: Seq<Cast>,
    id: CastStreamId,
    space: Space,
    name: Seq<char>,
    at: int,
)
    ensures
        0 <= at < casts.len() && casts[at].stream_id == id && (forall|i: int|
            0 <= i < at ==> (#[trigger] casts[i]).stream_id != id) ==> cast_at(casts, id, at),
        casts.len() > 0 && casts[0].stream_id == id ==> cast_at(casts, id, 0),
        lacks_stream(casts, id) <==> forall|i: int|
            0 <= i < casts.len() ==> (#[trigger] casts[i]).stream_id != id,
        0 <= at < space.outputs@.len() && space.outputs@[at].name@ == name && (forall|i: int|
            0 <= i < at ==> (#[trigger] space.outputs@[i]).name@ != name) ==> output_named(
            space,
            name,
            at,
        ),
{
}

/// A target is measured by the output of its name, or by the first output that
/// its window is on; windows are counted from one.
pub proof fn targets_are_measured_where_they_are(space: Space, target: StreamTargetId, at: int)
    ensures
        target matches StreamTargetId::Output { name } ==> (0 <= at < space.outputs@.len()
            && space.outputs@[at].name@ == name@ && (forall|i: int|
            0 <= i < at ==> (#[trigger] space.outputs@[i]).name@ != name@) ==> measured_by(
            space,
            target,
            at,
        )),
        target matches StreamTargetId::Window { id } ==> (1 <= id <= space.windows@.len()
            && space.windows@[id - 1].outputs@.len() > 0 && space.output_at(
            space.windows@[id - 1].outputs@[0],
            at,
        ) <==> measured_by(space, target, at)),
{
}

} // verus!
