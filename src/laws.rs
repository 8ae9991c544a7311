//! Properties of the engine that hold for every input, proved over the spec
//! functions that the executable code's contracts use.
use vstd::prelude::*;
use crate::control::{
    command_events, last_seek, playing_after, state_after, state_after_all, step_events, stop_requested,
    PlayerActions, PlayerState, PlayerStatus,
};
use crate::engine::{end_tick, progress_events, track_progress, usable_time_base, TrackInfo};
use crate::timing::{at_or_after, millis_of, relative_target, TimeBase};

verus! {

/// The value that a `SendPlaying` event carries.
pub open spec fn flag_of(e: PlayerStatus) -> bool {
    match e {
        PlayerStatus::SendPlaying(b) => b,
        _ => false,
    }
}

/// The events of a batch of commands are exactly the changes of the `playing`
/// flag, in order: each is a `SendPlaying`, each differs from the flag before
/// it (no event repeats the current state), and the last one gives the flag
/// after the batch; with no event the flag is unchanged.
pub proof fn lemma_playing_events_mirror_transitions(playing: bool, cmds: Seq<PlayerActions>)
    ensures
        ({
            let es = command_events(playing, cmds);
            &&& forall|i: int| 0 <= i < es.len() ==> es[i] is SendPlaying
            &&& es.len() > 0 ==> flag_of(es[0]) != playing
            &&& forall|i: int| 0 < i < es.len() ==> flag_of(#[trigger] es[i]) != flag_of(es[i - 1])
            &&& es.len() == 0 ==> playing_after(playing, cmds) == playing
            &&& es.len() > 0 ==> flag_of(es.last()) == playing_after(playing, cmds)
        }),
    decreases cmds.len(),
{
    if cmds.len() > 0 {
        let pre = cmds.drop_last();
        lemma_playing_events_mirror_transitions(playing, pre);
        let es0 = command_events(playing, pre);
        let p = playing_after(playing, pre);
        let s = step_events(p, cmds.last());
        let es = command_events(playing, cmds);
        assert(es == es0 + s);
        assert forall|i: int| 0 <= i < es.len() implies es[i] is SendPlaying by {
            if i >= es0.len() {
                assert(es[i] == s[i - es0.len()]);
            } else {
                assert(es[i] == es0[i]);
            }
        }
        assert forall|i: int| 0 < i < es.len() implies flag_of(#[trigger] es[i]) != flag_of(es[i - 1]) by {
            if i > es0.len() {
            } else if i == es0.len() {
                assert(es[i] == s[0]);
                assert(es[i - 1] == es0.last());
            } else {
                assert(es[i] == es0[i]);
                assert(es[i - 1] == es0[i - 1]);
            }
        }
        if s.len() > 0 {
            assert(es.last() == s[0]);
        } else {
            assert(es =~= es0);
        }
        if es.len() > 0 {
            assert(es[0] == if es0.len() > 0 { es0[0] } else { s[0] });
        }
    }
}

/// Applying events in two parts gives the state of applying them at once.
pub proof fn lemma_state_after_concat(s: PlayerState, a: Seq<PlayerStatus>, b: Seq<PlayerStatus>)
    ensures
        state_after_all(s, a + b) == state_after_all(state_after_all(s, a), b),
    decreases b.len(),
{
    if b.len() == 0 {
        assert(a + b =~= a);
    } else {
        lemma_state_after_concat(s, a, b.drop_last());
        assert((a + b).drop_last() =~= a + b.drop_last());
        assert((a + b).last() == b.last());
    }
}

/// The status consumer's published flag follows the engine's: applying the
/// events of a batch of commands to a state that shows the flag before the
/// batch shows the flag after it, and leaves duration and position as they were.
pub proof fn lemma_published_flag_follows(s: PlayerState, cmds: Seq<PlayerActions>)
    ensures
        state_after_all(s, command_events(s.playing, cmds)) == (PlayerState {
            playing: playing_after(s.playing, cmds),
            ..s
        }),
    decreases cmds.len(),
{
    if cmds.len() > 0 {
        let pre = cmds.drop_last();
        lemma_published_flag_follows(s, pre);
        let mid = state_after_all(s, command_events(s.playing, pre));
        let st = step_events(playing_after(s.playing, pre), cmds.last());
        lemma_state_after_concat(s, command_events(s.playing, pre), st);
        if st.len() == 1 {
            assert(st.drop_last() =~= Seq::<PlayerStatus>::empty());
            assert(state_after_all(mid, st.drop_last()) == mid);
            assert(st.last() == st[0]);
            assert(state_after_all(mid, st) == state_after(mid, st[0]));
        } else {
            assert(st =~= Seq::<PlayerStatus>::empty());
        }
    }
}

/// Applying two parts of a batch in turn is applying the whole batch: the
/// flag carries over, the events follow one another, the later seek wins.
pub proof fn lemma_commands_concat(playing: bool, a: Seq<PlayerActions>, b: Seq<PlayerActions>)
    ensures
        playing_after(playing, a + b) == playing_after(playing_after(playing, a), b),
        command_events(playing, a + b) == command_events(playing, a) + command_events(
            playing_after(playing, a),
            b,
        ),
        last_seek(a + b) == (match last_seek(b) {
            Some(t) => Some(t),
            None => last_seek(a),
        }),
    decreases b.len(),
{
    let mid = playing_after(playing, a);
    if b.len() == 0 {
        assert(a + b =~= a);
        assert(command_events(playing, a) + command_events(mid, b) =~= command_events(
            playing,
            a,
        ));
    } else {
        lemma_commands_concat(playing, a, b.drop_last());
        assert((a + b).drop_last() =~= a + b.drop_last());
        assert((a + b).last() == b.last());
        let ea = command_events(playing, a);
        let eb = command_events(mid, b.drop_last());
        let st = step_events(playing_after(mid, b.drop_last()), b.last());
        assert(ea + (eb + st) =~= (ea + eb) + st);
    }
}

/// A redundant command changes nothing in what follows: a batch that holds
/// one more `Pause` where the flag is already off, or one more `Resume` where
/// it is already on, leaves the same flag, emits the same events, asks for the
/// same seek and the same stop as the batch without it. The loop's next move
/// and its state carried to the next batch depend on these alone, so the two
/// runs pull, seek, decode, write and publish alike.
pub proof fn lemma_redundant_command_changes_nothing(
    playing: bool,
    a: Seq<PlayerActions>,
    x: PlayerActions,
    b: Seq<PlayerActions>,
)
    requires
        (x == PlayerActions::Pause && !playing_after(playing, a)) || (x == PlayerActions::Resume
            && playing_after(playing, a)),
    ensures
        playing_after(playing, a + seq![x] + b) == playing_after(playing, a + b),
        command_events(playing, a + seq![x] + b) == command_events(playing, a + b),
        last_seek(a + seq![x] + b) == last_seek(a + b),
        stop_requested(a + seq![x] + b) == stop_requested(a + b),
{
    let ax = a + seq![x];
    lemma_commands_concat(playing, a, seq![x]);
    lemma_repeated_command_is_silent(playing_after(playing, a), x);
    let one = seq![x];
    assert(one.drop_last() =~= Seq::<PlayerActions>::empty());
    assert(last_seek(one.drop_last()) is None);
    assert(last_seek(one) is None);
    assert(command_events(playing, a) + Seq::<PlayerStatus>::empty() =~= command_events(
        playing,
        a,
    ));
    lemma_commands_concat(playing, ax, b);
    lemma_commands_concat(playing, a, b);
    let l = a + seq![x] + b;
    let r = a + b;
    if stop_requested(l) {
        let i = choose|i: int| 0 <= i < l.len() && l[i] == PlayerActions::Stop;
        if i < a.len() {
            assert(r[i] == l[i]);
        } else if i > a.len() {
            assert(r[i - 1] == l[i]);
        }
    }
    if stop_requested(r) {
        let i = choose|i: int| 0 <= i < r.len() && r[i] == PlayerActions::Stop;
        if i < a.len() {
            assert(l[i] == r[i]);
        } else {
            assert(l[i + 1] == r[i]);
        }
    }
}

/// A repeated command changes nothing: a `Pause` while paused and a `Resume`
/// while playing emit no event and leave the flag as it is.
pub proof fn lemma_repeated_command_is_silent(playing: bool, a: PlayerActions)
    requires
        (a == PlayerActions::Pause && !playing) || (a == PlayerActions::Resume && playing),
    ensures
        command_events(playing, seq![a]) == Seq::<PlayerStatus>::empty(),
        playing_after(playing, seq![a]) == playing,
{
    let one = seq![a];
    assert(one.drop_last() =~= Seq::<PlayerActions>::empty());
    assert(one.last() == a);
    assert(playing_after(playing, one.drop_last()) == playing);
    assert(command_events(playing, one.drop_last()) == Seq::<PlayerStatus>::empty());
    assert(step_events(playing, a) =~= Seq::<PlayerStatus>::empty());
    assert(command_events(playing, one) =~= Seq::<PlayerStatus>::empty());
}

/// A packet that lies at or after `t` milliseconds reports a position of at
/// least `t`.
pub proof fn lemma_position_at_or_after(ts: u64, tb: TimeBase, t: u64)
    requires
        tb.wf(),
        at_or_after(ts as int, tb, t as int),
    ensures
        millis_of(ts, tb) >= t,
{
    let d = tb.denom as int;
    let a = ts as int * tb.numer * 1000;
    assert(a / d >= t) by (nonlinear_arith)
        requires
            d > 0,
            a >= t * d,
    ;
}

/// After a seek to `t`, once a packet at or after `t` is decoded, the
/// published position is at least `t`, and the published duration is the
/// track's.
pub proof fn lemma_position_after_seek(track: TrackInfo, ts: u64, t: u64, s: PlayerState)
    requires
        usable_time_base(track) is Some,
        at_or_after(ts as int, usable_time_base(track).unwrap(), t as int),
    ensures
        state_after_all(s, progress_events(track, ts)).position >= t,
        state_after_all(s, progress_events(track, ts)).duration == track_progress(track, ts).1,
        state_after_all(s, progress_events(track, ts)).playing == s.playing,
{
    lemma_published_progress(track, ts, s);
    lemma_position_at_or_after(ts, usable_time_base(track).unwrap(), t);
}

/// Publishing a decoded packet's events sets exactly the duration and the
/// position that the packet reports.
pub proof fn lemma_published_progress(track: TrackInfo, ts: u64, s: PlayerState)
    ensures
        state_after_all(s, progress_events(track, ts)) == (PlayerState {
            playing: s.playing,
            duration: track_progress(track, ts).1,
            position: track_progress(track, ts).0,
        }),
{
    let es = progress_events(track, ts);
    let e1 = es.drop_last();
    assert(e1.drop_last() =~= Seq::<PlayerStatus>::empty());
    assert(e1 =~= seq![es[0]]);
    assert(state_after_all(s, e1.drop_last()) == s);
    assert(e1.last() == es[0]);
    let s1 = state_after_all(s, e1);
    assert(s1 == state_after(s, es[0]));
    assert(state_after_all(s, es) == state_after(s1, es[1]));
}

/// A relative seek by `dt` from the published position `p` leads, once a
/// packet at or after its target is decoded, to a published position of at
/// least the target: `p + dt` held at zero below the start, hence at least
/// `p + dt` itself whenever that fits in a position.
pub proof fn lemma_relative_seek_reaches(
    p: u64,
    dt: i64,
    track: TrackInfo,
    ts: u64,
    s: PlayerState,
)
    requires
        usable_time_base(track) is Some,
        at_or_after(ts as int, usable_time_base(track).unwrap(), relative_target(p, dt) as int),
    ensures
        state_after_all(s, progress_events(track, ts)).position >= relative_target(p, dt),
        p + dt <= u64::MAX ==> state_after_all(s, progress_events(track, ts)).position >= p + dt,
{
    lemma_position_after_seek(track, ts, relative_target(p, dt), s);
}

/// Tick counts and their milliseconds keep their order.
pub proof fn lemma_millis_monotone(a: u64, b: u64, tb: TimeBase)
    requires
        tb.wf(),
        a <= b,
    ensures
        millis_of(a, tb) <= millis_of(b, tb),
{
    let n = tb.numer as int;
    let d = tb.denom as int;
    assert(a * n * 1000 <= b * n * 1000) by (nonlinear_arith)
        requires a <= b, n > 0;
    assert((a * n * 1000) / d <= (b * n * 1000) / d) by (nonlinear_arith)
        requires a * n * 1000 <= b * n * 1000, d > 0;
}

/// A packet that does not lie past the track's end publishes a position no
/// later than the published duration.
pub proof fn lemma_position_within_duration(track: TrackInfo, ts: u64, s: PlayerState)
    requires
        usable_time_base(track) is Some,
        end_tick(track) is Some,
        ts <= end_tick(track).unwrap(),
    ensures
        state_after_all(s, progress_events(track, ts)).position <= state_after_all(
            s,
            progress_events(track, ts),
        ).duration,
{
    lemma_published_progress(track, ts, s);
    lemma_millis_monotone(ts, end_tick(track).unwrap(), usable_time_base(track).unwrap());
}

/// The first tick at or after `t` milliseconds.
pub open spec fn first_tick_at_or_after(t: int, tb: TimeBase) -> int {
    let k = tb.numer * 1000;
    (t * tb.denom + k - 1) / k
}

/// A seek below the reported duration lands inside the stream: the first tick
/// at or after the target is not past the track's end. A batch of seeks never
/// stops the loop nor changes the `playing` flag, and the last target wins.
pub proof fn lemma_seek_below_duration_stays_inside(
    track: TrackInfo,
    t: u64,
    playing: bool,
    cmds: Seq<PlayerActions>,
)
    requires
        usable_time_base(track) is Some,
        end_tick(track) is Some,
        t < millis_of(end_tick(track).unwrap(), usable_time_base(track).unwrap()),
        forall|i: int| 0 <= i < cmds.len() ==> cmds[i] is Seek,
    ensures
        at_or_after(
            first_tick_at_or_after(t as int, usable_time_base(track).unwrap()),
            usable_time_base(track).unwrap(),
            t as int,
        ),
        first_tick_at_or_after(t as int, usable_time_base(track).unwrap()) <= end_tick(
            track,
        ).unwrap(),
        !stop_requested(cmds),
        playing_after(playing, cmds) == playing,
        command_events(playing, cmds) == Seq::<PlayerStatus>::empty(),
        cmds.len() > 0 ==> last_seek(cmds) == Some(cmds.last()->Seek_0),
{
    let tb = usable_time_base(track).unwrap();
    let end = end_tick(track).unwrap() as int;
    let n = tb.numer as int;
    let d = tb.denom as int;
    let k = n * 1000;
    let q = (end * n * 1000) / d;
    assert(k > 0) by (nonlinear_arith)
        requires n > 0, k == n * 1000;
    assert((t as int) < q);
    assert(t * d < end * k) by (nonlinear_arith)
        requires d > 0, (t as int) < q, q == (end * n * 1000) / d, k == n * 1000;
    let f = first_tick_at_or_after(t as int, tb);
    assert(f == (t * d + k - 1) / k);
    assert(f * k >= t * d) by (nonlinear_arith)
        requires k > 0, f == (t * d + k - 1) / k, t * d >= 0;
    assert(f * n * 1000 == f * k) by (nonlinear_arith)
        requires k == n * 1000;
    assert(f <= end) by (nonlinear_arith)
        requires k > 0, f == (t * d + k - 1) / k, t * d < end * k, t * d >= 0;
    lemma_seeks_are_silent(playing, cmds);
    if stop_requested(cmds) {
        let j = choose|j: int| 0 <= j < cmds.len() && cmds[j] == PlayerActions::Stop;
        assert(cmds[j] is Seek);
    }
}

/// Seeks alone leave the flag as it is and emit no event.
proof fn lemma_seeks_are_silent(playing: bool, cmds: Seq<PlayerActions>)
    requires
        forall|i: int| 0 <= i < cmds.len() ==> cmds[i] is Seek,
    ensures
        playing_after(playing, cmds) == playing,
        command_events(playing, cmds) == Seq::<PlayerStatus>::empty(),
    decreases cmds.len(),
{
    if cmds.len() > 0 {
        let pre = cmds.drop_last();
        assert forall|i: int| 0 <= i < pre.len() implies pre[i] is Seek by {
            assert(pre[i] == cmds[i]);
        }
        lemma_seeks_are_silent(playing, pre);
        assert(cmds.last() == cmds[cmds.len() - 1]);
        assert(command_events(playing, cmds) =~= Seq::<PlayerStatus>::empty());
    }
}

} // verus!
