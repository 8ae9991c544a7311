//! Transport commands, status events, and the published playback state.
use vstd::prelude::*;

verus! {

/// A transport command sent to the decode loop. Times are milliseconds from
/// the start of the stream.
#[derive(Clone, Copy, Debug, PartialEq, Eq, Structural)]
pub enum PlayerActions {
    Pause,
    Resume,
    Seek(u64),
    Stop,
}

/// A status event published by the decode loop. Times are milliseconds.
#[derive(Clone, Copy, Debug, PartialEq, Eq, Structural)]
pub enum PlayerStatus {
    SendPlaying(bool),
    SendDuration(u64),
    SendPosition(u64),
}

/// The `playing` flag after one command.
pub open spec fn playing_step(playing: bool, a: PlayerActions) -> bool {
    match a {
        PlayerActions::Pause => false,
        PlayerActions::Resume => true,
        _ => playing,
    }
}

/// The events that one command emits: a `SendPlaying` only for a real change.
pub open spec fn step_events(playing: bool, a: PlayerActions) -> Seq<PlayerStatus> {
    match a {
        PlayerActions::Pause => if playing {
            seq![PlayerStatus::SendPlaying(false)]
        } else {
            seq![]
        },
        PlayerActions::Resume => if !playing {
            seq![PlayerStatus::SendPlaying(true)]
        } else {
            seq![]
        },
        _ => seq![],
    }
}

/// The `playing` flag after applying `cmds` in order, starting from `playing`.
pub open spec fn playing_after(playing: bool, cmds: Seq<PlayerActions>) -> bool
    decreases cmds.len(),
{
    if cmds.len() == 0 {
        playing
    } else {
        playing_step(playing_after(playing, cmds.drop_last()), cmds.last())
    }
}

/// The events emitted while applying `cmds` in order, starting from `playing`.
pub open spec fn command_events(playing: bool, cmds: Seq<PlayerActions>) -> Seq<PlayerStatus>
    decreases cmds.len(),
{
    if cmds.len() == 0 {
        seq![]
    } else {
        command_events(playing, cmds.drop_last()) + step_events(
            playing_after(playing, cmds.drop_last()),
            cmds.last(),
        )
    }
}

/// The target of the last seek among `cmds`, if any: earlier seeks of the same
/// batch are superseded by it.
pub open spec fn last_seek(cmds: Seq<PlayerActions>) -> Option<u64>
    decreases cmds.len(),
{
    if cmds.len() == 0 {
        None
    } else {
        match cmds.last() {
            PlayerActions::Seek(t) => Some(t),
            _ => last_seek(cmds.drop_last()),
        }
    }
}

/// Whether `cmds` holds a `Stop`.
pub open spec fn stop_requested(cmds: Seq<PlayerActions>) -> bool {
    exists|i: int| 0 <= i < cmds.len() && cmds[i] == PlayerActions::Stop
}

/// Last-known playback state, as published by the status events. Times are
/// milliseconds.
#[derive(Clone, Copy, Debug, PartialEq, Eq, Structural)]
pub struct PlayerState {
    pub playing: bool,
    pub duration: u64,
    pub position: u64,
}

/// The state after one status event: only the field that the event names changes.
pub open spec fn state_after(s: PlayerState, e: PlayerStatus) -> PlayerState {
    match e {
        PlayerStatus::SendPlaying(p) => PlayerState { playing: p, ..s },
        PlayerStatus::SendDuration(d) => PlayerState { duration: d, ..s },
        PlayerStatus::SendPosition(p) => PlayerState { position: p, ..s },
    }
}

/// The state after the events `es`, applied in arrival order.
pub open spec fn state_after_all(s: PlayerState, es: Seq<PlayerStatus>) -> PlayerState
    decreases es.len(),
{
    if es.len() == 0 {
        s
    } else {
        state_after(state_after_all(s, es.drop_last()), es.last())
    }
}

impl PlayerState {
    /// The state before any packet is decoded: playing, with zero duration and position.
    pub fn new() -> (r: PlayerState)
        ensures
            r == (PlayerState { playing: true, duration: 0, position: 0 }),
    {
        PlayerState { playing: true, duration: 0, position: 0 }
    }

    /// Applies one status event.
    pub fn apply(&mut self, e: PlayerStatus)
        ensures
            *final(self) == state_after(*old(self), e),
    {
        match e {
            PlayerStatus::SendPlaying(p) => self.playing = p,
            PlayerStatus::SendDuration(d) => self.duration = d,
            PlayerStatus::SendPosition(p) => self.position = p,
        }
    }

    /// Applies a batch of status events in arrival order.
    pub fn apply_all(&mut self, es: &Vec<PlayerStatus>)
        ensures
            *final(self) == state_after_all(*old(self), es@),
    {
        let mut i: usize = 0;
        while i < es.len()
            invariant
                i <= es@.len(),
                *self == state_after_all(*old(self), es@.subrange(0, i as int)),
            decreases es@.len() - i,
        {
            let e = es[i];
            self.apply(e);
            proof {
                let pre = es@.subrange(0, i as int + 1);
                assert(pre.drop_last() =~= es@.subrange(0, i as int));
            }
            i = i + 1;
        }
        assert(es@.subrange(0, es@.len() as int) =~= es@);
    }
}

/// What applying a batch of commands produced.
pub struct CommandOutcome {
    /// The status events to publish, in order.
    pub events: Vec<PlayerStatus>,
    /// The seek to perform on the demuxer, if the batch asked for one.
    pub seek: Option<u64>,
    /// Whether the batch asked the loop to stop.
    pub stop: bool,
}

/// Applies drained commands in arrival order to the `playing` flag.
pub fn apply_commands(playing: &mut bool, cmds: &Vec<PlayerActions>) -> (r: CommandOutcome)
    ensures
        *final(playing) == playing_after(*old(playing), cmds@),
        r.events@ == command_events(*old(playing), cmds@),
        r.seek == last_seek(cmds@),
        r.stop == stop_requested(cmds@),
{
    let ghost p0 = *playing;
    let mut events: Vec<PlayerStatus> = Vec::new();
    let mut seek: Option<u64> = None;
    let mut stop = false;
    let mut i: usize = 0;
    while i < cmds.len()
        invariant
            i <= cmds@.len(),
            *playing == playing_after(p0, cmds@.subrange(0, i as int)),
            events@ == command_events(p0, cmds@.subrange(0, i as int)),
            seek == last_seek(cmds@.subrange(0, i as int)),
            stop == stop_requested(cmds@.subrange(0, i as int)),
        decreases cmds@.len() - i,
    {
        let a = cmds[i];
        let ghost pre = cmds@.subrange(0, i as int + 1);
        proof {
            assert(pre.drop_last() =~= cmds@.subrange(0, i as int));
            assert(pre.last() == a);
        }
        match a {
            PlayerActions::Pause => {
                if *playing {
                    events.push(PlayerStatus::SendPlaying(false));
                }
                *playing = false;
            },
            PlayerActions::Resume => {
                if !*playing {
                    events.push(PlayerStatus::SendPlaying(true));
                }
                *playing = true;
            },
            PlayerActions::Seek(t) => {
                seek = Some(t);
            },
            PlayerActions::Stop => {
                stop = true;
            },
        }
        proof {
            if stop_requested(pre) && a != PlayerActions::Stop {
                let j = choose|j: int| 0 <= j < pre.len() && pre[j] == PlayerActions::Stop;
                assert(cmds@.subrange(0, i as int)[j] == PlayerActions::Stop);
            }
            if a == PlayerActions::Stop {
                assert(pre[i as int] == PlayerActions::Stop);
            }
            if stop_requested(cmds@.subrange(0, i as int)) {
                let j = choose|j: int| 0 <= j < i && cmds@.subrange(0, i as int)[j] == PlayerActions::Stop;
                assert(pre[j] == PlayerActions::Stop);
            }
        }
        i = i + 1;
    }
    assert(cmds@.subrange(0, cmds@.len() as int) =~= cmds@);
    CommandOutcome { events, seek, stop }
}

} // verus!
