//! The decode/control loop of the playback engine, as a state machine. The
//! driver performs each step's outside work (draining the command queue,
//! pulling and decoding a packet, opening and writing the output) and hands
//! the outcome back; every decision is taken here.
use vstd::prelude::*;
use crate::control::{
    apply_commands, command_events, last_seek, playing_after, stop_requested, PlayerActions,
    PlayerStatus,
};
use crate::channels::{CommandInbox, StatusOutbox};
use crate::timing::{progress_of, update_progress, TimeBase};
use crossbeam_channel::{Receiver, Sender};

verus! {

/// An error reported by the demuxer or the decoder.
#[derive(Clone, Debug)]
pub enum ReadError {
    /// An I/O failure: whether its kind is "unexpected end of file", and its message.
    Io { unexpected_eof: bool, message: String },
    /// Malformed data in one packet; not fatal to playback.
    Decode(String),
    /// The stream could not be seeked.
    Seek,
    /// An unsupported container or codec feature.
    Unsupported(String),
    /// A limit of the demuxer or decoder was reached.
    Limit(String),
    /// The demuxer or decoder must be reset before going on.
    ResetRequired,
}

/// Why a playback session could not start or stopped early.
#[derive(Clone, Debug)]
pub enum EngineError {
    UnsupportedFormat,
    UnsupportedCodec,
    NoOutputDevice,
    UnsupportedOutputConfig,
    Read(ReadError),
    Write,
    /// A session is already running on this engine.
    Busy,
}

impl ReadError {
    /// An equal copy.
    pub fn duplicate(&self) -> (r: ReadError)
        ensures
            r == *self,
    {
        match self {
            ReadError::Io { unexpected_eof, message } => ReadError::Io {
                unexpected_eof: *unexpected_eof,
                message: message.clone(),
            },
            ReadError::Decode(m) => ReadError::Decode(m.clone()),
            ReadError::Seek => ReadError::Seek,
            ReadError::Unsupported(m) => ReadError::Unsupported(m.clone()),
            ReadError::Limit(m) => ReadError::Limit(m.clone()),
            ReadError::ResetRequired => ReadError::ResetRequired,
        }
    }
}

impl EngineError {
    /// An equal copy.
    pub fn duplicate(&self) -> (r: EngineError)
        ensures
            r == *self,
    {
        match self {
            EngineError::UnsupportedFormat => EngineError::UnsupportedFormat,
            EngineError::UnsupportedCodec => EngineError::UnsupportedCodec,
            EngineError::NoOutputDevice => EngineError::NoOutputDevice,
            EngineError::UnsupportedOutputConfig => EngineError::UnsupportedOutputConfig,
            EngineError::Read(e) => EngineError::Read(e.duplicate()),
            EngineError::Write => EngineError::Write,
            EngineError::Busy => EngineError::Busy,
        }
    }
}

/// Whether an error is the demuxer's end-of-stream signal.
pub open spec fn end_of_stream(e: ReadError) -> bool {
    match e {
        ReadError::Io { unexpected_eof, message } => unexpected_eof && message@
            == "end of stream"@,
        _ => false,
    }
}

/// Tells the demuxer's end-of-stream signal apart from real failures.
pub fn is_end_of_stream(e: &ReadError) -> (r: bool)
    ensures
        r == end_of_stream(*e),
{
    match e {
        ReadError::Io { unexpected_eof, message } => {
            let eos = "end of stream".to_string();
            proof {
                reveal_strlit("end of stream");
            }
            *unexpected_eof && *message == eos
        },
        _ => false,
    }
}

/// Turns the end-of-stream signal into success; keeps every other outcome.
pub fn ignore_end_of_stream_error(result: Result<(), ReadError>) -> (r: Result<(), ReadError>)
    ensures
        match result {
            Ok(()) => r is Ok,
            Err(e) => if end_of_stream(e) {
                r is Ok
            } else {
                r == Err::<(), ReadError>(e)
            },
        },
{
    match result {
        Err(e) => {
            if is_end_of_stream(&e) {
                Ok(())
            } else {
                Err(e)
            }
        },
        Ok(()) => Ok(()),
    }
}

/// What the engine needs of a track.
#[derive(Clone, Copy, Debug, PartialEq, Eq, Structural)]
pub struct TrackInfo {
    pub id: u32,
    /// False for the null (unsupported) codec.
    pub codec_supported: bool,
    pub time_base: Option<TimeBase>,
    pub start_ts: u64,
    pub n_frames: Option<u64>,
}

/// The tick at which the track ends, when its frame count is known (held at
/// `u64::MAX`).
pub open spec fn end_tick(t: TrackInfo) -> Option<u64> {
    match t.n_frames {
        Some(f) => if t.start_ts as int + f as int > u64::MAX as int {
            Some(u64::MAX)
        } else {
            Some((t.start_ts + f) as u64)
        },
        None => None,
    }
}

/// The track's time base, when it is usable.
pub open spec fn usable_time_base(t: TrackInfo) -> Option<TimeBase> {
    match t.time_base {
        Some(b) => if b.wf() {
            Some(b)
        } else {
            None
        },
        None => None,
    }
}

/// Position and duration, in milliseconds, that a packet at `ts` of track `t` reports.
pub open spec fn track_progress(t: TrackInfo, ts: u64) -> (u64, u64) {
    progress_of(ts, end_tick(t), usable_time_base(t))
}

/// The events published for a decoded packet at `ts`: the duration, then the position.
pub open spec fn progress_events(t: TrackInfo, ts: u64) -> Seq<PlayerStatus> {
    seq![
        PlayerStatus::SendDuration(track_progress(t, ts).1),
        PlayerStatus::SendPosition(track_progress(t, ts).0),
    ]
}

/// Index of the first track whose codec is supported.
pub open spec fn first_supported(tracks: Seq<TrackInfo>) -> Option<int> {
    if exists|i: int| 0 <= i < tracks.len() && tracks[i].codec_supported {
        Some(
            choose|i: int|
                0 <= i < tracks.len() && tracks[i].codec_supported && forall|j: int|
                    0 <= j < i ==> !tracks[j].codec_supported,
        )
    } else {
        None
    }
}

/// The track that playback uses: the requested one when it exists, else the
/// first supported one.
pub open spec fn selected_track(tracks: Seq<TrackInfo>, track_num: Option<usize>) -> Option<int> {
    match track_num {
        Some(n) if n < tracks.len() => Some(n as int),
        _ => first_supported(tracks),
    }
}

/// Finds the first track whose codec is supported.
pub fn first_supported_track(tracks: &Vec<TrackInfo>) -> (r: Option<usize>)
    ensures
        r matches Some(i) ==> i < tracks@.len() && first_supported(tracks@) == Some(i as int),
        r is None ==> first_supported(tracks@) is None,
{
    let mut i: usize = 0;
    while i < tracks.len()
        invariant
            i <= tracks@.len(),
            forall|j: int| 0 <= j < i ==> !tracks@[j].codec_supported,
        decreases tracks@.len() - i,
    {
        if tracks[i].codec_supported {
            proof {
                let k = choose|k: int|
                    0 <= k < tracks@.len() && tracks@[k].codec_supported && forall|j: int|
                        0 <= j < k ==> !tracks@[j].codec_supported;
                if k < i {
                } else if k > i {
                    assert(!tracks@[i as int].codec_supported);
                }
            }
            return Some(i);
        }
        i = i + 1;
    }
    None
}

/// Where the engine stands.
#[derive(Clone, Debug)]
pub enum Phase {
    /// No stream is open.
    Idle,
    /// The decode loop runs.
    Running,
    /// The stream ended, or a stop was asked for.
    Ended,
    /// A fatal error stopped the loop.
    Failed(EngineError),
}

/// The loop's next move after applying the queued commands.
#[derive(Clone, Copy, Debug, PartialEq, Eq, Structural)]
pub enum NextMove {
    /// Pull the next packet.
    Pull,
    /// Paused: wait a bounded interval, then poll the commands again.
    Wait,
    /// Leave the loop.
    Finish,
}

/// The outcome of one pass over the queued commands.
pub struct ControlStep {
    pub events: Vec<PlayerStatus>,
    pub seek: Option<u64>,
    pub next: NextMove,
}

/// What to do with a pulled packet.
#[derive(Clone, Copy, Debug, PartialEq, Eq, Structural)]
pub enum PacketMove {
    Decode,
    Skip,
    Finish,
}

/// What to do with a decoded packet.
pub enum DecodeMove {
    /// A per-packet decode error: go on with the next packet.
    Skip,
    /// Open the output with this signal first, then report back.
    OpenSink(SignalInfo),
    /// Publish these events, then write the buffer.
    Publish(Vec<PlayerStatus>),
    /// A fatal error: leave the loop.
    Finish,
}

/// What a decoded buffer carries that the output needs.
#[derive(Clone, Copy, Debug, PartialEq, Eq, Structural)]
pub struct SignalInfo {
    pub channels: u32,
    pub rate: u32,
    /// Frames the decoder's buffers hold; fixed for the decoder's lifetime.
    pub capacity: u64,
}

/// What leaving the loop asks of the driver.
pub struct Finished {
    /// Flush the output, which was opened.
    pub flush: bool,
    pub result: Result<(), EngineError>,
}

/// Whether the engine stopped on the error `e`.
pub open spec fn failed_with(p: Phase, e: EngineError) -> bool {
    match p {
        Phase::Failed(f) => f == e,
        _ => false,
    }
}

/// Whether a decoded packet's move publishes exactly `es`.
pub open spec fn publishes(m: DecodeMove, es: Seq<PlayerStatus>) -> bool {
    match m {
        DecodeMove::Publish(v) => v@ == es,
        _ => false,
    }
}

/// The playback engine: owns the selected track, the loop's state, the
/// receiving end of the command queue and the sending end of the status queue.
pub struct PlayerEngine {
    pub phase: Phase,
    pub playing: bool,
    pub track: Option<TrackInfo>,
    pub sink_open: bool,
    pub rx: CommandInbox,
    pub tx_status: StatusOutbox,
}

impl PlayerEngine {
    /// While running, a track is selected.
    pub open spec fn wf(&self) -> bool {
        self.phase is Running ==> self.track is Some
    }

    /// An idle engine that takes commands from `rx` and publishes on `tx_status`.
    pub fn new(rx: Receiver<PlayerActions>, tx_status: Sender<PlayerStatus>) -> (r: PlayerEngine)
        ensures
            r.phase is Idle,
            r.track is None,
            !r.sink_open,
            !r.playing,
            r.rx.receiver() == rx,
            r.rx.received() == Seq::<PlayerActions>::empty(),
            r.tx_status.sender() == tx_status,
            r.tx_status.sent() == Seq::<PlayerStatus>::empty(),
            r.wf(),
    {
        PlayerEngine { phase: Phase::Idle, playing: false, track: None, sink_open: false,
            rx: CommandInbox::new(rx),
            tx_status: StatusOutbox::new(tx_status),
        }
    }

    /// Selects a track (the requested one, else the first supported) and starts
    /// the loop, playing, with no output open yet. Returns the track's id.
    pub fn open(&mut self, tracks: &Vec<TrackInfo>, track_num: Option<usize>) -> (r: Result<
        u32,
        EngineError,
    >)
        requires
            old(self).phase is Idle,
        ensures
            final(self).wf(),
            match selected_track(tracks@, track_num) {
                Some(i) => r == Ok::<u32, EngineError>(tracks@[i].id) && final(self).phase is Running
                    && final(self).playing && final(self).track == Some(tracks@[i])
                    && !final(self).sink_open,
                None => r matches Err(EngineError::UnsupportedCodec) && final(self).phase is Idle
                    && final(self).track == old(self).track,
            },
    {
        let idx = match track_num {
            Some(n) if n < tracks.len() => Some(n),
            _ => first_supported_track(tracks),
        };
        match idx {
            Some(i) => {
                let t = tracks[i];
                self.phase = Phase::Running;
                self.playing = true;
                self.track = Some(t);
                self.sink_open = false;
                Ok(t.id)
            },
            None => Err(EngineError::UnsupportedCodec),
        }
    }

    /// Applies every queued command in arrival order and picks the next move:
    /// leave on a stop, wait while paused, else pull a packet.
    pub fn control(&mut self, cmds: &Vec<PlayerActions>) -> (r: ControlStep)
        requires
            old(self).phase is Running,
            old(self).wf(),
        ensures
            final(self).rx == old(self).rx,
            final(self).tx_status == old(self).tx_status,
            final(self).wf(),
            final(self).phase is Running,
            final(self).track == old(self).track,
            final(self).sink_open == old(self).sink_open,
            final(self).playing == playing_after(old(self).playing, cmds@),
            r.events@ == command_events(old(self).playing, cmds@),
            r.seek == last_seek(cmds@),
            r.next == (if stop_requested(cmds@) {
                NextMove::Finish
            } else if final(self).playing {
                NextMove::Pull
            } else {
                NextMove::Wait
            }),
    {
        let out = apply_commands(&mut self.playing, cmds);
        let next = if out.stop {
            NextMove::Finish
        } else if self.playing {
            NextMove::Pull
        } else {
            NextMove::Wait
        };
        ControlStep { events: out.events, seek: out.seek, next }
    }

    /// Drains the commands queued now and applies them as `control` does.
    /// Returns the commands taken with the step they gave.
    pub fn poll(&mut self) -> (r: (Vec<PlayerActions>, ControlStep))
        requires
            old(self).phase is Running,
            old(self).wf(),
        ensures
            final(self).wf(),
            final(self).phase is Running,
            final(self).track == old(self).track,
            final(self).sink_open == old(self).sink_open,
            final(self).playing == playing_after(old(self).playing, r.0@),
            final(self).rx.receiver() == old(self).rx.receiver(),
            final(self).rx.received() == old(self).rx.received() + r.0@,
            final(self).tx_status == old(self).tx_status,
            r.1.events@ == command_events(old(self).playing, r.0@),
            r.1.seek == last_seek(r.0@),
            r.1.next == (if stop_requested(r.0@) {
                NextMove::Finish
            } else if final(self).playing {
                NextMove::Pull
            } else {
                NextMove::Wait
            }),
    {
        let cmds = self.rx.drain();
        let step = self.control(&cmds);
        (cmds, step)
    }

    /// Publishes status events in order on the status queue; returns how many
    /// the receiving side took.
    pub fn emit(&mut self, events: &Vec<PlayerStatus>) -> (r: usize)
        ensures
            r <= events@.len(),
            final(self).tx_status.sent() == old(self).tx_status.sent() + events@.subrange(
                0,
                r as int,
            ),
            final(self).tx_status.sender() == old(self).tx_status.sender(),
            final(self).rx == old(self).rx,
            final(self).phase == old(self).phase,
            final(self).playing == old(self).playing,
            final(self).track == old(self).track,
            final(self).sink_open == old(self).sink_open,
    {
        self.tx_status.publish(events)
    }

    /// Handles the demuxer's answer to a pull: decode a packet of the selected
    /// track, skip one of another track, end on end-of-stream, fail on any
    /// other error.
    pub fn packet(&mut self, read: Result<u32, ReadError>) -> (r: PacketMove)
        requires
            old(self).phase is Running,
            old(self).wf(),
        ensures
            final(self).rx == old(self).rx,
            final(self).tx_status == old(self).tx_status,
            final(self).wf(),
            final(self).track == old(self).track,
            final(self).sink_open == old(self).sink_open,
            final(self).playing == old(self).playing,
            match read {
                Ok(id) => final(self).phase is Running && r == (if id == old(self).track.unwrap().id {
                    PacketMove::Decode
                } else {
                    PacketMove::Skip
                }),
                Err(e) => r == PacketMove::Finish && if end_of_stream(e) {
                    final(self).phase is Ended
                } else {
                    failed_with(final(self).phase, EngineError::Read(e))
                },
            },
    {
        match read {
            Ok(id) => {
                let t = self.track.unwrap();
                if id == t.id {
                    PacketMove::Decode
                } else {
                    PacketMove::Skip
                }
            },
            Err(e) => {
                if is_end_of_stream(&e) {
                    self.phase = Phase::Ended;
                } else {
                    self.phase = Phase::Failed(EngineError::Read(e));
                }
                PacketMove::Finish
            },
        }
    }

    /// The status events for a decoded packet at `ts`.
    fn progress(&self, ts: u64) -> (r: Vec<PlayerStatus>)
        requires
            self.track is Some,
        ensures
            r@ == progress_events(self.track.unwrap(), ts),
    {
        let t = self.track.unwrap();
        let end: Option<u64> = match t.n_frames {
            Some(f) => Some(
                if t.start_ts > u64::MAX - f {
                    u64::MAX
                } else {
                    t.start_ts + f
                },
            ),
            None => None,
        };
        let tb: Option<TimeBase> = match t.time_base {
            Some(b) => if b.numer > 0 && b.denom > 0 {
                Some(b)
            } else {
                None
            },
            None => None,
        };
        let (position, duration) = update_progress(ts, end, tb);
        let mut v: Vec<PlayerStatus> = Vec::new();
        v.push(PlayerStatus::SendDuration(duration));
        v.push(PlayerStatus::SendPosition(position));
        proof {
            assert(v@ =~= progress_events(t, ts));
        }
        v
    }

    /// Handles the decoder's answer for the packet at `ts`: a decode error is
    /// skipped, any other error is fatal; a buffer first opens the output if
    /// none is open, else its progress is published and it is written.
    pub fn decoded(&mut self, ts: u64, r: Result<SignalInfo, ReadError>) -> (m: DecodeMove)
        requires
            old(self).phase is Running,
            old(self).wf(),
        ensures
            final(self).rx == old(self).rx,
            final(self).tx_status == old(self).tx_status,
            final(self).wf(),
            final(self).track == old(self).track,
            final(self).sink_open == old(self).sink_open,
            final(self).playing == old(self).playing,
            match r {
                Ok(s) => final(self).phase is Running && if old(self).sink_open {
                    publishes(m, progress_events(old(self).track.unwrap(), ts))
                } else {
                    m == DecodeMove::OpenSink(s)
                },
                Err(ReadError::Decode(_)) => final(self).phase is Running && m is Skip,
                Err(e) => m is Finish && failed_with(final(self).phase, EngineError::Read(e)),
            },
    {
        match r {
            Ok(s) => {
                if self.sink_open {
                    DecodeMove::Publish(self.progress(ts))
                } else {
                    DecodeMove::OpenSink(s)
                }
            },
            Err(ReadError::Decode(_)) => DecodeMove::Skip,
            Err(e) => {
                self.phase = Phase::Failed(EngineError::Read(e));
                DecodeMove::Finish
            },
        }
    }

    /// Handles the outcome of opening the output for the packet at `ts`: on
    /// success the packet's progress is published and it is written; a
    /// failure is fatal.
    pub fn sink_opened(&mut self, ts: u64, r: Result<(), EngineError>) -> (m: DecodeMove)
        requires
            old(self).phase is Running,
            old(self).wf(),
        ensures
            final(self).rx == old(self).rx,
            final(self).tx_status == old(self).tx_status,
            final(self).wf(),
            final(self).track == old(self).track,
            final(self).playing == old(self).playing,
            match r {
                Ok(()) => final(self).phase is Running && final(self).sink_open
                    && publishes(m, progress_events(old(self).track.unwrap(), ts)),
                Err(e) => m is Finish && final(self).sink_open == old(self).sink_open
                    && failed_with(final(self).phase, e),
            },
    {
        match r {
            Ok(()) => {
                self.sink_open = true;
                DecodeMove::Publish(self.progress(ts))
            },
            Err(e) => {
                self.phase = Phase::Failed(e);
                DecodeMove::Finish
            },
        }
    }

    /// Handles the outcome of writing a buffer: a failure is fatal. Returns
    /// whether the loop goes on.
    pub fn written(&mut self, ok: bool) -> (r: bool)
        requires
            old(self).phase is Running,
            old(self).wf(),
        ensures
            final(self).rx == old(self).rx,
            final(self).tx_status == old(self).tx_status,
            final(self).wf(),
            r == ok,
            final(self).track == old(self).track,
            final(self).sink_open == old(self).sink_open,
            final(self).playing == old(self).playing,
            ok ==> final(self).phase is Running,
            !ok ==> failed_with(final(self).phase, EngineError::Write),
    {
        if !ok {
            self.phase = Phase::Failed(EngineError::Write);
        }
        ok
    }

    /// Leaves the loop: asks for a flush when the output was opened, clears the
    /// track, returns to idle, and gives the session's result (success for an
    /// end of stream or a stop, the error for a failure).
    pub fn finish(&mut self) -> (r: Finished)
        requires
            !(old(self).phase is Idle),
        ensures
            r.flush == old(self).sink_open,
            match old(self).phase {
                Phase::Failed(e) => r.result == Err::<(), EngineError>(e),
                _ => r.result is Ok,
            },
            final(self).phase is Idle,
            final(self).track is None,
            !final(self).sink_open,
            final(self).wf(),
    {
        let flush = self.sink_open;
        let result = match &self.phase {
            Phase::Failed(e) => Err(e.duplicate()),
            _ => Ok(()),
        };
        self.phase = Phase::Idle;
        self.track = None;
        self.sink_open = false;
        Finished { flush, result }
    }
}

} // verus!
