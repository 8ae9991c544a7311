//! Choosing the output configuration, and the output sink's lifecycle.
use vstd::prelude::*;
use crate::engine::{EngineError, SignalInfo};

verus! {

/// A range of configurations that the output device supports.
#[derive(Clone, Copy, Debug, PartialEq, Eq, Structural)]
pub struct OutputConfigRange {
    pub channels: u16,
    pub min_sample_rate: u32,
    pub max_sample_rate: u32,
}

/// The configuration an output stream is opened with.
#[derive(Clone, Copy, Debug, PartialEq, Eq, Structural)]
pub struct OutputConfig {
    pub channels: u16,
    pub sample_rate: u32,
}

/// Whether a supported range can carry `channels` channels.
pub open spec fn compatible(c: OutputConfigRange, channels: u32) -> bool {
    c.channels as u32 == channels
}

/// Whether some range can carry `channels` channels.
pub open spec fn any_compatible(configs: Seq<OutputConfigRange>, channels: u32) -> bool {
    exists|i: int| 0 <= i < configs.len() && compatible(configs[i], channels)
}

/// Whether `rate` is the highest sample rate among the compatible ranges.
pub open spec fn is_best_rate(configs: Seq<OutputConfigRange>, channels: u32, rate: u32) -> bool {
    &&& exists|i: int|
        0 <= i < configs.len() && compatible(configs[i], channels) && configs[i].max_sample_rate
            == rate
    &&& forall|j: int|
        0 <= j < configs.len() && compatible(configs[j], channels) ==> configs[j].max_sample_rate
            <= rate
}

/// Picks, among the ranges that carry `channels` channels, the highest sample
/// rate. Fails with `UnsupportedOutputConfig` when no range carries them.
pub fn select_output_config(configs: &Vec<OutputConfigRange>, channels: u32) -> (r: Result<
    OutputConfig,
    EngineError,
>)
    ensures
        any_compatible(configs@, channels) <==> r is Ok,
        r matches Ok(c) ==> c.channels as u32 == channels && is_best_rate(
            configs@,
            channels,
            c.sample_rate,
        ),
        r matches Err(e) ==> e is UnsupportedOutputConfig,
{
    let mut best: Option<usize> = None;
    let mut i: usize = 0;
    while i < configs.len()
        invariant
            i <= configs@.len(),
            best is None ==> forall|j: int| 0 <= j < i ==> !compatible(configs@[j], channels),
            best matches Some(b) ==> b < i && compatible(configs@[b as int], channels) && forall|
                j: int,
            |
                0 <= j < i && compatible(configs@[j], channels) ==> configs@[j].max_sample_rate
                    <= configs@[b as int].max_sample_rate,
        decreases configs@.len() - i,
    {
        let c = configs[i];
        if c.channels as u32 == channels {
            match best {
                Some(b) => {
                    if c.max_sample_rate > configs[b].max_sample_rate {
                        best = Some(i);
                    }
                },
                None => {
                    best = Some(i);
                },
            }
        }
        i = i + 1;
    }
    match best {
        Some(b) => {
            let c = configs[b];
            Ok(OutputConfig { channels: c.channels, sample_rate: c.max_sample_rate })
        },
        None => Err(EngineError::UnsupportedOutputConfig),
    }
}

/// The output sink of one playback session: the configuration it was opened
/// with, the fixed capacity of the buffers it takes, the frames written so far,
/// and whether it still takes buffers (a flush closes it).
pub struct CpalAudioOutput {
    pub config: OutputConfig,
    pub capacity: u64,
    pub written: u64,
    pub open: bool,
}

/// `written + frames`, held at `u64::MAX`.
pub open spec fn add_frames(written: u64, frames: u64) -> u64 {
    if written as int + frames as int > u64::MAX as int {
        u64::MAX
    } else {
        (written + frames) as u64
    }
}

/// Opens the sink for a decoded signal on a device whose supported ranges
/// are `device` (`None`: no output device). Fails with `NoOutputDevice`
/// without a device and with `UnsupportedOutputConfig` when no range
/// carries the signal's channel count.
pub fn try_open(device: Option<Vec<OutputConfigRange>>, signal: SignalInfo) -> (r: Result<
    CpalAudioOutput,
    EngineError,
>)
    ensures
        match device {
            None => r matches Err(e) && e is NoOutputDevice,
            Some(configs) => if any_compatible(configs@, signal.channels) {
                r matches Ok(o) && o.open && o.written == 0 && o.capacity == signal.capacity
                    && o.config.channels as u32 == signal.channels && is_best_rate(
                    configs@,
                    signal.channels,
                    o.config.sample_rate,
                )
            } else {
                r matches Err(e) && e is UnsupportedOutputConfig
            },
        },
{
    match device {
        None => Err(EngineError::NoOutputDevice),
        Some(configs) => match select_output_config(&configs, signal.channels) {
            Ok(config) => Ok(
                CpalAudioOutput { config, capacity: signal.capacity, written: 0, open: true },
            ),
            Err(e) => Err(e),
        },
    }
}

impl CpalAudioOutput {
    /// Takes a buffer of `frames` frames. Fails with `Write` once flushed or
    /// when the buffer exceeds the capacity.
    pub fn write(&mut self, frames: u64) -> (r: Result<(), EngineError>)
        ensures
            r is Ok <==> (old(self).open && frames <= old(self).capacity),
            r matches Err(e) ==> e is Write,
            r is Ok ==> final(self).written == add_frames(old(self).written, frames),
            r is Err ==> final(self).written == old(self).written,
            final(self).open == old(self).open,
            final(self).config == old(self).config,
            final(self).capacity == old(self).capacity,
    {
        if !self.open || frames > self.capacity {
            return Err(EngineError::Write);
        }
        if self.written > u64::MAX - frames {
            self.written = u64::MAX;
        } else {
            self.written = self.written + frames;
        }
        Ok(())
    }

    /// Plays out what was written and closes the sink.
    pub fn flush(&mut self)
        ensures
            !final(self).open,
            final(self).written == old(self).written,
            final(self).config == old(self).config,
            final(self).capacity == old(self).capacity,
    {
        self.open = false;
    }
}

} // verus!
