use streamplay::engine::{EngineError, SignalInfo};
use streamplay::output::{select_output_config, try_open, OutputConfig, OutputConfigRange};

fn range(channels: u16, min: u32, max: u32) -> OutputConfigRange {
    OutputConfigRange { channels, min_sample_rate: min, max_sample_rate: max }
}

fn stereo() -> SignalInfo {
    SignalInfo { channels: 2, rate: 44100, capacity: 1152 }
}

#[test]
fn highest_compatible_rate_is_chosen() {
    let configs = vec![range(2, 8000, 44100), range(1, 8000, 192000), range(2, 8000, 96000), range(2, 8000, 48000)];
    let c = select_output_config(&configs, 2).unwrap();
    assert_eq!(c, OutputConfig { channels: 2, sample_rate: 96000 });
}

#[test]
fn no_compatible_range_is_refused() {
    let configs = vec![range(1, 8000, 48000)];
    assert!(matches!(select_output_config(&configs, 2), Err(EngineError::UnsupportedOutputConfig)));
    assert!(matches!(select_output_config(&vec![], 2), Err(EngineError::UnsupportedOutputConfig)));
}

#[test]
fn no_device_is_refused() {
    assert!(matches!(try_open(None, stereo()), Err(EngineError::NoOutputDevice)));
}

#[test]
fn sink_takes_buffers_until_flushed() {
    let mut o = try_open(Some(vec![range(2, 8000, 48000)]), stereo()).unwrap();
    assert_eq!(o.config.sample_rate, 48000);
    assert_eq!(o.capacity, 1152);
    assert!(o.write(1152).is_ok());
    assert!(o.write(100).is_ok());
    assert_eq!(o.written, 1252);
    assert!(matches!(o.write(1153), Err(EngineError::Write)));
    o.flush();
    assert!(!o.open);
    assert!(matches!(o.write(1), Err(EngineError::Write)));
    assert_eq!(o.written, 1252);
}
