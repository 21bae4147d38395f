use plugin_suites::call::{HostCall, HostReply};
use plugin_suites::entry::{Entry, MediaEntry, SuiteId, SuiteName};
use plugin_suites::error::Error;
use plugin_suites::gpu_image_processing::{GPUImageProcessingSuite, PixelFormat, RenderQuality};
use plugin_suites::registry::Registry;
use plugin_suites::time::{TimeSuite, VideoFrameRates};
use plugin_suites::value::Value;

const TABLE: usize = 0x8000;

fn gpu() -> GPUImageProcessingSuite {
    let acquire = GPUImageProcessingSuite::new(&Registry::from_raw(0x5000)).unwrap();
    let guard = acquire.complete(&HostReply::new(0, vec![Value::Handle(TABLE)])).unwrap();
    GPUImageProcessingSuite::from_guard(guard).unwrap()
}

fn time() -> TimeSuite {
    let acquire = TimeSuite::new(&Registry::from_raw(0x5000)).unwrap();
    let guard = acquire.complete(&HostReply::new(0, vec![Value::Handle(TABLE)])).unwrap();
    TimeSuite::from_guard(guard).unwrap()
}

#[test]
fn gpu_suite_is_acquired_under_its_own_name() {
    let acquire = GPUImageProcessingSuite::new(&Registry::from_raw(0x5000)).unwrap();
    assert_eq!(
        acquire.call(),
        HostCall::Acquire {
            registry: 0x5000,
            suite: SuiteId { name: SuiteName::GpuImageProcessing, version: 1 }
        }
    );
    assert_eq!(
        GPUImageProcessingSuite::new(&Registry::from_raw(0)).err(),
        Some(Error::Unavailable)
    );
    assert_eq!(TimeSuite::new(&Registry::from_raw(0)).err(), Some(Error::Unavailable));
}

#[test]
fn pixel_format_convert_passes_ten_arguments_in_order() {
    let suite = gpu();
    let bgra = PixelFormat { raw: premiere_sys::PrPixelFormat_PrPixelFormat_BGRA_4444_8u as u32 };
    let other = PixelFormat { raw: 0x4072_6762 };
    let pending = suite.pixel_format_convert(
        1,
        0x1000,
        256,
        bgra,
        0x2000,
        512,
        other,
        64,
        32,
        RenderQuality::High,
    );
    assert_eq!(
        pending.call(),
        HostCall::Invoke {
            table: TABLE,
            entry: Entry::Media(MediaEntry::PixelFormatConvert),
            args: vec![
                Value::Word(1),
                Value::Handle(0x1000),
                Value::Int(256),
                Value::Word(1634887522),
                Value::Handle(0x2000),
                Value::Int(512),
                Value::Word(0x4072_6762),
                Value::Word(64),
                Value::Word(32),
                Value::Word(3),
            ],
            outputs: vec![],
        }
    );
    assert_eq!(pending.complete(&HostReply::status_only(0)), Ok(()));
}

#[test]
fn scale_passes_its_factors_as_bits() {
    let suite = gpu();
    let format = PixelFormat { raw: 7 };
    let pending = suite.scale(
        0,
        0x1000,
        -256,
        640,
        480,
        0x2000,
        128,
        320,
        240,
        format,
        0.5f32.to_bits(),
        0.25f32.to_bits(),
        RenderQuality::Draft,
    );
    assert_eq!(
        pending.call(),
        HostCall::Invoke {
            table: TABLE,
            entry: Entry::Media(MediaEntry::Scale),
            args: vec![
                Value::Word(0),
                Value::Handle(0x1000),
                Value::Int(-256),
                Value::Word(640),
                Value::Word(480),
                Value::Handle(0x2000),
                Value::Int(128),
                Value::Word(320),
                Value::Word(240),
                Value::Word(7),
                Value::Single(0.5f32.to_bits()),
                Value::Single(0.25f32.to_bits()),
                Value::Word(0),
            ],
            outputs: vec![],
        }
    );
    assert_eq!(pending.complete(&HostReply::status_only(-5)), Err(Error::Host(-5)));
}

#[test]
fn gaussian_blur_passes_truth_values_as_integers() {
    let suite = gpu();
    let format = PixelFormat { raw: 7 };
    let pending = suite.gaussian_blur(
        2,
        0x1000,
        256,
        640,
        480,
        0x2000,
        256,
        640,
        480,
        format,
        1.5f32.to_bits(),
        2.5f32.to_bits(),
        true,
        false,
        true,
        RenderQuality::Max,
    );
    match pending.call() {
        HostCall::Invoke { entry, args, outputs, .. } => {
            assert_eq!(entry, Entry::Media(MediaEntry::GaussianBlur));
            assert_eq!(args.len(), 16);
            assert_eq!(
                &args[10..],
                &[
                    Value::Single(1.5f32.to_bits()),
                    Value::Single(2.5f32.to_bits()),
                    Value::Int(1),
                    Value::Int(0),
                    Value::Int(1),
                    Value::Word(4),
                ]
            );
            assert!(outputs.is_empty());
        }
        other => panic!("unexpected call {:?}", other),
    }
}

#[test]
fn ticks_are_read_from_one_long_slot() {
    let suite = time();
    let pending = suite.get_ticks_per_second();
    assert_eq!(
        pending.call(),
        HostCall::Invoke {
            table: TABLE,
            entry: Entry::Media(MediaEntry::GetTicksPerSecond),
            args: vec![],
            outputs: vec![Value::Long(0)],
        }
    );
    assert_eq!(
        pending.complete(&HostReply::new(0, vec![Value::Long(254_016_000_000)])),
        Ok(254_016_000_000)
    );
    let pending = suite.get_ticks_per_video_frame(VideoFrameRates::Ntsc);
    assert_eq!(
        pending.call(),
        HostCall::Invoke {
            table: TABLE,
            entry: Entry::Media(MediaEntry::GetTicksPerVideoFrame),
            args: vec![Value::Word(4)],
            outputs: vec![Value::Long(0)],
        }
    );
    assert_eq!(
        pending.complete(&HostReply::new(0, vec![Value::Long(8_475_667_200)])),
        Ok(8_475_667_200)
    );
}

#[test]
fn inexact_audio_rate_comes_back_as_the_status_of_the_host() {
    let suite = time();
    let pending = suite.get_ticks_per_audio_sample(44100.0f32.to_bits());
    assert_eq!(
        pending.call(),
        HostCall::Invoke {
            table: TABLE,
            entry: Entry::Media(MediaEntry::GetTicksPerAudioSample),
            args: vec![Value::Single(44100.0f32.to_bits())],
            outputs: vec![Value::Long(0)],
        }
    );
    let rounded = HostReply::new(1, vec![Value::Long(5_760_000)]);
    assert!(pending.accepts(&rounded));
    assert_eq!(pending.complete(&rounded), Err(Error::Host(1)));
    let pending = suite.get_ticks_per_audio_sample(48000.0f32.to_bits());
    assert!(!pending.accepts(&HostReply::new(0, vec![Value::Int(5)])));
    assert_eq!(pending.complete(&HostReply::new(0, vec![Value::Long(5_292_000)])), Ok(5_292_000));
    assert_eq!(
        suite.release(),
        HostCall::Release { registry: 0x5000, suite: SuiteId { name: SuiteName::Time, version: 1 } }
    );
}
