//! The host's clock: how many ticks make a second, a video frame, an audio
//! sample.

use vstd::prelude::*;
use crate::call::{CallView, HostCall};
use crate::decode::Decode;
use crate::entry::{time_suite, Entry, MediaEntry, SuiteId, SuiteName};
use crate::error::Error;
use crate::pending::Pending;
use crate::registry::{Acquire, Registry, SuiteGuard};
use crate::value::Value;

verus! {

/// The video frame rates that the host names.
#[derive(Clone, Copy, Debug, PartialEq, Eq, Structural, Hash)]
pub enum VideoFrameRates {
    Rate24Drop,
    Rate24,
    Pal,
    Ntsc,
    Rate30,
    PalHd,
    NtscHd,
    Rate60,
    Max,
}

impl VideoFrameRates {
    /// The host's code for a variant.
    pub open spec fn raw_of(self) -> u32 {
        match self {
            VideoFrameRates::Rate24Drop => 1,
            VideoFrameRates::Rate24 => 2,
            VideoFrameRates::Pal => 3,
            VideoFrameRates::Ntsc => 4,
            VideoFrameRates::Rate30 => 5,
            VideoFrameRates::PalHd => 6,
            VideoFrameRates::NtscHd => 7,
            VideoFrameRates::Rate60 => 8,
            VideoFrameRates::Max => 0xFFFF_FFFF,
        }
    }

    /// The variant that a code of the host stands for, if it stands for one.
    pub open spec fn of_raw(raw: u32) -> Option<VideoFrameRates> {
        if raw == 1 {
            Some(VideoFrameRates::Rate24Drop)
        } else if raw == 2 {
            Some(VideoFrameRates::Rate24)
        } else if raw == 3 {
            Some(VideoFrameRates::Pal)
        } else if raw == 4 {
            Some(VideoFrameRates::Ntsc)
        } else if raw == 5 {
            Some(VideoFrameRates::Rate30)
        } else if raw == 6 {
            Some(VideoFrameRates::PalHd)
        } else if raw == 7 {
            Some(VideoFrameRates::NtscHd)
        } else if raw == 8 {
            Some(VideoFrameRates::Rate60)
        } else if raw == 0xFFFF_FFFF {
            Some(VideoFrameRates::Max)
        } else {
            None
        }
    }

    /// The host's code for this variant.
    pub fn to_raw(self) -> (raw: u32)
        ensures
            raw == self.raw_of(),
            VideoFrameRates::of_raw(raw) == Some(self),
    {
        match self {
            VideoFrameRates::Rate24Drop => 1,
            VideoFrameRates::Rate24 => 2,
            VideoFrameRates::Pal => 3,
            VideoFrameRates::Ntsc => 4,
            VideoFrameRates::Rate30 => 5,
            VideoFrameRates::PalHd => 6,
            VideoFrameRates::NtscHd => 7,
            VideoFrameRates::Rate60 => 8,
            VideoFrameRates::Max => 0xFFFF_FFFF,
        }
    }

    /// The variant that a code of the host stands for. A code outside the
    /// published set stands for none and is never mapped to a default.
    pub fn from_raw(raw: u32) -> (v: Option<VideoFrameRates>)
        ensures
            v == VideoFrameRates::of_raw(raw),
            v matches Some(known) ==> known.raw_of() == raw,
    {
        if raw == 1 {
            Some(VideoFrameRates::Rate24Drop)
        } else if raw == 2 {
            Some(VideoFrameRates::Rate24)
        } else if raw == 3 {
            Some(VideoFrameRates::Pal)
        } else if raw == 4 {
            Some(VideoFrameRates::Ntsc)
        } else if raw == 5 {
            Some(VideoFrameRates::Rate30)
        } else if raw == 6 {
            Some(VideoFrameRates::PalHd)
        } else if raw == 7 {
            Some(VideoFrameRates::NtscHd)
        } else if raw == 8 {
            Some(VideoFrameRates::Rate60)
        } else if raw == 0xFFFF_FFFF {
            Some(VideoFrameRates::Max)
        } else {
            None
        }
    }
}

impl Decode for VideoFrameRates {
    open spec fn template() -> Seq<Value> {
        seq![Value::Word(0)]
    }

    open spec fn readable(slots: Seq<Value>) -> bool {
        slots[0] is Word && VideoFrameRates::of_raw(slots[0]->Word_0) is Some
    }

    open spec fn read(slots: Seq<Value>) -> Self {
        VideoFrameRates::of_raw(slots[0]->Word_0)->Some_0
    }

    proof fn template_zeroed() {
    }

    fn width() -> (n: usize) {
        1
    }

    fn offer(out: &mut Vec<Value>) {
        out.push(Value::Word(0));
        proof {
            assert(out@ =~= old(out)@ + Self::template());
        }
    }

    fn decode(slots: &Vec<Value>, at: usize) -> (r: Option<Self>) {
        match slots[at] {
            Value::Word(raw) => VideoFrameRates::from_raw(raw),
            _ => None,
        }
    }
}

/// Every variant of [`VideoFrameRates`] has a code of its own, and the code leads back
/// to the variant.
pub proof fn lemma_video_frame_rates_round_trip(v: VideoFrameRates, raw: u32)
    ensures
        VideoFrameRates::of_raw(v.raw_of()) == Some(v),
        VideoFrameRates::of_raw(raw) matches Some(w) ==> w.raw_of() == raw,
{
}
/// The table of the host's clock.
#[derive(Debug)]
pub struct TimeSuite {
    guard: SuiteGuard,
}

impl TimeSuite {
    #[verifier::type_invariant]
    spec fn holds_own_table(self) -> bool {
        self.guard.suite() == time_suite()
    }

    /// The guard that owns the acquired table.
    pub closed spec fn guard(self) -> SuiteGuard {
        self.guard
    }

    /// The (name, version) pair of this table.
    pub fn id() -> (id: SuiteId)
        ensures
            id == time_suite(),
    {
        SuiteId { name: SuiteName::Time, version: 1 }
    }

    /// Starts the acquisition of this table from the host. With a null
    /// registry root it fails at once with "unavailable", and nothing is
    /// called.
    pub fn new(registry: &Registry) -> (r: Result<Acquire, Error>)
        ensures
            registry.null() ==> r == Err::<Acquire, Error>(Error::Unavailable),
            !registry.null() ==> r is Ok && r->Ok_0.registry() == registry.raw
                && r->Ok_0.suite() == time_suite(),
    {
        Acquire::begin(registry, Self::id())
    }

    /// Wraps the guard of a completed acquisition. Returns `None` exactly when
    /// the guard owns some other table; the guard is then lost, so release it
    /// instead of handing it here.
    pub fn from_guard(guard: SuiteGuard) -> (s: Option<Self>)
        ensures
            s is Some <==> guard.suite() == time_suite(),
            s matches Some(suite) ==> suite.guard() == guard,
    {
        let id = guard.id();
        let own = Self::id();
        if id == own {
            Some(TimeSuite { guard })
        } else {
            None
        }
    }

    /// Ends the lifetime of the suite. The result is the one release call
    /// that is owed for its acquisition.
    pub fn release(self) -> (c: HostCall)
        ensures
            c@ == (CallView::Release { registry: self.guard().registry(), suite: time_suite() }),
            self.guard().suite() == time_suite(),
    {
        proof {
            use_type_invariant(&self);
        }
        self.guard.release()
    }

    /// Starts an independent acquisition of the same table: a copy of a suite
    /// is a second suite, released on its own.
    pub fn reacquire(&self) -> (a: Acquire)
        ensures
            a.registry() == self.guard().registry(),
            a.suite() == time_suite(),
    {
        proof {
            use_type_invariant(self);
        }
        self.guard.reacquire()
    }

    /// Get the current ticks per second. This is guaranteed to be constant for
    /// the duration of runtime.
    ///
    /// Returns the number of time ticks per second.
    pub fn get_ticks_per_second(&self) -> (p: Pending<i64>)
        ensures
            p.request() == (CallView::Invoke {
                table: self.guard().table(),
                entry: Entry::Media(MediaEntry::GetTicksPerSecond),
                args: Seq::<Value>::empty(),
                outputs: i64::template(),
            }),
    {
        let args: Vec<Value> = Vec::new();
        proof {
            assert(args@ =~= Seq::<Value>::empty());
        }
        Pending::new(self.guard.table_ptr(), Entry::Media(MediaEntry::GetTicksPerSecond), args)
    }

    /// Get the number of ticks in a video frame rate.
    /// * `frame_rate` - an enum value for a video frame rate.
    ///
    /// Returns the number of time ticks per frame.
    pub fn get_ticks_per_video_frame(&self, frame_rate: VideoFrameRates) -> (p: Pending<i64>)
        ensures
            p.request() == (CallView::Invoke {
                table: self.guard().table(),
                entry: Entry::Media(MediaEntry::GetTicksPerVideoFrame),
                args: seq![
                    Value::Word(frame_rate.raw_of()),
                ],
                outputs: i64::template(),
            }),
    {
        let args: Vec<Value> = vec![
            Value::Word(frame_rate.to_raw()),
        ];
        proof {
            assert(args@ =~= seq![
                Value::Word(frame_rate.raw_of()),
            ]);
        }
        Pending::new(self.guard.table_ptr(), Entry::Media(MediaEntry::GetTicksPerVideoFrame), args)
    }

    /// Get the number of ticks in an audio sample rate.
    /// * `sample_rate` - the audio sample rate, as the bit pattern of a 32-bit
    ///   floating-point number.
    ///
    /// Returns the number of time ticks per sample. The host answers with a
    /// status of its own, which comes back as a failure carrying it, if the rate
    /// is not an even divisor of the base tick count, so that times in this rate
    /// will not be exact.
    pub fn get_ticks_per_audio_sample(&self, sample_rate: u32) -> (p: Pending<i64>)
        ensures
            p.request() == (CallView::Invoke {
                table: self.guard().table(),
                entry: Entry::Media(MediaEntry::GetTicksPerAudioSample),
                args: seq![
                    Value::Single(sample_rate),
                ],
                outputs: i64::template(),
            }),
    {
        let args: Vec<Value> = vec![
            Value::Single(sample_rate),
        ];
        proof {
            assert(args@ =~= seq![
                Value::Single(sample_rate),
            ]);
        }
        Pending::new(self.guard.table_ptr(), Entry::Media(MediaEntry::GetTicksPerAudioSample), args)
    }
}

} // verus!
