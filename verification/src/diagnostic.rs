//! The throughput diagnostic: how many sub-steps a second the simulation
//! really gets through, averaged over the last few frames.
//!
//! Rates are whole numbers of sub-steps per kilosecond, which keeps three
//! decimals of the rate per second.

use std::collections::VecDeque;
use vstd::prelude::*;

verus! {

/// How many frames the diagnostic averages over unless it is made with
/// another length.
pub const DEFAULT_HISTORY_LENGTH: u32 = 10;

/// The nanoseconds in a kilosecond.
pub const NANOS_PER_KILOSECOND: u64 = 1_000_000_000_000;

/// The sub-steps executed since the last report.
#[derive(Clone, Copy, Debug)]
pub struct DiagnosticFrameCount(u32);

impl View for DiagnosticFrameCount {
    type V = nat;

    closed spec fn view(&self) -> nat {
        self.0 as nat
    }
}

impl DiagnosticFrameCount {
    /// The count so far.
    pub fn get(&self) -> (count: u32)
        ensures
            count == self@,
    {
        self.0
    }

    /// Counts one executed sub-step. The count stops at `u32::MAX`.
    pub fn count_step(&mut self)
        ensures
            final(self)@ == if old(self)@ < u32::MAX {
                old(self)@ + 1
            } else {
                old(self)@
            },
    {
        self.0 = self.0.saturating_add(1);
    }

    /// Hands the count out and starts over from zero.
    pub fn take(&mut self) -> (count: u32)
        ensures
            count == old(self)@,
            final(self)@ == 0,
    {
        let count = self.0;
        self.0 = 0;
        count
    }
}

impl Default for DiagnosticFrameCount {
    fn default() -> (count: DiagnosticFrameCount)
        ensures
            count@ == 0,
    {
        DiagnosticFrameCount(0)
    }
}

/// What one host frame got done: so many sub-steps in so much wall-clock
/// time.
#[derive(Clone, Copy, Debug, PartialEq, Eq, Structural)]
pub struct Sample {
    /// The sub-steps executed in the frame.
    pub steps: u32,
    /// The duration of the frame, in nanoseconds.
    pub frame_nanos: u64,
}

impl Sample {
    /// The frame's throughput in sub-steps per kilosecond, rounded down.
    pub open spec fn rate(self) -> nat {
        (self.steps as nat * NANOS_PER_KILOSECOND as nat) / (self.frame_nanos as nat)
    }
}

/// The sum of the throughputs of `samples`.
pub open spec fn sum_rates(samples: Seq<Sample>) -> nat
    decreases samples.len(),
{
    if samples.len() == 0 {
        0
    } else {
        sum_rates(samples.drop_last()) + samples.last().rate()
    }
}

/// The contents of the diagnostic: the samples of the last frames, oldest
/// first, and how many of them it keeps.
pub struct Window {
    pub samples: Seq<Sample>,
    pub max_history_length: nat,
}

impl Window {
    /// What holds of every diagnostic: it keeps no more samples than it was
    /// made for, though always room for one, and none of a frame that took no
    /// time.
    pub open spec fn wf(self) -> bool {
        &&& self.max_history_length <= u32::MAX
        &&& self.samples.len() <= self.max_history_length || self.samples.len() <= 1
        &&& forall|i: int| 0 <= i < self.samples.len() ==> (#[trigger] self.samples[i]).frame_nanos > 0
    }

    /// The window after a frame that executed `steps` sub-steps in
    /// `frame_nanos` nanoseconds. A frame that took no time leaves no trace.
    /// Any other goes in at the end, and the oldest sample leaves if the
    /// window was full.
    pub open spec fn record(self, steps: u32, frame_nanos: u64) -> Window {
        if frame_nanos == 0 {
            self
        } else {
            let kept = if self.samples.len() > 0 && self.samples.len() >= self.max_history_length {
                self.samples.drop_first()
            } else {
                self.samples
            };
            Window { samples: kept.push(Sample { steps, frame_nanos }), ..self }
        }
    }

    /// The mean throughput over the window, in sub-steps per kilosecond,
    /// rounded down; none while the window is empty.
    pub open spec fn average(self) -> Option<nat> {
        if self.samples.len() == 0 {
            None
        } else {
            Some(sum_rates(self.samples) / self.samples.len())
        }
    }
}

/// A rolling window over the throughput of the last frames.
pub struct ThroughputDiagnostic {
    history: VecDeque<Sample>,
    max_history_length: u32,
}

impl View for ThroughputDiagnostic {
    type V = Window;

    closed spec fn view(&self) -> Window {
        Window { samples: self.history@, max_history_length: self.max_history_length as nat }
    }
}

impl ThroughputDiagnostic {
    #[verifier::type_invariant]
    spec fn well_formed(&self) -> bool {
        self@.wf()
    }

    /// An empty diagnostic that averages over the last `max_history_length`
    /// frames. One made for no frames still keeps the last one.
    pub fn new(max_history_length: u32) -> (diagnostic: ThroughputDiagnostic)
        ensures
            diagnostic@.samples == Seq::<Sample>::empty(),
            diagnostic@.max_history_length == max_history_length,
            diagnostic@.wf(),
    {
        ThroughputDiagnostic { history: VecDeque::new(), max_history_length }
    }

    /// How many samples the window holds.
    pub fn len(&self) -> (len: usize)
        ensures
            len == self@.samples.len(),
            self@.wf(),
    {
        proof {
            use_type_invariant(self);
        }
        self.history.len()
    }

    /// The samples in the window, oldest first.
    pub fn samples(&self) -> (samples: Vec<Sample>)
        ensures
            samples@ == self@.samples,
    {
        let mut samples: Vec<Sample> = Vec::new();
        let mut i: usize = 0;
        while i < self.history.len()
            invariant
                i <= self.history@.len(),
                samples@ == self.history@.subrange(0, i as int),
            decreases self.history@.len() - i,
        {
            samples.push(self.history[i]);
            assert(self.history@.subrange(0, i + 1) == self.history@.subrange(0, i as int).push(
                self.history@[i as int],
            ));
            i = i + 1;
        }
        assert(self.history@.subrange(0, i as int) == self.history@);
        samples
    }

    /// Takes in what one host frame got done. A frame that took no time is
    /// passed over; any other goes into the window, which lets go of its
    /// oldest sample if it was full.
    pub fn record(&mut self, steps_executed: u32, host_frame_duration: u64)
        ensures
            final(self)@ == old(self)@.record(steps_executed, host_frame_duration),
            final(self)@.wf(),
    {
        proof {
            use_type_invariant(&*self);
        }
        if host_frame_duration == 0 {
            return ;
        }
        let mut history: VecDeque<Sample> = VecDeque::new();
        std::mem::swap(&mut self.history, &mut history);
        let len = history.len();
        if len > 0 && len as u64 >= self.max_history_length as u64 {
            let _ = history.pop_front();
        }
        history.push_back(Sample { steps: steps_executed, frame_nanos: host_frame_duration });
        self.history = history;
    }

    /// Ends a host frame that lasted `host_frame_duration` nanoseconds: the
    /// sub-steps counted since the last report go into the window as one
    /// sample, and the count starts over. A frame that took no time is passed
    /// over, and the count stays for the next one.
    pub fn report(&mut self, frame_count: &mut DiagnosticFrameCount, host_frame_duration: u64)
        ensures
            final(self)@ == old(self)@.record(old(frame_count)@ as u32, host_frame_duration),
            final(frame_count)@ == if host_frame_duration == 0 {
                old(frame_count)@
            } else {
                0
            },
            final(self)@.wf(),
    {
        if host_frame_duration == 0 {
            proof {
                use_type_invariant(&*self);
            }
            return ;
        }
        let steps = frame_count.take();
        self.record(steps, host_frame_duration);
    }

    /// The mean throughput over the window, in sub-steps per kilosecond,
    /// rounded down; none while the window is empty.
    pub fn average_per_kilosecond(&self) -> (average: Option<u128>)
        ensures
            average is None <==> self@.samples.len() == 0,
            average matches Some(rate) ==> self@.average() == Some(rate as nat),
    {
        proof {
            use_type_invariant(self);
        }
        let len = self.history.len();
        if len == 0 {
            return None;
        }
        let ghost samples = self.history@;
        let mut sum: u128 = 0;
        let mut i: usize = 0;
        while i < len
            invariant
                samples == self.history@,
                len == samples.len(),
                len <= u32::MAX,
                forall|j: int| 0 <= j < samples.len() ==> (#[trigger] samples[j]).frame_nanos > 0,
                i <= len,
                sum == sum_rates(samples.subrange(0, i as int)),
                sum <= i * (0xffff_ffff * NANOS_PER_KILOSECOND),
            decreases len - i,
        {
            let sample = self.history[i];
            assert(sample == samples[i as int]);
            assert(sample.steps * NANOS_PER_KILOSECOND <= 0xffff_ffff * NANOS_PER_KILOSECOND)
                by (nonlinear_arith)
                requires
                    sample.steps <= 0xffff_ffff,
            ;
            let scaled: u128 = (sample.steps as u128) * (NANOS_PER_KILOSECOND as u128);
            let rate: u128 = scaled / (sample.frame_nanos as u128);
            proof {
                let next = samples.subrange(0, i + 1);
                assert(next.drop_last() == samples.subrange(0, i as int));
                assert(next.last() == sample);
                assert(rate == sample.rate());
                assert(rate <= scaled) by (nonlinear_arith)
                    requires
                        rate == scaled / (sample.frame_nanos as u128),
                        sample.frame_nanos >= 1,
                ;
                assert((i + 1) * (0xffff_ffff * NANOS_PER_KILOSECOND) == i * (0xffff_ffff
                    * NANOS_PER_KILOSECOND) + 0xffff_ffff * NANOS_PER_KILOSECOND)
                    by (nonlinear_arith);
                assert((i + 1) * (0xffff_ffff * NANOS_PER_KILOSECOND) <= 0xffff_ffff * (0xffff_ffff
                    * NANOS_PER_KILOSECOND)) by (nonlinear_arith)
                    requires
                        i + 1 <= 0xffff_ffff,
                ;
            }
            sum = sum + rate;
            i = i + 1;
        }
        assert(samples.subrange(0, len as int) == samples);
        Some(sum / (len as u128))
    }
}

impl Default for ThroughputDiagnostic {
    /// An empty diagnostic that averages over `DEFAULT_HISTORY_LENGTH`
    /// frames.
    fn default() -> (diagnostic: ThroughputDiagnostic)
        ensures
            diagnostic@.samples == Seq::<Sample>::empty(),
            diagnostic@.max_history_length == DEFAULT_HISTORY_LENGTH,
            diagnostic@.wf(),
    {
        ThroughputDiagnostic::new(DEFAULT_HISTORY_LENGTH)
    }
}

} // verus!
