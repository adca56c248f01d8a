//! The down-sampler between the sound unit and the host's audio queue.
use crate::dmg::sound::apu::Apu;
use vstd::prelude::*;

verus! {

/// One stereo sample before scaling: the left and the right level, in
/// sixteenths of full scale.
pub type StereoSample = (u16, u16);

/// The number of clocks between two samples.
pub const CLOCKS_PER_SAMPLE: u32 = 95;

/// The number of queued samples above which the queue is cut.
pub const QUEUE_LIMIT: usize = 2048;

/// The number of samples that a cut leaves.
pub const QUEUE_KEPT: usize = 512;

#[derive(Clone, Copy, Debug, PartialEq, Eq, Structural)]
pub struct AudioSampler {
    /// The clocks until the next sample.
    pub clock: u32,
}

impl AudioSampler {
    /// Whether the next clock emits a sample.
    pub open spec fn due(self) -> bool {
        self.clock <= 1
    }

    pub open spec fn tick_spec(self) -> AudioSampler {
        if self.due() {
            AudioSampler { clock: 95 }
        } else {
            AudioSampler { clock: (self.clock - 1) as u32 }
        }
    }

    pub fn new() -> (r: AudioSampler)
        ensures
            r.clock == 95,
    {
        Self { clock: CLOCKS_PER_SAMPLE }
    }

    /// Counts one clock; every 95th pushes the mix of the sound unit onto
    /// the queue.
    pub fn tick(&mut self, apu: &Apu, samples: &mut Vec<StereoSample>)
        ensures
            *final(self) == old(self).tick_spec(),
            final(samples)@ == if old(self).due() {
                old(samples)@.push(apu.sample_spec())
            } else {
                old(samples)@
            },
    {
        if self.clock <= 1 {
            self.clock = CLOCKS_PER_SAMPLE;
            samples.push(apu.sample());
        } else {
            self.clock -= 1;
        }
    }
}

/// The samples that a consumer takes when it asks for `wanted`: the oldest
/// ones, as many as there are.
pub open spec fn taken(queue: Seq<StereoSample>, wanted: usize) -> Seq<StereoSample> {
    queue.take(if wanted <= queue.len() {
        wanted as int
    } else {
        queue.len() as int
    })
}

/// The queue after a consumer took `wanted` samples: what is left, cut to its
/// oldest 512 where more than 2048 are left.
pub open spec fn kept(queue: Seq<StereoSample>, wanted: usize) -> Seq<StereoSample> {
    let rest = queue.skip(taken(queue, wanted).len() as int);
    if rest.len() > QUEUE_LIMIT {
        rest.take(QUEUE_KEPT as int)
    } else {
        rest
    }
}

/// Takes up to `wanted` of the oldest samples out of the queue and cuts a
/// queue that the consumer has fallen behind on.
pub fn drain_samples(queue: &mut Vec<StereoSample>, wanted: usize) -> (out: Vec<StereoSample>)
    ensures
        out@ == taken(old(queue)@, wanted),
        final(queue)@ == kept(old(queue)@, wanted),
{
    let n: usize = if wanted <= queue.len() {
        wanted
    } else {
        queue.len()
    };
    let staying: usize = if queue.len() - n > QUEUE_LIMIT {
        QUEUE_KEPT
    } else {
        queue.len() - n
    };
    let mut out: Vec<StereoSample> = Vec::new();
    let mut rest: Vec<StereoSample> = Vec::new();
    let mut i: usize = 0;
    while i < n + staying
        invariant
            i <= n + staying <= queue.len(),
            queue@ == old(queue)@,
            out@ == queue@.take(if i <= n {
                i as int
            } else {
                n as int
            }),
            rest@ == queue@.subrange(n as int, if i <= n {
                n as int
            } else {
                i as int
            }),
        decreases n + staying - i,
    {
        if i < n {
            out.push(queue[i]);
        } else {
            rest.push(queue[i]);
        }
        i = i + 1;
    }
    *queue = rest;
    out
}

impl Default for AudioSampler {
    fn default() -> (r: AudioSampler)
        ensures
            r.clock == 95,
    {
        AudioSampler::new()
    }
}

} // verus!
