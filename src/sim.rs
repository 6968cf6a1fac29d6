use vstd::prelude::*;

use crate::driver::{Action, FrameDriver, Phase, Stage};
use crate::extent::Extent;
use crate::lifecycle::{ProvidedChain, ProvidedImage, RenderTargetBinding, SwapchainState};
use crate::sync::{ChainOutcome, Token};

verus! {

/// A surface provider and command recorder without a GPU: it answers as a
/// presentation engine would, counts the calls made to it, and can be told to
/// fail the next acquisition or presentation.
#[derive(Clone, Copy, Debug, PartialEq, Eq, Structural)]
pub struct FakeProvider {
    /// The window's current size.
    pub surface: Extent,
    /// The size the live chain was built for.
    pub chain_extent: Extent,
    pub image_count: u32,
    /// The image the next acquisition hands out.
    pub next_index: u32,
    /// Induced: the next acquisition reports the chain out of date.
    pub fail_next_acquire: bool,
    /// Induced: the next acquisition reports its image suboptimal.
    pub suboptimal_next: bool,
    /// Induced: the next presentation reports the chain out of date.
    pub fail_next_present: bool,
    pub rebuild_calls: u64,
    pub acquire_calls: u64,
    pub record_calls: u64,
    pub present_calls: u64,
}

/// How a simulated tick ended.
#[derive(Clone, Copy, Debug, PartialEq, Eq, Structural)]
pub enum TickEnd {
    /// Zero extent: nothing was done.
    Skipped,
    /// A frame was submitted and presented.
    Rendered,
    /// The chain was out of date; the tick was given up and a rebuild is pending.
    Abandoned,
    /// A fatal error at the given stage.
    Failed { stage: Stage },
}

impl FakeProvider {
    pub open spec fn wf(self) -> bool {
        &&& self.image_count > 0
        &&& self.next_index < self.image_count
        &&& !self.chain_extent.is_zero_spec()
    }

    /// The provider after building a new chain for `extent`.
    pub open spec fn rebuilt(self, extent: Extent) -> FakeProvider {
        FakeProvider {
            chain_extent: extent,
            next_index: 0,
            rebuild_calls: (self.rebuild_calls + 1) as u64,
            ..self
        }
    }

    /// A chain is out of date when it no longer matches the window, or when
    /// that failure is induced.
    pub open spec fn acquire_result(self) -> ProvidedImage {
        if self.fail_next_acquire || self.chain_extent != self.surface {
            ProvidedImage::OutOfDate
        } else {
            ProvidedImage::Acquired { image_index: self.next_index, suboptimal: self.suboptimal_next }
        }
    }

    pub open spec fn after_acquire(self) -> FakeProvider {
        let next = if self.acquire_result() is OutOfDate {
            self.next_index
        } else if self.next_index + 1 == self.image_count {
            0
        } else {
            (self.next_index + 1) as u32
        };
        FakeProvider {
            next_index: next,
            fail_next_acquire: false,
            suboptimal_next: false,
            acquire_calls: (self.acquire_calls + 1) as u64,
            ..self
        }
    }

    pub open spec fn present_result(self) -> ChainOutcome {
        if self.fail_next_present {
            ChainOutcome::PresentOutOfDate
        } else {
            ChainOutcome::Flushed
        }
    }

    pub open spec fn new_spec(extent: Extent, image_count: u32) -> FakeProvider {
        FakeProvider {
            surface: extent,
            chain_extent: extent,
            image_count,
            next_index: 0,
            fail_next_acquire: false,
            suboptimal_next: false,
            fail_next_present: false,
            rebuild_calls: 0,
            acquire_calls: 0,
            record_calls: 0,
            present_calls: 0,
        }
    }

    /// A provider whose chain was just built for a window of `extent`.
    pub fn new(extent: Extent, image_count: u32) -> (r: FakeProvider)
        requires
            !extent.is_zero_spec(),
            image_count > 0,
        ensures
            r.wf(),
            r == FakeProvider::new_spec(extent, image_count),
    {
        FakeProvider {
            surface: extent,
            chain_extent: extent,
            image_count,
            next_index: 0,
            fail_next_acquire: false,
            suboptimal_next: false,
            fail_next_present: false,
            rebuild_calls: 0,
            acquire_calls: 0,
            record_calls: 0,
            present_calls: 0,
        }
    }

    pub fn rebuild(&mut self, extent: Extent) -> (r: ProvidedChain)
        requires
            old(self).wf(),
            !extent.is_zero_spec(),
            old(self).rebuild_calls < u64::MAX,
        ensures
            final(self).wf(),
            *final(self) == old(self).rebuilt(extent),
            r == (ProvidedChain::Built { extent, image_count: old(self).image_count }),
    {
        self.chain_extent = extent;
        self.next_index = 0;
        self.rebuild_calls = self.rebuild_calls + 1;
        ProvidedChain::Built { extent, image_count: self.image_count }
    }

    pub fn acquire_next(&mut self) -> (r: ProvidedImage)
        requires
            old(self).wf(),
            old(self).acquire_calls < u64::MAX,
        ensures
            final(self).wf(),
            r == old(self).acquire_result(),
            *final(self) == old(self).after_acquire(),
    {
        let r = if self.fail_next_acquire || self.chain_extent != self.surface {
            ProvidedImage::OutOfDate
        } else {
            let index = self.next_index;
            self.next_index = if index + 1 == self.image_count {
                0
            } else {
                index + 1
            };
            ProvidedImage::Acquired { image_index: index, suboptimal: self.suboptimal_next }
        };
        self.fail_next_acquire = false;
        self.suboptimal_next = false;
        self.acquire_calls = self.acquire_calls + 1;
        r
    }

    /// Records the submission for one image.
    pub fn record(&mut self, binding: RenderTargetBinding)
        requires
            old(self).record_calls < u64::MAX,
        ensures
            *final(self) == (FakeProvider {
                record_calls: (old(self).record_calls + 1) as u64,
                ..*old(self)
            }),
    {
        let _ = binding;
        self.record_calls = self.record_calls + 1;
    }

    /// Chains and presents the recorded submission.
    pub fn present(&mut self) -> (r: ChainOutcome)
        requires
            old(self).present_calls < u64::MAX,
        ensures
            r == old(self).present_result(),
            *final(self) == (FakeProvider {
                fail_next_present: false,
                present_calls: (old(self).present_calls + 1) as u64,
                ..*old(self)
            }),
    {
        let r = if self.fail_next_present {
            ChainOutcome::PresentOutOfDate
        } else {
            ChainOutcome::Flushed
        };
        self.fail_next_present = false;
        self.present_calls = self.present_calls + 1;
        r
    }
}

/// A chain that was just rebuilt for the window's current, non-zero extent is
/// not out of date: the first acquisition from it hands out an image, unless a
/// failure is induced.
pub proof fn lemma_rebuilt_chain_is_current(p: FakeProvider, extent: Extent)
    requires
        p.wf(),
        !extent.is_zero_spec(),
        p.surface == extent,
        !p.fail_next_acquire,
    ensures
        p.rebuilt(extent).acquire_result() == (ProvidedImage::Acquired {
            image_index: 0,
            suboptimal: p.suboptimal_next,
        }),
{
}

/// What one tick does to the simulation: the frame loop's contract as seen
/// from the fake provider's counters and the held token.
pub open spec fn tick_post(pre: Simulation, post: Simulation, extent: Extent, r: TickEnd) -> bool {
    let zero = extent.is_zero_spec();
    let (p, q) = (pre.provider, post.provider);
    &&& post.wf()
    &&& post.driver.tick == pre.driver.tick + 1
    &&& q.surface == extent
    &&& zero ==> {
        &&& r == TickEnd::Skipped
        &&& post.driver.token == pre.driver.token
        &&& q.rebuild_calls == p.rebuild_calls
        &&& q.acquire_calls == p.acquire_calls
        &&& q.record_calls == p.record_calls
        &&& q.present_calls == p.present_calls
    }
    &&& !zero ==> {
        &&& q.acquire_calls == p.acquire_calls + 1
        &&& q.rebuild_calls == if pre.driver.lifecycle.needs_rebuild_spec() || extent != p.surface {
            p.rebuild_calls + 1
        } else {
            p.rebuild_calls as int
        }
    }
    &&& !zero && !p.fail_next_acquire ==> {
        &&& q.record_calls == p.record_calls + 1
        &&& q.present_calls == p.present_calls + 1
        &&& post.driver.lifecycle.needs_rebuild_spec() == (p.suboptimal_next
            || p.fail_next_present)
    }
    &&& !zero && !p.fail_next_acquire && !p.fail_next_present ==> {
        &&& r == TickEnd::Rendered
        &&& post.driver.token == (Token::Presented { frame: post.driver.tick })
    }
    &&& !zero && !p.fail_next_acquire && p.fail_next_present ==> {
        &&& r == TickEnd::Abandoned
        &&& post.driver.token == Token::Fallback
    }
    &&& !zero && p.fail_next_acquire ==> {
        &&& r == TickEnd::Abandoned
        &&& post.driver.token == Token::Fallback
        &&& q.record_calls == p.record_calls
        &&& q.present_calls == p.present_calls
        &&& post.driver.lifecycle.needs_rebuild_spec()
    }
}

/// Each step of a run is one tick.
pub open spec fn is_run(runs: Seq<Simulation>, extents: Seq<Extent>, ends: Seq<TickEnd>) -> bool {
    &&& runs.len() == extents.len() + 1
    &&& ends.len() == extents.len()
    &&& forall|i: int|
        0 <= i < extents.len() ==> #[trigger] tick_post(runs[i], runs[i + 1], extents[i], ends[i])
}

proof fn lemma_run_counts_ticks(
    runs: Seq<Simulation>,
    extents: Seq<Extent>,
    ends: Seq<TickEnd>,
    n: int,
)
    requires
        is_run(runs, extents, ends),
        0 <= n < runs.len(),
    ensures
        runs[n].driver.tick == runs[0].driver.tick + n,
    decreases n,
{
    if n > 0 {
        lemma_run_counts_ticks(runs, extents, ends, n - 1);
        let i = n - 1;
        assert(tick_post(runs[i], runs[i + 1], extents[i], ends[i]));
    }
}

/// Over any run of ticks on a window of non-zero extent with no induced
/// failure, the token held after the n-th tick stands for the presentation
/// requested in that very tick: none is skipped and none is held over.
pub proof fn lemma_token_tracks_each_tick(
    runs: Seq<Simulation>,
    extents: Seq<Extent>,
    ends: Seq<TickEnd>,
)
    requires
        is_run(runs, extents, ends),
        forall|i: int|
            0 <= i < extents.len() ==> !(#[trigger] extents[i]).is_zero_spec(),
        forall|i: int|
            0 <= i < extents.len() ==> !(#[trigger] runs[i]).provider.fail_next_acquire
                && !runs[i].provider.fail_next_present,
    ensures
        forall|n: int|
            1 <= n < runs.len() ==> {
                &&& (#[trigger] runs[n]).driver.tick == runs[0].driver.tick + n
                &&& runs[n].driver.token == (Token::Presented { frame: runs[n].driver.tick })
                &&& ends[n - 1] == TickEnd::Rendered
            },
{
    assert forall|n: int| 1 <= n < runs.len() implies {
        &&& (#[trigger] runs[n]).driver.tick == runs[0].driver.tick + n
        &&& runs[n].driver.token == (Token::Presented { frame: runs[n].driver.tick })
        &&& ends[n - 1] == TickEnd::Rendered
    } by {
        lemma_run_counts_ticks(runs, extents, ends, n);
        let i = n - 1;
        assert(tick_post(runs[i], runs[i + 1], extents[i], ends[i]));
        assert(!extents[n - 1].is_zero_spec());
        assert(!runs[n - 1].provider.fail_next_acquire);
    }
}

/// When acquisition reports the chain out of date, the tick records and
/// presents nothing, and the next tick on a non-zero window finds a rebuild
/// pending and rebuilds before it acquires.
pub proof fn lemma_acquire_out_of_date_rebuilds_next(
    s0: Simulation,
    s1: Simulation,
    s2: Simulation,
    e0: Extent,
    e1: Extent,
    r0: TickEnd,
    r1: TickEnd,
)
    requires
        tick_post(s0, s1, e0, r0),
        tick_post(s1, s2, e1, r1),
        !e0.is_zero_spec(),
        !e1.is_zero_spec(),
        s0.provider.fail_next_acquire,
    ensures
        r0 == TickEnd::Abandoned,
        s1.provider.record_calls == s0.provider.record_calls,
        s1.provider.present_calls == s0.provider.present_calls,
        s1.driver.lifecycle.needs_rebuild_spec(),
        s2.provider.rebuild_calls == s1.provider.rebuild_calls + 1,
{
}

/// When presentation reports the chain out of date, the token held entering
/// the next tick is the already satisfied fallback, not one for the abandoned
/// submission.
pub proof fn lemma_present_out_of_date_holds_fallback(
    s0: Simulation,
    s1: Simulation,
    e0: Extent,
    r0: TickEnd,
)
    requires
        tick_post(s0, s1, e0, r0),
        !e0.is_zero_spec(),
        !s0.provider.fail_next_acquire,
        s0.provider.fail_next_present,
    ensures
        r0 == TickEnd::Abandoned,
        s1.driver.token == Token::Fallback,
        s1.driver.lifecycle.needs_rebuild_spec(),
{
}

/// With no resize pending, a suboptimal image is still recorded and presented
/// in its own tick, which rebuilds nothing; the rebuild comes at the start of
/// the next tick on a non-zero window.
pub proof fn lemma_suboptimal_rebuilds_at_next_tick(
    s0: Simulation,
    s1: Simulation,
    s2: Simulation,
    e0: Extent,
    e1: Extent,
    r0: TickEnd,
    r1: TickEnd,
)
    requires
        tick_post(s0, s1, e0, r0),
        tick_post(s1, s2, e1, r1),
        !e0.is_zero_spec(),
        !e1.is_zero_spec(),
        e0 == s0.provider.surface,
        !s0.driver.lifecycle.needs_rebuild_spec(),
        s0.provider.suboptimal_next,
        !s0.provider.fail_next_acquire,
        !s0.provider.fail_next_present,
    ensures
        r0 == TickEnd::Rendered,
        s1.driver.token == (Token::Presented { frame: s1.driver.tick }),
        s1.provider.record_calls == s0.provider.record_calls + 1,
        s1.provider.present_calls == s0.provider.present_calls + 1,
        s1.provider.rebuild_calls == s0.provider.rebuild_calls,
        s2.provider.rebuild_calls == s1.provider.rebuild_calls + 1,
{
}

/// A tick on a window with a zero dimension asks nothing of the provider or
/// the recorder.
pub proof fn lemma_zero_extent_makes_no_calls(s0: Simulation, s1: Simulation, e0: Extent, r0: TickEnd)
    requires
        tick_post(s0, s1, e0, r0),
        e0.is_zero_spec(),
    ensures
        r0 == TickEnd::Skipped,
        s1.provider.rebuild_calls == s0.provider.rebuild_calls,
        s1.provider.acquire_calls == s0.provider.acquire_calls,
        s1.provider.record_calls == s0.provider.record_calls,
        s1.provider.present_calls == s0.provider.present_calls,
        s1.driver.token == s0.driver.token,
{
}

/// The frame loop driven against the fake provider, one tick per call, as an
/// event source would drive it.
#[derive(Clone, Copy, Debug, PartialEq, Eq, Structural)]
pub struct Simulation {
    pub driver: FrameDriver,
    pub provider: FakeProvider,
}

impl Simulation {
    pub open spec fn wf(self) -> bool {
        &&& self.driver.wf()
        &&& self.provider.wf()
        &&& self.driver.phase == Phase::Idle
        &&& self.driver.lifecycle.state.extent == self.provider.chain_extent
        &&& self.driver.lifecycle.state.image_count == self.provider.image_count
        &&& self.driver.lifecycle.state.generation == self.provider.rebuild_calls
        &&& self.provider.rebuild_calls <= self.driver.tick
        &&& self.provider.acquire_calls <= self.driver.tick
        &&& self.provider.record_calls <= self.driver.tick
        &&& self.provider.present_calls <= self.driver.tick
        &&& !self.driver.lifecycle.resize_requested ==> self.provider.chain_extent
            == self.provider.surface
    }

    /// A window of `extent` whose chain holds `image_count` images.
    pub fn new(extent: Extent, image_count: u32) -> (r: Simulation)
        requires
            !extent.is_zero_spec(),
            image_count > 0,
        ensures
            r.wf(),
            r.driver.tick == 0,
            r.driver.token == Token::Fallback,
            !r.driver.lifecycle.needs_rebuild_spec(),
            r.provider == FakeProvider::new_spec(extent, image_count),
    {
        let provider = FakeProvider::new(extent, image_count);
        let state = SwapchainState { format: 0, extent, image_count, generation: 0 };
        Simulation { driver: FrameDriver::new(state), provider }
    }

    /// Runs one tick with the window at `extent`. A change of size is first
    /// reported to the driver as a resize.
    pub fn tick(&mut self, extent: Extent) -> (r: TickEnd)
        requires
            old(self).wf(),
            old(self).driver.tick < u64::MAX,
        ensures
            final(self).wf(),
            tick_post(*old(self), *final(self), extent, r),
    {
        if extent != self.provider.surface {
            self.provider.surface = extent;
            self.driver.on_resize();
        }
        let mut action = self.driver.start_tick(extent);
        if let Action::Rebuild { extent: requested } = action {
            let provided = self.provider.rebuild(requested);
            action = self.driver.on_rebuilt(provided);
        }
        if action != Action::Acquire {
            return TickEnd::Skipped;
        }
        let provided = self.provider.acquire_next();
        match self.driver.on_acquired(provided) {
            Action::Record { binding } => {
                self.provider.record(binding);
                let outcome = self.provider.present();
                match self.driver.on_chained(outcome) {
                    Action::Fatal { stage } => TickEnd::Failed { stage },
                    _ => if outcome == ChainOutcome::Flushed {
                        TickEnd::Rendered
                    } else {
                        TickEnd::Abandoned
                    },
                }
            },
            Action::Fatal { stage } => TickEnd::Failed { stage },
            _ => TickEnd::Abandoned,
        }
    }
}

} // verus!
