use vstd::prelude::*;

use crate::extent::Extent;
use crate::lifecycle::{
    AcquireError, Lifecycle, ProvidedChain, ProvidedImage, RebuildError, RenderTargetBinding,
    SwapchainState,
};
use crate::sync::{chain, ChainError, ChainOutcome, Token};

verus! {

/// Where the driver stands within a tick.
#[derive(Clone, Copy, Debug, PartialEq, Eq, Structural)]
pub enum Phase {
    /// Between ticks.
    Idle,
    /// Waiting for the provider's answer to a rebuild.
    Rebuilding,
    /// Waiting for the provider's answer to an acquisition.
    Acquiring,
    /// Waiting for the outcome of the chain of the recorded submission.
    Submitting,
    /// A fatal error ended the loop.
    Halted,
}

/// The stage at which a fatal error came.
#[derive(Clone, Copy, Debug, PartialEq, Eq, Structural)]
pub enum Stage {
    Rebuild,
    Acquire,
    Submit,
}

/// What the driver asks of its caller next.
#[derive(Clone, Copy, Debug, PartialEq, Eq, Structural)]
pub enum Action {
    /// Nothing to do this tick: the surface has a zero dimension.
    Skip,
    /// Reclaim what the held token tracks of finished work, then ask the
    /// provider for a new chain of this extent and report with `on_rebuilt`.
    Rebuild { extent: Extent },
    /// Reclaim what the held token tracks of finished work (unless a rebuild
    /// came first this tick), then ask the provider for the next image and
    /// report with `on_acquired`.
    Acquire,
    /// Record a submission bound to this image, chain it after the held token
    /// and the acquisition, present, and report with `on_chained`.
    Record { binding: RenderTargetBinding },
    /// The tick is over.
    Finish,
    /// Stop the loop and tear down.
    Fatal { stage: Stage },
}

/// The per-tick procedure: holds the completion token of the last frame and
/// the swapchain lifecycle, and turns each answer of the outside world into
/// the next thing to do.
#[derive(Clone, Copy, Debug, PartialEq, Eq, Structural)]
pub struct FrameDriver {
    pub token: Token,
    pub lifecycle: Lifecycle,
    pub phase: Phase,
    /// The number of ticks begun.
    pub tick: u64,
    /// The surface extent read at the start of the current tick.
    pub extent: Extent,
    /// The image acquired in the current tick.
    pub binding: Option<RenderTargetBinding>,
}

impl FrameDriver {
    pub open spec fn wf(self) -> bool {
        &&& self.lifecycle.wf()
        &&& self.phase == Phase::Submitting ==> self.binding is Some
            && self.lifecycle.binding_current(self.binding.unwrap())
        &&& (self.phase == Phase::Rebuilding || self.phase == Phase::Acquiring || self.phase
            == Phase::Submitting) ==> !self.extent.is_zero_spec()
        &&& match self.token.frame_spec() {
            Some(f) => f <= self.tick,
            None => true,
        }
    }

    /// A driver for a freshly created chain, holding an already satisfied token.
    pub fn new(state: SwapchainState) -> (r: FrameDriver)
        requires
            state.wf(),
        ensures
            r.wf(),
            r.token == Token::Fallback,
            r.lifecycle.state == state,
            !r.lifecycle.needs_rebuild_spec(),
            r.phase == Phase::Idle,
            r.tick == 0,
            r.binding is None,
    {
        FrameDriver {
            token: Token::fallback_token(),
            lifecycle: Lifecycle::new(state),
            phase: Phase::Idle,
            tick: 0,
            extent: state.extent,
            binding: None,
        }
    }

    /// The event source reports that the window was resized.
    pub fn on_resize(&mut self)
        requires
            old(self).wf(),
        ensures
            final(self).wf(),
            final(self).lifecycle.resize_requested,
            final(self).lifecycle.stale == old(self).lifecycle.stale,
            final(self).lifecycle.state == old(self).lifecycle.state,
            final(self).token == old(self).token,
            final(self).phase == old(self).phase,
            final(self).tick == old(self).tick,
            final(self).extent == old(self).extent,
            final(self).binding == old(self).binding,
    {
        self.lifecycle.request_resize();
    }

    /// Begins a tick with the surface's current extent. A zero extent ends the
    /// tick at once with nothing asked of the provider or the recorder; else a
    /// pending rebuild comes first, and then acquisition.
    pub fn start_tick(&mut self, extent: Extent) -> (r: Action)
        requires
            old(self).wf(),
            old(self).phase == Phase::Idle,
            old(self).tick < u64::MAX,
        ensures
            final(self).wf(),
            final(self).tick == old(self).tick + 1,
            final(self).token == old(self).token,
            final(self).lifecycle == old(self).lifecycle,
            extent.is_zero_spec() ==> r == Action::Skip && final(self).phase == Phase::Idle,
            !extent.is_zero_spec() && old(self).lifecycle.needs_rebuild_spec() ==> r
                == (Action::Rebuild { extent }) && final(self).phase == Phase::Rebuilding,
            !extent.is_zero_spec() && !old(self).lifecycle.needs_rebuild_spec() ==> r
                == Action::Acquire && final(self).phase == Phase::Acquiring,
            !extent.is_zero_spec() ==> final(self).extent == extent && final(self).binding is None,
    {
        self.tick = self.tick + 1;
        if extent.is_zero() {
            return Action::Skip;
        }
        self.extent = extent;
        self.binding = None;
        self.token = self.token.begin_frame();
        if self.lifecycle.needs_rebuild() {
            self.phase = Phase::Rebuilding;
            Action::Rebuild { extent }
        } else {
            self.phase = Phase::Acquiring;
            Action::Acquire
        }
    }

    /// Takes the provider's answer to the rebuild asked for by `start_tick`.
    pub fn on_rebuilt(&mut self, provided: ProvidedChain) -> (r: Action)
        requires
            old(self).wf(),
            old(self).phase == Phase::Rebuilding,
            old(self).lifecycle.state.generation < u64::MAX,
            provided.valid(),
        ensures
            final(self).wf(),
            final(self).tick == old(self).tick,
            final(self).token == old(self).token,
            final(self).extent == old(self).extent,
            match provided {
                ProvidedChain::Built { extent, image_count } => {
                    &&& r == Action::Acquire
                    &&& final(self).phase == Phase::Acquiring
                    &&& final(self).lifecycle.state == old(self).lifecycle.rebuilt_state(
                        extent,
                        image_count,
                    )
                    &&& !final(self).lifecycle.stale
                    &&& final(self).lifecycle.resize_requested == (extent != old(self).extent)
                },
                ProvidedChain::DeviceLost => {
                    &&& r == (Action::Fatal { stage: Stage::Rebuild })
                    &&& final(self).phase == Phase::Halted
                    &&& final(self).lifecycle == old(self).lifecycle
                },
            },
    {
        let extent = self.extent;
        match self.lifecycle.rebuild(extent, provided) {
            Ok(_) => {
                self.phase = Phase::Acquiring;
                Action::Acquire
            },
            Err(RebuildError::ZeroExtent) => {
                self.phase = Phase::Idle;
                Action::Skip
            },
            Err(RebuildError::DeviceLost) => {
                self.phase = Phase::Halted;
                Action::Fatal { stage: Stage::Rebuild }
            },
        }
    }

    /// Takes the provider's answer to the acquisition asked for. An out-of-date
    /// chain abandons the tick: nothing is recorded, a fallback token is held
    /// and a rebuild is left pending. A suboptimal image is still recorded and
    /// presented; the rebuild waits for the start of the next tick.
    pub fn on_acquired(&mut self, provided: ProvidedImage) -> (r: Action)
        requires
            old(self).wf(),
            old(self).phase == Phase::Acquiring,
            match provided {
                ProvidedImage::Acquired { image_index, .. } => image_index
                    < old(self).lifecycle.state.image_count,
                _ => true,
            },
        ensures
            final(self).wf(),
            final(self).tick == old(self).tick,
            final(self).extent == old(self).extent,
            final(self).lifecycle.state == old(self).lifecycle.state,
            final(self).lifecycle.resize_requested == old(self).lifecycle.resize_requested,
            match provided {
                ProvidedImage::Acquired { image_index, suboptimal } => {
                    let b = RenderTargetBinding {
                        image_index,
                        generation: old(self).lifecycle.state.generation,
                    };
                    &&& r == (Action::Record { binding: b })
                    &&& final(self).phase == Phase::Submitting
                    &&& final(self).binding == Some(b)
                    &&& final(self).token == old(self).token
                    &&& final(self).lifecycle.stale == (old(self).lifecycle.stale || suboptimal)
                },
                ProvidedImage::OutOfDate => {
                    &&& r == Action::Finish
                    &&& final(self).phase == Phase::Idle
                    &&& final(self).token == Token::Fallback
                    &&& final(self).lifecycle.needs_rebuild_spec()
                },
                ProvidedImage::Failed => {
                    &&& r == (Action::Fatal { stage: Stage::Acquire })
                    &&& final(self).phase == Phase::Halted
                    &&& final(self).token == old(self).token
                    &&& final(self).lifecycle == old(self).lifecycle
                },
            },
    {
        match self.lifecycle.acquire(provided) {
            Ok((binding, _suboptimal)) => {
                self.binding = Some(binding);
                self.phase = Phase::Submitting;
                Action::Record { binding }
            },
            Err(AcquireError::OutOfDate) => {
                self.token = Token::fallback_token();
                self.phase = Phase::Idle;
                Action::Finish
            },
            Err(AcquireError::Failed) => {
                self.phase = Phase::Halted;
                Action::Fatal { stage: Stage::Acquire }
            },
        }
    }

    /// Takes the outcome of the chain for the recorded submission. On success
    /// the new token stands for this tick's presentation; when presentation is
    /// out of date a fallback token is held and a rebuild left pending; a
    /// rejected submission is fatal.
    pub fn on_chained(&mut self, outcome: ChainOutcome) -> (r: Action)
        requires
            old(self).wf(),
            old(self).phase == Phase::Submitting,
        ensures
            final(self).wf(),
            final(self).tick == old(self).tick,
            final(self).extent == old(self).extent,
            final(self).lifecycle.state == old(self).lifecycle.state,
            final(self).lifecycle.resize_requested == old(self).lifecycle.resize_requested,
            match outcome {
                ChainOutcome::Flushed => {
                    &&& r == Action::Finish
                    &&& final(self).phase == Phase::Idle
                    &&& final(self).token == (Token::Presented { frame: old(self).tick })
                    &&& final(self).lifecycle == old(self).lifecycle
                },
                ChainOutcome::PresentOutOfDate => {
                    &&& r == Action::Finish
                    &&& final(self).phase == Phase::Idle
                    &&& final(self).token == Token::Fallback
                    &&& final(self).lifecycle.stale
                },
                ChainOutcome::SubmitRejected => {
                    &&& r == (Action::Fatal { stage: Stage::Submit })
                    &&& final(self).phase == Phase::Halted
                    &&& final(self).lifecycle == old(self).lifecycle
                },
            },
    {
        let tick = self.tick;
        match chain(self.token, tick, outcome) {
            Ok(token) => {
                self.token = token;
                self.phase = Phase::Idle;
                Action::Finish
            },
            Err(ChainError::PresentOutOfDate) => {
                self.token = Token::fallback_token();
                self.lifecycle.mark_stale();
                self.phase = Phase::Idle;
                Action::Finish
            },
            Err(ChainError::SubmitFailed) => {
                self.token = Token::fallback_token();
                self.phase = Phase::Halted;
                Action::Fatal { stage: Stage::Submit }
            },
        }
    }
}

} // verus!
