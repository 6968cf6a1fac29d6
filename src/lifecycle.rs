use vstd::prelude::*;

use crate::extent::Extent;

verus! {

/// The library's record of the live chain of presentable images.
#[derive(Clone, Copy, Debug, PartialEq, Eq, Structural)]
pub struct SwapchainState {
    /// The pixel format of the images, as the provider numbers it.
    pub format: u32,
    pub extent: Extent,
    pub image_count: u32,
    /// Counts the rebuilds: a chain is replaced, never changed in place.
    pub generation: u64,
}

impl SwapchainState {
    pub open spec fn wf(self) -> bool {
        self.image_count > 0 && !self.extent.is_zero_spec()
    }
}

/// An image chosen by acquisition, tied to the chain it was acquired from.
#[derive(Clone, Copy, Debug, PartialEq, Eq, Structural)]
pub struct RenderTargetBinding {
    pub image_index: u32,
    pub generation: u64,
}

/// What the surface provider answered when asked for a new chain.
#[derive(Clone, Copy, Debug, PartialEq, Eq, Structural)]
pub enum ProvidedChain {
    Built { extent: Extent, image_count: u32 },
    DeviceLost,
}

/// What the surface provider answered when asked for the next image.
#[derive(Clone, Copy, Debug, PartialEq, Eq, Structural)]
pub enum ProvidedImage {
    Acquired { image_index: u32, suboptimal: bool },
    OutOfDate,
    Failed,
}

#[derive(Clone, Copy, Debug, PartialEq, Eq, Structural)]
pub enum RebuildError {
    /// The surface has a zero dimension: skip the frame, rebuild nothing.
    ZeroExtent,
    /// Fatal.
    DeviceLost,
}

#[derive(Clone, Copy, Debug, PartialEq, Eq, Structural)]
pub enum AcquireError {
    /// The chain must be rebuilt before an image can be had.
    OutOfDate,
    /// Fatal.
    Failed,
}

impl ProvidedChain {
    /// A chain that the provider could really have built.
    pub open spec fn valid(self) -> bool {
        match self {
            ProvidedChain::Built { extent, image_count } => image_count > 0 && !extent.is_zero_spec(),
            ProvidedChain::DeviceLost => true,
        }
    }
}

/// Keeps exactly one live chain and decides when it must be rebuilt.
#[derive(Clone, Copy, Debug, PartialEq, Eq, Structural)]
pub struct Lifecycle {
    pub state: SwapchainState,
    /// Raised by the event source when the window was resized.
    pub resize_requested: bool,
    /// Raised when acquisition or presentation reported a stale chain.
    pub stale: bool,
}

impl Lifecycle {
    pub open spec fn wf(self) -> bool {
        self.state.wf()
    }

    pub open spec fn needs_rebuild_spec(self) -> bool {
        self.resize_requested || self.stale
    }

    /// A binding may be submitted only if it names an image of the live chain.
    pub open spec fn binding_current(self, b: RenderTargetBinding) -> bool {
        b.generation == self.state.generation && b.image_index < self.state.image_count
    }

    /// The chain that a successful rebuild to `extent` with `image_count` images installs.
    pub open spec fn rebuilt_state(self, extent: Extent, image_count: u32) -> SwapchainState {
        SwapchainState {
            format: self.state.format,
            extent,
            image_count,
            generation: (self.state.generation + 1) as u64,
        }
    }

    pub fn new(state: SwapchainState) -> (r: Lifecycle)
        requires
            state.wf(),
        ensures
            r.wf(),
            r.state == state,
            !r.needs_rebuild_spec(),
    {
        Lifecycle { state, resize_requested: false, stale: false }
    }

    /// Records that the window was resized.
    pub fn request_resize(&mut self)
        ensures
            final(self).resize_requested,
            final(self).stale == old(self).stale,
            final(self).state == old(self).state,
    {
        self.resize_requested = true;
    }

    /// Records that the provider reported the chain as out of date or suboptimal.
    pub fn mark_stale(&mut self)
        ensures
            final(self).stale,
            final(self).resize_requested == old(self).resize_requested,
            final(self).state == old(self).state,
    {
        self.stale = true;
    }

    pub fn needs_rebuild(&self) -> (r: bool)
        ensures
            r == self.needs_rebuild_spec(),
    {
        self.resize_requested || self.stale
    }

    /// Replaces the chain by the one the provider built for `current_extent`.
    /// A zero extent is refused before anything else. After a rebuild the
    /// resize request stays raised only if the chain still does not match the
    /// window, so that the next check rebuilds again.
    pub fn rebuild(&mut self, current_extent: Extent, provided: ProvidedChain) -> (r: Result<
        SwapchainState,
        RebuildError,
    >)
        requires
            old(self).wf(),
            provided.valid(),
            old(self).state.generation < u64::MAX,
        ensures
            final(self).wf(),
            current_extent.is_zero_spec() ==> r == Err::<SwapchainState, RebuildError>(
                RebuildError::ZeroExtent,
            ) && *final(self) == *old(self),
            !current_extent.is_zero_spec() && provided == ProvidedChain::DeviceLost ==> r == Err::<
                SwapchainState,
                RebuildError,
            >(RebuildError::DeviceLost) && *final(self) == *old(self),
            !current_extent.is_zero_spec() ==> match provided {
                ProvidedChain::Built { extent, image_count } => {
                    &&& r == Ok::<SwapchainState, RebuildError>(
                        old(self).rebuilt_state(extent, image_count),
                    )
                    &&& final(self).state == old(self).rebuilt_state(extent, image_count)
                    &&& !final(self).stale
                    &&& final(self).resize_requested == (extent != current_extent)
                },
                ProvidedChain::DeviceLost => true,
            },
    {
        if current_extent.is_zero() {
            return Err(RebuildError::ZeroExtent);
        }
        match provided {
            ProvidedChain::Built { extent, image_count } => {
                let state = SwapchainState {
                    format: self.state.format,
                    extent,
                    image_count,
                    generation: self.state.generation + 1,
                };
                self.state = state;
                self.stale = false;
                self.resize_requested = extent != current_extent;
                Ok(state)
            },
            ProvidedChain::DeviceLost => Err(RebuildError::DeviceLost),
        }
    }

    /// Takes the provider's answer to a request for the next image. An
    /// acquired image is bound to the live chain and must be used for this
    /// frame even when suboptimal; suboptimal and out-of-date answers both
    /// leave a rebuild pending for the next check.
    pub fn acquire(&mut self, provided: ProvidedImage) -> (r: Result<
        (RenderTargetBinding, bool),
        AcquireError,
    >)
        requires
            match provided {
                ProvidedImage::Acquired { image_index, .. } => image_index
                    < old(self).state.image_count,
                _ => true,
            },
        ensures
            final(self).state == old(self).state,
            final(self).resize_requested == old(self).resize_requested,
            match provided {
                ProvidedImage::Acquired { image_index, suboptimal } => {
                    &&& r == Ok::<(RenderTargetBinding, bool), AcquireError>(
                        (
                            RenderTargetBinding {
                                image_index,
                                generation: old(self).state.generation,
                            },
                            suboptimal,
                        ),
                    )
                    &&& final(self).stale == (old(self).stale || suboptimal)
                },
                ProvidedImage::OutOfDate => {
                    &&& r == Err::<(RenderTargetBinding, bool), AcquireError>(
                        AcquireError::OutOfDate,
                    )
                    &&& final(self).stale
                },
                ProvidedImage::Failed => {
                    &&& r == Err::<(RenderTargetBinding, bool), AcquireError>(
                        AcquireError::Failed,
                    )
                    &&& final(self).stale == old(self).stale
                },
            },
    {
        match provided {
            ProvidedImage::Acquired { image_index, suboptimal } => {
                if suboptimal {
                    self.mark_stale();
                }
                let binding = RenderTargetBinding { image_index, generation: self.state.generation };
                Ok((binding, suboptimal))
            },
            ProvidedImage::OutOfDate => {
                self.mark_stale();
                Err(AcquireError::OutOfDate)
            },
            ProvidedImage::Failed => Err(AcquireError::Failed),
        }
    }
}

} // verus!
