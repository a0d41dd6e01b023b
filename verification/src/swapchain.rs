use vstd::prelude::*;
use crate::extent::Extent;

verus! {

/// Fatal configuration errors: no recovery path exists, the caller must
/// abort with a diagnostic.
#[derive(Clone, Copy, PartialEq, Eq, Structural, Debug)]
pub enum EngineError {
    /// The surface reported no supported image format.
    NoSurfaceFormat,
    /// The surface reported no supported composite alpha mode.
    NoCompositeAlpha,
    /// Swapchain recreation failed for a reason other than a transient
    /// unsupported extent.
    SwapchainRecreationFailed,
}

/// The surface capabilities that swapchain planning reads: the minimum image
/// count the chain must request, and the usage flags the surface supports
/// (carried through unchanged).
#[derive(Clone, Copy, PartialEq, Eq, Structural, Debug)]
pub struct SurfaceCapabilities {
    pub min_image_count: u32,
    pub supported_usage_flags: u32,
}

/// The chain configuration chosen at creation and reused on every
/// recreation: format, composite alpha mode and usage flags are identifiers
/// reported by the surface, carried as plain values.
#[derive(Clone, Copy, PartialEq, Eq, Structural, Debug)]
pub struct SwapchainConfig {
    pub format: u32,
    pub composite_alpha: u32,
    pub usage_flags: u32,
    pub min_image_count: u32,
}

/// Plans the swapchain configuration from the surface's reported
/// capabilities, formats and composite alpha modes: the first reported
/// format and the first reported alpha mode are taken (a documented
/// simplification), the minimum image count and usage flags come from the
/// capabilities. Fails exactly when the surface reports no format or no
/// alpha mode; either is a fatal configuration error.
pub fn plan_swapchain(
    caps: &SurfaceCapabilities,
    formats: &Vec<u32>,
    composite_alphas: &Vec<u32>,
) -> (r: Result<SwapchainConfig, EngineError>)
    ensures
        formats@.len() == 0 ==> r == Err::<SwapchainConfig, EngineError>(
            EngineError::NoSurfaceFormat,
        ),
        formats@.len() > 0 && composite_alphas@.len() == 0 ==> r == Err::<
            SwapchainConfig,
            EngineError,
        >(EngineError::NoCompositeAlpha),
        formats@.len() > 0 && composite_alphas@.len() > 0 ==> r == Ok::<
            SwapchainConfig,
            EngineError,
        >(
            SwapchainConfig {
                format: formats@[0],
                composite_alpha: composite_alphas@[0],
                usage_flags: caps.supported_usage_flags,
                min_image_count: caps.min_image_count,
            },
        ),
{
    if formats.len() == 0 {
        return Err(EngineError::NoSurfaceFormat);
    }
    if composite_alphas.len() == 0 {
        return Err(EngineError::NoCompositeAlpha);
    }
    Ok(
        SwapchainConfig {
            format: formats[0],
            composite_alpha: composite_alphas[0],
            usage_flags: caps.supported_usage_flags,
            min_image_count: caps.min_image_count,
        },
    )
}

/// What the driver reported for a swapchain recreation request.
#[derive(Clone, Copy, PartialEq, Eq, Structural, Debug)]
pub enum RecreateResponse {
    /// The driver built a new chain with this many presentable images.
    Success { image_count: usize },
    /// The requested extent is not currently supported (for example a
    /// zero-area, minimized window): recoverable, retry on a later tick.
    ExtentUnsupported,
    /// Any other failure: fatal.
    Failure,
}

/// The presentable image chain as the engine tracks it: its fixed
/// configuration, its current extent, and how many images it holds. The
/// image array and the chain are always replaced together, so one extent
/// describes every image of the current chain.
#[derive(Clone, Copy, PartialEq, Eq, Structural, Debug)]
pub struct SwapchainState {
    pub config: SwapchainConfig,
    pub extent: Extent,
    pub image_count: usize,
}

impl SwapchainState {
    /// A chain always holds at least one presentable image.
    pub open spec fn wf(self) -> bool {
        self.image_count >= 1
    }

    /// Records the chain the driver built at creation: the planned
    /// configuration, the window's extent at that moment, and the number of
    /// images the driver returned.
    pub fn new(config: SwapchainConfig, extent: Extent, image_count: usize) -> (r: SwapchainState)
        requires
            image_count >= 1,
        ensures
            r == (SwapchainState { config, extent, image_count }),
            r.wf(),
    {
        SwapchainState { config, extent, image_count }
    }

    /// Applies the driver's answer to a recreation request for `new_extent`,
    /// which reuses the existing configuration. On success the chain handle
    /// and the image array are replaced together: extent and image count
    /// change atomically, the configuration is kept. An unsupported extent
    /// is a recoverable no-op that leaves the previous chain and images
    /// untouched, reported as `Ok(false)`. Any other failure is fatal and
    /// also leaves the state unchanged, so the caller can abort cleanly.
    pub fn recreate_swapchain(&mut self, new_extent: Extent, response: RecreateResponse) -> (r:
        Result<bool, EngineError>)
        requires
            old(self).wf(),
            response matches RecreateResponse::Success { image_count } ==> image_count >= 1,
        ensures
            final(self).wf(),
            final(self).config == old(self).config,
            match response {
                RecreateResponse::Success { image_count } => {
                    &&& r == Ok::<bool, EngineError>(true)
                    &&& final(self).extent == new_extent
                    &&& final(self).image_count == image_count
                },
                RecreateResponse::ExtentUnsupported => {
                    &&& r == Ok::<bool, EngineError>(false)
                    &&& *final(self) == *old(self)
                },
                RecreateResponse::Failure => {
                    &&& r == Err::<bool, EngineError>(EngineError::SwapchainRecreationFailed)
                    &&& *final(self) == *old(self)
                },
            },
    {
        match response {
            RecreateResponse::Success { image_count } => {
                self.extent = new_extent;
                self.image_count = image_count;
                Ok(true)
            },
            RecreateResponse::ExtentUnsupported => Ok(false),
            RecreateResponse::Failure => Err(EngineError::SwapchainRecreationFailed),
        }
    }
}

} // verus!
