use render_core::extent::Extent;
use render_core::swapchain::{
    plan_swapchain, EngineError, RecreateResponse, SurfaceCapabilities, SwapchainConfig,
    SwapchainState,
};

fn caps() -> SurfaceCapabilities {
    SurfaceCapabilities { min_image_count: 2, supported_usage_flags: 0x13 }
}

#[test]
fn plan_takes_first_format_and_alpha() {
    let plan = plan_swapchain(&caps(), &vec![44, 50, 37], &vec![1, 8]).expect("plannable");
    assert_eq!(plan.format, 44);
    assert_eq!(plan.composite_alpha, 1);
    assert_eq!(plan.usage_flags, 0x13);
    assert_eq!(plan.min_image_count, 2);
}

#[test]
fn plan_without_formats_is_fatal() {
    let r = plan_swapchain(&caps(), &vec![], &vec![1]);
    assert_eq!(r, Err(EngineError::NoSurfaceFormat));
}

#[test]
fn plan_without_composite_alpha_is_fatal() {
    let r = plan_swapchain(&caps(), &vec![44], &vec![]);
    assert_eq!(r, Err(EngineError::NoCompositeAlpha));
}

fn chain() -> SwapchainState {
    SwapchainState::new(
        SwapchainConfig { format: 44, composite_alpha: 1, usage_flags: 0x13, min_image_count: 2 },
        Extent { width: 800, height: 600 },
        3,
    )
}

#[test]
fn successful_recreation_replaces_chain_and_images_together() {
    let mut s = chain();
    let r = s.recreate_swapchain(
        Extent { width: 1024, height: 768 },
        RecreateResponse::Success { image_count: 4 },
    );
    assert_eq!(r, Ok(true));
    assert_eq!(s.extent, Extent { width: 1024, height: 768 });
    assert_eq!(s.image_count, 4);
    // the configuration is reused, never rebuilt
    assert_eq!(s.config.format, 44);
    assert_eq!(s.config.min_image_count, 2);
}

#[test]
fn unsupported_extent_leaves_previous_chain_untouched() {
    let mut s = chain();
    let before = s;
    // a minimized window reports a zero-area extent
    let zero = Extent { width: 0, height: 0 };
    assert!(zero.is_zero_area());
    let r = s.recreate_swapchain(zero, RecreateResponse::ExtentUnsupported);
    assert_eq!(r, Ok(false));
    assert_eq!(s, before);
}

#[test]
fn other_recreation_failure_is_fatal_and_mutates_nothing() {
    let mut s = chain();
    let before = s;
    let r = s.recreate_swapchain(Extent { width: 640, height: 480 }, RecreateResponse::Failure);
    assert_eq!(r, Err(EngineError::SwapchainRecreationFailed));
    assert_eq!(s, before);
}
