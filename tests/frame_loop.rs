use frame_loop::driver::{Action, FrameDriver, Phase, Stage};
use frame_loop::extent::Extent;
use frame_loop::lifecycle::{
    AcquireError, Lifecycle, ProvidedChain, ProvidedImage, RebuildError, RenderTargetBinding,
    SwapchainState,
};
use frame_loop::sim::{Simulation, TickEnd};
use frame_loop::sync::{chain, ChainError, ChainOutcome, Token};

fn state(width: u32, height: u32, image_count: u32) -> SwapchainState {
    SwapchainState { format: 44, extent: Extent::new(width, height), image_count, generation: 0 }
}

#[test]
fn extent_zero_dimension() {
    assert!(Extent::new(0, 600).is_zero());
    assert!(Extent::new(800, 0).is_zero());
    assert!(Extent::new(0, 0).is_zero());
    assert!(!Extent::new(800, 600).is_zero());
}

#[test]
fn fallback_token_waits_for_nothing() {
    let t = Token::fallback_token();
    assert_eq!(t, Token::Fallback);
    assert_eq!(t.frame(), None);
    assert_eq!(Token::Presented { frame: 7 }.frame(), Some(7));
    assert_eq!(Token::Presented { frame: 7 }.begin_frame(), Token::Presented { frame: 7 });
}

#[test]
fn chain_outcomes() {
    let prev = Token::Presented { frame: 4 };
    assert_eq!(chain(prev, 5, ChainOutcome::Flushed), Ok(Token::Presented { frame: 5 }));
    assert_eq!(chain(prev, 5, ChainOutcome::PresentOutOfDate), Err(ChainError::PresentOutOfDate));
    assert_eq!(chain(prev, 5, ChainOutcome::SubmitRejected), Err(ChainError::SubmitFailed));
}

#[test]
fn end_to_end_resize_through_minimise() {
    let mut sim = Simulation::new(Extent::new(800, 600), 3);
    let extents = [(800, 600), (800, 600), (0, 0), (800, 600)];
    let mut ends = Vec::new();
    let mut rebuilds = Vec::new();
    let mut acquires = Vec::new();
    let mut records = Vec::new();
    let mut presents = Vec::new();
    for (w, h) in extents {
        ends.push(sim.tick(Extent::new(w, h)));
        rebuilds.push(sim.provider.rebuild_calls);
        acquires.push(sim.provider.acquire_calls);
        records.push(sim.provider.record_calls);
        presents.push(sim.provider.present_calls);
    }
    assert_eq!(ends, vec![TickEnd::Rendered, TickEnd::Rendered, TickEnd::Skipped, TickEnd::Rendered]);
    // ticks 1 and 2 render without a rebuild; tick 3 makes no call at all
    assert_eq!(rebuilds, vec![0, 0, 0, 1]);
    assert_eq!(acquires, vec![1, 2, 2, 3]);
    assert_eq!(records, vec![1, 2, 2, 3]);
    assert_eq!(presents, vec![1, 2, 2, 3]);
    assert_eq!(sim.driver.token, Token::Presented { frame: 4 });
    assert_eq!(sim.driver.lifecycle.state.generation, 1);
    assert_eq!(sim.driver.lifecycle.state.extent, Extent::new(800, 600));
    assert!(!sim.driver.lifecycle.needs_rebuild());
}

#[test]
fn token_follows_each_presented_frame() {
    let mut sim = Simulation::new(Extent::new(640, 480), 2);
    for n in 1..=10u64 {
        assert_eq!(sim.tick(Extent::new(640, 480)), TickEnd::Rendered);
        assert_eq!(sim.driver.token, Token::Presented { frame: n });
        assert_eq!(sim.driver.tick, n);
    }
    assert_eq!(sim.provider.rebuild_calls, 0);
    assert_eq!(sim.provider.present_calls, 10);
}

#[test]
fn acquire_out_of_date_records_nothing_and_rebuilds_next_tick() {
    let mut sim = Simulation::new(Extent::new(640, 480), 2);
    assert_eq!(sim.tick(Extent::new(640, 480)), TickEnd::Rendered);
    sim.provider.fail_next_acquire = true;
    assert_eq!(sim.tick(Extent::new(640, 480)), TickEnd::Abandoned);
    assert_eq!(sim.provider.record_calls, 1);
    assert_eq!(sim.provider.present_calls, 1);
    assert_eq!(sim.driver.token, Token::Fallback);
    assert!(sim.driver.lifecycle.needs_rebuild());
    assert_eq!(sim.tick(Extent::new(640, 480)), TickEnd::Rendered);
    assert_eq!(sim.provider.rebuild_calls, 1);
    assert_eq!(sim.driver.token, Token::Presented { frame: 3 });
}

#[test]
fn present_out_of_date_leaves_fallback_token() {
    let mut sim = Simulation::new(Extent::new(640, 480), 2);
    assert_eq!(sim.tick(Extent::new(640, 480)), TickEnd::Rendered);
    sim.provider.fail_next_present = true;
    assert_eq!(sim.tick(Extent::new(640, 480)), TickEnd::Abandoned);
    assert_eq!(sim.provider.record_calls, 2);
    assert_eq!(sim.driver.token, Token::Fallback);
    assert!(sim.driver.lifecycle.needs_rebuild());
    assert_eq!(sim.tick(Extent::new(640, 480)), TickEnd::Rendered);
    assert_eq!(sim.provider.rebuild_calls, 1);
}

#[test]
fn zero_extent_makes_no_calls() {
    let mut sim = Simulation::new(Extent::new(640, 480), 2);
    assert_eq!(sim.tick(Extent::new(0, 480)), TickEnd::Skipped);
    assert_eq!(sim.tick(Extent::new(640, 0)), TickEnd::Skipped);
    assert_eq!(sim.provider.acquire_calls, 0);
    assert_eq!(sim.provider.present_calls, 0);
    assert_eq!(sim.provider.record_calls, 0);
    assert_eq!(sim.provider.rebuild_calls, 0);
    assert_eq!(sim.driver.token, Token::Fallback);
    assert_eq!(sim.driver.tick, 2);
}

#[test]
fn suboptimal_frame_is_still_presented() {
    let mut sim = Simulation::new(Extent::new(640, 480), 2);
    sim.provider.suboptimal_next = true;
    assert_eq!(sim.tick(Extent::new(640, 480)), TickEnd::Rendered);
    assert_eq!(sim.driver.token, Token::Presented { frame: 1 });
    assert_eq!(sim.provider.present_calls, 1);
    assert_eq!(sim.provider.rebuild_calls, 0);
    assert!(sim.driver.lifecycle.needs_rebuild());
    assert_eq!(sim.tick(Extent::new(640, 480)), TickEnd::Rendered);
    assert_eq!(sim.provider.rebuild_calls, 1);
    assert!(!sim.driver.lifecycle.needs_rebuild());
}

#[test]
fn suboptimal_binding_used_then_rebuild_at_next_start() {
    let mut d = FrameDriver::new(state(800, 600, 3));
    assert_eq!(d.start_tick(Extent::new(800, 600)), Action::Acquire);
    let a = d.on_acquired(ProvidedImage::Acquired { image_index: 2, suboptimal: true });
    assert_eq!(a, Action::Record { binding: RenderTargetBinding { image_index: 2, generation: 0 } });
    assert_eq!(d.binding, Some(RenderTargetBinding { image_index: 2, generation: 0 }));
    assert_eq!(d.on_chained(ChainOutcome::Flushed), Action::Finish);
    assert_eq!(d.token, Token::Presented { frame: 1 });
    assert_eq!(d.start_tick(Extent::new(800, 600)), Action::Rebuild { extent: Extent::new(800, 600) });
}

#[test]
fn resize_and_stale_rebuild_once() {
    let mut d = FrameDriver::new(state(800, 600, 3));
    d.on_resize();
    d.lifecycle.mark_stale();
    assert_eq!(d.start_tick(Extent::new(1024, 768)), Action::Rebuild { extent: Extent::new(1024, 768) });
    let a = d.on_rebuilt(ProvidedChain::Built { extent: Extent::new(1024, 768), image_count: 4 });
    assert_eq!(a, Action::Acquire);
    assert!(!d.lifecycle.needs_rebuild());
    assert_eq!(d.lifecycle.state, SwapchainState {
        format: 44,
        extent: Extent::new(1024, 768),
        image_count: 4,
        generation: 1,
    });
}

#[test]
fn rebuild_mismatch_keeps_request() {
    let mut l = Lifecycle::new(state(800, 600, 3));
    l.request_resize();
    let r = l.rebuild(
        Extent::new(1024, 768),
        ProvidedChain::Built { extent: Extent::new(1000, 700), image_count: 3 },
    );
    assert_eq!(r.map(|s| s.generation), Ok(1));
    assert!(l.resize_requested);
    assert!(l.needs_rebuild());
}

#[test]
fn rebuild_zero_extent_refused() {
    let mut l = Lifecycle::new(state(800, 600, 3));
    l.request_resize();
    let r = l.rebuild(
        Extent::new(0, 768),
        ProvidedChain::Built { extent: Extent::new(1000, 700), image_count: 3 },
    );
    assert_eq!(r, Err(RebuildError::ZeroExtent));
    assert_eq!(l.state, state(800, 600, 3));
    assert!(l.resize_requested);
}

#[test]
fn rebuild_device_lost_is_fatal() {
    let mut d = FrameDriver::new(state(800, 600, 3));
    d.on_resize();
    assert_eq!(d.start_tick(Extent::new(800, 600)), Action::Rebuild { extent: Extent::new(800, 600) });
    assert_eq!(d.on_rebuilt(ProvidedChain::DeviceLost), Action::Fatal { stage: Stage::Rebuild });
    assert_eq!(d.phase, Phase::Halted);
    let mut l = Lifecycle::new(state(800, 600, 3));
    assert_eq!(l.rebuild(Extent::new(800, 600), ProvidedChain::DeviceLost), Err(RebuildError::DeviceLost));
}

#[test]
fn acquire_errors() {
    let mut l = Lifecycle::new(state(800, 600, 3));
    assert_eq!(l.acquire(ProvidedImage::Failed), Err(AcquireError::Failed));
    assert!(!l.needs_rebuild());
    assert_eq!(l.acquire(ProvidedImage::OutOfDate), Err(AcquireError::OutOfDate));
    assert!(l.stale);
    let mut d = FrameDriver::new(state(800, 600, 3));
    assert_eq!(d.start_tick(Extent::new(800, 600)), Action::Acquire);
    assert_eq!(d.on_acquired(ProvidedImage::Failed), Action::Fatal { stage: Stage::Acquire });
    assert_eq!(d.phase, Phase::Halted);
}

#[test]
fn acquire_out_of_date_in_driver() {
    let mut d = FrameDriver::new(state(800, 600, 3));
    d.start_tick(Extent::new(800, 600));
    d.on_acquired(ProvidedImage::Acquired { image_index: 0, suboptimal: false });
    d.on_chained(ChainOutcome::Flushed);
    assert_eq!(d.start_tick(Extent::new(800, 600)), Action::Acquire);
    assert_eq!(d.on_acquired(ProvidedImage::OutOfDate), Action::Finish);
    assert_eq!(d.token, Token::Fallback);
    assert_eq!(d.phase, Phase::Idle);
    assert_eq!(d.start_tick(Extent::new(800, 600)), Action::Rebuild { extent: Extent::new(800, 600) });
}

#[test]
fn submit_rejected_is_fatal() {
    let mut d = FrameDriver::new(state(800, 600, 3));
    d.start_tick(Extent::new(800, 600));
    d.on_acquired(ProvidedImage::Acquired { image_index: 1, suboptimal: false });
    assert_eq!(d.on_chained(ChainOutcome::SubmitRejected), Action::Fatal { stage: Stage::Submit });
    assert_eq!(d.phase, Phase::Halted);
}

#[test]
fn present_out_of_date_in_driver() {
    let mut d = FrameDriver::new(state(800, 600, 3));
    d.start_tick(Extent::new(800, 600));
    d.on_acquired(ProvidedImage::Acquired { image_index: 1, suboptimal: false });
    assert_eq!(d.on_chained(ChainOutcome::PresentOutOfDate), Action::Finish);
    assert_eq!(d.token, Token::Fallback);
    assert!(d.lifecycle.needs_rebuild());
}

#[test]
fn zero_extent_tick_is_skipped_by_driver() {
    let mut d = FrameDriver::new(state(800, 600, 3));
    d.on_resize();
    assert_eq!(d.start_tick(Extent::new(0, 0)), Action::Skip);
    assert_eq!(d.phase, Phase::Idle);
    assert_eq!(d.tick, 1);
}

#[test]
fn fresh_chain_first_acquire_hands_out_image() {
    let mut sim = Simulation::new(Extent::new(800, 600), 3);
    sim.tick(Extent::new(800, 600));
    sim.tick(Extent::new(800, 600));
    assert_eq!(sim.provider.next_index, 2);
    sim.provider.surface = Extent::new(300, 200);
    let built = sim.provider.rebuild(Extent::new(300, 200));
    assert_eq!(built, ProvidedChain::Built { extent: Extent::new(300, 200), image_count: 3 });
    assert_eq!(
        sim.provider.acquire_next(),
        ProvidedImage::Acquired { image_index: 0, suboptimal: false }
    );
}

#[test]
fn fake_images_cycle() {
    let mut sim = Simulation::new(Extent::new(800, 600), 2);
    let mut seen = Vec::new();
    for _ in 0..4 {
        seen.push(sim.provider.acquire_next());
    }
    assert_eq!(seen, vec![
        ProvidedImage::Acquired { image_index: 0, suboptimal: false },
        ProvidedImage::Acquired { image_index: 1, suboptimal: false },
        ProvidedImage::Acquired { image_index: 0, suboptimal: false },
        ProvidedImage::Acquired { image_index: 1, suboptimal: false },
    ]);
}
