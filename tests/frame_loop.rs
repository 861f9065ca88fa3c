use gpu_triangle::frame_loop::{Action, FrameLoop, LoopEvent, Phase};
use gpu_triangle::pipeline::{BlendMode, ClearColor, Topology};
use gpu_triangle::surface::{PresentMode, SurfaceSize};

const FORMAT: u32 = 7;

fn new_loop(width: u32, height: u32) -> FrameLoop<u32> {
    FrameLoop::new(FORMAT, PresentMode::Mailbox, SurfaceSize::new(width, height), ClearColor::background())
}

fn resized(width: u32, height: u32) -> LoopEvent {
    LoopEvent::Resized { width, height }
}

fn live_size(l: &FrameLoop<u32>) -> Option<(u32, u32)> {
    l.configuration().map(|c| (c.size.width, c.size.height))
}

#[test]
fn first_redraw_draws_triangle_at_window_size() {
    let mut l = new_loop(800, 600);
    let c = l.configuration().expect("configured at startup");
    assert_eq!((c.size.width, c.size.height), (800, 600));
    assert_eq!(c.format, FORMAT);
    assert_eq!(c.present_mode, PresentMode::Mailbox);
    assert!(matches!(l.handle(LoopEvent::RedrawRequested), Action::AcquireFrame));
    match l.handle(LoopEvent::FrameAcquired) {
        Action::Draw(pass) => {
            assert_eq!(pass.clear, ClearColor { r: 50, g: 62, b: 80, a: 1000 });
            assert_eq!((pass.first_vertex, pass.vertex_count, pass.instance_count), (0, 3, 1));
            assert_eq!(pass.pipeline.color_format, FORMAT);
            assert_eq!(pass.pipeline.vertex_entry, "vs_main");
            assert_eq!(pass.pipeline.fragment_entry, "fs_main");
            assert_eq!(pass.pipeline.vertex_buffers, 0);
        }
        other => panic!("expected a draw, got {:?}", other),
    }
    assert_eq!(l.phase, Phase::Idle);
}

#[test]
fn zero_resize_skips_redraw_until_resized_again() {
    let mut l = new_loop(800, 600);
    assert!(matches!(l.handle(resized(0, 0)), Action::Nothing));
    assert!(matches!(l.handle(LoopEvent::RedrawRequested), Action::Nothing));
    assert_eq!(l.phase, Phase::Idle);
    assert_eq!(live_size(&l), Some((800, 600)));
    match l.handle(resized(640, 480)) {
        Action::Configure(c) => assert_eq!((c.size.width, c.size.height), (640, 480)),
        other => panic!("expected a configure, got {:?}", other),
    }
    assert!(matches!(l.handle(LoopEvent::RedrawRequested), Action::AcquireFrame));
    assert!(matches!(l.handle(LoopEvent::FrameAcquired), Action::Draw(_)));
}

#[test]
fn live_size_follows_latest_non_zero_resize() {
    let mut l = new_loop(800, 600);
    for (w, h) in [(1024, 768), (0, 300), (300, 0), (1, 1), (0, 0), (1920, 1080), (5, 0)] {
        l.handle(resized(w, h));
    }
    assert_eq!(live_size(&l), Some((1920, 1080)));
    assert!(!l.ready);
}

#[test]
fn zero_sized_window_starts_unconfigured() {
    let mut l = new_loop(0, 600);
    assert_eq!(live_size(&l), None);
    assert!(matches!(l.handle(LoopEvent::RedrawRequested), Action::Nothing));
    assert!(matches!(l.handle(resized(1, 1)), Action::Configure(_)));
    assert_eq!(live_size(&l), Some((1, 1)));
    assert!(matches!(l.handle(LoopEvent::RedrawRequested), Action::AcquireFrame));
}

#[test]
fn largest_size_is_applied() {
    let mut l = new_loop(800, 600);
    assert!(matches!(l.handle(resized(u32::MAX, u32::MAX)), Action::Configure(_)));
    assert_eq!(live_size(&l), Some((u32::MAX, u32::MAX)));
}

#[test]
fn failed_acquisition_skips_one_frame() {
    let mut l = new_loop(800, 600);
    assert!(matches!(l.handle(LoopEvent::RedrawRequested), Action::AcquireFrame));
    assert!(matches!(l.handle(LoopEvent::SurfaceAcquireFailed), Action::SkipFrame));
    assert_eq!(l.phase, Phase::Idle);
    assert!(matches!(l.handle(LoopEvent::RedrawRequested), Action::AcquireFrame));
    assert!(matches!(l.handle(LoopEvent::FrameAcquired), Action::Draw(_)));
}

#[test]
fn no_second_frame_while_one_is_held() {
    let mut l = new_loop(800, 600);
    assert!(matches!(l.handle(LoopEvent::RedrawRequested), Action::AcquireFrame));
    assert!(matches!(l.handle(LoopEvent::RedrawRequested), Action::Nothing));
    assert!(matches!(l.handle(LoopEvent::FrameAcquired), Action::Draw(_)));
    assert!(matches!(l.handle(LoopEvent::FrameAcquired), Action::Nothing));
    assert!(matches!(l.handle(LoopEvent::SurfaceAcquireFailed), Action::Nothing));
}

#[test]
fn same_pipeline_on_every_frame() {
    let mut l = new_loop(800, 600);
    let first = l.pipeline;
    for n in 0..5u32 {
        l.handle(resized(100 + n, 200 + n));
        l.handle(LoopEvent::RedrawRequested);
        match l.handle(LoopEvent::FrameAcquired) {
            Action::Draw(pass) => {
                assert_eq!(pass.pipeline.vertex_entry, first.vertex_entry);
                assert_eq!(pass.pipeline.color_format, first.color_format);
                assert_eq!(pass.pipeline.blend, BlendMode::Replace);
                assert_eq!(pass.pipeline.topology, Topology::TriangleList);
                assert_eq!(pass.clear, ClearColor::background());
            }
            other => panic!("expected a draw, got {:?}", other),
        }
    }
    assert_eq!(l.pipeline.color_format, first.color_format);
}

#[test]
fn close_terminates_from_any_state() {
    let mut idle = new_loop(800, 600);
    assert!(matches!(idle.handle(LoopEvent::CloseRequested), Action::Exit { discard_frame: false }));
    assert!(idle.is_terminated());

    let mut mid_resize = new_loop(800, 600);
    mid_resize.handle(resized(0, 0));
    assert!(matches!(mid_resize.handle(LoopEvent::CloseRequested), Action::Exit { .. }));
    assert!(mid_resize.is_terminated());

    let mut after_failure = new_loop(800, 600);
    after_failure.handle(LoopEvent::RedrawRequested);
    after_failure.handle(LoopEvent::SurfaceAcquireFailed);
    assert!(matches!(after_failure.handle(LoopEvent::CloseRequested), Action::Exit { discard_frame: false }));
    assert!(after_failure.is_terminated());

    let mut holding = new_loop(800, 600);
    holding.handle(LoopEvent::RedrawRequested);
    assert!(matches!(holding.handle(LoopEvent::CloseRequested), Action::Exit { discard_frame: true }));
    assert!(holding.is_terminated());
}

#[test]
fn terminated_loop_ignores_everything() {
    let mut l = new_loop(800, 600);
    l.handle(LoopEvent::CloseRequested);
    for e in [resized(10, 10), LoopEvent::RedrawRequested, LoopEvent::FrameAcquired, LoopEvent::CloseRequested, LoopEvent::Other] {
        assert!(matches!(l.handle(e), Action::Nothing));
        assert!(l.is_terminated());
    }
    assert_eq!(live_size(&l), Some((800, 600)));
}

#[test]
fn other_events_change_nothing() {
    let mut l = new_loop(800, 600);
    assert!(matches!(l.handle(LoopEvent::Other), Action::Nothing));
    assert_eq!(l.phase, Phase::Idle);
    assert!(l.ready);
    assert_eq!(live_size(&l), Some((800, 600)));
}
