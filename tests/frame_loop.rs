use gpu_frame::failure::Failure;
use gpu_frame::frame_loop::{Color, DrawPlan, FrameLoop, LoopAction, LoopEvent, Phase};
use gpu_frame::surface::SurfaceSettings;

fn running(vertex_count: u32) -> FrameLoop {
    FrameLoop::new(
        SurfaceSettings::new(wgpu::TextureFormat::Bgra8UnormSrgb, 800, 600),
        vertex_count,
    )
}

fn frame(vertex_count: u32) -> LoopAction {
    LoopAction::Draw(DrawPlan {
        vertex_count,
        instance_count: 1,
        clear: Color { r: 0, g: 0, b: 0, a: 0 },
    })
}

#[test]
fn resize_then_redraw_uses_new_size() {
    let mut l = running(3);
    let a = l.handle(LoopEvent::Resized { width: 1280, height: 720 });
    let expected = SurfaceSettings::new(wgpu::TextureFormat::Bgra8UnormSrgb, 1280, 720);
    assert_eq!(a, LoopAction::Reconfigure(expected));
    assert_eq!(l.config(), expected);
    assert_eq!(l.handle(LoopEvent::RedrawRequested), frame(3));
    assert_eq!(l.config(), expected);
}

#[test]
fn zero_vertices_still_draws_a_frame() {
    let mut l = running(0);
    assert_eq!(l.handle(LoopEvent::RedrawRequested), frame(0));
    assert_eq!(l.phase(), Phase::Running);
}

#[test]
fn close_stops_the_loop_for_good() {
    let mut l = running(3);
    assert_eq!(l.handle(LoopEvent::CloseRequested), LoopAction::Exit);
    assert_eq!(l.phase(), Phase::Closed);
    assert_eq!(l.handle(LoopEvent::RedrawRequested), LoopAction::Wait);
    assert_eq!(l.handle(LoopEvent::Resized { width: 10, height: 20 }), LoopAction::Wait);
    assert_eq!(l.handle(LoopEvent::CloseRequested), LoopAction::Wait);
    assert_eq!(l.config().width, 800);
    assert_eq!(l.config().height, 600);
    assert_eq!(l.phase(), Phase::Closed);
}

#[test]
fn consecutive_redraws_each_draw() {
    let mut l = running(6);
    let before = l.config();
    assert_eq!(l.handle(LoopEvent::RedrawRequested), frame(6));
    assert_eq!(l.config(), before);
    assert_eq!(l.handle(LoopEvent::RedrawRequested), frame(6));
    assert_eq!(l.config(), before);
}

#[test]
fn lost_frame_is_fatal() {
    let mut l = running(3);
    assert_eq!(
        l.handle(LoopEvent::FrameUnavailable),
        LoopAction::Abort(Failure::FrameUnavailable)
    );
    assert_eq!(l.phase(), Phase::Failed(Failure::FrameUnavailable));
    assert_eq!(l.handle(LoopEvent::RedrawRequested), LoopAction::Wait);
}

#[test]
fn other_events_change_nothing() {
    let mut l = running(3);
    assert_eq!(l.handle(LoopEvent::Other), LoopAction::Wait);
    assert_eq!(l.phase(), Phase::Running);
    assert_eq!(l.config().width, 800);
}

#[test]
fn transparent_black_is_all_zero() {
    assert_eq!(Color::transparent_black(), Color { r: 0, g: 0, b: 0, a: 0 });
}
