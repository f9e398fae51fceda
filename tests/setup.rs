use gpu_frame::failure::Failure;
use gpu_frame::frame_loop::{FrameLoop, Phase};
use gpu_frame::setup::SetupStage;
use gpu_frame::surface::SurfaceSettings;

fn after(outcomes: &[bool]) -> SetupStage {
    let mut stage = SetupStage::start();
    for &ok in outcomes {
        stage = stage.advance(ok);
    }
    stage
}

#[test]
fn all_steps_succeeding_make_setup_ready() {
    let stage = after(&[true, true, true, true, true]);
    assert_eq!(stage, SetupStage::Ready);
    assert_eq!(stage.failure(), None);
    let config = SurfaceSettings::new(wgpu::TextureFormat::Bgra8UnormSrgb, 640, 480);
    let l = FrameLoop::start(stage, config, 3).expect("ready setup starts the loop");
    assert_eq!(l.config(), config);
    assert_eq!(l.vertex_count(), 3);
    assert_eq!(l.phase(), Phase::Running);
}

#[test]
fn each_step_has_its_failure() {
    let expected = [
        Failure::AdapterUnavailable,
        Failure::DeviceUnsupported,
        Failure::NoSurfaceFormat,
        Failure::ShaderRejected,
        Failure::PipelineRejected,
    ];
    for (k, f) in expected.iter().enumerate() {
        let mut outcomes = vec![true; k];
        outcomes.push(false);
        let stage = after(&outcomes);
        assert_eq!(stage, SetupStage::Failed(*f));
        assert_eq!(stage.failure(), Some(*f));
    }
}

#[test]
fn pipeline_refusal_fails_setup_before_any_draw() {
    let stage = after(&[true, true, true, true, false]);
    assert_eq!(stage, SetupStage::Failed(Failure::PipelineRejected));
    let later = stage.advance(true).advance(true);
    assert_eq!(later, SetupStage::Failed(Failure::PipelineRejected));
    let config = SurfaceSettings::new(wgpu::TextureFormat::Bgra8UnormSrgb, 640, 480);
    assert!(FrameLoop::start(later, config, 3).is_none());
}

#[test]
fn unfinished_setup_starts_no_loop() {
    let stage = after(&[true, true]);
    assert_eq!(stage, SetupStage::ChooseFormat);
    let config = SurfaceSettings::new(wgpu::TextureFormat::Bgra8UnormSrgb, 640, 480);
    assert!(FrameLoop::start(stage, config, 3).is_none());
}

#[test]
fn ready_setup_stays_ready() {
    let stage = after(&[true, true, true, true, true, false, false]);
    assert_eq!(stage, SetupStage::Ready);
}
