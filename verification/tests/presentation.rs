//! Tests of device creation, the presentation pipeline, and the render
//! loop's start-up scenario.

use winloop::device::{DeviceCreation, DeviceError, DriverKind};
use winloop::pipeline::{
    device_config, drawable_config, factory_config, render_target_config, surface_config,
    PipelineBuild, PipelineStep,
};
use winloop::render::{after_present, draw_step, FrameFlow};
use winloop::anim::Channel;

#[test]
fn hardware_success_makes_one_attempt() {
    let mut dc = DeviceCreation::new();
    assert_eq!(dc.next_attempt(), Some(DriverKind::Hardware));
    dc.report(Ok(()));
    assert_eq!(dc.next_attempt(), None);
    assert_eq!(dc.take_outcome(), Some(Ok(DriverKind::Hardware)));
}

#[test]
fn unsupported_falls_back_to_software_exactly_once() {
    let mut dc = DeviceCreation::new();
    assert_eq!(dc.next_attempt(), Some(DriverKind::Hardware));
    dc.report(Err(DeviceError::Unsupported));
    assert_eq!(dc.next_attempt(), Some(DriverKind::Software));
    dc.report(Ok(()));
    assert_eq!(dc.next_attempt(), None);
    assert_eq!(dc.take_outcome(), Some(Ok(DriverKind::Software)));
}

#[test]
fn other_errors_do_not_retry() {
    let mut dc = DeviceCreation::new();
    dc.report(Err(DeviceError::Other(-100)));
    assert_eq!(dc.next_attempt(), None);
    assert_eq!(dc.take_outcome(), Some(Err(DeviceError::Other(-100))));
}

#[test]
fn unsupported_on_the_fallback_is_final() {
    let mut dc = DeviceCreation::new();
    dc.report(Err(DeviceError::Unsupported));
    dc.report(Err(DeviceError::Unsupported));
    assert_eq!(dc.next_attempt(), None);
    assert_eq!(dc.take_outcome(), Some(Err(DeviceError::Unsupported)));
}

#[test]
fn pipeline_hands_out_steps_in_order_and_completes() {
    let mut p = PipelineBuild::new();
    let expected = [
        PipelineStep::Factory,
        PipelineStep::Device,
        PipelineStep::RenderTarget,
        PipelineStep::PresentationSurface,
        PipelineStep::DrawableSurface,
    ];
    for step in expected {
        assert_eq!(p.next_step(), Some(step));
        p.report(Ok(()));
    }
    assert_eq!(p.next_step(), None);
    assert!(p.is_ready());
    assert_eq!(p.get_failure(), None);
}

#[test]
fn pipeline_stops_at_the_first_failure() {
    let mut p = PipelineBuild::new();
    p.report(Ok(()));
    p.report(Ok(()));
    // The render-target step fails: no later step is ever handed out.
    p.report(Err(-5));
    assert_eq!(p.next_step(), None);
    assert!(!p.is_ready());
    let f = p.get_failure().unwrap();
    assert_eq!(f.step, PipelineStep::RenderTarget);
    assert_eq!(f.code, -5);
}

#[test]
fn pipeline_failure_at_the_first_step() {
    let mut p = PipelineBuild::new();
    p.report(Err(-1));
    assert_eq!(p.next_step(), None);
    let f = p.get_failure().unwrap();
    assert_eq!(f.step, PipelineStep::Factory);
}

#[test]
fn render_loop_reaches_steady_state_after_software_fallback() {
    // Hardware device creation reports "unsupported"; the software attempt
    // succeeds; the pipeline then completes and the loop draws and presents
    // without surfacing an error.
    let mut p = PipelineBuild::new();
    assert_eq!(p.next_step(), Some(PipelineStep::Factory));
    p.report(Ok(()));

    assert_eq!(p.next_step(), Some(PipelineStep::Device));
    let mut dc = DeviceCreation::new();
    dc.report(Err(DeviceError::Unsupported));
    assert_eq!(dc.next_attempt(), Some(DriverKind::Software));
    dc.report(Ok(()));
    let device = dc.take_outcome().unwrap();
    assert_eq!(device, Ok(DriverKind::Software));
    p.report(Ok(()));

    assert_eq!(p.next_step(), Some(PipelineStep::RenderTarget));
    p.report(Ok(()));
    assert_eq!(p.next_step(), Some(PipelineStep::PresentationSurface));
    p.report(Ok(()));
    assert_eq!(p.next_step(), Some(PipelineStep::DrawableSurface));
    p.report(Ok(()));
    assert!(p.is_ready());

    let mut frame = Channel::new();
    for i in 1..=3u32 {
        let color = draw_step(&mut frame, 0);
        assert_eq!(color.r, i - 1);
        assert!(matches!(after_present(Ok(())), FrameFlow::Proceed));
    }
    assert_eq!(frame.get(), 3);
}

#[test]
fn factory_and_device_configuration_values() {
    let f = factory_config(true);
    assert!(f.single_threaded);
    assert!(f.debug_info);
    let f = factory_config(false);
    assert!(!f.debug_info);

    let d = device_config(true);
    assert!(d.bgra_support);
    assert!(d.debug_layer);
    let d = device_config(false);
    assert!(d.bgra_support);
    assert!(!d.debug_layer);
}

#[test]
fn surface_and_drawable_configuration_values() {
    let t = render_target_config();
    assert!(t.dips_unit_mode);

    let s = surface_config();
    assert_eq!(s.buffer_count, 2);
    assert_eq!(s.sample_count, 1);
    assert_eq!(s.sample_quality, 0);
    assert!(s.flip_sequential);
    assert!(s.render_target_usage);
    assert!(s.bgra_format);

    let b = drawable_config();
    assert_eq!(b.dpi, 96);
    assert!(b.target);
    assert!(b.cannot_draw);
    assert!(b.bgra_format);
    assert!(b.alpha_ignored);
}
