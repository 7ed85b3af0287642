use spaces::frame::{
    declare_overlay, frame_pass, render, ClearColor, FrameAction, FrameDriver, FrameEvent,
    FrameFault, FrameStage, LoadOp, RenderPassPlan, StoreOp, UiDeclaration, Widget,
    ICON_BUTTON_SIZE,
};
use spaces::registry::{PreconditionViolation, TextureRegistry};

fn registry_with_icon(handle: usize) -> TextureRegistry {
    let mut registry = TextureRegistry::new();
    registry.insert("tex.icon", handle);
    registry
}

fn icon_overlay(handle: usize) -> UiDeclaration {
    UiDeclaration {
        main_menu_bar: vec![Widget::ImageButton {
            id: "str_id".to_string(),
            texture: handle,
            width: 64,
            height: 64,
        }],
    }
}

fn background_pass() -> RenderPassPlan {
    RenderPassPlan {
        encoder_label: "Command Encode".to_string(),
        label: "Default object Render Pass".to_string(),
        load: LoadOp::Clear(ClearColor {
            red_tenths: 32,
            green_tenths: 31,
            blue_tenths: 34,
            alpha_tenths: 2550,
        }),
        store: StoreOp::Store,
    }
}

#[test]
fn a_new_driver_is_idle() {
    assert_eq!(FrameDriver::new().stage, FrameStage::Idle);
}

#[test]
fn a_frame_runs_through_its_stages_in_order() {
    let registry = registry_with_icon(5);
    let mut driver = FrameDriver::new();
    let steps = [
        (FrameEvent::RedrawRequested, FrameAction::RequestRedraw, FrameStage::RequestRedraw),
        (FrameEvent::Completed, FrameAction::AcquireImage, FrameStage::AcquireImage),
        (FrameEvent::Completed, FrameAction::BuildUi(icon_overlay(5)), FrameStage::BuildUi),
        (FrameEvent::Completed, FrameAction::RecordPass(background_pass()), FrameStage::RecordPass),
        (FrameEvent::Completed, FrameAction::Submit, FrameStage::Submit),
        (FrameEvent::Completed, FrameAction::Present, FrameStage::Present),
        (FrameEvent::Completed, FrameAction::FrameDone, FrameStage::Idle),
    ];
    for (event, action, stage) in steps {
        assert_eq!(render(&mut driver, event, &registry), Ok(action));
        assert_eq!(driver.stage, stage);
    }
}

#[test]
fn the_overlay_is_one_image_button_of_64_by_64() {
    assert_eq!(ICON_BUTTON_SIZE, 64);
    assert_eq!(declare_overlay(&registry_with_icon(11)), Ok(icon_overlay(11)));
}

#[test]
fn the_overlay_needs_the_icon() {
    let mut registry = TextureRegistry::new();
    registry.insert("tex.other", 1);
    assert_eq!(
        declare_overlay(&registry),
        Err(PreconditionViolation::TextureNotRegistered { name: "tex.icon".to_string() })
    );
}

#[test]
fn the_pass_clears_to_the_background_and_keeps_what_is_drawn() {
    assert_eq!(frame_pass(), background_pass());
}

#[test]
fn the_background_channels_are_those_of_the_application() {
    let pass = frame_pass();
    let LoadOp::Clear(color) = pass.load else {
        panic!("the pass does not clear");
    };
    let red = color.red_tenths as f64 / 10.0 / 255.0;
    let green = color.green_tenths as f64 / 10.0 / 255.0;
    let blue = color.blue_tenths as f64 / 10.0 / 255.0;
    let alpha = color.alpha_tenths as f64 / 10.0 / 255.0;
    assert_eq!(red, 3.2 / 255.);
    assert_eq!(green, 3.1 / 255.);
    assert_eq!(blue, 3.4 / 255.);
    assert_eq!(alpha, 1.0);
}

#[test]
fn events_outside_a_frame_do_nothing() {
    let registry = registry_with_icon(1);
    let mut driver = FrameDriver::new();
    assert_eq!(render(&mut driver, FrameEvent::Completed, &registry), Ok(FrameAction::Nothing));
    assert_eq!(driver.stage, FrameStage::Idle);
    assert_eq!(
        render(&mut driver, FrameEvent::Failed(FrameFault::SurfaceLost), &registry),
        Ok(FrameAction::Nothing)
    );
    assert_eq!(driver.stage, FrameStage::Idle);
}

#[test]
fn a_redraw_request_during_a_frame_changes_nothing() {
    let registry = registry_with_icon(1);
    for stage in [
        FrameStage::RequestRedraw,
        FrameStage::AcquireImage,
        FrameStage::BuildUi,
        FrameStage::RecordPass,
        FrameStage::Submit,
        FrameStage::Present,
    ] {
        let mut driver = FrameDriver { stage };
        assert_eq!(
            render(&mut driver, FrameEvent::RedrawRequested, &registry),
            Ok(FrameAction::Nothing)
        );
        assert_eq!(driver.stage, stage);
    }
}

#[test]
fn a_failure_at_any_stage_drops_the_frame() {
    let registry = registry_with_icon(1);
    let faults = [
        FrameFault::SurfaceLost,
        FrameFault::SurfaceOutdated,
        FrameFault::SurfaceTimeout,
        FrameFault::OutOfMemory,
        FrameFault::PassConstruction,
        FrameFault::Other,
    ];
    let stages = [
        FrameStage::RequestRedraw,
        FrameStage::AcquireImage,
        FrameStage::BuildUi,
        FrameStage::RecordPass,
        FrameStage::Submit,
        FrameStage::Present,
    ];
    for stage in stages {
        for fault in faults {
            let mut driver = FrameDriver { stage };
            assert_eq!(
                render(&mut driver, FrameEvent::Failed(fault), &registry),
                Ok(FrameAction::DropFrame(fault))
            );
            assert_eq!(driver.stage, FrameStage::Idle);
        }
    }
}

#[test]
fn a_failed_acquisition_does_not_affect_the_next_frame() {
    let registry = registry_with_icon(2);
    let mut driver = FrameDriver::new();
    render(&mut driver, FrameEvent::RedrawRequested, &registry).unwrap();
    assert_eq!(
        render(&mut driver, FrameEvent::Completed, &registry),
        Ok(FrameAction::AcquireImage)
    );
    assert_eq!(
        render(&mut driver, FrameEvent::Failed(FrameFault::SurfaceOutdated), &registry),
        Ok(FrameAction::DropFrame(FrameFault::SurfaceOutdated))
    );
    let mut fresh = FrameDriver::new();
    let events = [
        FrameEvent::RedrawRequested,
        FrameEvent::Completed,
        FrameEvent::Completed,
        FrameEvent::Completed,
        FrameEvent::Completed,
        FrameEvent::Completed,
        FrameEvent::Completed,
    ];
    for event in events {
        assert_eq!(render(&mut driver, event, &registry), render(&mut fresh, event, &registry));
        assert_eq!(driver, fresh);
    }
    assert_eq!(driver.stage, FrameStage::Idle);
}

#[test]
fn a_missing_icon_stops_the_frame_where_it_is() {
    let registry = TextureRegistry::new();
    let mut driver = FrameDriver::new();
    render(&mut driver, FrameEvent::RedrawRequested, &registry).unwrap();
    render(&mut driver, FrameEvent::Completed, &registry).unwrap();
    assert_eq!(driver.stage, FrameStage::AcquireImage);
    assert_eq!(
        render(&mut driver, FrameEvent::Completed, &registry),
        Err(PreconditionViolation::TextureNotRegistered { name: "tex.icon".to_string() })
    );
    assert_eq!(driver.stage, FrameStage::AcquireImage);
}

#[test]
fn begin_and_fail_agree_with_render() {
    let mut driver = FrameDriver::new();
    assert_eq!(driver.begin(), FrameAction::RequestRedraw);
    assert_eq!(driver.begin(), FrameAction::Nothing);
    assert_eq!(driver.fail(FrameFault::Other), FrameAction::DropFrame(FrameFault::Other));
    assert_eq!(driver.fail(FrameFault::Other), FrameAction::Nothing);
    assert_eq!(driver.stage, FrameStage::Idle);
}
