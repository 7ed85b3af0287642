//! The frame driver: one frame as a sequence of stages, each a request to the
//! caller, who reports how it went.
//!
//! A frame runs `RequestRedraw`, `AcquireImage`, `BuildUi`, `RecordPass`,
//! `Submit`, `Present` and is then done. A failure at any stage drops the
//! frame and nothing else: the driver is idle again and the next redraw
//! request starts afresh.

use crate::registry::PreconditionViolation;
use crate::registry::TextureRegistry;
use vstd::prelude::*;
use vstd::string::*;

verus! {

/// Side of the icon button, in logical units.
pub const ICON_BUTTON_SIZE: u32 = 64;

/// Where a frame stands.
#[derive(Clone, Copy, Debug, PartialEq, Eq, Structural)]
pub enum FrameStage {
    /// No frame is in flight.
    Idle,
    /// The window is being asked to schedule the next redraw.
    RequestRedraw,
    /// A presentable image is being acquired from the surface.
    AcquireImage,
    /// The overlay is being declared and finalized into draw data.
    BuildUi,
    /// The render pass is being recorded.
    RecordPass,
    /// The recorded commands are being submitted to the queue.
    Submit,
    /// The acquired image is being presented.
    Present,
}

/// Why a frame was dropped. None of these ends the application.
#[derive(Clone, Copy, Debug, PartialEq, Eq, Structural)]
pub enum FrameFault {
    /// The surface was lost and would have to be made again.
    SurfaceLost,
    /// The surface no longer matches the window and would have to be
    /// configured again.
    SurfaceOutdated,
    /// No image became available in time.
    SurfaceTimeout,
    /// The device is out of memory.
    OutOfMemory,
    /// The render pass could not be recorded.
    PassConstruction,
    /// Any other failure of the stage.
    Other,
}

/// What the caller reports to the driver.
#[derive(Clone, Copy, Debug, PartialEq, Eq, Structural)]
pub enum FrameEvent {
    /// The window asks for a redraw.
    RedrawRequested,
    /// The work of the current stage is done.
    Completed,
    /// The work of the current stage failed.
    Failed(FrameFault),
}

/// A colour, each channel in tenths of one of the 255 steps of an 8-bit
/// channel: a channel's value is its tenths divided by 2550.
#[derive(Clone, Copy, Debug, PartialEq, Eq, Structural)]
pub struct ClearColor {
    pub red_tenths: u16,
    pub green_tenths: u16,
    pub blue_tenths: u16,
    pub alpha_tenths: u16,
}

/// What a pass does to its target before drawing.
#[derive(Clone, Copy, Debug, PartialEq, Eq, Structural)]
pub enum LoadOp {
    Clear(ClearColor),
    Load,
}

/// What a pass does to its target after drawing.
#[derive(Clone, Copy, Debug, PartialEq, Eq, Structural)]
pub enum StoreOp {
    Store,
    Discard,
}

/// The one render pass of a frame. It has a single colour attachment, the
/// view of the acquired image, no resolve target and no depth or stencil
/// attachment; the overlay is drawn inside it, and it is closed before the
/// command recording is finished.
#[derive(Debug, PartialEq, Eq)]
pub struct RenderPassPlan {
    pub encoder_label: String,
    pub label: String,
    pub load: LoadOp,
    pub store: StoreOp,
}

/// A widget of the overlay.
#[derive(Debug, PartialEq, Eq)]
pub enum Widget {
    /// A button that shows a registered texture.
    ImageButton { id: String, texture: usize, width: u32, height: u32 },
}

/// What the overlay shows in one frame. Nothing of it outlives the frame: the
/// next frame declares its widgets anew.
#[derive(Debug, PartialEq, Eq)]
pub struct UiDeclaration {
    /// The widgets of the main menu bar, in the order of their declaration,
    /// which is their order on screen.
    pub main_menu_bar: Vec<Widget>,
}

/// What the driver asks of its caller.
#[derive(Debug, PartialEq, Eq)]
pub enum FrameAction {
    /// The event does not concern the frame in flight; there is nothing to do.
    Nothing,
    /// Ask the window to schedule the next redraw.
    RequestRedraw,
    /// Acquire the next presentable image from the surface.
    AcquireImage,
    /// Begin an overlay frame, declare these widgets, and finalize the draw
    /// data.
    BuildUi(UiDeclaration),
    /// Record this pass, with the overlay's draw data drawn inside it.
    RecordPass(RenderPassPlan),
    /// Submit the finished recording to the queue, once.
    Submit,
    /// Present the acquired image, once.
    Present,
    /// The frame is on screen.
    FrameDone,
    /// The frame is abandoned; the image, if one was acquired, is released
    /// unpresented.
    DropFrame(FrameFault),
}

/// The name under which the icon's texture is registered.
pub open spec fn icon_texture_name() -> Seq<char> {
    "tex.icon"@
}

/// The background that each frame is cleared to.
pub open spec fn background() -> ClearColor {
    ClearColor { red_tenths: 32, green_tenths: 31, blue_tenths: 34, alpha_tenths: 2550 }
}

/// The stage that follows `stage` when its work is done.
pub open spec fn stage_after(stage: FrameStage) -> FrameStage {
    match stage {
        FrameStage::Idle => FrameStage::Idle,
        FrameStage::RequestRedraw => FrameStage::AcquireImage,
        FrameStage::AcquireImage => FrameStage::BuildUi,
        FrameStage::BuildUi => FrameStage::RecordPass,
        FrameStage::RecordPass => FrameStage::Submit,
        FrameStage::Submit => FrameStage::Present,
        FrameStage::Present => FrameStage::Idle,
    }
}

/// The stage in which `event` leaves a driver that was at `stage`.
///
/// A redraw request starts a frame only when none is in flight. A failure
/// ends the frame in flight, whatever its stage.
pub open spec fn next_stage(stage: FrameStage, event: FrameEvent) -> FrameStage {
    match event {
        FrameEvent::RedrawRequested => if stage == FrameStage::Idle {
            FrameStage::RequestRedraw
        } else {
            stage
        },
        FrameEvent::Completed => stage_after(stage),
        FrameEvent::Failed(_) => FrameStage::Idle,
    }
}

/// The stage of a driver that started at `stage` and was handed `events` in
/// order.
pub open spec fn stage_after_events(stage: FrameStage, events: Seq<FrameEvent>) -> FrameStage
    decreases events.len(),
{
    if events.len() == 0 {
        stage
    } else {
        next_stage(stage_after_events(stage, events.drop_last()), events.last())
    }
}

/// `declaration` is the overlay of this application: a main menu bar with one
/// image button, which shows the texture `icon`.
pub open spec fn is_overlay_declaration(declaration: UiDeclaration, icon: usize) -> bool {
    &&& declaration.main_menu_bar@.len() == 1
    &&& declaration.main_menu_bar@[0] matches Widget::ImageButton { id, texture, width, height }
    &&& id@ == "str_id"@
    &&& texture == icon
    &&& width == ICON_BUTTON_SIZE
    &&& height == ICON_BUTTON_SIZE
}

/// `plan` is the pass of this application: the target is cleared to the
/// background and what is drawn is kept.
pub open spec fn is_frame_pass(plan: RenderPassPlan) -> bool {
    &&& plan.encoder_label@ == "Command Encode"@
    &&& plan.label@ == "Default object Render Pass"@
    &&& plan.load == LoadOp::Clear(background())
    &&& plan.store == StoreOp::Store
}

/// `action` is what a driver at `stage` asks in answer to `event`, with the
/// textures of `registry` at hand.
pub open spec fn is_action_for(
    action: FrameAction,
    stage: FrameStage,
    event: FrameEvent,
    registry: Map<Seq<char>, usize>,
) -> bool {
    match event {
        FrameEvent::RedrawRequested => if stage == FrameStage::Idle {
            action == FrameAction::RequestRedraw
        } else {
            action == FrameAction::Nothing
        },
        FrameEvent::Completed => match stage {
            FrameStage::Idle => action == FrameAction::Nothing,
            FrameStage::RequestRedraw => action == FrameAction::AcquireImage,
            FrameStage::AcquireImage => {
                &&& registry.contains_key(icon_texture_name())
                &&& action matches FrameAction::BuildUi(declaration)
                &&& is_overlay_declaration(declaration, registry[icon_texture_name()])
            },
            FrameStage::BuildUi => {
                &&& action matches FrameAction::RecordPass(plan)
                &&& is_frame_pass(plan)
            },
            FrameStage::RecordPass => action == FrameAction::Submit,
            FrameStage::Submit => action == FrameAction::Present,
            FrameStage::Present => action == FrameAction::FrameDone,
        },
        FrameEvent::Failed(fault) => if stage == FrameStage::Idle {
            action == FrameAction::Nothing
        } else {
            action == FrameAction::DropFrame(fault)
        },
    }
}

/// Whether a driver at `stage` cannot answer `event` because the overlay
/// needs a texture that `registry` does not hold.
pub open spec fn lacks_icon(stage: FrameStage, event: FrameEvent, registry: Map<Seq<char>, usize>) -> bool {
    &&& stage == FrameStage::AcquireImage
    &&& event == FrameEvent::Completed
    &&& !registry.contains_key(icon_texture_name())
}

/// Drives the frames of one surface, one at a time.
#[derive(Clone, Copy, Debug, PartialEq, Eq, Structural)]
pub struct FrameDriver {
    pub stage: FrameStage,
}

/// The overlay of this application, with the icon looked up in `texture_map`.
pub fn declare_overlay(texture_map: &TextureRegistry) -> (result: Result<
    UiDeclaration,
    PreconditionViolation,
>)
    ensures
        match result {
            Ok(declaration) => {
                &&& texture_map@.contains_key(icon_texture_name())
                &&& is_overlay_declaration(declaration, texture_map@[icon_texture_name()])
            },
            Err(PreconditionViolation::TextureNotRegistered { name }) => {
                &&& !texture_map@.contains_key(icon_texture_name())
                &&& name@ == icon_texture_name()
            },
        },
{
    let icon = match texture_map.lookup("tex.icon") {
        Ok(handle) => handle,
        Err(violation) => {
            return Err(violation);
        },
    };
    let mut main_menu_bar: Vec<Widget> = Vec::new();
    main_menu_bar.push(
        Widget::ImageButton {
            id: String::from_str("str_id"),
            texture: icon,
            width: ICON_BUTTON_SIZE,
            height: ICON_BUTTON_SIZE,
        },
    );
    Ok(UiDeclaration { main_menu_bar })
}

/// The render pass of this application.
pub fn frame_pass() -> (plan: RenderPassPlan)
    ensures
        is_frame_pass(plan),
{
    RenderPassPlan {
        encoder_label: String::from_str("Command Encode"),
        label: String::from_str("Default object Render Pass"),
        load: LoadOp::Clear(
            ClearColor { red_tenths: 32, green_tenths: 31, blue_tenths: 34, alpha_tenths: 2550 },
        ),
        store: StoreOp::Store,
    }
}

impl FrameDriver {
    /// A driver with no frame in flight.
    pub fn new() -> (driver: FrameDriver)
        ensures
            driver.stage == FrameStage::Idle,
    {
        FrameDriver { stage: FrameStage::Idle }
    }

    /// Answers a redraw request: a frame starts unless one is in flight.
    pub fn begin(&mut self) -> (action: FrameAction)
        ensures
            final(self).stage == next_stage(old(self).stage, FrameEvent::RedrawRequested),
            action == if old(self).stage == FrameStage::Idle {
                FrameAction::RequestRedraw
            } else {
                FrameAction::Nothing
            },
    {
        match self.stage {
            FrameStage::Idle => {
                self.stage = FrameStage::RequestRedraw;
                FrameAction::RequestRedraw
            },
            _ => FrameAction::Nothing,
        }
    }

    /// Abandons the frame in flight, if there is one.
    pub fn fail(&mut self, fault: FrameFault) -> (action: FrameAction)
        ensures
            final(self).stage == FrameStage::Idle,
            action == if old(self).stage == FrameStage::Idle {
                FrameAction::Nothing
            } else {
                FrameAction::DropFrame(fault)
            },
    {
        match self.stage {
            FrameStage::Idle => FrameAction::Nothing,
            _ => {
                self.stage = FrameStage::Idle;
                FrameAction::DropFrame(fault)
            },
        }
    }
}

/// Hands one event to the driver and returns what is to be done next.
///
/// The driver moves as [`next_stage`] says and asks as [`is_action_for`] says.
/// The one event it cannot answer is the acquisition of an image when the
/// icon's texture was never registered: that is a precondition violation, and
/// the driver stays where it was.
pub fn render(driver: &mut FrameDriver, event: FrameEvent, texture_map: &TextureRegistry) -> (result:
    Result<FrameAction, PreconditionViolation>)
    ensures
        match result {
            Ok(action) => {
                &&& !lacks_icon(old(driver).stage, event, texture_map@)
                &&& final(driver).stage == next_stage(old(driver).stage, event)
                &&& is_action_for(action, old(driver).stage, event, texture_map@)
            },
            Err(PreconditionViolation::TextureNotRegistered { name }) => {
                &&& lacks_icon(old(driver).stage, event, texture_map@)
                &&& final(driver).stage == old(driver).stage
                &&& name@ == icon_texture_name()
            },
        },
{
    match event {
        FrameEvent::RedrawRequested => Ok(driver.begin()),
        FrameEvent::Failed(fault) => Ok(driver.fail(fault)),
        FrameEvent::Completed => match driver.stage {
            FrameStage::Idle => Ok(FrameAction::Nothing),
            FrameStage::RequestRedraw => {
                driver.stage = FrameStage::AcquireImage;
                Ok(FrameAction::AcquireImage)
            },
            FrameStage::AcquireImage => match declare_overlay(texture_map) {
                Ok(declaration) => {
                    driver.stage = FrameStage::BuildUi;
                    Ok(FrameAction::BuildUi(declaration))
                },
                Err(violation) => Err(violation),
            },
            FrameStage::BuildUi => {
                driver.stage = FrameStage::RecordPass;
                Ok(FrameAction::RecordPass(frame_pass()))
            },
            FrameStage::RecordPass => {
                driver.stage = FrameStage::Submit;
                Ok(FrameAction::Submit)
            },
            FrameStage::Submit => {
                driver.stage = FrameStage::Present;
                Ok(FrameAction::Present)
            },
            FrameStage::Present => {
                driver.stage = FrameStage::Idle;
                Ok(FrameAction::FrameDone)
            },
        },
    }
}

/// A dropped frame leaves nothing behind: whatever the stage at which a frame
/// failed, the driver afterwards goes through the same stages, on the same
/// events, as a driver that never had a frame in flight.
pub proof fn lemma_failed_frame_is_isolated(
    stage: FrameStage,
    fault: FrameFault,
    later: Seq<FrameEvent>,
)
    ensures
        next_stage(stage, FrameEvent::Failed(fault)) == FrameStage::Idle,
        stage_after_events(next_stage(stage, FrameEvent::Failed(fault)), later)
            == stage_after_events(FrameStage::Idle, later),
{
}

/// The place of a stage in the course of a frame.
pub open spec fn stage_order(stage: FrameStage) -> nat {
    match stage {
        FrameStage::Idle => 0,
        FrameStage::RequestRedraw => 1,
        FrameStage::AcquireImage => 2,
        FrameStage::BuildUi => 3,
        FrameStage::RecordPass => 4,
        FrameStage::Submit => 5,
        FrameStage::Present => 6,
    }
}

/// The stages of a frame are strictly serialized, and at most one frame is in
/// flight.
///
/// While a frame is in flight a redraw request changes nothing, and each
/// completed piece of work moves the frame on by exactly one stage:
/// acquisition comes before the overlay is built, that before recording, that
/// before submission, and that before presentation, after which the driver is
/// idle. No event takes a frame back to an earlier stage of itself.
pub proof fn lemma_stages_are_serialized(stage: FrameStage, event: FrameEvent)
    ensures
        stage != FrameStage::Idle && event == FrameEvent::RedrawRequested ==> next_stage(
            stage,
            event,
        ) == stage,
        stage != FrameStage::Idle && stage != FrameStage::Present && event
            == FrameEvent::Completed ==> stage_order(next_stage(stage, event)) == stage_order(
            stage,
        ) + 1,
        stage == FrameStage::Present && event == FrameEvent::Completed ==> next_stage(stage, event)
            == FrameStage::Idle,
        next_stage(stage, event) == FrameStage::Idle || stage_order(next_stage(stage, event))
            >= stage_order(stage),
        stage_order(FrameStage::AcquireImage) < stage_order(FrameStage::BuildUi) < stage_order(
            FrameStage::RecordPass,
        ) < stage_order(FrameStage::Submit) < stage_order(FrameStage::Present),
{
}

/// Only one presentable image is ever outstanding.
///
/// The driver asks for an image only at the start of a frame, and a frame
/// starts only when the driver is idle: the frame before it has been
/// presented or dropped by then.
pub proof fn lemma_one_image_outstanding(
    stage: FrameStage,
    event: FrameEvent,
    action: FrameAction,
    registry: Map<Seq<char>, usize>,
)
    requires
        is_action_for(action, stage, event, registry),
    ensures
        action == FrameAction::AcquireImage ==> stage == FrameStage::RequestRedraw && event
            == FrameEvent::Completed,
        action == FrameAction::RequestRedraw ==> stage == FrameStage::Idle && event
            == FrameEvent::RedrawRequested,
        next_stage(stage, event) == FrameStage::RequestRedraw && stage
            != FrameStage::RequestRedraw ==> stage == FrameStage::Idle,
{
}

} // verus!
