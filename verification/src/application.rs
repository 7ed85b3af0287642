//! The application shell: the controller that an event loop hands window
//! events to, one at a time.
//!
//! Every event is forwarded to the overlay before anything else is done with
//! it. A redraw request then starts a frame, and the exit key asks the event
//! loop to stop.

use crate::adapter::AdapterDescriptor;
use crate::frame::icon_texture_name;
use crate::frame::is_action_for;
use crate::frame::lacks_icon;
use crate::frame::next_stage;
use crate::frame::render;
use crate::frame::FrameAction;
use crate::frame::FrameDriver;
use crate::frame::FrameEvent;
use crate::frame::FrameStage;
use crate::graphics::SimulationGraphcisInterface;
use crate::registry::PreconditionViolation;
use crate::registry::TextureRegistry;
use crate::surface::is_selected_configuration;
use crate::surface::select_surface_configuration;
use crate::surface::selection_failure;
use crate::surface::PixelSize;
use crate::surface::StartupError;
use crate::surface::SurfaceCapabilities;
use vstd::prelude::*;
use vstd::string::*;

verus! {

/// Where the shell stands in its life.
#[derive(Clone, Copy, Debug, PartialEq, Eq, Structural)]
pub enum ShellState {
    /// Made, and not yet handed an event.
    Created,
    /// Handling events.
    Running,
    /// The event loop was asked to stop.
    Exiting,
}

/// A physical key, as far as the shell tells keys apart.
#[derive(Clone, Copy, Debug, PartialEq, Eq, Structural)]
pub enum KeyCode {
    /// The exit key.
    Escape,
    /// Any other key.
    Other,
}

/// The physical key of a keyboard event.
#[derive(Clone, Copy, Debug, PartialEq, Eq, Structural)]
pub enum PhysicalKey {
    /// A key the platform knows by its code.
    Code(KeyCode),
    /// A key the platform could not identify.
    Unidentified,
}

/// A window event, as far as the shell tells events apart.
#[derive(Clone, Copy, Debug, PartialEq, Eq, Structural)]
pub enum WindowEvent {
    RedrawRequested,
    KeyboardInput { physical_key: PhysicalKey },
    /// Any other event.
    Other,
}

/// An event the application may send to its own event loop.
#[derive(Clone, Copy, Debug, PartialEq, Eq, Structural)]
pub enum ApplicationSimulationEvent {
    ApplicationDrawImguiGraphics,
}

/// What the shell asks of its caller in answer to an event, in the order in
/// which it is to be done.
#[derive(Debug, PartialEq, Eq)]
pub enum ShellAction {
    /// Hand the event to the overlay's input adapter.
    ForwardToOverlay(WindowEvent),
    /// Run a frame, beginning with this request of the frame driver.
    Frame(FrameAction),
    /// Ask the event loop to stop.
    Exit,
}

/// An action of the shell without its details.
pub enum ActionKind {
    Forward(WindowEvent),
    Frame,
    Exit,
}

/// The controller of the application: the graphics context, the frame driver
/// and the texture registry, and where the shell stands.
#[derive(Debug)]
pub struct ApplicationSimulationInterface {
    pub state: ShellState,
    pub graphics_interface: SimulationGraphcisInterface,
    pub frame_driver: FrameDriver,
    pub texture_map: TextureRegistry,
}

/// The kind of an action.
pub open spec fn kind_of(action: ShellAction) -> ActionKind {
    match action {
        ShellAction::ForwardToOverlay(event) => ActionKind::Forward(event),
        ShellAction::Frame(_) => ActionKind::Frame,
        ShellAction::Exit => ActionKind::Exit,
    }
}

/// Whether `event` is a press of the exit key.
pub open spec fn is_exit_request(event: WindowEvent) -> bool {
    event == (WindowEvent::KeyboardInput { physical_key: PhysicalKey::Code(KeyCode::Escape) })
}

/// What the shell does with `event`, by kind and in order: the event is
/// forwarded first; then a redraw request runs a frame and the exit key stops
/// the loop.
pub open spec fn response_kinds(event: WindowEvent) -> Seq<ActionKind> {
    if event == WindowEvent::RedrawRequested {
        seq![ActionKind::Forward(event), ActionKind::Frame]
    } else if is_exit_request(event) {
        seq![ActionKind::Forward(event), ActionKind::Exit]
    } else {
        seq![ActionKind::Forward(event)]
    }
}

/// What the shell does with `event` when its frame driver is at `stage`: the
/// event is forwarded first; then a redraw request starts a frame, unless one
/// is in flight, and the exit key stops the loop.
pub open spec fn response(stage: FrameStage, event: WindowEvent) -> Seq<ShellAction> {
    if event == WindowEvent::RedrawRequested {
        seq![
            ShellAction::ForwardToOverlay(event),
            ShellAction::Frame(
                if stage == FrameStage::Idle {
                    FrameAction::RequestRedraw
                } else {
                    FrameAction::Nothing
                },
            ),
        ]
    } else if is_exit_request(event) {
        seq![ShellAction::ForwardToOverlay(event), ShellAction::Exit]
    } else {
        seq![ShellAction::ForwardToOverlay(event)]
    }
}

/// The state in which `event` leaves a shell that was in `state`. Once the
/// shell is exiting it stays so.
pub open spec fn state_after(state: ShellState, event: WindowEvent) -> ShellState {
    if is_exit_request(event) || state == ShellState::Exiting {
        ShellState::Exiting
    } else {
        ShellState::Running
    }
}

/// Everything the shell asks for, by kind and in order, while it is handed
/// `events` one after the other.
pub open spec fn trace_of(events: Seq<WindowEvent>) -> Seq<ActionKind>
    decreases events.len(),
{
    if events.len() == 0 {
        Seq::empty()
    } else {
        trace_of(events.drop_last()) + response_kinds(events.last())
    }
}

/// The events that a trace forwards to the overlay, in order.
pub open spec fn forwarded(trace: Seq<ActionKind>) -> Seq<WindowEvent>
    decreases trace.len(),
{
    if trace.len() == 0 {
        Seq::empty()
    } else {
        match trace.last() {
            ActionKind::Forward(event) => forwarded(trace.drop_last()).push(event),
            _ => forwarded(trace.drop_last()),
        }
    }
}

impl ApplicationSimulationInterface {
    /// A shell around a graphics context and a texture registry, with no
    /// frame in flight.
    pub fn new(graphics_interface: SimulationGraphcisInterface, texture_map: TextureRegistry) -> (shell:
        ApplicationSimulationInterface)
        ensures
            shell.state == ShellState::Created,
            shell.graphics_interface == graphics_interface,
            shell.frame_driver.stage == FrameStage::Idle,
            shell.texture_map@ == texture_map@,
    {
        ApplicationSimulationInterface {
            state: ShellState::Created,
            graphics_interface,
            frame_driver: FrameDriver::new(),
            texture_map,
        }
    }

    /// Brings up the graphics context for a window. See
    /// [`ApplicationSimulationInterface::enable_graphics_interface`].
    pub fn on_enable_interface(
        window: PixelSize,
        adapter: AdapterDescriptor,
        capabilities: &SurfaceCapabilities,
    ) -> (result: Result<SimulationGraphcisInterface, StartupError>)
        ensures
            match selection_failure(*capabilities) {
                Some(error) => result == Err::<SimulationGraphcisInterface, StartupError>(error),
                None => {
                    &&& result matches Ok(context)
                    &&& context.adapter == adapter
                    &&& is_selected_configuration(
                        *capabilities,
                        window,
                        context.surface_configuration,
                    )
                },
            },
            result matches Ok(context) ==> {
                &&& context.surface_configuration.width == window.width
                &&& context.surface_configuration.height == window.height
            },
    {
        ApplicationSimulationInterface::enable_graphics_interface(window, adapter, capabilities)
    }

    /// Negotiates the graphics context for a window of size `window`, given
    /// the adapter that was chosen and what the surface supports with it.
    ///
    /// There are two outcomes and no third: a context whose surface
    /// configuration has exactly the window's size, or a startup error.
    pub fn enable_graphics_interface(
        window: PixelSize,
        adapter: AdapterDescriptor,
        capabilities: &SurfaceCapabilities,
    ) -> (result: Result<SimulationGraphcisInterface, StartupError>)
        ensures
            match selection_failure(*capabilities) {
                Some(error) => result == Err::<SimulationGraphcisInterface, StartupError>(error),
                None => {
                    &&& result matches Ok(context)
                    &&& context.adapter == adapter
                    &&& is_selected_configuration(
                        *capabilities,
                        window,
                        context.surface_configuration,
                    )
                },
            },
            result matches Ok(context) ==> {
                &&& context.surface_configuration.width == window.width
                &&& context.surface_configuration.height == window.height
            },
    {
        match select_surface_configuration(capabilities, window) {
            Ok(surface_configuration) => Ok(
                SimulationGraphcisInterface { adapter, surface_configuration },
            ),
            Err(error) => Err(error),
        }
    }

    /// Called when the event loop starts or resumes: the shell is running,
    /// unless it is already on its way out.
    pub fn resumed(&mut self)
        ensures
            final(self).state == if old(self).state == ShellState::Exiting {
                ShellState::Exiting
            } else {
                ShellState::Running
            },
            final(self).graphics_interface == old(self).graphics_interface,
            final(self).frame_driver == old(self).frame_driver,
            final(self).texture_map == old(self).texture_map,
    {
        match self.state {
            ShellState::Exiting => {},
            _ => {
                self.state = ShellState::Running;
            },
        }
    }

    /// Handles a key: the exit key asks the event loop to stop, any other key
    /// does nothing. Returns whether the loop is to stop.
    pub fn on_key_input(&mut self, key_code: KeyCode) -> (exit: bool)
        ensures
            exit == (key_code == KeyCode::Escape),
            final(self).state == if exit {
                ShellState::Exiting
            } else {
                old(self).state
            },
            final(self).graphics_interface == old(self).graphics_interface,
            final(self).frame_driver == old(self).frame_driver,
            final(self).texture_map == old(self).texture_map,
    {
        match key_code {
            KeyCode::Escape => {
                self.state = ShellState::Exiting;
                true
            },
            _ => false,
        }
    }

    /// Handles one window event and returns what is to be done, in order.
    ///
    /// The first action always forwards the event to the overlay; what else
    /// the event causes comes after it.
    pub fn window_event(&mut self, event: WindowEvent) -> (actions: Vec<ShellAction>)
        ensures
            actions@ == response(old(self).frame_driver.stage, event),
            final(self).state == state_after(old(self).state, event),
            final(self).graphics_interface == old(self).graphics_interface,
            final(self).texture_map == old(self).texture_map,
            final(self).frame_driver.stage == if event == WindowEvent::RedrawRequested {
                next_stage(old(self).frame_driver.stage, FrameEvent::RedrawRequested)
            } else {
                old(self).frame_driver.stage
            },
    {
        let mut actions: Vec<ShellAction> = Vec::new();
        actions.push(ShellAction::ForwardToOverlay(event));
        if let ShellState::Created = self.state {
            self.state = ShellState::Running;
        }
        match event {
            WindowEvent::RedrawRequested => {
                let action = self.frame_driver.begin();
                actions.push(ShellAction::Frame(action));
            },
            WindowEvent::KeyboardInput { physical_key } => {
                if let PhysicalKey::Code(key_code) = physical_key {
                    if self.on_key_input(key_code) {
                        actions.push(ShellAction::Exit);
                    }
                }
            },
            WindowEvent::Other => {},
        }
        actions
    }

    /// Hands the outcome of a stage of the frame in flight to the frame
    /// driver, and returns what is to be done next.
    ///
    /// Whatever the outcome, a failure included, the shell's state, its
    /// graphics context and its texture registry are as they were: a frame
    /// that is dropped takes nothing with it.
    pub fn frame_event(&mut self, event: FrameEvent) -> (result: Result<
        FrameAction,
        PreconditionViolation,
    >)
        ensures
            final(self).state == old(self).state,
            final(self).graphics_interface == old(self).graphics_interface,
            final(self).texture_map == old(self).texture_map,
            match result {
                Ok(action) => {
                    &&& !lacks_icon(old(self).frame_driver.stage, event, old(self).texture_map@)
                    &&& final(self).frame_driver.stage == next_stage(
                        old(self).frame_driver.stage,
                        event,
                    )
                    &&& is_action_for(
                        action,
                        old(self).frame_driver.stage,
                        event,
                        old(self).texture_map@,
                    )
                },
                Err(PreconditionViolation::TextureNotRegistered { name }) => {
                    &&& lacks_icon(old(self).frame_driver.stage, event, old(self).texture_map@)
                    &&& final(self).frame_driver.stage == old(self).frame_driver.stage
                    &&& name@ == icon_texture_name()
                },
            },
    {
        render(&mut self.frame_driver, event, &self.texture_map)
    }

    /// A hook for overlay code of the application. It does nothing.
    pub fn imgui_graphical_interface() {
    }
}

/// How the application's window is made.
#[derive(Debug, PartialEq, Eq)]
pub struct WindowSettings {
    pub active: bool,
    /// Inner width, in logical units.
    pub inner_width: u32,
    /// Inner height, in logical units.
    pub inner_height: u32,
    pub decorations: bool,
    pub resizable: bool,
    pub title: String,
}

/// How the overlay is set up.
#[derive(Debug, PartialEq, Eq)]
pub struct OverlaySettings {
    /// Whether the overlay keeps its layout in a file between runs.
    pub persist_layout: bool,
    /// Size of the overlay's font, in pixels.
    pub font_size_pixels: u32,
}

/// What startup makes before the first event: the window, the overlay, and
/// the one image that is read, from a fixed path, and registered as the icon.
#[derive(Debug, PartialEq, Eq)]
pub struct StartupPlan {
    pub window: WindowSettings,
    pub overlay: OverlaySettings,
    pub icon_path: String,
    pub icon_name: String,
}

/// `plan` is the startup of this application: an undecorated, fixed window of
/// 1200 by 600 logical units titled "SpaceS", an overlay with a 13 pixel font
/// that keeps no layout file, and the icon read from its path and registered
/// under its name.
pub open spec fn is_startup_plan(plan: StartupPlan) -> bool {
    &&& plan.window.active
    &&& plan.window.inner_width == 1200
    &&& plan.window.inner_height == 600
    &&& !plan.window.decorations
    &&& !plan.window.resizable
    &&& plan.window.title@ == "SpaceS"@
    &&& !plan.overlay.persist_layout
    &&& plan.overlay.font_size_pixels == 13
    &&& plan.icon_path@ == "design/Hintergrund.png"@
    &&& plan.icon_name@ == icon_texture_name()
}

/// What startup makes before the first event.
pub fn startup_plan() -> (plan: StartupPlan)
    ensures
        is_startup_plan(plan),
{
    StartupPlan {
        window: WindowSettings {
            active: true,
            inner_width: 1200,
            inner_height: 600,
            decorations: false,
            resizable: false,
            title: String::from_str("SpaceS"),
        },
        overlay: OverlaySettings { persist_layout: false, font_size_pixels: 13 },
        icon_path: String::from_str("design/Hintergrund.png"),
        icon_name: String::from_str("tex.icon"),
    }
}

/// Assembles the shell once the context stands and the icon's texture has a
/// handle: the handle is registered under the icon's name, and the shell is
/// ready for its first event.
pub fn enable_event_loop(graphics_interface: SimulationGraphcisInterface, icon: usize) -> (shell:
    ApplicationSimulationInterface)
    ensures
        shell.state == ShellState::Created,
        shell.graphics_interface == graphics_interface,
        shell.frame_driver.stage == FrameStage::Idle,
        shell.texture_map@ == Map::<Seq<char>, usize>::empty().insert(icon_texture_name(), icon),
{
    let mut texture_map = TextureRegistry::new();
    texture_map.insert("tex.icon", icon);
    ApplicationSimulationInterface::new(graphics_interface, texture_map)
}

/// The answer to an event has the kinds that [`response_kinds`] lists,
/// whatever the stage of the frame driver.
pub proof fn lemma_response_has_its_kinds(stage: FrameStage, event: WindowEvent)
    ensures
        response(stage, event).len() == response_kinds(event).len(),
        forall|i: int|
            0 <= i < response_kinds(event).len() ==> kind_of(#[trigger] response(stage, event)[i])
                == response_kinds(event)[i],
{
}

/// The trace of two runs of events, one after the other, is the first trace
/// followed by the second.
proof fn lemma_trace_of_concat(first: Seq<WindowEvent>, second: Seq<WindowEvent>)
    ensures
        trace_of(first + second) == trace_of(first) + trace_of(second),
    decreases second.len(),
{
    if second.len() == 0 {
        assert(first + second =~= first);
        assert(trace_of(first) + trace_of(second) =~= trace_of(first));
    } else {
        assert((first + second).drop_last() =~= first + second.drop_last());
        assert((first + second).last() == second.last());
        lemma_trace_of_concat(first, second.drop_last());
        assert(trace_of(first + second) =~= trace_of(first) + trace_of(second));
    }
}

/// What two traces forward, one after the other, is what the first forwards
/// followed by what the second forwards.
proof fn lemma_forwarded_concat(first: Seq<ActionKind>, second: Seq<ActionKind>)
    ensures
        forwarded(first + second) == forwarded(first) + forwarded(second),
    decreases second.len(),
{
    if second.len() == 0 {
        assert(first + second =~= first);
        assert(forwarded(first) + forwarded(second) =~= forwarded(first));
    } else {
        assert((first + second).drop_last() =~= first + second.drop_last());
        assert((first + second).last() == second.last());
        lemma_forwarded_concat(first, second.drop_last());
        assert(forwarded(first + second) =~= forwarded(first) + forwarded(second));
    }
}

/// A trace of one forwarding action forwards that one event.
proof fn lemma_forwarded_single(event: WindowEvent)
    ensures
        forwarded(seq![ActionKind::Forward(event)]) == seq![event],
{
    let single = seq![ActionKind::Forward(event)];
    assert(single.drop_last().len() == 0);
    assert(forwarded(single.drop_last()) =~= Seq::<WindowEvent>::empty());
    assert(forwarded(single) =~= seq![event]);
}

/// The answer to one event forwards that event and no other.
proof fn lemma_response_forwards_its_event(event: WindowEvent)
    ensures
        forwarded(response_kinds(event)) == seq![event],
{
    let single = seq![ActionKind::Forward(event)];
    lemma_forwarded_single(event);
    let response = response_kinds(event);
    if response.len() == 2 {
        assert(response.drop_last() =~= single);
    } else {
        assert(response =~= single);
    }
}

/// Every event is forwarded to the overlay, once, and in the order in which
/// the events arrived.
pub proof fn lemma_every_event_is_forwarded_in_order(events: Seq<WindowEvent>)
    ensures
        forwarded(trace_of(events)) == events,
    decreases events.len(),
{
    if events.len() == 0 {
        assert(forwarded(trace_of(events)) =~= events);
    } else {
        lemma_every_event_is_forwarded_in_order(events.drop_last());
        lemma_forwarded_concat(trace_of(events.drop_last()), response_kinds(events.last()));
        lemma_response_forwards_its_event(events.last());
        assert(events.drop_last() + seq![events.last()] =~= events);
    }
}

/// Where the frame of the redraw request `events[k]` stands in the trace of
/// `events`: behind everything that the earlier events caused, and behind the
/// forwarding of the request itself.
pub open spec fn frame_position(events: Seq<WindowEvent>, k: int) -> int {
    trace_of(events.take(k)).len() as int + 1
}

/// A frame sees the input that came before it and none that came after.
///
/// When the `k`-th event is a redraw request, the trace holds a frame for it,
/// and what was forwarded to the overlay before that frame is exactly the
/// events up to and including the request: each earlier event has reached the
/// overlay, and no later one has.
pub proof fn lemma_frame_sees_exactly_earlier_events(events: Seq<WindowEvent>, k: int)
    requires
        0 <= k < events.len(),
        events[k] == WindowEvent::RedrawRequested,
    ensures
        0 <= frame_position(events, k) < trace_of(events).len(),
        trace_of(events)[frame_position(events, k)] == ActionKind::Frame,
        forwarded(trace_of(events).take(frame_position(events, k))) == events.take(k + 1),
{
    let before = events.take(k);
    let upto = events.take(k + 1);
    let after = events.skip(k + 1);
    let event = events[k];
    let position = frame_position(events, k);
    assert(upto + after =~= events);
    lemma_trace_of_concat(upto, after);
    assert(upto.drop_last() =~= before);
    assert(upto.last() == event);
    assert(trace_of(upto) == trace_of(before) + response_kinds(event));
    assert(response_kinds(event) =~= seq![ActionKind::Forward(event), ActionKind::Frame]);
    let whole = trace_of(events);
    assert(whole == trace_of(before) + response_kinds(event) + trace_of(after));
    assert(whole[position] == response_kinds(event)[1]);
    let head = trace_of(before) + seq![ActionKind::Forward(event)];
    assert(whole.take(position) =~= head);
    lemma_forwarded_concat(trace_of(before), seq![ActionKind::Forward(event)]);
    lemma_forwarded_single(event);
    lemma_every_event_is_forwarded_in_order(before);
    assert(before + seq![event] =~= upto);
}

} // verus!
