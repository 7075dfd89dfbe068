//! The application controller: a state machine from window events and frame
//! results to the commands that the embedding event loop carries out.

use vstd::prelude::*;
use crate::failure::{frame_error, frame_error_of, recovery, FrameError, Recovery};
use crate::surface::{GpuContext, PixelSize, SurfaceConfig};

verus! {

/// The keys that the controller tells apart.
#[derive(Clone, Copy, Debug, PartialEq, Eq, Structural)]
pub enum Key {
    Escape,
    Other,
}

/// A window event, reduced to what the controller decides on.
#[derive(Clone, Copy, Debug, PartialEq, Eq, Structural)]
pub enum Event {
    /// The user asked to close the window.
    CloseRequested,
    /// A key went down (`pressed`) or up.
    Keyboard { key: Key, pressed: bool },
    /// The pointer moved inside the window.
    PointerMoved,
    /// The window has a new size in physical pixels.
    Resized(PixelSize),
    /// The window's backing scale changed.
    ScaleFactorChanged,
    /// The window asks for a new frame.
    RedrawRequested,
    /// Any other event.
    Other,
}

/// What the embedding event loop has to do after an event was handled.
#[derive(Clone, Copy, Debug, PartialEq, Eq)]
pub enum Command {
    /// Nothing.
    Nothing,
    /// Create the window, negotiate adapter and device, then call `bound`.
    CreateBinding,
    /// Ask the window for a redraw.
    RequestRedraw,
    /// Push this configuration to the surface before any frame is acquired.
    Configure(SurfaceConfig),
    /// Acquire a frame, draw into it and present it, then report how it went.
    Render,
    /// Derive the clear colour from the pointer position and this window
    /// size, then ask for a redraw.
    Recolor(PixelSize),
    /// Scale this size by the ratio of the new scale factor to the cached one
    /// and request the result as the window's inner size.
    RequestInnerSize(PixelSize),
    /// Release the window and the surface, and stop the event loop.
    Exit,
}

/// The application's lifecycle. `Binding` is the interval in which the
/// embedding creates the window and the device; `Terminated` is final.
#[derive(Clone, Copy, Debug, PartialEq, Eq)]
pub enum Controller {
    Uninitialized,
    Binding,
    Active(GpuContext),
    Terminated,
}

/// One thing that can happen to a controller once it is running.
pub enum Step {
    /// A resume signal.
    Resumed,
    /// A window event.
    Window(Event),
    /// A frame that failed.
    Failed(FrameError),
}

impl Step {
    /// Whether the step ends an active controller.
    pub open spec fn ends(self) -> bool {
        match self {
            Step::Resumed => false,
            Step::Window(event) => event.asks_exit(),
            Step::Failed(kind) => kind == FrameError::OutOfMemory,
        }
    }

    /// The size that the step makes the stored one, if it does.
    pub open spec fn accepted_size(self) -> Option<PixelSize> {
        match self {
            Step::Window(Event::Resized(size)) => if size.presentable() {
                Some(size)
            } else {
                None
            },
            _ => None,
        }
    }
}

/// The size that the last accepted resize among `steps` asked for, and
/// `initial` where none was accepted.
pub open spec fn last_accepted_size(initial: PixelSize, steps: Seq<Step>) -> PixelSize
    decreases steps.len(),
{
    if steps.len() == 0 {
        initial
    } else {
        match steps.last().accepted_size() {
            Some(size) => size,
            None => last_accepted_size(initial, steps.drop_last()),
        }
    }
}

impl Event {
    /// Whether handling the event reads the context.
    pub open spec fn needs_context(self) -> bool {
        self is PointerMoved || self is Resized || self is ScaleFactorChanged
            || self is RedrawRequested
    }

    /// Whether the event asks the application to end.
    pub open spec fn asks_exit(self) -> bool {
        self is CloseRequested || self == (Event::Keyboard { key: Key::Escape, pressed: true })
    }
}

impl Controller {
    /// An active controller holds a context whose configuration carries its
    /// stored size.
    pub open spec fn wf(self) -> bool {
        self matches Controller::Active(ctx) ==> ctx.wf()
    }

    /// The configuration in force, while the controller is active.
    pub open spec fn config(self) -> Option<SurfaceConfig> {
        match self {
            Controller::Active(ctx) => Some(ctx.config),
            _ => None,
        }
    }

    /// Whether the controller has a context for an event that reads one.
    /// Before the context exists no window exists either, so no such event
    /// can be delivered.
    pub open spec fn accepts(self, event: Event) -> bool {
        event.needs_context() ==> (self is Active || self is Terminated)
    }

    /// The state after a resume signal.
    pub open spec fn after_resume(self) -> Controller {
        if self is Uninitialized {
            Controller::Binding
        } else {
            self
        }
    }

    /// The command that a resume signal gives.
    pub open spec fn resume_command(self) -> Command {
        if self is Uninitialized {
            Command::CreateBinding
        } else {
            Command::Nothing
        }
    }

    /// The state after the context `ctx` was handed in.
    pub open spec fn after_bound(self, ctx: GpuContext) -> Controller {
        if self is Binding {
            Controller::Active(ctx)
        } else {
            self
        }
    }

    /// The command that handing in a context gives.
    pub open spec fn bound_command(self) -> Command {
        if self is Binding {
            Command::RequestRedraw
        } else {
            Command::Nothing
        }
    }

    /// The state after a window event.
    pub open spec fn after_event(self, event: Event) -> Controller {
        match self {
            Controller::Terminated => Controller::Terminated,
            Controller::Active(ctx) => match event {
                Event::Resized(size) => Controller::Active(ctx.resized(size)),
                _ => if event.asks_exit() {
                    Controller::Terminated
                } else {
                    self
                },
            },
            _ => if event.asks_exit() {
                Controller::Terminated
            } else {
                self
            },
        }
    }

    /// The command that a window event gives.
    pub open spec fn event_command(self, event: Event) -> Command {
        match self {
            Controller::Terminated => Command::Nothing,
            Controller::Active(ctx) => match event {
                Event::PointerMoved => Command::Recolor(ctx.size),
                Event::Resized(size) => match ctx.pushed_by(size) {
                    Some(config) => Command::Configure(config),
                    None => Command::Nothing,
                },
                Event::ScaleFactorChanged => Command::RequestInnerSize(ctx.size),
                Event::RedrawRequested => Command::Render,
                _ => if event.asks_exit() {
                    Command::Exit
                } else {
                    Command::Nothing
                },
            },
            _ => if event.asks_exit() {
                Command::Exit
            } else {
                Command::Nothing
            },
        }
    }

    /// The state after a frame failed with `kind`.
    pub open spec fn after_failure(self, kind: FrameError) -> Controller {
        match self {
            Controller::Active(ctx) => match kind {
                FrameError::Lost => Controller::Active(ctx.resized(ctx.size)),
                FrameError::OutOfMemory => Controller::Terminated,
                _ => self,
            },
            _ => self,
        }
    }

    /// The command that a frame's failure with `kind` gives.
    pub open spec fn failure_command(self, kind: FrameError) -> Command {
        match self {
            Controller::Active(ctx) => match kind {
                FrameError::Lost => match ctx.pushed_by(ctx.size) {
                    Some(config) => Command::Configure(config),
                    None => Command::Nothing,
                },
                FrameError::OutOfMemory => Command::Exit,
                _ => Command::Nothing,
            },
            _ => Command::Nothing,
        }
    }

    /// The state after one step.
    pub open spec fn after_step(self, step: Step) -> Controller {
        match step {
            Step::Resumed => self.after_resume(),
            Step::Window(event) => self.after_event(event),
            Step::Failed(kind) => self.after_failure(kind),
        }
    }

    /// The state after a sequence of steps, oldest first.
    pub open spec fn after_steps(self, steps: Seq<Step>) -> Controller
        decreases steps.len(),
    {
        if steps.len() == 0 {
            self
        } else {
            self.after_steps(steps.drop_last()).after_step(steps.last())
        }
    }

    /// A controller that has seen no event yet.
    pub fn new() -> (app: Self)
        ensures
            app is Uninitialized,
            app.wf(),
    {
        Controller::Uninitialized
    }

    /// The context, while the controller is active.
    pub fn context(&self) -> (ctx: Option<GpuContext>)
        ensures
            ctx == (match *self {
                Controller::Active(c) => Some(c),
                _ => None,
            }),
    {
        match *self {
            Controller::Active(c) => Some(c),
            _ => None,
        }
    }

    pub fn is_active(&self) -> (yes: bool)
        ensures
            yes == (*self is Active),
    {
        match *self {
            Controller::Active(_) => true,
            _ => false,
        }
    }

    pub fn is_terminated(&self) -> (yes: bool)
        ensures
            yes == (*self is Terminated),
    {
        match *self {
            Controller::Terminated => true,
            _ => false,
        }
    }

    /// Whether `window_event` may be called with `event`.
    pub fn can_handle(&self, event: &Event) -> (yes: bool)
        ensures
            yes == self.accepts(*event),
    {
        let needs = match *event {
            Event::PointerMoved => true,
            Event::Resized(_) => true,
            Event::ScaleFactorChanged => true,
            Event::RedrawRequested => true,
            _ => false,
        };
        !needs || self.is_active() || self.is_terminated()
    }

    /// Handles a resume signal. The first one asks for the window and the
    /// context to be created; every later one changes nothing.
    pub fn resumed(&mut self) -> (cmd: Command)
        ensures
            *final(self) == old(self).after_resume(),
            cmd == old(self).resume_command(),
            old(self).wf() ==> final(self).wf(),
    {
        match *self {
            Controller::Uninitialized => {
                *self = Controller::Binding;
                Command::CreateBinding
            },
            _ => Command::Nothing,
        }
    }

    /// Takes the context that was created on `Command::CreateBinding` and
    /// asks for the first redraw.
    pub fn bound(&mut self, ctx: GpuContext) -> (cmd: Command)
        ensures
            *final(self) == old(self).after_bound(ctx),
            cmd == old(self).bound_command(),
            old(self).wf() && ctx.wf() ==> final(self).wf(),
    {
        match *self {
            Controller::Binding => {
                *self = Controller::Active(ctx);
                Command::RequestRedraw
            },
            _ => Command::Nothing,
        }
    }

    /// Ends the application: the context is dropped, and the command tells
    /// the event loop to stop.
    pub fn exit(&mut self) -> (cmd: Command)
        ensures
            *final(self) is Terminated,
            cmd == Command::Exit,
    {
        *self = Controller::Terminated;
        Command::Exit
    }

    /// Handles the events that only feed the next frame's state: a pointer
    /// move gives the command to recolor. Any other event is not consumed.
    pub fn input(&self, event: &Event) -> (cmd: Option<Command>)
        requires
            self.accepts(*event),
        ensures
            cmd == (match (*self, *event) {
                (Controller::Active(ctx), Event::PointerMoved) => Some(Command::Recolor(ctx.size)),
                _ => None,
            }),
    {
        match *event {
            Event::PointerMoved => match *self {
                Controller::Active(ctx) => Some(Command::Recolor(ctx.size)),
                _ => None,
            },
            _ => None,
        }
    }

    /// Handles a window event and says what the event loop has to do.
    pub fn window_event(&mut self, event: Event) -> (cmd: Command)
        requires
            old(self).accepts(event),
        ensures
            *final(self) == old(self).after_event(event),
            cmd == old(self).event_command(event),
            old(self).wf() ==> final(self).wf(),
    {
        match *self {
            Controller::Terminated => {
                return Command::Nothing;
            },
            _ => {},
        }
        match self.input(&event) {
            Some(cmd) => {
                return cmd;
            },
            None => {},
        }
        match event {
            Event::CloseRequested => self.exit(),
            Event::Keyboard { key, pressed } => {
                if pressed {
                    match key {
                        Key::Escape => self.exit(),
                        _ => Command::Nothing,
                    }
                } else {
                    Command::Nothing
                }
            },
            Event::RedrawRequested => Command::Render,
            Event::Resized(size) => match *self {
                Controller::Active(c) => {
                    let mut ctx = c;
                    let push = ctx.resize(size);
                    *self = Controller::Active(ctx);
                    match push {
                        Some(config) => Command::Configure(config),
                        None => Command::Nothing,
                    }
                },
                _ => Command::Nothing,
            },
            Event::ScaleFactorChanged => match *self {
                Controller::Active(ctx) => Command::RequestInnerSize(ctx.size),
                _ => Command::Nothing,
            },
            _ => Command::Nothing,
        }
    }

    /// Handles a frame that failed with `kind`, by the recovery table: a lost
    /// surface is configured again with the stored size, exhausted memory
    /// ends the application, and anything else skips the frame.
    pub fn frame_failed(&mut self, kind: FrameError) -> (cmd: Command)
        ensures
            *final(self) == old(self).after_failure(kind),
            cmd == old(self).failure_command(kind),
            old(self).wf() ==> final(self).wf(),
    {
        match *self {
            Controller::Active(c) => match recovery(kind) {
                Recovery::Reconfigure => {
                    let mut ctx = c;
                    let push = ctx.resize(ctx.size);
                    *self = Controller::Active(ctx);
                    match push {
                        Some(config) => Command::Configure(config),
                        None => Command::Nothing,
                    }
                },
                Recovery::Terminate => self.exit(),
                Recovery::SkipFrame => Command::Nothing,
            },
            _ => Command::Nothing,
        }
    }

    /// Handles a frame that the surface refused with `error`.
    pub fn surface_failed(&mut self, error: &wgpu::SurfaceError) -> (cmd: Command)
        ensures
            *final(self) == old(self).after_failure(frame_error_of(*error)),
            cmd == old(self).failure_command(frame_error_of(*error)),
            old(self).wf() ==> final(self).wf(),
    {
        let kind = frame_error(error);
        self.frame_failed(kind)
    }
}

impl Default for Controller {
    /// The controller that has seen no event yet.
    fn default() -> (app: Self)
        ensures
            app is Uninitialized,
    {
        Controller::Uninitialized
    }
}

/// Every transition keeps an active context's configuration and stored size
/// in step.
pub proof fn lemma_transitions_keep_wf(
    app: Controller,
    event: Event,
    kind: FrameError,
    ctx: GpuContext,
)
    requires
        app.wf(),
        ctx.wf(),
    ensures
        app.after_resume().wf(),
        app.after_bound(ctx).wf(),
        app.after_event(event).wf(),
        app.after_failure(kind).wf(),
{
}

/// A resize to a size with area, delivered to an active controller, stores
/// that size, sets the configured width and height to it, and gives the
/// command to push exactly the stored configuration.
pub proof fn lemma_resize_event_accepted(ctx: GpuContext, size: PixelSize)
    requires
        size.presentable(),
    ensures
        Controller::Active(ctx).after_event(Event::Resized(size)) is Active,
        Controller::Active(ctx).after_event(Event::Resized(size)).config() == Some(
            ctx.config.with_extent(size),
        ),
        ctx.config.with_extent(size).width == size.width,
        ctx.config.with_extent(size).height == size.height,
        Controller::Active(ctx).after_event(Event::Resized(size))->Active_0.size == size,
        Controller::Active(ctx).event_command(Event::Resized(size)) == Command::Configure(
            ctx.config.with_extent(size),
        ),
{
}

/// No frame is acquired with a stale configuration: whenever a window event
/// or a failed frame changes the configuration of an active controller, the
/// command of that very step is to push the new configuration, so it reaches
/// the surface before a later event can give `Command::Render`. A step that
/// gives `Command::Render` leaves the controller as it was.
pub proof fn lemma_config_change_is_pushed(app: Controller, event: Event, kind: FrameError)
    requires
        app is Active,
    ensures
        app.after_event(event).config() != app.config() && app.after_event(event) is Active
            ==> app.event_command(event) == Command::Configure(
            app.after_event(event)->Active_0.config,
        ),
        app.after_failure(kind).config() != app.config() && app.after_failure(kind) is Active
            ==> app.failure_command(kind) == Command::Configure(
            app.after_failure(kind)->Active_0.config,
        ),
        app.event_command(event) is Render ==> app.after_event(event) == app,
        !(app.failure_command(kind) is Render),
{
}

/// A resize to a size with a zero dimension changes nothing and gives no
/// command, in every state and however often it is delivered.
pub proof fn lemma_degenerate_resize_ignored(app: Controller, size: PixelSize)
    requires
        !size.presentable(),
    ensures
        app.after_event(Event::Resized(size)) == app,
        app.event_command(Event::Resized(size)) == Command::Nothing,
{
}

/// A frame that fails because the surface was lost gives at once the command
/// to configure the surface again, with the negotiated configuration at the
/// stored size, and that configuration is the one in force afterwards. The
/// stored size must have area: a size without area is never pushed.
pub proof fn lemma_lost_reconfigures(ctx: GpuContext)
    requires
        ctx.size.presentable(),
    ensures
        Controller::Active(ctx).failure_command(FrameError::Lost) == Command::Configure(
            ctx.config.with_extent(ctx.size),
        ),
        Controller::Active(ctx).after_failure(FrameError::Lost).config() == Some(
            ctx.config.with_extent(ctx.size),
        ),
        Controller::Active(ctx).after_failure(FrameError::Lost)->Active_0.size == ctx.size,
        ctx.wf() ==> Controller::Active(ctx).after_failure(FrameError::Lost) == Controller::Active(
            ctx,
        ) && ctx.config.with_extent(ctx.size) == ctx.config,
{
}

/// A frame that fails for want of memory ends an active controller: the
/// context is gone and the command is to stop the loop.
pub proof fn lemma_out_of_memory_terminates(ctx: GpuContext)
    ensures
        Controller::Active(ctx).after_failure(FrameError::OutOfMemory) is Terminated,
        Controller::Active(ctx).after_failure(FrameError::OutOfMemory).config() is None,
        Controller::Active(ctx).failure_command(FrameError::OutOfMemory) == Command::Exit,
{
}

/// Nothing leaves the terminated state, and nothing is commanded in it.
pub proof fn lemma_terminated_is_final(event: Event, kind: FrameError, ctx: GpuContext)
    ensures
        Controller::Terminated.after_resume() is Terminated,
        Controller::Terminated.resume_command() == Command::Nothing,
        Controller::Terminated.after_bound(ctx) is Terminated,
        Controller::Terminated.bound_command() == Command::Nothing,
        Controller::Terminated.after_event(event) is Terminated,
        Controller::Terminated.event_command(event) == Command::Nothing,
        Controller::Terminated.after_failure(kind) is Terminated,
        Controller::Terminated.failure_command(kind) == Command::Nothing,
{
}

/// A second resume signal changes nothing and creates nothing: after one
/// resume, in whatever state it was delivered, another leaves the state as it
/// is and gives no command. An active controller keeps its one context.
pub proof fn lemma_resume_idempotent(app: Controller)
    ensures
        app.after_resume().after_resume() == app.after_resume(),
        app.after_resume().resume_command() == Command::Nothing,
        app is Active ==> app.after_resume() == app && app.resume_command() == Command::Nothing,
{
}

/// The window and the context are asked for exactly once: only a resume
/// signal to a controller that has seen none gives `Command::CreateBinding`,
/// and no step leads back to that state.
pub proof fn lemma_binding_created_once(app: Controller, step: Step, ctx: GpuContext)
    ensures
        app.resume_command() == Command::CreateBinding <==> app is Uninitialized,
        !(app.after_resume() is Uninitialized),
        !(app is Uninitialized) ==> !(app.after_step(step) is Uninitialized) && !(app.after_bound(
            ctx,
        ) is Uninitialized),
        app.bound_command() != Command::CreateBinding,
        forall|event: Event| #[trigger] app.event_command(event) != Command::CreateBinding,
        forall|kind: FrameError| #[trigger] app.failure_command(kind) != Command::CreateBinding,
{
}

/// While no step ends it, an active controller stays active, and after any
/// sequence of steps its stored size is the one of the last accepted resize
/// (the size it started with where none was accepted) and its configuration
/// is the negotiated one at that size.
pub proof fn lemma_config_follows_last_accepted_size(ctx: GpuContext, steps: Seq<Step>)
    requires
        ctx.wf(),
        forall|i: int| 0 <= i < steps.len() ==> !(#[trigger] steps[i]).ends(),
    ensures
        Controller::Active(ctx).after_steps(steps) == Controller::Active(
            GpuContext {
                config: ctx.config.with_extent(last_accepted_size(ctx.size, steps)),
                size: last_accepted_size(ctx.size, steps),
            },
        ),
    decreases steps.len(),
{
    if steps.len() > 0 {
        let earlier = steps.drop_last();
        assert forall|i: int| 0 <= i < earlier.len() implies !(#[trigger] earlier[i]).ends() by {
            assert(earlier[i] == steps[i]);
        }
        lemma_config_follows_last_accepted_size(ctx, earlier);
        assert(!steps[steps.len() - 1].ends());
    }
}

/// Once terminated, a controller stays so whatever is delivered to it.
pub proof fn lemma_terminated_absorbs(steps: Seq<Step>)
    ensures
        Controller::Terminated.after_steps(steps) is Terminated,
    decreases steps.len(),
{
    if steps.len() > 0 {
        lemma_terminated_absorbs(steps.drop_last());
    }
}

} // verus!
