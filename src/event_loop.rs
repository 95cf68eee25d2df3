use vstd::prelude::*;
use crate::surface::{nonzero_size, SurfaceState};

verus! {

/// The two classes of platform the loop runs on.
#[derive(Clone, Copy, Debug, PartialEq, Eq, Structural)]
pub enum Target {
    /// The context is built in the resume callback, blocking until it is ready.
    Native,
    /// The context is built by a task that must not block the loop; it comes
    /// back as a context-ready event.
    Constrained,
}

/// Where the loop stands in its lifecycle.
#[derive(Clone, Copy, Debug, PartialEq, Eq, Structural)]
pub enum Phase {
    Uninitialized,
    ContextPending,
    Ready,
    Exiting,
}

/// The keys the loop tells apart.
#[derive(Clone, Copy, Debug, PartialEq, Eq, Structural)]
pub enum Key {
    /// The cancel key: a press ends the loop.
    Escape,
    Other,
}

/// How acquiring the next presentable texture failed.
#[derive(Clone, Copy, Debug, PartialEq, Eq, Structural)]
pub enum AcquireError {
    Lost,
    Outdated,
    Other,
}

/// What the loop is told.
#[derive(Clone, Copy, Debug, PartialEq, Eq, Structural)]
pub enum LoopEvent {
    /// The platform resumed the application.
    Resumed,
    /// The GPU context was built; `surface` is its initial surface state.
    ContextReady { surface: SurfaceState },
    CloseRequested,
    Resized { width: u32, height: u32 },
    RedrawRequested,
    PointerButton,
    Keyboard { key: Key, pressed: bool },
    /// The frame's presentable texture was acquired.
    TextureAcquired,
    /// Acquiring the frame's texture failed; `width` and `height` are the
    /// window's current size.
    AcquireFailed { error: AcquireError, width: u32, height: u32 },
    /// Any other window event.
    Unhandled,
}

/// What the loop asks its host to do, in order.
#[derive(Clone, Copy, Debug, PartialEq, Eq, Structural)]
pub enum Command {
    CreateWindow,
    /// Build the GPU context, blocking on it or as a detached task.
    CreateContext { blocking: bool },
    RequestRedraw,
    /// Reconfigure the surface with the stored configuration, now of this size.
    ConfigureSurface { width: u32, height: u32 },
    /// Upload the scene's uniform record (creating the scene on first use).
    UpdateScene,
    AcquireTexture,
    /// Let the renderable of this insertion index record its draw commands.
    Record { index: usize },
    Submit,
    Present,
    ForwardPointer,
    ForwardKey { pressed: bool },
    LogFrameError,
    Exit,
}

/// The loop's whole state.
#[derive(Clone, Copy, Debug, PartialEq, Eq, Structural)]
pub struct LoopState {
    pub target: Target,
    pub phase: Phase,
    /// The surface state; meaningful once the phase is `Ready`.
    pub surface: SurfaceState,
    /// How many renderables have been added, in insertion order.
    pub renderables: usize,
    /// Whether a frame waits for its texture.
    pub frame_pending: bool,
}

/// The renderables' record steps, in insertion order.
pub open spec fn record_steps(n: nat) -> Seq<Command> {
    Seq::new(n, |i: int| Command::Record { index: i as usize })
}

/// The commands that reconfigure the surface after a resize request.
pub open spec fn configure_steps(width: u32, height: u32) -> Seq<Command> {
    if nonzero_size(width, height) {
        seq![Command::ConfigureSurface { width, height }]
    } else {
        seq![]
    }
}

impl LoopState {
    pub open spec fn with_phase(self, phase: Phase) -> LoopState {
        LoopState { phase, ..self }
    }

    /// The state and commands after a window event, once the context is ready.
    pub open spec fn next_ready(self, ev: LoopEvent) -> (LoopState, Seq<Command>) {
        match ev {
            LoopEvent::CloseRequested => (self.with_phase(Phase::Exiting), seq![Command::Exit]),
            LoopEvent::Resized { width, height } => (
                LoopState { surface: self.surface.resized(width, height), ..self },
                configure_steps(width, height),
            ),
            LoopEvent::RedrawRequested => if self.surface.is_surface_configured {
                (
                    LoopState { frame_pending: true, ..self },
                    seq![Command::RequestRedraw, Command::UpdateScene, Command::AcquireTexture],
                )
            } else {
                (self, seq![Command::RequestRedraw])
            },
            LoopEvent::PointerButton => (self, seq![Command::ForwardPointer]),
            LoopEvent::Keyboard { key, pressed } => if key == Key::Escape && pressed {
                (self.with_phase(Phase::Exiting), seq![Command::Exit])
            } else {
                (self, seq![Command::ForwardKey { pressed }])
            },
            LoopEvent::TextureAcquired => if self.frame_pending {
                (
                    LoopState { frame_pending: false, ..self },
                    record_steps(self.renderables as nat) + seq![Command::Submit, Command::Present],
                )
            } else {
                (self, seq![])
            },
            LoopEvent::AcquireFailed { error, width, height } => if !self.frame_pending {
                (self, seq![])
            } else if error == AcquireError::Other {
                (LoopState { frame_pending: false, ..self }, seq![Command::LogFrameError])
            } else {
                (
                    LoopState {
                        frame_pending: false,
                        surface: self.surface.resized(width, height),
                        ..self
                    },
                    configure_steps(width, height),
                )
            },
            _ => (self, seq![]),
        }
    }

    /// A loop that has not started: no window, no context, no renderables.
    pub fn new(target: Target) -> (r: LoopState)
        ensures
            r.target == target,
            r.phase == Phase::Uninitialized,
            r.renderables == 0,
            !r.frame_pending,
            !r.surface.is_surface_configured,
    {
        LoopState {
            target,
            phase: Phase::Uninitialized,
            surface: SurfaceState::new(0, 0, 0),
            renderables: 0,
            frame_pending: false,
        }
    }

    /// Registers one more renderable and returns its insertion index, under
    /// which it is asked to record in every frame.
    pub fn add_renderable(&mut self) -> (index: usize)
        requires
            old(self).renderables < usize::MAX,
        ensures
            index == old(self).renderables,
            *final(self) == (LoopState { renderables: (old(self).renderables + 1) as usize, ..*old(self) }),
    {
        let index = self.renderables;
        self.renderables = index + 1;
        index
    }

    /// Takes one event and returns the commands for the host, in order.
    pub fn handle(&mut self, ev: LoopEvent) -> (cmds: Vec<Command>)
        ensures
            (*final(self), cmds@) == old(self).next(ev),
    {
        match self.phase {
            Phase::Uninitialized => match ev {
                LoopEvent::Resumed => {
                    self.phase = Phase::ContextPending;
                    let blocking = match self.target {
                        Target::Native => true,
                        Target::Constrained => false,
                    };
                    vec![Command::CreateWindow, Command::CreateContext { blocking }]
                },
                _ => Vec::new(),
            },
            Phase::ContextPending => match ev {
                LoopEvent::ContextReady { surface } => {
                    self.phase = Phase::Ready;
                    self.surface = surface;
                    self.frame_pending = false;
                    match self.target {
                        Target::Native => Vec::new(),
                        Target::Constrained => {
                            let w = surface.config.width;
                            let h = surface.config.height;
                            let mut cmds = vec![Command::RequestRedraw];
                            if self.surface.resize(w, h) {
                                cmds.push(Command::ConfigureSurface { width: w, height: h });
                            }
                            proof {
                                assert(cmds@ =~= seq![Command::RequestRedraw] + configure_steps(w, h));
                            }
                            cmds
                        },
                    }
                },
                _ => Vec::new(),
            },
            Phase::Ready => self.handle_ready(ev),
            Phase::Exiting => Vec::new(),
        }
    }

    fn resize_commands(&mut self, width: u32, height: u32) -> (cmds: Vec<Command>)
        ensures
            cmds@ == configure_steps(width, height),
            *final(self) == (LoopState { surface: old(self).surface.resized(width, height), ..*old(self) }),
    {
        if self.surface.resize(width, height) {
            vec![Command::ConfigureSurface { width, height }]
        } else {
            Vec::new()
        }
    }

    fn handle_ready(&mut self, ev: LoopEvent) -> (cmds: Vec<Command>)
        requires
            old(self).phase == Phase::Ready,
        ensures
            (*final(self), cmds@) == old(self).next_ready(ev),
    {
        match ev {
            LoopEvent::CloseRequested => {
                self.phase = Phase::Exiting;
                vec![Command::Exit]
            },
            LoopEvent::Resized { width, height } => self.resize_commands(width, height),
            LoopEvent::RedrawRequested => {
                if self.surface.is_surface_configured {
                    self.frame_pending = true;
                    vec![Command::RequestRedraw, Command::UpdateScene, Command::AcquireTexture]
                } else {
                    vec![Command::RequestRedraw]
                }
            },
            LoopEvent::PointerButton => vec![Command::ForwardPointer],
            LoopEvent::Keyboard { key, pressed } => {
                if key == Key::Escape && pressed {
                    self.phase = Phase::Exiting;
                    vec![Command::Exit]
                } else {
                    vec![Command::ForwardKey { pressed }]
                }
            },
            LoopEvent::TextureAcquired => {
                if self.frame_pending {
                    self.frame_pending = false;
                    let n = self.renderables;
                    let mut cmds: Vec<Command> = Vec::new();
                    let mut i: usize = 0;
                    while i < n
                        invariant
                            i <= n,
                            cmds@ == record_steps(i as nat),
                        decreases n - i,
                    {
                        cmds.push(Command::Record { index: i });
                        assert(cmds@ =~= record_steps((i + 1) as nat));
                        i = i + 1;
                    }
                    cmds.push(Command::Submit);
                    cmds.push(Command::Present);
                    proof {
                        assert(cmds@ =~= record_steps(n as nat) + seq![Command::Submit, Command::Present]);
                    }
                    cmds
                } else {
                    Vec::new()
                }
            },
            LoopEvent::AcquireFailed { error, width, height } => {
                if !self.frame_pending {
                    Vec::new()
                } else {
                    self.frame_pending = false;
                    match error {
                        AcquireError::Other => vec![Command::LogFrameError],
                        _ => self.resize_commands(width, height),
                    }
                }
            },
            _ => Vec::new(),
        }
    }

    /// The state and commands after an event.
    pub open spec fn next(self, ev: LoopEvent) -> (LoopState, Seq<Command>) {
        match self.phase {
            Phase::Uninitialized => match ev {
                LoopEvent::Resumed => match self.target {
                    Target::Native => (
                        self.with_phase(Phase::ContextPending),
                        seq![Command::CreateWindow, Command::CreateContext { blocking: true }],
                    ),
                    Target::Constrained => (
                        self.with_phase(Phase::ContextPending),
                        seq![Command::CreateWindow, Command::CreateContext { blocking: false }],
                    ),
                },
                _ => (self, seq![]),
            },
            Phase::ContextPending => match ev {
                LoopEvent::ContextReady { surface } => match self.target {
                    Target::Native => (
                        LoopState { phase: Phase::Ready, surface, frame_pending: false, ..self },
                        seq![],
                    ),
                    Target::Constrained => {
                        let w = surface.config.width;
                        let h = surface.config.height;
                        (
                            LoopState {
                                phase: Phase::Ready,
                                surface: surface.resized(w, h),
                                frame_pending: false,
                                ..self
                            },
                            seq![Command::RequestRedraw] + configure_steps(w, h),
                        )
                    },
                },
                _ => (self, seq![]),
            },
            Phase::Ready => self.next_ready(ev),
            Phase::Exiting => (self, seq![]),
        }
    }
}

/// A window event of the kind the platform delivers once a window exists.
pub open spec fn is_window_event(ev: LoopEvent) -> bool {
    match ev {
        LoopEvent::CloseRequested | LoopEvent::Resized { .. } | LoopEvent::RedrawRequested
        | LoopEvent::PointerButton | LoopEvent::Keyboard { .. } | LoopEvent::Unhandled => true,
        _ => false,
    }
}

/// A redraw before the surface has been configured records, submits and
/// presents nothing, changes no state, and only asks for the next redraw.
pub proof fn lemma_redraw_before_configured(s: LoopState)
    requires
        s.phase == Phase::Ready,
        !s.surface.is_surface_configured,
    ensures
        s.next(LoopEvent::RedrawRequested) == (s, seq![Command::RequestRedraw]),
        !s.next(LoopEvent::RedrawRequested).1.contains(Command::Submit),
        !s.next(LoopEvent::RedrawRequested).1.contains(Command::Present),
{
    let cmds = s.next(LoopEvent::RedrawRequested).1;
    assert(cmds[0] == Command::RequestRedraw);
}

/// Once the context is ready, a press of the cancel key ends the loop and is
/// never forwarded to the application.
pub proof fn lemma_escape_ends_loop(s: LoopState)
    requires
        s.phase == Phase::Ready,
    ensures
        s.next(LoopEvent::Keyboard { key: Key::Escape, pressed: true }) == (
            s.with_phase(Phase::Exiting),
            seq![Command::Exit],
        ),
{
}

/// A lost or outdated surface while a frame waits for its texture resizes the
/// surface exactly once, to the window's current size, and presents nothing.
pub proof fn lemma_lost_surface_resizes_once(
    s: LoopState,
    error: AcquireError,
    width: u32,
    height: u32,
)
    requires
        s.phase == Phase::Ready,
        s.frame_pending,
        error == AcquireError::Lost || error == AcquireError::Outdated,
    ensures
        ({
            let (t, cmds) = s.next(LoopEvent::AcquireFailed { error, width, height });
            &&& t.surface == s.surface.resized(width, height)
            &&& !t.frame_pending
            &&& t.phase == Phase::Ready
            &&& cmds == configure_steps(width, height)
            &&& cmds.len() <= 1
            &&& !cmds.contains(Command::Present)
            &&& !cmds.contains(Command::Submit)
        }),
{
    let cmds = s.next(LoopEvent::AcquireFailed { error, width, height }).1;
    if cmds.len() == 1 {
        assert(cmds[0] == Command::ConfigureSurface { width, height });
    }
}

/// Once a frame's texture is acquired, every renderable records exactly once,
/// in insertion order, before the frame is submitted and presented.
pub proof fn lemma_records_in_insertion_order(s: LoopState)
    requires
        s.phase == Phase::Ready,
        s.frame_pending,
    ensures
        ({
            let cmds = s.next(LoopEvent::TextureAcquired).1;
            &&& cmds.len() == s.renderables + 2
            &&& forall|i: int| 0 <= i < s.renderables ==> cmds[i] == Command::Record { index: i as usize }
            &&& cmds[s.renderables as int] == Command::Submit
            &&& cmds[s.renderables + 1] == Command::Present
        }),
{
}

/// Window events that arrive before the context is ready are dropped: no
/// command, no change of state.
pub proof fn lemma_events_before_ready_dropped(s: LoopState, ev: LoopEvent)
    requires
        s.phase == Phase::Uninitialized || s.phase == Phase::ContextPending,
        is_window_event(ev),
    ensures
        s.next(ev) == (s, Seq::<Command>::empty()),
{
}

/// From a ready, configured loop with no frame in flight, a pointer press, a
/// redraw (whose texture is then acquired) and a press of the cancel key
/// forward the pointer, run exactly one update-record-submit-present cycle,
/// and end the loop without forwarding the key.
pub proof fn lemma_pointer_redraw_escape(s: LoopState)
    requires
        s.phase == Phase::Ready,
        s.surface.is_surface_configured,
        !s.frame_pending,
    ensures
        ({
            let (s1, c1) = s.next(LoopEvent::PointerButton);
            let (s2, c2) = s1.next(LoopEvent::RedrawRequested);
            let (s3, c3) = s2.next(LoopEvent::TextureAcquired);
            let (s4, c4) = s3.next(LoopEvent::Keyboard { key: Key::Escape, pressed: true });
            &&& c1 == seq![Command::ForwardPointer]
            &&& c2 == seq![Command::RequestRedraw, Command::UpdateScene, Command::AcquireTexture]
            &&& c3 == record_steps(s.renderables as nat) + seq![Command::Submit, Command::Present]
            &&& c4 == seq![Command::Exit]
            &&& s4.phase == Phase::Exiting
        }),
{
}

} // verus!
