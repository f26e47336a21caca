//! The frame pump: what to ask of the runtime next.
//!
//! Every tick the runtime has to be driven through the same handshake:
//! drain its events, wait for the frame, begin it, locate the views,
//! acquire and wait for an image, release it, end the frame. Each of these
//! is a call that only the application can make, and what comes next
//! depends on how the call went. [`FramePump`] holds the decisions. It is
//! told what happened, as a [`RuntimeEvent`], and answers with the
//! [`RuntimeCall`] to make next; it makes no call itself.
//!
//! A tick has three stages, with the application's own work in between:
//! [`xr_begin_frame`] starts the tick, [`post_frame`] gets the image to
//! render to, [`end_frame`] hands the frame in. Within a stage the
//! application makes the call it is given and passes the outcome to
//! [`FramePump::step`], until the answer is [`RuntimeCall::Nothing`].

use vstd::prelude::*;
use crate::frame_laws::lemma_step_consistent;
use crate::passthrough::{FrameLayers, XrPassthroughLayer};
use crate::session::{SessionState, XrEvent, is_legal_edge, legal_edge};
use crate::space::XrView;

verus! {

/// The texture handle under which the left eye's render target is published.
pub const LEFT_XR_TEXTURE_HANDLE: u32 = 1208214591;

/// The texture handle under which the right eye's render target is published.
pub const RIGHT_XR_TEXTURE_HANDLE: u32 = 3383858418;

/// What waiting for a frame returns. Times are in nanoseconds.
#[derive(Clone, Copy, Debug, PartialEq, Eq, Structural)]
pub struct FrameState {
    pub predicted_display_time: i64,
    pub predicted_display_period: i64,
    pub should_render: bool,
}

/// How far the frame of the current tick has come.
#[derive(Clone, Copy, Debug, PartialEq, Eq, Structural)]
pub enum FramePhase {
    /// No frame: the tick has not waited yet, or its frame work was skipped.
    Idle,
    /// The wait for the frame has returned.
    Waited,
    /// The frame is begun; no image is held.
    Begun,
    /// An image is acquired but not yet writable.
    Acquired,
    /// The image is writable: the render targets are valid.
    ImageReady,
    /// The image is released.
    Released,
    /// The frame is ended.
    Ended,
}

/// A call to the runtime, or to the application around it.
#[derive(Clone, Copy, Debug, PartialEq, Eq, Structural)]
pub enum RuntimeCall {
    /// Nothing to do: the stage is over.
    Nothing,
    /// Poll the instance for an event.
    PollEvent,
    /// Begin the session.
    BeginSession,
    /// Ask the application to exit. No call follows, in this tick or later.
    RequestExit,
    /// Wait for the next frame.
    WaitFrame,
    /// Begin the frame.
    BeginFrame,
    /// Locate the views for the given display time.
    LocateViews { display_time: i64 },
    /// Acquire an image of the swapchain.
    AcquireImage,
    /// Wait until the acquired image is writable.
    WaitImage,
    /// Release the image.
    ReleaseImage,
    /// End the frame for the given display time with the given layers.
    EndFrame { display_time: i64, layers: FrameLayers },
}

impl RuntimeCall {
    /// Whether the call works on the frame or its image.
    pub open spec fn is_frame_call(self) -> bool {
        match self {
            RuntimeCall::Nothing | RuntimeCall::PollEvent | RuntimeCall::BeginSession
            | RuntimeCall::RequestExit => false,
            _ => true,
        }
    }
}

/// How a call went.
pub enum RuntimeEvent {
    /// The poll returned this event, or none: the queue is empty.
    Polled(Option<XrEvent>),
    /// The session was begun, or could not be.
    SessionBegun(bool),
    /// The wait returned this frame state, or failed.
    FrameWaited(Option<FrameState>),
    /// The frame was begun, or could not be.
    FrameBegun(bool),
    /// The views were located, or could not be.
    ViewsLocated(Option<Vec<XrView>>),
    /// An image was acquired, or could not be.
    ImageAcquired(bool),
    /// The image became writable, or the wait failed.
    ImageWaited(bool),
    /// The image was released, or could not be.
    ImageReleased(bool),
    /// The frame was ended, or could not be.
    FrameEnded(bool),
}

/// The model of the frame pump.
pub struct PumpModel {
    /// The state the session is in.
    pub session: SessionState,
    /// Whether the session was begun.
    pub running: bool,
    /// Whether the application was asked to exit.
    pub exiting: bool,
    /// The call whose outcome the pump is waiting for.
    pub outstanding: RuntimeCall,
    pub phase: FramePhase,
    /// What the last successful wait returned.
    pub frame_state: FrameState,
    /// The layers the frame is to be ended with, once the image is released.
    pub layers: FrameLayers,
    /// The views as last located.
    pub views: Seq<XrView>,
    /// The events of the last tick that was drained.
    pub events: Seq<XrEvent>,
    /// The events polled so far in the current tick.
    pub pending: Seq<XrEvent>,
    /// How many events the runtime reported lost, up to the largest count.
    pub lost_events: u64,
}

/// What can be put to the pump.
pub enum PumpInput {
    /// The start of a tick.
    BeginTick,
    /// The request to locate the views once more.
    LocateViews,
    /// The start of the stage that gets the image.
    PostFrame,
    /// The start of the stage that hands the frame in.
    EndFrame(Option<XrPassthroughLayer>),
    /// The outcome of the call that was asked for.
    Outcome(RuntimeEvent),
}

impl PumpModel {
    /// The pump before anything has happened.
    pub open spec fn initial() -> PumpModel {
        PumpModel {
            session: SessionState::Unknown,
            running: false,
            exiting: false,
            outstanding: RuntimeCall::Nothing,
            phase: FramePhase::Idle,
            frame_state: FrameState {
                predicted_display_time: 0,
                predicted_display_period: 0,
                should_render: false,
            },
            layers: FrameLayers::Empty,
            views: Seq::empty(),
            events: Seq::empty(),
            pending: Seq::empty(),
            lost_events: 0,
        }
    }

    /// The pump asking for `call`.
    pub open spec fn asking(self, call: RuntimeCall) -> (PumpModel, RuntimeCall) {
        (PumpModel { outstanding: call, ..self }, call)
    }

    /// The pump as it is, asking for nothing.
    pub open spec fn idle(self) -> (PumpModel, RuntimeCall) {
        (self, RuntimeCall::Nothing)
    }

    /// Whether the render targets may be written: an image was acquired
    /// and became writable, and is not released yet.
    pub open spec fn render_views_valid(self) -> bool {
        self.phase == FramePhase::ImageReady
    }

    /// Whether an image is held: acquired and not released.
    pub open spec fn holds_image(self) -> bool {
        self.phase == FramePhase::Acquired || self.phase == FramePhase::ImageReady
    }

    /// The start of a tick: the events are polled anew and no frame is in
    /// progress. Once the application was asked to exit nothing is started.
    pub open spec fn begin_tick(self) -> (PumpModel, RuntimeCall) {
        if self.exiting {
            self.idle()
        } else {
            PumpModel { phase: FramePhase::Idle, pending: Seq::empty(), ..self }.asking(
                RuntimeCall::PollEvent,
            )
        }
    }

    /// A polled event.
    ///
    /// A change of the session's state is taken over where the session can
    /// make that move, and ignored where it cannot. A session can get ready
    /// from any state in which it is not lost or over, and on getting ready
    /// a session that is not running has to be begun. An event that ends the
    /// session, whether by its state or by the loss of the instance, has
    /// the application exit: the tick is over and its events are dropped.
    /// Lost events are counted. Every other event is kept for the tick's
    /// readers and the poll goes on.
    pub open spec fn on_event(self, event: XrEvent) -> (PumpModel, RuntimeCall) {
        let kept = PumpModel { pending: self.pending.push(event), ..self };
        match event {
            XrEvent::SessionStateChanged(state) => {
                let moved = legal_edge(self.session, state);
                let session = if moved {
                    state
                } else {
                    self.session
                };
                if state.is_terminal() {
                    PumpModel { session, exiting: true, ..self }.asking(RuntimeCall::RequestExit)
                } else if moved && state == SessionState::Ready && !self.running {
                    PumpModel { session, ..kept }.asking(RuntimeCall::BeginSession)
                } else {
                    PumpModel { session, ..kept }.asking(RuntimeCall::PollEvent)
                }
            },
            XrEvent::InstanceLossPending => PumpModel { exiting: true, ..self }.asking(
                RuntimeCall::RequestExit,
            ),
            XrEvent::EventsLost(count) => PumpModel {
                lost_events: self.lost_events.saturating_add(count as u64),
                ..kept
            }.asking(RuntimeCall::PollEvent),
            XrEvent::Other => kept.asking(RuntimeCall::PollEvent),
        }
    }

    /// The queue is empty: the tick's events replace those of the tick
    /// before, and a running session waits for its frame. A session that
    /// is not running does no frame work.
    pub open spec fn on_drained(self) -> (PumpModel, RuntimeCall) {
        let drained = PumpModel { events: self.pending, pending: Seq::empty(), ..self };
        if self.running {
            drained.asking(RuntimeCall::WaitFrame)
        } else {
            drained.asking(RuntimeCall::Nothing)
        }
    }

    /// The image is released, or could not be. The frame is ended either
    /// way; it keeps its layers only if it was rendered, that is, if the
    /// image was writable and is now released.
    pub open spec fn on_released(self, released: bool) -> (PumpModel, RuntimeCall) {
        let layers = if released && self.phase == FramePhase::ImageReady {
            self.layers
        } else {
            FrameLayers::Empty
        };
        PumpModel { phase: FramePhase::Released, layers, ..self }.asking(
            RuntimeCall::EndFrame {
                display_time: self.frame_state.predicted_display_time,
                layers,
            },
        )
    }

    /// The outcome of a call.
    ///
    /// An outcome counts only as the answer to the call that is
    /// outstanding; any other changes nothing. After a failure the rest of
    /// the stage is skipped, and, where no frame was begun, the rest of
    /// the tick's frame work.
    pub open spec fn on_outcome(self, event: RuntimeEvent) -> (PumpModel, RuntimeCall) {
        if self.exiting {
            self.idle()
        } else {
            match (self.outstanding, event) {
                (RuntimeCall::PollEvent, RuntimeEvent::Polled(Some(polled))) => self.on_event(
                    polled,
                ),
                (RuntimeCall::PollEvent, RuntimeEvent::Polled(None)) => self.on_drained(),
                (RuntimeCall::BeginSession, RuntimeEvent::SessionBegun(begun)) => PumpModel {
                    running: self.running || begun,
                    ..self
                }.asking(RuntimeCall::PollEvent),
                (RuntimeCall::WaitFrame, RuntimeEvent::FrameWaited(Some(frame_state))) => PumpModel {
                    frame_state,
                    phase: FramePhase::Waited,
                    ..self
                }.asking(RuntimeCall::BeginFrame),
                (RuntimeCall::WaitFrame, RuntimeEvent::FrameWaited(None)) => self.asking(
                    RuntimeCall::Nothing,
                ),
                (RuntimeCall::BeginFrame, RuntimeEvent::FrameBegun(true)) => PumpModel {
                    phase: FramePhase::Begun,
                    ..self
                }.asking(
                    RuntimeCall::LocateViews {
                        display_time: self.frame_state.predicted_display_time,
                    },
                ),
                (RuntimeCall::BeginFrame, RuntimeEvent::FrameBegun(false)) => PumpModel {
                    phase: FramePhase::Idle,
                    ..self
                }.asking(RuntimeCall::Nothing),
                (RuntimeCall::LocateViews { .. }, RuntimeEvent::ViewsLocated(Some(views))) => PumpModel {
                    views: views@,
                    ..self
                }.asking(RuntimeCall::Nothing),
                (RuntimeCall::LocateViews { .. }, RuntimeEvent::ViewsLocated(None)) => self.asking(
                    RuntimeCall::Nothing,
                ),
                (RuntimeCall::AcquireImage, RuntimeEvent::ImageAcquired(true)) => PumpModel {
                    phase: FramePhase::Acquired,
                    ..self
                }.asking(RuntimeCall::WaitImage),
                (RuntimeCall::AcquireImage, RuntimeEvent::ImageAcquired(false)) => self.asking(
                    RuntimeCall::Nothing,
                ),
                (RuntimeCall::WaitImage, RuntimeEvent::ImageWaited(true)) => PumpModel {
                    phase: FramePhase::ImageReady,
                    ..self
                }.asking(RuntimeCall::Nothing),
                (RuntimeCall::WaitImage, RuntimeEvent::ImageWaited(false)) => self.asking(
                    RuntimeCall::Nothing,
                ),
                (RuntimeCall::ReleaseImage, RuntimeEvent::ImageReleased(released)) => self.on_released(
                    released,
                ),
                (RuntimeCall::EndFrame { .. }, RuntimeEvent::FrameEnded(_)) => PumpModel {
                    phase: FramePhase::Ended,
                    ..self
                }.asking(RuntimeCall::Nothing),
                _ => self.idle(),
            }
        }
    }

    /// The request to locate the views once more. It is granted while the
    /// tick's frame is begun and not yet handed in.
    pub open spec fn locate_views(self) -> (PumpModel, RuntimeCall) {
        if !self.exiting && (self.phase == FramePhase::Begun || self.holds_image()) {
            self.asking(
                RuntimeCall::LocateViews { display_time: self.frame_state.predicted_display_time },
            )
        } else {
            self.idle()
        }
    }

    /// The start of the stage that gets the image: a begun frame acquires one.
    pub open spec fn post_frame(self) -> (PumpModel, RuntimeCall) {
        if !self.exiting && self.phase == FramePhase::Begun {
            self.asking(RuntimeCall::AcquireImage)
        } else {
            self.idle()
        }
    }

    /// The start of the stage that hands the frame in. An image that is
    /// held is released first. A frame that is begun but holds no image
    /// was not rendered and ends without layers.
    pub open spec fn end_frame(self, passthrough: Option<XrPassthroughLayer>) -> (
        PumpModel,
        RuntimeCall,
    ) {
        if self.exiting {
            self.idle()
        } else if self.holds_image() {
            PumpModel { layers: FrameLayers::rendered(passthrough), ..self }.asking(
                RuntimeCall::ReleaseImage,
            )
        } else if self.phase == FramePhase::Begun {
            PumpModel { phase: FramePhase::Released, layers: FrameLayers::Empty, ..self }.asking(
                RuntimeCall::EndFrame {
                    display_time: self.frame_state.predicted_display_time,
                    layers: FrameLayers::Empty,
                },
            )
        } else {
            self.idle()
        }
    }

    /// The pump after `input`, and the call it asks for.
    pub open spec fn step(self, input: PumpInput) -> (PumpModel, RuntimeCall) {
        match input {
            PumpInput::BeginTick => self.begin_tick(),
            PumpInput::LocateViews => self.locate_views(),
            PumpInput::PostFrame => self.post_frame(),
            PumpInput::EndFrame(passthrough) => self.end_frame(passthrough),
            PumpInput::Outcome(event) => self.on_outcome(event),
        }
    }

    /// The pump after each of `inputs`, first to last.
    pub open spec fn run(self, inputs: Seq<PumpInput>) -> PumpModel
        decreases inputs.len(),
    {
        if inputs.len() == 0 {
            self
        } else {
            self.run(inputs.drop_last()).step(inputs.last()).0
        }
    }

    /// The calls the pump asks for as it is put `inputs`, one per input.
    pub open spec fn calls(self, inputs: Seq<PumpInput>) -> Seq<RuntimeCall> {
        Seq::new(inputs.len(), |k: int| self.run(inputs.take(k)).step(inputs[k]).1)
    }
}

/// The frame pump.
pub struct FramePump {
    session: SessionState,
    running: bool,
    exiting: bool,
    outstanding: RuntimeCall,
    phase: FramePhase,
    frame_state: FrameState,
    layers: FrameLayers,
    views: Vec<XrView>,
    events: Vec<XrEvent>,
    pending: Vec<XrEvent>,
    lost_events: u64,
}

impl View for FramePump {
    type V = PumpModel;

    closed spec fn view(&self) -> PumpModel {
        PumpModel {
            session: self.session,
            running: self.running,
            exiting: self.exiting,
            outstanding: self.outstanding,
            phase: self.phase,
            frame_state: self.frame_state,
            layers: self.layers,
            views: self.views@,
            events: self.events@,
            pending: self.pending@,
            lost_events: self.lost_events,
        }
    }
}

impl FramePump {
    /// A pump for a session that has reported nothing yet.
    pub fn new() -> (pump: FramePump)
        ensures
            pump@ == PumpModel::initial(),
            pump@.consistent(),
    {
        FramePump {
            session: SessionState::Unknown,
            running: false,
            exiting: false,
            outstanding: RuntimeCall::Nothing,
            phase: FramePhase::Idle,
            frame_state: FrameState {
                predicted_display_time: 0,
                predicted_display_period: 0,
                should_render: false,
            },
            layers: FrameLayers::Empty,
            views: Vec::new(),
            events: Vec::new(),
            pending: Vec::new(),
            lost_events: 0,
        }
    }

    /// The state the session is in.
    pub fn session_state(&self) -> (state: SessionState)
        ensures
            state == self@.session,
    {
        self.session
    }

    /// Whether the session was begun. Frame work is done only then.
    pub fn is_running(&self) -> (running: bool)
        ensures
            running == self@.running,
    {
        self.running
    }

    /// Whether the application was asked to exit.
    pub fn is_exiting(&self) -> (exiting: bool)
        ensures
            exiting == self@.exiting,
    {
        self.exiting
    }

    /// How far the tick's frame has come.
    pub fn phase(&self) -> (phase: FramePhase)
        ensures
            phase == self@.phase,
    {
        self.phase
    }

    /// What the last successful wait returned.
    pub fn frame_state(&self) -> (frame_state: FrameState)
        ensures
            frame_state == self@.frame_state,
    {
        self.frame_state
    }

    /// The views as last located.
    pub fn views(&self) -> (views: &Vec<XrView>)
        ensures
            views@ == self@.views,
    {
        &self.views
    }

    /// The events of the last tick that was drained.
    pub fn events(&self) -> (events: &Vec<XrEvent>)
        ensures
            events@ == self@.events,
    {
        &self.events
    }

    /// How many events the runtime reported lost.
    pub fn lost_event_count(&self) -> (count: u64)
        ensures
            count == self@.lost_events,
    {
        self.lost_events
    }

    /// The texture handles of the render targets, left eye first, while
    /// they may be written: from the moment the image is writable until it
    /// is released.
    pub fn get_render_views(&self) -> (targets: Option<(u32, u32)>)
        ensures
            targets == (if self@.render_views_valid() {
                Some((LEFT_XR_TEXTURE_HANDLE, RIGHT_XR_TEXTURE_HANDLE))
            } else {
                None
            }),
    {
        match self.phase {
            FramePhase::ImageReady => Some((LEFT_XR_TEXTURE_HANDLE, RIGHT_XR_TEXTURE_HANDLE)),
            _ => None,
        }
    }

    /// Notes `call` as outstanding and returns it.
    fn ask(&mut self, call: RuntimeCall) -> (asked: RuntimeCall)
        ensures
            (final(self)@, asked) == old(self)@.asking(call),
    {
        self.outstanding = call;
        call
    }

    fn on_event(&mut self, event: XrEvent) -> (call: RuntimeCall)
        ensures
            (final(self)@, call) == old(self)@.on_event(event),
    {
        match event {
            XrEvent::SessionStateChanged(state) => {
                let moved = is_legal_edge(self.session, state);
                let ready = moved && state == SessionState::Ready && !self.running;
                if moved {
                    self.session = state;
                }
                if state.terminal() {
                    self.exiting = true;
                    self.ask(RuntimeCall::RequestExit)
                } else {
                    self.pending.push(event);
                    if ready {
                        self.ask(RuntimeCall::BeginSession)
                    } else {
                        self.ask(RuntimeCall::PollEvent)
                    }
                }
            },
            XrEvent::InstanceLossPending => {
                self.exiting = true;
                self.ask(RuntimeCall::RequestExit)
            },
            XrEvent::EventsLost(count) => {
                self.lost_events = self.lost_events.saturating_add(count as u64);
                self.pending.push(event);
                self.ask(RuntimeCall::PollEvent)
            },
            XrEvent::Other => {
                self.pending.push(event);
                self.ask(RuntimeCall::PollEvent)
            },
        }
    }

    fn on_drained(&mut self) -> (call: RuntimeCall)
        ensures
            (final(self)@, call) == old(self)@.on_drained(),
    {
        let mut polled: Vec<XrEvent> = Vec::new();
        core::mem::swap(&mut self.pending, &mut polled);
        self.events = polled;
        if self.running {
            self.ask(RuntimeCall::WaitFrame)
        } else {
            self.ask(RuntimeCall::Nothing)
        }
    }

    fn on_released(&mut self, released: bool) -> (call: RuntimeCall)
        ensures
            (final(self)@, call) == old(self)@.on_released(released),
    {
        let rendered = match self.phase {
            FramePhase::ImageReady => released,
            _ => false,
        };
        if !rendered {
            self.layers = FrameLayers::Empty;
        }
        self.phase = FramePhase::Released;
        self.ask(
            RuntimeCall::EndFrame {
                display_time: self.frame_state.predicted_display_time,
                layers: self.layers,
            },
        )
    }

    /// Takes the outcome of the call that was asked for and returns the
    /// call to make next. An outcome of another call changes nothing and
    /// asks for nothing.
    pub fn step(&mut self, event: RuntimeEvent) -> (call: RuntimeCall)
        ensures
            (final(self)@, call) == old(self)@.on_outcome(event),
            old(self)@.consistent() ==> final(self)@.consistent(),
    {
        proof {
            if self@.consistent() {
                lemma_step_consistent(self@, PumpInput::Outcome(event));
            }
        }
        if self.exiting {
            return RuntimeCall::Nothing;
        }
        match self.outstanding {
            RuntimeCall::PollEvent => match event {
                RuntimeEvent::Polled(Some(polled)) => self.on_event(polled),
                RuntimeEvent::Polled(None) => self.on_drained(),
                _ => RuntimeCall::Nothing,
            },
            RuntimeCall::BeginSession => match event {
                RuntimeEvent::SessionBegun(begun) => {
                    self.running = self.running || begun;
                    self.ask(RuntimeCall::PollEvent)
                },
                _ => RuntimeCall::Nothing,
            },
            RuntimeCall::WaitFrame => match event {
                RuntimeEvent::FrameWaited(Some(frame_state)) => {
                    self.frame_state = frame_state;
                    self.phase = FramePhase::Waited;
                    self.ask(RuntimeCall::BeginFrame)
                },
                RuntimeEvent::FrameWaited(None) => self.ask(RuntimeCall::Nothing),
                _ => RuntimeCall::Nothing,
            },
            RuntimeCall::BeginFrame => match event {
                RuntimeEvent::FrameBegun(true) => {
                    self.phase = FramePhase::Begun;
                    self.ask(
                        RuntimeCall::LocateViews {
                            display_time: self.frame_state.predicted_display_time,
                        },
                    )
                },
                RuntimeEvent::FrameBegun(false) => {
                    self.phase = FramePhase::Idle;
                    self.ask(RuntimeCall::Nothing)
                },
                _ => RuntimeCall::Nothing,
            },
            RuntimeCall::LocateViews { .. } => match event {
                RuntimeEvent::ViewsLocated(Some(views)) => {
                    self.views = views;
                    self.ask(RuntimeCall::Nothing)
                },
                RuntimeEvent::ViewsLocated(None) => self.ask(RuntimeCall::Nothing),
                _ => RuntimeCall::Nothing,
            },
            RuntimeCall::AcquireImage => match event {
                RuntimeEvent::ImageAcquired(true) => {
                    self.phase = FramePhase::Acquired;
                    self.ask(RuntimeCall::WaitImage)
                },
                RuntimeEvent::ImageAcquired(false) => self.ask(RuntimeCall::Nothing),
                _ => RuntimeCall::Nothing,
            },
            RuntimeCall::WaitImage => match event {
                RuntimeEvent::ImageWaited(true) => {
                    self.phase = FramePhase::ImageReady;
                    self.ask(RuntimeCall::Nothing)
                },
                RuntimeEvent::ImageWaited(false) => self.ask(RuntimeCall::Nothing),
                _ => RuntimeCall::Nothing,
            },
            RuntimeCall::ReleaseImage => match event {
                RuntimeEvent::ImageReleased(released) => self.on_released(released),
                _ => RuntimeCall::Nothing,
            },
            RuntimeCall::EndFrame { .. } => match event {
                RuntimeEvent::FrameEnded(_) => {
                    self.phase = FramePhase::Ended;
                    self.ask(RuntimeCall::Nothing)
                },
                _ => RuntimeCall::Nothing,
            },
            _ => RuntimeCall::Nothing,
        }
    }
}

/// Starts a tick: the first stage polls the runtime's events, has the
/// session begun when it gets ready, and, for a running session, waits for
/// the frame, begins it and locates the views.
pub fn xr_begin_frame(pump: &mut FramePump) -> (call: RuntimeCall)
    ensures
        (final(pump)@, call) == old(pump)@.begin_tick(),
        old(pump)@.consistent() ==> final(pump)@.consistent(),
{
    proof {
        if pump@.consistent() {
            lemma_step_consistent(pump@, PumpInput::BeginTick);
        }
    }
    if pump.exiting {
        RuntimeCall::Nothing
    } else {
        pump.phase = FramePhase::Idle;
        pump.pending = Vec::new();
        pump.ask(RuntimeCall::PollEvent)
    }
}

/// Asks to locate the views once more, for the display time of the tick's
/// frame. Where locating fails the views stay as they were.
pub fn locate_views(pump: &mut FramePump) -> (call: RuntimeCall)
    ensures
        (final(pump)@, call) == old(pump)@.locate_views(),
        old(pump)@.consistent() ==> final(pump)@.consistent(),
{
    proof {
        if pump@.consistent() {
            lemma_step_consistent(pump@, PumpInput::LocateViews);
        }
    }
    if pump.exiting {
        return RuntimeCall::Nothing;
    }
    match pump.phase {
        FramePhase::Begun | FramePhase::Acquired | FramePhase::ImageReady => pump.ask(
            RuntimeCall::LocateViews { display_time: pump.frame_state.predicted_display_time },
        ),
        _ => RuntimeCall::Nothing,
    }
}

/// Starts the stage that gets the image to render to: acquire an image,
/// then wait until it is writable.
pub fn post_frame(pump: &mut FramePump) -> (call: RuntimeCall)
    ensures
        (final(pump)@, call) == old(pump)@.post_frame(),
        old(pump)@.consistent() ==> final(pump)@.consistent(),
{
    proof {
        if pump@.consistent() {
            lemma_step_consistent(pump@, PumpInput::PostFrame);
        }
    }
    if pump.exiting {
        return RuntimeCall::Nothing;
    }
    match pump.phase {
        FramePhase::Begun => pump.ask(RuntimeCall::AcquireImage),
        _ => RuntimeCall::Nothing,
    }
}

/// Starts the stage that hands the frame in: release the image, then end
/// the frame with the projection layer, over the passthrough layer where
/// one is given.
pub fn end_frame(pump: &mut FramePump, passthrough_layer: Option<XrPassthroughLayer>) -> (call:
    RuntimeCall)
    ensures
        (final(pump)@, call) == old(pump)@.end_frame(passthrough_layer),
        old(pump)@.consistent() ==> final(pump)@.consistent(),
{
    proof {
        if pump@.consistent() {
            lemma_step_consistent(pump@, PumpInput::EndFrame(passthrough_layer));
        }
    }
    if pump.exiting {
        return RuntimeCall::Nothing;
    }
    match pump.phase {
        FramePhase::Acquired | FramePhase::ImageReady => {
            pump.layers = match passthrough_layer {
                Some(layer) => FrameLayers::OverPassthrough(layer),
                None => FrameLayers::Projection,
            };
            pump.ask(RuntimeCall::ReleaseImage)
        },
        FramePhase::Begun => {
            pump.phase = FramePhase::Released;
            pump.layers = FrameLayers::Empty;
            pump.ask(
                RuntimeCall::EndFrame {
                    display_time: pump.frame_state.predicted_display_time,
                    layers: FrameLayers::Empty,
                },
            )
        },
        _ => RuntimeCall::Nothing,
    }
}

} // verus!
