//! What holds of the frame pump whatever it is put.
//!
//! The statements here are about [`PumpModel`], the model that every
//! function of the pump is specified by. A pump starts as
//! [`PumpModel::initial`] and changes by [`PumpModel::step`] only, so what
//! holds of every run of the model holds of every pump.

use vstd::prelude::*;
use crate::frame::{FramePhase, FrameState, PumpInput, PumpModel, RuntimeCall, RuntimeEvent};
use crate::passthrough::{FrameLayers, XrPassthroughLayer};
use crate::space::XrView;
use crate::session::{SessionState, XrEvent, legal_edge};

verus! {

impl PumpModel {
    /// What holds of a pump between any two inputs: the call it waits for
    /// fits how far the frame has come, frame work is under way only in a
    /// running session, and a session is begun only when it is ready and
    /// not yet running.
    pub open spec fn consistent(self) -> bool {
        &&& self.phase != FramePhase::Idle ==> self.running
        &&& self.outstanding.is_frame_call() ==> self.running
        &&& self.outstanding == RuntimeCall::BeginSession ==> !self.running && self.session
            == SessionState::Ready
        &&& self.outstanding == RuntimeCall::PollEvent ==> self.phase == FramePhase::Idle
        &&& self.outstanding == RuntimeCall::BeginSession ==> self.phase == FramePhase::Idle
        &&& self.outstanding == RuntimeCall::WaitFrame ==> self.phase == FramePhase::Idle
        &&& self.outstanding == RuntimeCall::BeginFrame ==> self.phase == FramePhase::Waited
        &&& self.outstanding == RuntimeCall::AcquireImage ==> self.phase == FramePhase::Begun
        &&& self.outstanding == RuntimeCall::WaitImage ==> self.phase == FramePhase::Acquired
        &&& self.outstanding == RuntimeCall::ReleaseImage ==> self.holds_image()
        &&& self.outstanding is EndFrame ==> self.phase == FramePhase::Released
        &&& self.outstanding is LocateViews ==> self.phase == FramePhase::Begun
            || self.holds_image()
        &&& self.outstanding == RuntimeCall::RequestExit ==> self.exiting
        &&& self.session.is_terminal() ==> self.exiting
        &&& self.phase == FramePhase::Waited ==> self.outstanding == RuntimeCall::BeginFrame
    }
}

/// A new pump is consistent.
pub proof fn lemma_initial_consistent()
    ensures
        PumpModel::initial().consistent(),
{
}

/// Every step keeps the pump consistent.
pub proof fn lemma_step_consistent(pump: PumpModel, input: PumpInput)
    requires
        pump.consistent(),
    ensures
        pump.step(input).0.consistent(),
{
}

/// Every run keeps the pump consistent.
pub proof fn lemma_run_consistent(pump: PumpModel, inputs: Seq<PumpInput>)
    requires
        pump.consistent(),
    ensures
        pump.run(inputs).consistent(),
    decreases inputs.len(),
{
    if inputs.len() > 0 {
        lemma_run_consistent(pump, inputs.drop_last());
        lemma_step_consistent(pump.run(inputs.drop_last()), inputs.last());
    }
}

/// The session's state changes only by a move the session can make.
pub proof fn lemma_moves_are_legal(pump: PumpModel, input: PumpInput)
    ensures
        pump.step(input).0.session == pump.session || legal_edge(
            pump.session,
            pump.step(input).0.session,
        ),
{
}

/// The session is begun only as it gets ready, once for each time it does,
/// and never while it is running: the pump asks for it in the very step
/// that takes the session to `Ready`, in answer to the event that reports
/// it, and only if the session is not running.
pub proof fn lemma_session_begun_on_ready(pump: PumpModel, input: PumpInput)
    requires
        pump.step(input).1 == RuntimeCall::BeginSession,
    ensures
        !pump.running,
        !pump.exiting,
        pump.step(input).0.session == SessionState::Ready,
        input matches PumpInput::Outcome(RuntimeEvent::Polled(Some(event))) && event
            == XrEvent::SessionStateChanged(SessionState::Ready),
{
}

/// A session that is running stays running, and is not begun again.
pub proof fn lemma_running_stays(pump: PumpModel, inputs: Seq<PumpInput>)
    requires
        pump.running,
    ensures
        pump.run(inputs).running,
        forall|k: int|
            0 <= k < inputs.len() ==> #[trigger] pump.calls(inputs)[k] != RuntimeCall::BeginSession,
    decreases inputs.len(),
{
    if inputs.len() > 0 {
        lemma_running_stays(pump, inputs.drop_last());
        assert forall|k: int| 0 <= k < inputs.len() implies #[trigger] pump.calls(inputs)[k]
            != RuntimeCall::BeginSession by {
            lemma_running_stays(pump, inputs.take(k));
        }
    }
}

/// Frame work is gated by the running flag: whatever the pump asks of the
/// frame or its image, it asks of a running session that has not been
/// told to exit.
pub proof fn lemma_frame_calls_need_running(pump: PumpModel, input: PumpInput)
    requires
        pump.consistent(),
        pump.step(input).1.is_frame_call(),
    ensures
        pump.running,
        !pump.exiting,
{
}

/// Polling an event that ends the session has the application exit.
pub proof fn lemma_fatal_event_exits(pump: PumpModel, event: XrEvent)
    requires
        pump.outstanding == RuntimeCall::PollEvent,
        !pump.exiting,
        event.is_fatal(),
    ensures
        pump.on_outcome(RuntimeEvent::Polled(Some(event))).0.exiting,
        pump.on_outcome(RuntimeEvent::Polled(Some(event))).1 == RuntimeCall::RequestExit,
{
}

/// Once the application was asked to exit, the pump asks for nothing more.
pub proof fn lemma_exit_is_final(pump: PumpModel, inputs: Seq<PumpInput>)
    requires
        pump.exiting,
    ensures
        pump.run(inputs).exiting,
        forall|k: int|
            0 <= k < inputs.len() ==> #[trigger] pump.calls(inputs)[k] == RuntimeCall::Nothing,
    decreases inputs.len(),
{
    if inputs.len() > 0 {
        lemma_exit_is_final(pump, inputs.drop_last());
        assert forall|k: int| 0 <= k < inputs.len() implies #[trigger] pump.calls(inputs)[k]
            == RuntimeCall::Nothing by {
            lemma_exit_is_final(pump, inputs.take(k));
        }
    }
}

/// A run in two parts: the pump after the first part runs the second.
pub proof fn lemma_run_split(pump: PumpModel, inputs: Seq<PumpInput>, at: int)
    requires
        0 <= at <= inputs.len(),
    ensures
        pump.run(inputs) == pump.run(inputs.take(at)).run(inputs.skip(at)),
    decreases inputs.len() - at,
{
    if at == inputs.len() {
        assert(inputs.take(at) =~= inputs);
        assert(inputs.skip(at) =~= Seq::<PumpInput>::empty());
    } else {
        lemma_run_split(pump, inputs.drop_last(), at);
        assert(inputs.drop_last().take(at) =~= inputs.take(at));
        assert(inputs.drop_last().skip(at) =~= inputs.skip(at).drop_last());
        assert(inputs.skip(at).last() == inputs.last());
    }
}

/// After an event that ends the session is polled, no call on the frame or
/// its image follows, in the same tick or in any later one.
///
/// The event is the input at `polled`, put to a pump that had asked for a
/// poll; `later` is any input after it. The pump asks for nothing there.
pub proof fn lemma_no_frame_work_after_exit(
    pump: PumpModel,
    inputs: Seq<PumpInput>,
    polled: int,
    later: int,
)
    requires
        0 <= polled < later < inputs.len(),
        pump.run(inputs.take(polled)).outstanding == RuntimeCall::PollEvent,
        inputs[polled] matches PumpInput::Outcome(RuntimeEvent::Polled(Some(event)))
            && event.is_fatal(),
    ensures
        pump.calls(inputs)[later] == RuntimeCall::Nothing,
        !pump.calls(inputs)[later].is_frame_call(),
{
    let before = pump.run(inputs.take(polled));
    let after = before.step(inputs[polled]).0;
    assert(after.exiting);
    let upto = inputs.take(later);
    assert(upto.take(polled + 1).drop_last() =~= inputs.take(polled));
    assert(upto.take(polled + 1).last() == inputs[polled]);
    assert(pump.run(upto.take(polled + 1)) == after);
    lemma_run_split(pump, upto, polled + 1);
    lemma_exit_is_final(after, upto.skip(polled + 1));
}

/// A tick whose frame work was skipped stays skipped: while the pump has
/// no frame and waits for nothing, it asks for nothing until the next tick
/// starts.
pub proof fn lemma_skipped_tick_stays_skipped(pump: PumpModel, inputs: Seq<PumpInput>)
    requires
        pump.phase == FramePhase::Idle,
        pump.outstanding == RuntimeCall::Nothing,
        forall|k: int| 0 <= k < inputs.len() ==> !(#[trigger] inputs[k] is BeginTick),
    ensures
        pump.run(inputs).phase == FramePhase::Idle,
        pump.run(inputs).outstanding == RuntimeCall::Nothing,
        forall|k: int|
            0 <= k < inputs.len() ==> #[trigger] pump.calls(inputs)[k] == RuntimeCall::Nothing,
    decreases inputs.len(),
{
    if inputs.len() > 0 {
        lemma_skipped_tick_stays_skipped(pump, inputs.drop_last());
        assert forall|k: int| 0 <= k < inputs.len() implies #[trigger] pump.calls(inputs)[k]
            == RuntimeCall::Nothing by {
            lemma_skipped_tick_stays_skipped(pump, inputs.take(k));
        }
    }
}

/// A failed wait skips the tick's frame work: the pump has no frame and
/// waits for nothing.
pub proof fn lemma_failed_wait_skips(pump: PumpModel)
    requires
        pump.consistent(),
        !pump.exiting,
        pump.outstanding == RuntimeCall::WaitFrame,
    ensures
        pump.on_outcome(RuntimeEvent::FrameWaited(None)).1 == RuntimeCall::Nothing,
        pump.on_outcome(RuntimeEvent::FrameWaited(None)).0.phase == FramePhase::Idle,
        pump.on_outcome(RuntimeEvent::FrameWaited(None)).0.outstanding == RuntimeCall::Nothing,
{
}

/// An image is released once for each time one was acquired, and before
/// the frame is ended: the pump asks for the release only while an image
/// is held, holds none once the release is answered, and asks to end the
/// frame only when none is held.
pub proof fn lemma_image_released_before_end(pump: PumpModel, input: PumpInput)
    requires
        pump.consistent(),
    ensures
        pump.step(input).1 == RuntimeCall::ReleaseImage ==> pump.holds_image(),
        pump.step(input).1 is EndFrame ==> !pump.step(input).0.holds_image(),
        pump.outstanding == RuntimeCall::ReleaseImage && !pump.exiting && (
        input matches PumpInput::Outcome(RuntimeEvent::ImageReleased(_))) ==> !pump.step(
            input,
        ).0.holds_image(),
        pump.step(input).0.holds_image() && !pump.holds_image() ==> (
        input matches PumpInput::Outcome(RuntimeEvent::ImageAcquired(true))),
{
}

/// A frame is ended with layers only if it was rendered: the image was
/// writable and has been released.
pub proof fn lemma_layers_only_when_rendered(pump: PumpModel, input: PumpInput)
    requires
        pump.step(input).1 matches RuntimeCall::EndFrame { layers, .. } && layers
            != FrameLayers::Empty,
    ensures
        pump.phase == FramePhase::ImageReady,
        input == PumpInput::Outcome(RuntimeEvent::ImageReleased(true)),
{
}

/// What is put to the pump in a tick in which every call succeeds: the
/// start of the tick, an empty event queue, the frame state that the wait
/// returns, the begun frame, the located views; then the stage that gets
/// the image, with the image acquired and writable; then the stage that
/// hands the frame in, with the image released and the frame ended.
pub open spec fn smooth_tick(
    frame_state: FrameState,
    views: Vec<XrView>,
    passthrough: Option<XrPassthroughLayer>,
) -> Seq<PumpInput> {
    seq![
        PumpInput::BeginTick,
        PumpInput::Outcome(RuntimeEvent::Polled(None)),
        PumpInput::Outcome(RuntimeEvent::FrameWaited(Some(frame_state))),
        PumpInput::Outcome(RuntimeEvent::FrameBegun(true)),
        PumpInput::Outcome(RuntimeEvent::ViewsLocated(Some(views))),
        PumpInput::PostFrame,
        PumpInput::Outcome(RuntimeEvent::ImageAcquired(true)),
        PumpInput::Outcome(RuntimeEvent::ImageWaited(true)),
        PumpInput::EndFrame(passthrough),
        PumpInput::Outcome(RuntimeEvent::ImageReleased(true)),
        PumpInput::Outcome(RuntimeEvent::FrameEnded(true)),
    ]
}

/// The handshake of a frame, in its order: in a tick of a running session
/// in which every call succeeds, the pump asks to poll, to wait for the
/// frame, to begin it, to locate the views for the frame's display time,
/// to acquire an image, to wait for it, to release it, and to end the
/// frame for the same display time, with the projection layer over the
/// passthrough layer where there is one. Nothing else is asked for, and
/// the frame is ended when the tick is over.
pub proof fn lemma_smooth_tick(
    pump: PumpModel,
    frame_state: FrameState,
    views: Vec<XrView>,
    passthrough: Option<XrPassthroughLayer>,
)
    requires
        pump.running,
        !pump.exiting,
    ensures
        pump.calls(smooth_tick(frame_state, views, passthrough)) == seq![
            RuntimeCall::PollEvent,
            RuntimeCall::WaitFrame,
            RuntimeCall::BeginFrame,
            RuntimeCall::LocateViews { display_time: frame_state.predicted_display_time },
            RuntimeCall::Nothing,
            RuntimeCall::AcquireImage,
            RuntimeCall::WaitImage,
            RuntimeCall::Nothing,
            RuntimeCall::ReleaseImage,
            RuntimeCall::EndFrame {
                display_time: frame_state.predicted_display_time,
                layers: FrameLayers::rendered(passthrough),
            },
            RuntimeCall::Nothing,
        ],
        pump.run(smooth_tick(frame_state, views, passthrough)).phase == FramePhase::Ended,
        pump.run(smooth_tick(frame_state, views, passthrough)).views == views@,
        pump.run(smooth_tick(frame_state, views, passthrough)).frame_state == frame_state,
{
    let inputs = smooth_tick(frame_state, views, passthrough);
    let time = frame_state.predicted_display_time;
    let layers = FrameLayers::rendered(passthrough);
    assert(inputs.take(0) =~= Seq::<PumpInput>::empty());
    let s0 = pump.run(inputs.take(0));
    assert(s0 == pump);

    lemma_run_one_more(pump, inputs, 0);
    let s1 = pump.run(inputs.take(1));
    assert(inputs[0] == PumpInput::BeginTick);
    assert(s0.step(inputs[0]) == s0.begin_tick());
    assert(s0.step(inputs[0]).1 == RuntimeCall::PollEvent);
    assert(s1.running && !s1.exiting && s1.outstanding == RuntimeCall::PollEvent);

    lemma_run_one_more(pump, inputs, 1);
    let s2 = pump.run(inputs.take(2));
    assert(inputs[1] == PumpInput::Outcome(RuntimeEvent::Polled(None)));
    assert(s1.step(inputs[1]) == s1.on_drained());
    assert(s1.step(inputs[1]).1 == RuntimeCall::WaitFrame);
    assert(s2.running && !s2.exiting && s2.outstanding == RuntimeCall::WaitFrame);

    lemma_run_one_more(pump, inputs, 2);
    let s3 = pump.run(inputs.take(3));
    assert(inputs[2] == PumpInput::Outcome(RuntimeEvent::FrameWaited(Some(frame_state))));
    assert(s2.step(inputs[2]).1 == RuntimeCall::BeginFrame);
    assert(s3.running && !s3.exiting && s3.outstanding == RuntimeCall::BeginFrame);
    assert(s3.frame_state == frame_state);

    lemma_run_one_more(pump, inputs, 3);
    let s4 = pump.run(inputs.take(4));
    assert(inputs[3] == PumpInput::Outcome(RuntimeEvent::FrameBegun(true)));
    assert(s3.step(inputs[3]).1 == RuntimeCall::LocateViews { display_time: time });
    assert(!s4.exiting && s4.outstanding == RuntimeCall::LocateViews { display_time: time });
    assert(s4.phase == FramePhase::Begun && s4.frame_state == frame_state);

    lemma_run_one_more(pump, inputs, 4);
    let s5 = pump.run(inputs.take(5));
    assert(inputs[4] == PumpInput::Outcome(RuntimeEvent::ViewsLocated(Some(views))));
    assert(s4.step(inputs[4]).1 == RuntimeCall::Nothing);
    assert(!s5.exiting && s5.phase == FramePhase::Begun && s5.frame_state == frame_state);
    assert(s5.views == views@);

    lemma_run_one_more(pump, inputs, 5);
    let s6 = pump.run(inputs.take(6));
    assert(inputs[5] == PumpInput::PostFrame);
    assert(s5.step(inputs[5]) == s5.post_frame());
    assert(s5.step(inputs[5]).1 == RuntimeCall::AcquireImage);
    assert(!s6.exiting && s6.outstanding == RuntimeCall::AcquireImage);
    assert(s6.phase == FramePhase::Begun && s6.frame_state == frame_state && s6.views == views@);

    lemma_run_one_more(pump, inputs, 6);
    let s7 = pump.run(inputs.take(7));
    assert(inputs[6] == PumpInput::Outcome(RuntimeEvent::ImageAcquired(true)));
    assert(s6.step(inputs[6]).1 == RuntimeCall::WaitImage);
    assert(!s7.exiting && s7.outstanding == RuntimeCall::WaitImage);
    assert(s7.phase == FramePhase::Acquired && s7.frame_state == frame_state && s7.views
        == views@);

    lemma_run_one_more(pump, inputs, 7);
    let s8 = pump.run(inputs.take(8));
    assert(inputs[7] == PumpInput::Outcome(RuntimeEvent::ImageWaited(true)));
    assert(s7.step(inputs[7]).1 == RuntimeCall::Nothing);
    assert(!s8.exiting && s8.phase == FramePhase::ImageReady);
    assert(s8.frame_state == frame_state && s8.views == views@);

    lemma_run_one_more(pump, inputs, 8);
    let s9 = pump.run(inputs.take(9));
    assert(inputs[8] == PumpInput::EndFrame(passthrough));
    assert(s8.step(inputs[8]) == s8.end_frame(passthrough));
    assert(s8.step(inputs[8]).1 == RuntimeCall::ReleaseImage);
    assert(!s9.exiting && s9.outstanding == RuntimeCall::ReleaseImage);
    assert(s9.phase == FramePhase::ImageReady && s9.layers == layers);
    assert(s9.frame_state == frame_state && s9.views == views@);

    lemma_run_one_more(pump, inputs, 9);
    let s10 = pump.run(inputs.take(10));
    assert(inputs[9] == PumpInput::Outcome(RuntimeEvent::ImageReleased(true)));
    assert(s9.step(inputs[9]) == s9.on_released(true));
    assert(s9.step(inputs[9]).1 == RuntimeCall::EndFrame { display_time: time, layers });
    assert(!s10.exiting && s10.outstanding == RuntimeCall::EndFrame { display_time: time, layers });
    assert(s10.frame_state == frame_state && s10.views == views@);

    lemma_run_one_more(pump, inputs, 10);
    let s11 = pump.run(inputs.take(11));
    assert(inputs[10] == PumpInput::Outcome(RuntimeEvent::FrameEnded(true)));
    assert(s10.step(inputs[10]).1 == RuntimeCall::Nothing);
    assert(s11.phase == FramePhase::Ended);
    assert(s11.frame_state == frame_state && s11.views == views@);
    assert(inputs.take(11) =~= inputs);

    let asked = pump.calls(inputs);
    assert(asked.len() == 11);
    assert(asked[0] == s0.step(inputs[0]).1);
    assert(asked[1] == s1.step(inputs[1]).1);
    assert(asked[2] == s2.step(inputs[2]).1);
    assert(asked[3] == s3.step(inputs[3]).1);
    assert(asked[4] == s4.step(inputs[4]).1);
    assert(asked[5] == s5.step(inputs[5]).1);
    assert(asked[6] == s6.step(inputs[6]).1);
    assert(asked[7] == s7.step(inputs[7]).1);
    assert(asked[8] == s8.step(inputs[8]).1);
    assert(asked[9] == s9.step(inputs[9]).1);
    assert(asked[10] == s10.step(inputs[10]).1);
    assert(asked =~= seq![
        RuntimeCall::PollEvent,
        RuntimeCall::WaitFrame,
        RuntimeCall::BeginFrame,
        RuntimeCall::LocateViews { display_time: time },
        RuntimeCall::Nothing,
        RuntimeCall::AcquireImage,
        RuntimeCall::WaitImage,
        RuntimeCall::Nothing,
        RuntimeCall::ReleaseImage,
        RuntimeCall::EndFrame { display_time: time, layers },
        RuntimeCall::Nothing,
    ]);
}

/// The pump after the first `k + 1` inputs is the pump after the first
/// `k`, put the input at `k`.
pub proof fn lemma_run_one_more(pump: PumpModel, inputs: Seq<PumpInput>, k: int)
    requires
        0 <= k < inputs.len(),
    ensures
        pump.run(inputs.take(k + 1)) == pump.run(inputs.take(k)).step(inputs[k]).0,
{
    assert(inputs.take(k + 1).drop_last() =~= inputs.take(k));
    assert(inputs.take(k + 1).last() == inputs[k]);
}

/// What is put to the pump in a tick in which the runtime reports that the
/// session is ready and nothing else: the start of the tick, the report,
/// the begun session, an empty event queue.
pub open spec fn ready_tick() -> Seq<PumpInput> {
    seq![
        PumpInput::BeginTick,
        PumpInput::Outcome(
            RuntimeEvent::Polled(Some(XrEvent::SessionStateChanged(SessionState::Ready))),
        ),
        PumpInput::Outcome(RuntimeEvent::SessionBegun(true)),
        PumpInput::Outcome(RuntimeEvent::Polled(None)),
    ]
}

/// A session that is not running is begun when the runtime reports it
/// ready, whatever state it was in before: in a tick that polls this one
/// report, the pump asks to poll, to begin the session, to poll again, and
/// only then to wait for the frame. The session is begun once and is
/// running when the wait is asked for.
pub proof fn lemma_ready_begins_the_session(pump: PumpModel)
    requires
        pump.consistent(),
        !pump.running,
        !pump.exiting,
    ensures
        pump.calls(ready_tick()) == seq![
            RuntimeCall::PollEvent,
            RuntimeCall::BeginSession,
            RuntimeCall::PollEvent,
            RuntimeCall::WaitFrame,
        ],
        pump.run(ready_tick()).running,
        pump.run(ready_tick()).session == SessionState::Ready,
        !pump.run(ready_tick()).exiting,
{
    let inputs = ready_tick();
    assert(inputs.take(0) =~= Seq::<PumpInput>::empty());
    let s0 = pump.run(inputs.take(0));
    assert(s0 == pump);

    lemma_run_one_more(pump, inputs, 0);
    let s1 = pump.run(inputs.take(1));
    assert(s0.step(inputs[0]) == s0.begin_tick());
    assert(s0.step(inputs[0]).1 == RuntimeCall::PollEvent);
    assert(!s1.running && !s1.exiting && s1.outstanding == RuntimeCall::PollEvent);
    assert(!s1.session.is_terminal());

    lemma_run_one_more(pump, inputs, 1);
    let s2 = pump.run(inputs.take(2));
    assert(s1.step(inputs[1]) == s1.on_event(XrEvent::SessionStateChanged(SessionState::Ready)));
    assert(legal_edge(s1.session, SessionState::Ready));
    assert(s1.step(inputs[1]).1 == RuntimeCall::BeginSession);
    assert(!s2.running && !s2.exiting && s2.outstanding == RuntimeCall::BeginSession);
    assert(s2.session == SessionState::Ready);

    lemma_run_one_more(pump, inputs, 2);
    let s3 = pump.run(inputs.take(3));
    assert(s2.step(inputs[2]).1 == RuntimeCall::PollEvent);
    assert(s3.running && !s3.exiting && s3.outstanding == RuntimeCall::PollEvent);
    assert(s3.session == SessionState::Ready);

    lemma_run_one_more(pump, inputs, 3);
    let s4 = pump.run(inputs.take(4));
    assert(s3.step(inputs[3]) == s3.on_drained());
    assert(s3.step(inputs[3]).1 == RuntimeCall::WaitFrame);
    assert(s4.running && !s4.exiting && s4.session == SessionState::Ready);
    assert(inputs.take(4) =~= inputs);

    let asked = pump.calls(inputs);
    assert(asked[0] == s0.step(inputs[0]).1);
    assert(asked[1] == s1.step(inputs[1]).1);
    assert(asked[2] == s2.step(inputs[2]).1);
    assert(asked[3] == s3.step(inputs[3]).1);
    assert(asked =~= seq![
        RuntimeCall::PollEvent,
        RuntimeCall::BeginSession,
        RuntimeCall::PollEvent,
        RuntimeCall::WaitFrame,
    ]);
}

/// What is put to the pump in a tick in which the runtime reports that the
/// session is ready and then that it is exiting: the start of the tick,
/// the first report, the begun session, the second report.
pub open spec fn ready_then_exiting_tick() -> Seq<PumpInput> {
    seq![
        PumpInput::BeginTick,
        PumpInput::Outcome(
            RuntimeEvent::Polled(Some(XrEvent::SessionStateChanged(SessionState::Ready))),
        ),
        PumpInput::Outcome(RuntimeEvent::SessionBegun(true)),
        PumpInput::Outcome(
            RuntimeEvent::Polled(Some(XrEvent::SessionStateChanged(SessionState::Exiting))),
        ),
    ]
}

/// A session that gets ready and exits in one tick is begun and then let
/// go: the pump asks to poll, to begin the session, to poll again, and for
/// the application to exit. That is two polls, one begin and one exit; the
/// session is running, and neither a wait nor any other call on the frame
/// is asked for, in this tick or, the pump being told to exit, ever after.
pub proof fn lemma_ready_then_exiting(pump: PumpModel)
    requires
        pump.consistent(),
        !pump.running,
        !pump.exiting,
    ensures
        pump.calls(ready_then_exiting_tick()) == seq![
            RuntimeCall::PollEvent,
            RuntimeCall::BeginSession,
            RuntimeCall::PollEvent,
            RuntimeCall::RequestExit,
        ],
        pump.run(ready_then_exiting_tick()).running,
        pump.run(ready_then_exiting_tick()).exiting,
{
    let inputs = ready_then_exiting_tick();
    assert(inputs.take(0) =~= Seq::<PumpInput>::empty());
    let s0 = pump.run(inputs.take(0));
    assert(s0 == pump);

    lemma_run_one_more(pump, inputs, 0);
    let s1 = pump.run(inputs.take(1));
    assert(s0.step(inputs[0]) == s0.begin_tick());
    assert(s0.step(inputs[0]).1 == RuntimeCall::PollEvent);
    assert(!s1.running && !s1.exiting && s1.outstanding == RuntimeCall::PollEvent);
    assert(!s1.session.is_terminal());

    lemma_run_one_more(pump, inputs, 1);
    let s2 = pump.run(inputs.take(2));
    assert(s1.step(inputs[1]) == s1.on_event(XrEvent::SessionStateChanged(SessionState::Ready)));
    assert(legal_edge(s1.session, SessionState::Ready));
    assert(s1.step(inputs[1]).1 == RuntimeCall::BeginSession);
    assert(!s2.running && !s2.exiting && s2.outstanding == RuntimeCall::BeginSession);

    lemma_run_one_more(pump, inputs, 2);
    let s3 = pump.run(inputs.take(3));
    assert(s2.step(inputs[2]).1 == RuntimeCall::PollEvent);
    assert(s3.running && !s3.exiting && s3.outstanding == RuntimeCall::PollEvent);

    lemma_run_one_more(pump, inputs, 3);
    let s4 = pump.run(inputs.take(4));
    assert(s3.step(inputs[3]) == s3.on_event(
        XrEvent::SessionStateChanged(SessionState::Exiting),
    ));
    assert(s3.step(inputs[3]).1 == RuntimeCall::RequestExit);
    assert(s4.running && s4.exiting);
    assert(inputs.take(4) =~= inputs);

    let asked = pump.calls(inputs);
    assert(asked[0] == s0.step(inputs[0]).1);
    assert(asked[1] == s1.step(inputs[1]).1);
    assert(asked[2] == s2.step(inputs[2]).1);
    assert(asked[3] == s3.step(inputs[3]).1);
    assert(asked =~= seq![
        RuntimeCall::PollEvent,
        RuntimeCall::BeginSession,
        RuntimeCall::PollEvent,
        RuntimeCall::RequestExit,
    ]);
}

/// The report that the session is ready.
pub open spec fn ready_report() -> XrEvent {
    XrEvent::SessionStateChanged(SessionState::Ready)
}

/// The pump after the events of a tick are polled one by one and each is
/// answered as it comes: where the pump asks for the session to be begun,
/// the session is begun before the next event is polled.
pub open spec fn after_polling(pump: PumpModel, events: Seq<XrEvent>) -> PumpModel
    decreases events.len(),
{
    if events.len() == 0 {
        pump
    } else {
        let before = after_polling(pump, events.drop_last());
        let polled = before.on_outcome(RuntimeEvent::Polled(Some(events.last())));
        if polled.1 == RuntimeCall::BeginSession {
            polled.0.on_outcome(RuntimeEvent::SessionBegun(true)).0
        } else {
            polled.0
        }
    }
}

/// How often the pump asks for the session to be begun while these events
/// are polled.
pub open spec fn begins_while_polling(pump: PumpModel, events: Seq<XrEvent>) -> nat
    decreases events.len(),
{
    if events.len() == 0 {
        0
    } else {
        let before = after_polling(pump, events.drop_last());
        let asked = before.on_outcome(RuntimeEvent::Polled(Some(events.last()))).1;
        begins_while_polling(pump, events.drop_last()) + (if asked == RuntimeCall::BeginSession {
            1nat
        } else {
            0nat
        })
    }
}

/// Whatever else the runtime reports in a tick, as long as nothing ends
/// the session: a session that is not running is begun exactly once if
/// one of the reports is that it is ready, and not at all if none is; a
/// running session is not begun again. Afterwards the session is running
/// exactly if it was before or has got ready, and on the empty queue the
/// pump asks to wait for the frame exactly if the session is running: the
/// begin comes before the wait.
pub proof fn lemma_begun_once_when_ready(pump: PumpModel, events: Seq<XrEvent>)
    requires
        pump.consistent(),
        !pump.exiting,
        pump.outstanding == RuntimeCall::PollEvent,
        forall|i: int| 0 <= i < events.len() ==> !(#[trigger] events[i]).is_fatal(),
    ensures
        after_polling(pump, events).consistent(),
        !after_polling(pump, events).exiting,
        after_polling(pump, events).outstanding == RuntimeCall::PollEvent,
        after_polling(pump, events).running == (pump.running || events.contains(ready_report())),
        begins_while_polling(pump, events) == (if !pump.running && events.contains(
            ready_report(),
        ) {
            1nat
        } else {
            0nat
        }),
        after_polling(pump, events).on_outcome(RuntimeEvent::Polled(None)).1 == (if pump.running
            || events.contains(ready_report()) {
            RuntimeCall::WaitFrame
        } else {
            RuntimeCall::Nothing
        }),
    decreases events.len(),
{
    if events.len() == 0 {
        assert(!events.contains(ready_report()));
    } else {
        let earlier = events.drop_last();
        let last = events.last();
        assert forall|i: int| 0 <= i < earlier.len() implies !(#[trigger] earlier[i]).is_fatal() by {
            assert(earlier[i] == events[i]);
        }
        lemma_begun_once_when_ready(pump, earlier);
        let before = after_polling(pump, earlier);
        lemma_step_consistent(before, PumpInput::Outcome(RuntimeEvent::Polled(Some(last))));
        let polled = before.on_outcome(RuntimeEvent::Polled(Some(last)));
        assert(!last.is_fatal());
        assert(polled == before.on_event(last));
        if polled.1 == RuntimeCall::BeginSession {
            lemma_step_consistent(polled.0, PumpInput::Outcome(RuntimeEvent::SessionBegun(true)));
            assert(last == ready_report());
        }
        assert(events.contains(ready_report()) == (earlier.contains(ready_report()) || last
            == ready_report())) by {
            if earlier.contains(ready_report()) {
                let i = earlier.index_of(ready_report());
                assert(events[i] == ready_report());
            }
            if last == ready_report() {
                assert(events[events.len() - 1] == ready_report());
            }
            if events.contains(ready_report()) {
                let i = events.index_of(ready_report());
                if i < events.len() - 1 {
                    assert(earlier[i] == ready_report());
                }
            }
        }
        if last == ready_report() {
            assert(legal_edge(before.session, SessionState::Ready));
        }
    }
}

} // verus!
