//! The view that draws a stream of browser frames.
//!
//! Rendering alternates between work that only the host can do (pumping the
//! engine, asking it for a frame, drawing) and decisions about what comes next.
//! The decisions are here: the host performs the action it is given and reports
//! back with an event.

use vstd::prelude::*;

use crate::blit::{PassPlan, blit_layout, clear_pass, clear_target};
use crate::frame::{BrowserFrame, ShmFrame};
use crate::gpu::{
    DmaBufShape, FrameOp, GpuState, GpuStateView, frame_ops, frame_source, frame_view, ops_view,
};

verus! {

/// Where a render is.
#[derive(Debug, Clone, Copy, PartialEq, Eq, Structural)]
pub enum RenderPhase {
    /// No render is going on.
    Idle,
    /// The engine is drained.
    Pumping,
    /// The engine is told the size of the target.
    Resizing,
    /// The source is asked for a frame, because none is pending.
    Taking,
    /// The pending frame is asked whether it is finished.
    Polling,
    /// The target is cleared, because there is no frame.
    Clearing,
    /// A frame is drawn.
    Drawing,
    /// The source is asked for a next frame.
    Following,
}

/// What the host reports.
pub enum RenderEvent<F> {
    /// A render starts.
    Begin,
    /// The engine was drained.
    Pumped,
    /// The engine was told the size of the target.
    Resized,
    /// What the source had to give.
    Taken(Option<F>),
    /// Whether the pending frame is finished.
    Readiness(bool),
    /// The target was cleared.
    Cleared,
    /// The frame was drawn.
    Drawn,
}

/// What the host has to do next.
pub enum RenderAction<F> {
    /// Drain the engine's work.
    Pump,
    /// Tell the engine the size of the target.
    Resize,
    /// Ask the source for its newest frame.
    TakeFrame,
    /// Ask the pending frame whether it is finished.
    PollReadiness,
    /// Clear the target with this pass.
    ClearTarget(PassPlan),
    /// Draw this frame.
    Draw(F),
    /// The render is over.
    Finish {
        /// Whether the host has to render again.
        redraw: bool,
    },
}

/// GPU view that composites a Linux browser frame stream without CPU readback.
#[derive(Debug)]
pub struct BrowserGpuView<S, F> {
    source: S,
    gpu: Option<GpuState>,
    pending_frame: Option<F>,
    phase: RenderPhase,
}

/// What a view stands for.
#[verifier::ext_equal]
pub struct BrowserViewState<S, F> {
    /// Where the frames come from.
    pub source: S,
    /// The GPU side, once it is set up.
    pub gpu: Option<GpuStateView>,
    /// The frame that waits to be drawn.
    pub pending: Option<F>,
    /// Where the render is.
    pub phase: RenderPhase,
}

impl<S, F> View for BrowserGpuView<S, F> {
    type V = BrowserViewState<S, F>;

    closed spec fn view(&self) -> BrowserViewState<S, F> {
        BrowserViewState {
            source: self.source,
            gpu: match self.gpu {
                Some(gpu) => Some(gpu@),
                None => None,
            },
            pending: self.pending_frame,
            phase: self.phase,
        }
    }
}

/// Whether a frame can be pending in this phase: while it is polled one is,
/// while one is asked for or drawn none is.
pub open spec fn phase_fits<F>(phase: RenderPhase, pending: Option<F>) -> bool {
    match phase {
        RenderPhase::Idle | RenderPhase::Pumping | RenderPhase::Resizing => true,
        RenderPhase::Polling => pending is Some,
        RenderPhase::Taking | RenderPhase::Clearing | RenderPhase::Drawing
        | RenderPhase::Following => pending is None,
    }
}

/// Whether this is an event for the phase: the one that it waits for, or the start
/// of a render. A render that was cut short is begun anew.
pub open spec fn phase_expects<F>(phase: RenderPhase, event: RenderEvent<F>) -> bool {
    event is Begin || match phase {
        RenderPhase::Idle => false,
        RenderPhase::Pumping => event is Pumped,
        RenderPhase::Resizing => event is Resized,
        RenderPhase::Taking => event is Taken,
        RenderPhase::Polling => event is Readiness,
        RenderPhase::Clearing => event is Cleared,
        RenderPhase::Drawing => event is Drawn,
        RenderPhase::Following => event is Taken,
    }
}

/// One decision: the pending frame and the phase after an event, and what the
/// host has to do.
pub open spec fn render_step<F>(
    phase: RenderPhase,
    pending: Option<F>,
    event: RenderEvent<F>,
) -> (RenderPhase, Option<F>, RenderAction<F>) {
    match (phase, event) {
        (_, RenderEvent::Begin) => (
            RenderPhase::Pumping,
            pending,
            RenderAction::Pump,
        ),
        (RenderPhase::Pumping, RenderEvent::Pumped) => (
            RenderPhase::Resizing,
            pending,
            RenderAction::Resize,
        ),
        (RenderPhase::Resizing, RenderEvent::Resized) => if pending is None {
            (RenderPhase::Taking, pending, RenderAction::TakeFrame)
        } else {
            (RenderPhase::Polling, pending, RenderAction::PollReadiness)
        },
        (RenderPhase::Taking, RenderEvent::Taken(Some(frame))) => (
            RenderPhase::Polling,
            Some(frame),
            RenderAction::PollReadiness,
        ),
        (RenderPhase::Taking, RenderEvent::Taken(None)) => (
            RenderPhase::Clearing,
            None,
            RenderAction::ClearTarget(clear_pass()),
        ),
        (RenderPhase::Polling, RenderEvent::Readiness(true)) => (
            RenderPhase::Drawing,
            None,
            RenderAction::Draw(pending->0),
        ),
        (RenderPhase::Polling, RenderEvent::Readiness(false)) => (
            RenderPhase::Idle,
            pending,
            RenderAction::Finish { redraw: true },
        ),
        (RenderPhase::Clearing, RenderEvent::Cleared) => (
            RenderPhase::Idle,
            pending,
            RenderAction::Finish { redraw: true },
        ),
        (RenderPhase::Drawing, RenderEvent::Drawn) => (
            RenderPhase::Following,
            pending,
            RenderAction::TakeFrame,
        ),
        (RenderPhase::Following, RenderEvent::Taken(next)) => (
            RenderPhase::Idle,
            next,
            RenderAction::Finish { redraw: next is Some },
        ),
        // No phase waits for any other event.
        _ => (phase, pending, RenderAction::Finish { redraw: false }),
    }
}

impl<S, F> BrowserViewState<S, F> {
    /// Whether the pending frame and the phase fit together.
    pub open spec fn wf(self) -> bool {
        phase_fits(self.phase, self.pending)
    }
}

impl<S, F> BrowserGpuView<S, F> {
    /// Creates a renderer for `source`.
    #[must_use]
    pub fn new(source: S) -> (view: Self)
        ensures
            view@ == (BrowserViewState::<S, F> {
                source,
                gpu: None,
                pending: None,
                phase: RenderPhase::Idle,
            }),
            view@.wf(),
    {
        BrowserGpuView { source, gpu: None, pending_frame: None, phase: RenderPhase::Idle }
    }

    /// Returns the frame source.
    #[must_use]
    pub fn source(&self) -> (source: &S)
        ensures
            *source == self@.source,
    {
        &self.source
    }

    /// The frame that waits to be drawn.
    #[must_use]
    pub fn pending_frame(&self) -> (pending: Option<&F>)
        ensures
            match (pending, self@.pending) {
                (Some(shown), Some(held)) => *shown == held,
                (None, None) => true,
                _ => false,
            },
    {
        self.pending_frame.as_ref()
    }

    /// The GPU side of the view, once it is set up.
    #[must_use]
    pub fn gpu(&self) -> (gpu: Option<&GpuState>)
        ensures
            match (gpu, self@.gpu) {
                (Some(shown), Some(held)) => shown@ == held,
                (None, None) => true,
                _ => false,
            },
    {
        self.gpu.as_ref()
    }

    /// Sets the view up for a surface of this format.
    ///
    /// It may run again after the GPU device was lost: what was made on the old
    /// device is forgotten, a pending frame is kept.
    pub fn setup(&mut self, surface_format: wgpu::TextureFormat)
        ensures
            final(self)@ == (BrowserViewState::<S, F> {
                gpu: Some(
                    GpuStateView {
                        target_format: surface_format,
                        layout: blit_layout(),
                        source: None,
                    },
                ),
                ..old(self)@
            }),
    {
        self.gpu = Some(GpuState::create_gpu_state(surface_format));
    }

    /// Takes an event of a render and says what the host has to do next.
    pub fn render(&mut self, event: RenderEvent<F>) -> (action: RenderAction<F>)
        requires
            old(self)@.wf(),
            phase_expects(old(self)@.phase, event),
        ensures
            ({
                let (phase, pending, next) = render_step(old(self)@.phase, old(self)@.pending, event);
                &&& action == next
                &&& final(self)@ == (BrowserViewState::<S, F> { phase, pending, ..old(self)@ })
                &&& final(self)@.wf()
            }),
    {
        match event {
            RenderEvent::Begin => {
                self.phase = RenderPhase::Pumping;
                RenderAction::Pump
            },
            RenderEvent::Pumped => {
                self.phase = RenderPhase::Resizing;
                RenderAction::Resize
            },
            RenderEvent::Resized => {
                if self.pending_frame.is_none() {
                    self.phase = RenderPhase::Taking;
                    RenderAction::TakeFrame
                } else {
                    self.phase = RenderPhase::Polling;
                    RenderAction::PollReadiness
                }
            },
            RenderEvent::Taken(taken) => {
                let found = taken.is_some();
                self.pending_frame = taken;
                if self.phase == RenderPhase::Following {
                    self.phase = RenderPhase::Idle;
                    RenderAction::Finish { redraw: found }
                } else if found {
                    self.phase = RenderPhase::Polling;
                    RenderAction::PollReadiness
                } else {
                    self.phase = RenderPhase::Clearing;
                    RenderAction::ClearTarget(clear_target())
                }
            },
            RenderEvent::Readiness(ready) => {
                if !ready {
                    self.phase = RenderPhase::Idle;
                    return RenderAction::Finish { redraw: true };
                }
                self.phase = RenderPhase::Drawing;
                match self.pending_frame.take() {
                    Some(frame) => RenderAction::Draw(frame),
                    None => RenderAction::Finish { redraw: true },
                }
            },
            RenderEvent::Cleared => {
                self.phase = RenderPhase::Idle;
                RenderAction::Finish { redraw: true }
            },
            RenderEvent::Drawn => {
                self.phase = RenderPhase::Following;
                RenderAction::TakeFrame
            },
        }
    }

    /// What has to be done to draw a frame, in order, on a view that is set up and
    /// a target of the format that it was set up for.
    pub fn draw<'a>(
        &mut self,
        target: wgpu::TextureFormat,
        incoming: BrowserFrame<DmaBufShape, &ShmFrame<'a>>,
    ) -> (ops: Vec<FrameOp<&'a [u8]>>)
        requires
            old(self)@.gpu is Some,
            old(self)@.gpu->0.target_format == target,
        ensures
            ops_view(ops@) == frame_ops(old(self)@.gpu->0, frame_view(incoming)),
            final(self)@ == (BrowserViewState::<S, F> {
                gpu: Some(
                    GpuStateView {
                        source: Some(frame_source(frame_view(incoming))),
                        ..old(self)@.gpu->0
                    },
                ),
                ..old(self)@
            }),
    {
        match &mut self.gpu {
            Some(gpu) => gpu.render_browser_frame(target, incoming),
            None => Vec::new(),
        }
    }
}

/// A run of events: where it ends and what the host was told to do on the way.
#[verifier::ext_equal]
pub struct RenderRun<F> {
    /// The phase at the end.
    pub phase: RenderPhase,
    /// The pending frame at the end.
    pub pending: Option<F>,
    /// The actions, one per event.
    pub actions: Seq<RenderAction<F>>,
}

/// What a run of events does.
pub open spec fn render_run<F>(
    phase: RenderPhase,
    pending: Option<F>,
    events: Seq<RenderEvent<F>>,
) -> RenderRun<F>
    decreases events.len(),
{
    if events.len() == 0 {
        RenderRun { phase, pending, actions: seq![] }
    } else {
        let (next_phase, next_pending, action) = render_step(phase, pending, events[0]);
        let rest = render_run(next_phase, next_pending, events.drop_first());
        RenderRun {
            phase: rest.phase,
            pending: rest.pending,
            actions: seq![action] + rest.actions,
        }
    }
}

/// Whether every event of a run is the one that is waited for.
pub open spec fn run_expected<F>(
    phase: RenderPhase,
    pending: Option<F>,
    events: Seq<RenderEvent<F>>,
) -> bool
    decreases events.len(),
{
    events.len() == 0 || {
        let (next_phase, next_pending, _) = render_step(phase, pending, events[0]);
        phase_expects(phase, events[0]) && run_expected(
            next_phase,
            next_pending,
            events.drop_first(),
        )
    }
}

/// The frame in an option, as a sequence.
pub open spec fn held<F>(frame: Option<F>) -> Seq<F> {
    match frame {
        Some(frame) => seq![frame],
        None => seq![],
    }
}

/// The frames that the source gave in a run, in order.
pub open spec fn frames_taken<F>(events: Seq<RenderEvent<F>>) -> Seq<F>
    decreases events.len(),
{
    if events.len() == 0 {
        seq![]
    } else {
        match events[0] {
            RenderEvent::Taken(frame) => held(frame) + frames_taken(events.drop_first()),
            _ => frames_taken(events.drop_first()),
        }
    }
}

/// The frames that were drawn in a run, in order.
pub open spec fn frames_drawn<F>(actions: Seq<RenderAction<F>>) -> Seq<F>
    decreases actions.len(),
{
    if actions.len() == 0 {
        seq![]
    } else {
        match actions[0] {
            RenderAction::Draw(frame) => seq![frame] + frames_drawn(actions.drop_first()),
            _ => frames_drawn(actions.drop_first()),
        }
    }
}

/// No frame is lost, drawn twice or drawn out of turn: whatever was pending and
/// whatever the source gave has been drawn in that order, up to the one frame
/// that is pending still.
pub proof fn every_frame_is_drawn_once_and_in_order<F>(
    phase: RenderPhase,
    pending: Option<F>,
    events: Seq<RenderEvent<F>>,
)
    requires
        phase_fits(phase, pending),
        run_expected(phase, pending, events),
    ensures
        ({
            let run = render_run(phase, pending, events);
            &&& phase_fits(run.phase, run.pending)
            &&& held(pending) + frames_taken(events) == frames_drawn(run.actions) + held(
                run.pending,
            )
        }),
    decreases events.len(),
{
    let run = render_run(phase, pending, events);
    if events.len() > 0 {
        let (next_phase, next_pending, action) = render_step(phase, pending, events[0]);
        let rest = events.drop_first();
        every_frame_is_drawn_once_and_in_order(next_phase, next_pending, rest);
        let later = render_run(next_phase, next_pending, rest);
        assert(run.actions.drop_first() =~= later.actions);
        assert(run.actions[0] == action);
        assert(held(pending) + frames_taken(events) =~= frames_drawn(run.actions) + held(
            run.pending,
        ));
    } else {
        assert(held(pending) + frames_taken(events) =~= frames_drawn(run.actions) + held(
            run.pending,
        ));
    }
}

/// The frame that a render is about: the pending one, else what the source gives.
pub open spec fn frame_at_hand<F>(pending: Option<F>, first: Option<F>) -> Option<F> {
    if pending is Some {
        pending
    } else {
        first
    }
}

/// What the host reports in one render, where the source gives `first` when it is
/// asked for a frame, polling says `ready`, and the source gives `next` at the
/// end.
pub open spec fn pass_events<F>(
    pending: Option<F>,
    first: Option<F>,
    ready: bool,
    next: Option<F>,
) -> Seq<RenderEvent<F>> {
    let end = match frame_at_hand(pending, first) {
        None => seq![RenderEvent::Cleared],
        Some(_) => if ready {
            seq![RenderEvent::Readiness(true), RenderEvent::Drawn, RenderEvent::Taken(next)]
        } else {
            seq![RenderEvent::Readiness(false)]
        },
    };
    let start = seq![RenderEvent::Begin, RenderEvent::Pumped, RenderEvent::Resized];
    if pending is None {
        start + seq![RenderEvent::Taken(first)] + end
    } else {
        start + end
    }
}

/// What the host does in one render.
pub open spec fn pass_actions<F>(
    pending: Option<F>,
    first: Option<F>,
    ready: bool,
    next: Option<F>,
) -> Seq<RenderAction<F>> {
    let start = if pending is None {
        seq![RenderAction::Pump, RenderAction::Resize, RenderAction::TakeFrame]
    } else {
        seq![RenderAction::Pump, RenderAction::Resize]
    };
    match frame_at_hand(pending, first) {
        None => start + seq![
            RenderAction::ClearTarget(clear_pass()),
            RenderAction::Finish { redraw: true },
        ],
        Some(frame) => if ready {
            start + seq![
                RenderAction::PollReadiness,
                RenderAction::Draw(frame),
                RenderAction::TakeFrame,
                RenderAction::Finish { redraw: next is Some },
            ]
        } else {
            start + seq![RenderAction::PollReadiness, RenderAction::Finish { redraw: true }]
        },
    }
}

/// The frame that is pending after one render.
pub open spec fn pass_pending<F>(
    pending: Option<F>,
    first: Option<F>,
    ready: bool,
    next: Option<F>,
) -> Option<F> {
    match frame_at_hand(pending, first) {
        None => None,
        Some(frame) => if ready {
            next
        } else {
            Some(frame)
        },
    }
}

/// One render, from start to finish: the engine is pumped and told its size, a
/// frame is asked for unless one is pending, and then the target is cleared where
/// there is no frame, left alone where the frame is not finished (which stays
/// pending), and drawn on where it is. Another render is asked for unless a frame
/// was drawn and the source has no next one.
pub proof fn a_render_draws_a_finished_frame_and_keeps_an_unfinished_one<F>(
    pending: Option<F>,
    first: Option<F>,
    ready: bool,
    next: Option<F>,
)
    ensures
        run_expected(RenderPhase::Idle, pending, pass_events(pending, first, ready, next)),
        render_run(RenderPhase::Idle, pending, pass_events(pending, first, ready, next)) == (
        RenderRun {
            phase: RenderPhase::Idle,
            pending: pass_pending(pending, first, ready, next),
            actions: pass_actions(pending, first, ready, next),
        }),
{
    reveal_with_fuel(render_run, 9);
    reveal_with_fuel(run_expected, 9);
    let events = pass_events(pending, first, ready, next);
    let e1 = events.drop_first();
    let e2 = e1.drop_first();
    let e3 = e2.drop_first();
    let e4 = e3.drop_first();
    let e5 = e4.drop_first();
    let e6 = e5.drop_first();
    let run = render_run(RenderPhase::Idle, pending, events);
    assert(events[0] is Begin && e1[0] is Pumped && e2[0] is Resized);
    assert(run.actions =~= pass_actions(pending, first, ready, next));
}

} // verus!
