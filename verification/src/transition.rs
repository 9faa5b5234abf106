use crate::channel::{new_signal_channel, receiver_channel};
use crate::color::Led;
use crate::display::{sched_after_render, Display};
use crate::error::TransitionErr;
use crate::msg::{fade_step, ColorMessage, VisualStep};
use crate::notifier::{MsgType, Notifier};
use crate::task::{
    lemma_replays_len, lemma_replays_membership, lemma_replays_no_foreign_step,
    lemma_step_count_concat, lemma_step_count_contains, replays, step_count, BlinkTask,
};
use vstd::prelude::*;

verus! {

/// The step rendered for an outcome: the success step for a success message,
/// the failure step for a failure message.
pub open spec fn action_step(success: VisualStep, failure: VisualStep, msg: MsgType) -> VisualStep {
    match msg {
        MsgType::Success => success,
        MsgType::Failure => failure,
    }
}

/// Main structure.  Holds the colors of the task states (pending, successful,
/// failed) and allows the caller to start the transition.
#[derive(Clone, Debug)]
pub struct Transition {
    task: BlinkTask,
    failure_msg: ColorMessage,
    success_msg: ColorMessage,
}

impl Transition {
    /// The pending steps replayed while no outcome has been reported.
    pub closed spec fn pending(self) -> Seq<VisualStep> {
        self.task@
    }

    /// The step rendered once when success is reported.
    pub closed spec fn success_step(self) -> VisualStep {
        self.success_msg.step
    }

    /// The step rendered once when failure is reported.
    pub closed spec fn failure_step(self) -> VisualStep {
        self.failure_msg.step
    }

    fn assemble(colors: &[Led]) -> (r: Transition)
        ensures
            r.pending() == colors@.map_values(|c: Led| fade_step(c)),
            r.success_step() == fade_step(Led::Green),
            r.failure_step() == fade_step(Led::Red),
    {
        Transition {
            task: BlinkTask::from_colors(colors),
            failure_msg: ColorMessage::new(&Led::Red),
            success_msg: ColorMessage::new(&Led::Green),
        }
    }

    /// Creates a new `Transition` with the given colors for the pending
    /// state.
    ///
    /// The pending colors are replayed, in order, from `start` until one of
    /// the notification calls.  The failure color starts as red and the
    /// success color as green; both can be overridden with `on_failure` and
    /// `on_success`.
    pub fn new(colors: &[Led]) -> (r: Result<Transition, TransitionErr>)
        ensures
            r is Ok,
            r->Ok_0.pending() == colors@.map_values(|c: Led| fade_step(c)),
            r->Ok_0.success_step() == fade_step(Led::Green),
            r->Ok_0.failure_step() == fade_step(Led::Red),
    {
        Ok(Transition::assemble(colors))
    }

    /// Overrides the success color.
    pub fn on_success(self, color: &Led) -> (r: Transition)
        ensures
            r.pending() == self.pending(),
            r.failure_step() == self.failure_step(),
            r.success_step() == fade_step(*color),
    {
        Transition {
            task: self.task,
            failure_msg: self.failure_msg,
            success_msg: ColorMessage::new(color),
        }
    }

    /// Overrides the failure color.
    pub fn on_failure(self, color: &Led) -> (r: Transition)
        ensures
            r.pending() == self.pending(),
            r.success_step() == self.success_step(),
            r.failure_step() == fade_step(*color),
    {
        Transition {
            task: self.task,
            failure_msg: ColorMessage::new(color),
            success_msg: self.success_msg,
        }
    }

    /// Starts the transition on the given display.
    ///
    /// Returns the worker `Engine`, whose loop renders the pending steps and
    /// polls for an outcome, and the `Notifier` through which the caller
    /// reports that outcome.  The engine is meant to be driven on a dedicated
    /// background execution context while the caller keeps the notifier.
    pub fn start(self, display: Display) -> (r: (Engine, Notifier))
        ensures
            r.0.inv(),
            !r.0.is_done(),
            r.0.pos() == 0,
            r.0.passes() == 0,
            r.0.pending() == self.pending(),
            r.0.success_step() == self.success_step(),
            r.0.failure_step() == self.failure_step(),
            r.0.base() == display.history(),
            r.0.disp() == display,
            r.0.channel() == r.1.channel(),
    {
        let ghost base = display.history();
        let (sender, receiver) = new_signal_channel();
        let engine = Engine {
            task: self.task,
            failure_msg: self.failure_msg,
            success_msg: self.success_msg,
            display,
            receiver,
            pos: 0,
            done: false,
            base: Ghost(base),
            passes: Ghost(0),
        };
        proof {
            assert(engine.history() =~= engine.base() + replays(engine.pending(), 0)
                + engine.pending().take(0));
        }
        (engine, Notifier::new(sender))
    }
}

impl Default for Transition {
    /// The default transition: blue and blank pending steps, green success,
    /// red failure.
    fn default() -> (r: Transition)
        ensures
            r.pending() == seq![fade_step(Led::Blue), fade_step(Led::Blank)],
            r.success_step() == fade_step(Led::Green),
            r.failure_step() == fade_step(Led::Red),
    {
        let r = Transition::assemble(&[Led::Blue, Led::Blank]);
        proof {
            assert(r.pending() =~= seq![fade_step(Led::Blue), fade_step(Led::Blank)]);
        }
        r
    }
}

/// What a successful pending render does to the engine: with an empty pending
/// sequence nothing at all, otherwise the step at the current position is
/// appended to the history and the position advances, wrapping into a new
/// pass after the last step of a pass.
pub open spec fn stepped_pending(pre: Engine, post: Engine, ms: u64) -> bool {
    if pre.pending().len() == 0 {
        post == pre && ms == 0
    } else {
        let step = pre.pending()[pre.pos() as int];
        &&& ms == step.millis
        &&& !post.is_done()
        &&& post.history() == pre.history().push(step)
        &&& (if pre.pos() + 1 == pre.pending().len() {
            post.pos() == 0 && post.passes() == pre.passes() + 1
        } else {
            post.pos() == pre.pos() + 1 && post.passes() == pre.passes()
        })
    }
}

/// What one engine tick did: either one pending step was rendered and the
/// caller should hold for the returned number of milliseconds, or the engine
/// finished with the given result.
#[derive(Clone, Copy, Debug)]
pub enum Tick {
    /// One pending step was rendered; hold for this many milliseconds.
    Continue(u64),
    /// The engine stopped: a terminal action was rendered, or rendering
    /// failed.
    Finished(Result<(), TransitionErr>),
}

/// The background worker: replays the pending steps on its display, polls for
/// an outcome signal at the start of each pass, renders the matching outcome
/// action exactly once, and stops.
pub struct Engine {
    task: BlinkTask,
    failure_msg: ColorMessage,
    success_msg: ColorMessage,
    display: Display,
    receiver: crossbeam_channel::Receiver<MsgType>,
    pos: usize,
    done: bool,
    base: Ghost<Seq<VisualStep>>,
    passes: Ghost<nat>,
}

impl Engine {
    /// The pending steps replayed while no outcome has been reported.
    pub closed spec fn pending(self) -> Seq<VisualStep> {
        self.task@
    }

    /// The step rendered once when success is reported.
    pub closed spec fn success_step(self) -> VisualStep {
        self.success_msg.step
    }

    /// The step rendered once when failure is reported.
    pub closed spec fn failure_step(self) -> VisualStep {
        self.failure_msg.step
    }

    /// The display the engine renders through.
    pub closed spec fn disp(self) -> Display {
        self.display
    }

    /// The channel the engine drains: the one its notifier feeds.
    pub closed spec fn channel(self) -> int {
        receiver_channel(self.receiver)
    }

    /// The steps rendered on the display so far, including those rendered
    /// before this engine started.
    pub open spec fn history(self) -> Seq<VisualStep> {
        self.disp().history()
    }

    /// The display history at the moment the engine started.
    pub closed spec fn base(self) -> Seq<VisualStep> {
        self.base@
    }

    /// How many full pending passes the engine has rendered.
    pub closed spec fn passes(self) -> nat {
        self.passes@
    }

    /// The position within the current pass of the next pending step.
    pub closed spec fn pos(self) -> nat {
        self.pos as nat
    }

    /// Whether the engine has stopped.
    pub closed spec fn is_done(self) -> bool {
        self.done
    }

    /// The engine invariant: the position stays within the pending sequence,
    /// and, while the engine is running, everything it has rendered is exactly
    /// the completed passes followed by the finished part of the current pass.
    pub open spec fn inv(self) -> bool {
        &&& (self.pending().len() == 0 ==> self.pos() == 0)
        &&& (self.pending().len() > 0 ==> self.pos() < self.pending().len())
        &&& (!self.is_done() ==> self.history() == self.base() + replays(
            self.pending(),
            self.passes(),
        ) + self.pending().take(self.pos() as int))
    }

    /// The configuration the engine was started with, unchanged by every
    /// engine operation.
    pub open spec fn same_setup(self, other: Engine) -> bool {
        &&& self.pending() == other.pending()
        &&& self.channel() == other.channel()
        &&& self.success_step() == other.success_step()
        &&& self.failure_step() == other.failure_step()
        &&& self.base() == other.base()
        &&& self.disp().is_spy() == other.disp().is_spy()
    }

    /// Whether the engine has stopped.
    pub fn finished(&self) -> (r: bool)
        ensures
            r == self.is_done(),
    {
        self.done
    }

    /// The display the engine renders through.
    pub fn display(&self) -> (r: &Display)
        ensures
            *r == self.disp(),
    {
        &self.display
    }

    /// Reacts to a received outcome: renders the action bound to `msg` once
    /// and stops the engine.  On a render failure the engine stops with the
    /// device error and nothing is added to the history.
    pub fn on_signal(&mut self, msg: MsgType) -> (r: Result<(), TransitionErr>)
        requires
            old(self).inv(),
            !old(self).is_done(),
            old(self).pos() == 0,
        ensures
            final(self).inv(),
            final(self).same_setup(*old(self)),
            final(self).is_done(),
            final(self).pos() == 0,
            final(self).passes() == old(self).passes(),
            r is Ok ==> final(self).history() == old(self).history().push(
                action_step(old(self).success_step(), old(self).failure_step(), msg),
            ),
            r is Err ==> r == Err::<(), TransitionErr>(TransitionErr::BlinkConnection)
                && final(self).history() == old(self).history(),
            old(self).disp().is_spy() ==> ((r is Ok) <==> old(self).disp().spy_next_ok()),
            final(self).disp().spy_sched() == sched_after_render(old(self).disp().spy_sched()),
    {
        let step = match msg {
            MsgType::Success => self.success_msg.step,
            MsgType::Failure => self.failure_msg.step,
        };
        let res = self.display.render(step);
        self.done = true;
        res
    }

    /// Renders the next pending step and advances the pass position, wrapping
    /// to a new pass after the last step.  On a render failure the engine
    /// stops with the device error.  With an empty pending sequence there is
    /// nothing to render and the engine idles.
    pub fn step_pending(&mut self) -> (r: Result<u64, TransitionErr>)
        requires
            old(self).inv(),
            !old(self).is_done(),
        ensures
            final(self).inv(),
            final(self).same_setup(*old(self)),
            old(self).pending().len() == 0 ==> r is Ok,
            match r {
                Ok(ms) => stepped_pending(*old(self), *final(self), ms),
                Err(e) => {
                    &&& old(self).pending().len() > 0
                    &&& e == TransitionErr::BlinkConnection
                    &&& final(self).is_done()
                    &&& final(self).history() == old(self).history()
                },
            },
            old(self).pending().len() > 0 && old(self).disp().is_spy() ==> ((r is Ok)
                <==> old(self).disp().spy_next_ok()),
            old(self).pending().len() > 0 ==> final(self).disp().spy_sched() == sched_after_render(
                old(self).disp().spy_sched(),
            ),
    {
        let len = self.task.len();
        if len == 0 {
            return Ok(0);
        }
        let step = self.task.step_at(self.pos);
        match self.display.render(step) {
            Ok(_) => {
                proof {
                    let p = self.pending();
                    let pos = self.pos as int;
                    if pos + 1 == p.len() {
                        assert(replays(p, self.passes@ + 1) == replays(p, self.passes@) + p);
                        assert((self.base@ + replays(p, self.passes@) + p.take(pos)).push(p[pos])
                            =~= self.base@ + replays(p, self.passes@ + 1) + p.take(0));
                    } else {
                        assert((self.base@ + replays(p, self.passes@) + p.take(pos)).push(p[pos])
                            =~= self.base@ + replays(p, self.passes@) + p.take(pos + 1));
                    }
                }
                if self.pos + 1 == len {
                    self.pos = 0;
                    self.passes = Ghost(self.passes@ + 1);
                } else {
                    self.pos = self.pos + 1;
                }
                Ok(step.millis)
            },
            Err(e) => {
                self.done = true;
                Err(e)
            },
        }
    }

    /// One iteration of the worker loop: at the start of a pass the engine
    /// polls for an outcome signal and, if one arrived, renders its action and
    /// finishes; otherwise it renders the next pending step.
    pub fn tick(&mut self) -> (r: Tick)
        requires
            old(self).inv(),
            !old(self).is_done(),
        ensures
            final(self).inv(),
            final(self).same_setup(*old(self)),
            match r {
                Tick::Continue(ms) => !final(self).is_done() && stepped_pending(
                    *old(self),
                    *final(self),
                    ms,
                ),
                Tick::Finished(res) => final(self).is_done() && match res {
                    Ok(()) => {
                        &&& old(self).pos() == 0
                        &&& final(self).passes() == old(self).passes()
                        &&& (final(self).history() == old(self).history().push(
                            old(self).success_step(),
                        ) || final(self).history() == old(self).history().push(
                            old(self).failure_step(),
                        ))
                    },
                    Err(e) => {
                        &&& e == TransitionErr::BlinkConnection
                        &&& final(self).history() == old(self).history()
                    },
                },
            },
            old(self).disp().is_spy() && old(self).disp().spy_next_ok() ==> !(r matches
            Tick::Finished(Err(_))),
            old(self).disp().is_spy() && !old(self).disp().spy_next_ok()
                && old(self).pending().len() > 0 ==> r matches Tick::Finished(Err(_)),
            final(self).disp().spy_sched() == old(self).disp().spy_sched()
                || final(self).disp().spy_sched() == sched_after_render(
                old(self).disp().spy_sched(),
            ),
    {
        if self.pos == 0 {
            let signal = poll_signal(&self.receiver);
            if let Some(msg) = signal {
                let res = self.on_signal(msg);
                return Tick::Finished(res);
            }
        }
        match self.step_pending() {
            Ok(ms) => Tick::Continue(ms),
            Err(e) => Tick::Finished(Err(e)),
        }
    }

    /// Drives the worker loop for at most `budget` ticks, stopping early when
    /// the engine finishes.  Returns the engine's result, or `None` when the
    /// budget ran out first.
    ///
    /// On a successful finish the display history is the engine's completed
    /// pending passes followed by exactly one outcome action; on a device
    /// failure it is the completed passes followed by part of one pass.  When
    /// the budget runs out first, the engine has rendered exactly one pending
    /// step per tick — with no signal it keeps blinking and renders no
    /// outcome action.
    pub fn run(&mut self, budget: usize) -> (r: Option<Result<(), TransitionErr>>)
        requires
            old(self).inv(),
            !old(self).is_done(),
        ensures
            final(self).inv(),
            final(self).same_setup(*old(self)),
            r is None ==> !final(self).is_done(),
            r matches Some(res) ==> final(self).is_done() && match res {
                Ok(()) => finished_trace(
                    final(self).base(),
                    final(self).pending(),
                    final(self).success_step(),
                    final(self).history(),
                ) || finished_trace(
                    final(self).base(),
                    final(self).pending(),
                    final(self).failure_step(),
                    final(self).history(),
                ),
                Err(e) => e == TransitionErr::BlinkConnection && aborted_trace(
                    final(self).base(),
                    final(self).pending(),
                    final(self).history(),
                ),
            },
            r is None && old(self).pending().len() > 0 ==> final(self).history().len()
                == old(self).history().len() + budget,
            r is None && old(self).pending().len() == 0 ==> final(self).history()
                == old(self).history(),
            old(self).disp().is_spy() && old(self).disp().spy_sched() is None ==> !(r matches Some(
                Err(_),
            )),
    {
        let mut i: usize = 0;
        while i < budget
            invariant
                self.inv(),
                !self.is_done(),
                self.same_setup(*old(self)),
                i <= budget,
                old(self).pending().len() > 0 ==> self.history().len() == old(self).history().len()
                    + i,
                old(self).pending().len() == 0 ==> self.history() == old(self).history(),
                old(self).disp().is_spy() && old(self).disp().spy_sched() is None ==> self.disp().spy_sched() is None,
            decreases budget - i,
        {
            let ghost pre = *self;
            match self.tick() {
                Tick::Continue(_) => {},
                Tick::Finished(res) => {
                    proof {
                        reveal(finished_trace);
                        reveal(aborted_trace);
                        match res {
                            Ok(()) => {
                                assert(pre.history() =~= pre.base() + replays(
                                    pre.pending(),
                                    pre.passes(),
                                ));
                                assert(self.history() =~= self.base() + replays(
                                    self.pending(),
                                    pre.passes(),
                                ) + seq![
                                    if self.history() == pre.history().push(pre.success_step()) {
                                        self.success_step()
                                    } else {
                                        self.failure_step()
                                    },
                                ]);
                            },
                            Err(_) => {
                                assert(self.history() == pre.base() + replays(
                                    pre.pending(),
                                    pre.passes(),
                                ) + pre.pending().take(pre.pos() as int));
                            },
                        }
                    }
                    return Some(res);
                },
            }
            i = i + 1;
        }
        None
    }
}

/// The display history of a run that finished by rendering the terminal step
/// `terminal`: some number of full pending passes, then that one step.
#[verifier::opaque]
pub open spec fn finished_trace(
    base: Seq<VisualStep>,
    pending: Seq<VisualStep>,
    terminal: VisualStep,
    hist: Seq<VisualStep>,
) -> bool {
    exists|n: nat| hist == base + #[trigger] replays(pending, n) + seq![terminal]
}

/// The display history of a run that stopped on a render failure: some number
/// of full pending passes, then part of one pass.
#[verifier::opaque]
pub open spec fn aborted_trace(
    base: Seq<VisualStep>,
    pending: Seq<VisualStep>,
    hist: Seq<VisualStep>,
) -> bool {
    exists|n: nat, k: int|
        #![trigger replays(pending, n), pending.take(k)]
        0 <= k <= pending.len() && hist == base + replays(pending, n) + pending.take(k)
}

fn poll_signal(receiver: &crossbeam_channel::Receiver<MsgType>) -> Option<MsgType> {
    match receiver.try_recv() {
        Ok(msg) => Some(msg),
        Err(_) => None,
    }
}

/// Law: for every pending sequence, every number of completed passes, and
/// either outcome, the trace of a signaled run is the replayed pending passes
/// followed by exactly the action bound to the reported outcome.  Every step
/// before the terminal one is a pending step, and the action bound to the
/// other outcome appears nowhere, provided it is not itself a pending step and
/// differs from the chosen action.
pub proof fn lemma_signaled_run_trace(
    pending: Seq<VisualStep>,
    success: VisualStep,
    failure: VisualStep,
    msg: MsgType,
    n: nat,
)
    ensures
        ({
            let chosen = action_step(success, failure, msg);
            let other = match msg {
                MsgType::Success => failure,
                MsgType::Failure => success,
            };
            let trace = replays(pending, n) + seq![chosen];
            &&& trace.len() == n * pending.len() + 1
            &&& trace.last() == chosen
            &&& forall|i: int|
                0 <= i < trace.len() - 1 ==> pending.contains(#[trigger] trace[i])
            &&& (!pending.contains(other) && other != chosen ==> !trace.contains(other))
        }),
{
    let chosen = action_step(success, failure, msg);
    let other = match msg {
        MsgType::Success => failure,
        MsgType::Failure => success,
    };
    let trace = replays(pending, n) + seq![chosen];
    lemma_replays_len(pending, n);
    assert forall|i: int| 0 <= i < trace.len() - 1 implies pending.contains(
        #[trigger] trace[i],
    ) by {
        assert(trace[i] == replays(pending, n)[i]);
        lemma_replays_membership(pending, n, i);
    }
    if !pending.contains(other) && other != chosen {
        lemma_replays_no_foreign_step(pending, n, other);
        if trace.contains(other) {
            let i = choose|i: int| 0 <= i < trace.len() && trace[i] == other;
            if i < trace.len() - 1 {
                assert(replays(pending, n)[i] == other);
            }
        }
    }
}

/// Law: exactly once.  However many pending passes precede the signal, the
/// chosen terminal action appears exactly once in the trace of a signaled run,
/// provided it is not itself one of the pending steps.
pub proof fn lemma_terminal_rendered_once(
    pending: Seq<VisualStep>,
    success: VisualStep,
    failure: VisualStep,
    msg: MsgType,
    n: nat,
)
    requires
        !pending.contains(action_step(success, failure, msg)),
    ensures
        step_count(
            replays(pending, n) + seq![action_step(success, failure, msg)],
            action_step(success, failure, msg),
        ) == 1,
{
    let chosen = action_step(success, failure, msg);
    lemma_step_count_concat(replays(pending, n), seq![chosen], chosen);
    lemma_replays_no_foreign_step(pending, n, chosen);
    lemma_step_count_contains(replays(pending, n), chosen);
    assert(seq![chosen].drop_last() =~= Seq::<VisualStep>::empty());
    assert(step_count(Seq::<VisualStep>::empty(), chosen) == 0);
    assert(step_count(seq![chosen], chosen) == 1);
}

/// Law: whatever a finished run rendered beyond the history it started from
/// is either a pending step or the terminal action: any other step was never
/// rendered during the run.
pub proof fn lemma_finished_history_excludes(
    base: Seq<VisualStep>,
    pending: Seq<VisualStep>,
    terminal: VisualStep,
    hist: Seq<VisualStep>,
    x: VisualStep,
)
    requires
        finished_trace(base, pending, terminal, hist),
        !pending.contains(x),
        x != terminal,
    ensures
        !hist.skip(base.len() as int).contains(x),
{
    reveal(finished_trace);
    let n = choose|n: nat| hist == base + #[trigger] replays(pending, n) + seq![terminal];
    let run_part = hist.skip(base.len() as int);
    assert(run_part =~= replays(pending, n) + seq![terminal]);
    lemma_replays_no_foreign_step(pending, n, x);
    if run_part.contains(x) {
        let i = choose|i: int| 0 <= i < run_part.len() && run_part[i] == x;
        if i < run_part.len() - 1 {
            assert(replays(pending, n)[i] == x);
        }
    }
}

/// Law: exactly once, on the rendered history itself.  A finished run whose
/// terminal action is not one of the pending steps rendered that action
/// exactly once, however many pending passes it completed first.
pub proof fn lemma_finished_history_once(
    base: Seq<VisualStep>,
    pending: Seq<VisualStep>,
    terminal: VisualStep,
    hist: Seq<VisualStep>,
)
    requires
        finished_trace(base, pending, terminal, hist),
        !pending.contains(terminal),
    ensures
        step_count(hist.skip(base.len() as int), terminal) == 1,
{
    reveal(finished_trace);
    let n = choose|n: nat| hist == base + #[trigger] replays(pending, n) + seq![terminal];
    let run_part = hist.skip(base.len() as int);
    assert(run_part =~= replays(pending, n) + seq![terminal]);
    lemma_step_count_concat(replays(pending, n), seq![terminal], terminal);
    lemma_replays_no_foreign_step(pending, n, terminal);
    lemma_step_count_contains(replays(pending, n), terminal);
    assert(seq![terminal].drop_last() =~= Seq::<VisualStep>::empty());
    assert(step_count(Seq::<VisualStep>::empty(), terminal) == 0);
    assert(step_count(seq![terminal], terminal) == 1);
}

/// Law: if no outcome is ever signaled, the trace after any number of passes
/// consists of pending steps only; in particular neither outcome action has
/// been rendered, provided it is not itself a pending step.
pub proof fn lemma_unsignaled_run_trace(
    pending: Seq<VisualStep>,
    success: VisualStep,
    failure: VisualStep,
    n: nat,
)
    ensures
        forall|i: int|
            0 <= i < replays(pending, n).len() ==> pending.contains(
                #[trigger] replays(pending, n)[i],
            ),
        !pending.contains(success) ==> !replays(pending, n).contains(success),
        !pending.contains(failure) ==> !replays(pending, n).contains(failure),
{
    assert forall|i: int| 0 <= i < replays(pending, n).len() implies pending.contains(
        #[trigger] replays(pending, n)[i],
    ) by {
        lemma_replays_membership(pending, n, i);
    }
    if !pending.contains(success) {
        lemma_replays_no_foreign_step(pending, n, success);
    }
    if !pending.contains(failure) {
        lemma_replays_no_foreign_step(pending, n, failure);
    }
}

} // verus!
