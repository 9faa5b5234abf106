use crate::color::Led;
use crate::error::TransitionErr;
use crate::msg::{fade_step, VisualStep};
use vstd::prelude::*;

verus! {

/// The pending task: an ordered sequence of visual steps that is replayed,
/// pass after pass, until an outcome arrives.
#[derive(Clone, Debug)]
pub struct BlinkTask {
    steps: Vec<VisualStep>,
}

impl View for BlinkTask {
    type V = Seq<VisualStep>;

    closed spec fn view(&self) -> Seq<VisualStep> {
        self.steps@
    }
}

impl BlinkTask {
    /// Builds the task that fades through `colors`, in order, one standard hold
    /// each.
    pub(crate) fn from_colors(colors: &[Led]) -> (r: BlinkTask)
        ensures
            r@ == colors@.map_values(|c: Led| fade_step(c)),
    {
        let mut steps: Vec<VisualStep> = Vec::new();
        let mut i: usize = 0;
        while i < colors.len()
            invariant
                i <= colors@.len(),
                steps@ == colors@.take(i as int).map_values(|c: Led| fade_step(c)),
            decreases colors@.len() - i,
        {
            steps.push(VisualStep::fade(colors[i]));
            proof {
                assert(colors@.take(i + 1 as int).drop_last() =~= colors@.take(i as int));
                assert(steps@ =~= colors@.take(i + 1 as int).map_values(|c: Led| fade_step(c)));
            }
            i = i + 1;
        }
        proof {
            assert(colors@.take(colors@.len() as int) =~= colors@);
        }
        BlinkTask { steps }
    }

    /// Creates a new pending task with the given colors.
    pub fn new(colors: &[Led]) -> (r: Result<BlinkTask, TransitionErr>)
        ensures
            r is Ok,
            r->Ok_0@ == colors@.map_values(|c: Led| fade_step(c)),
    {
        Ok(BlinkTask::from_colors(colors))
    }

    /// How many steps one full pass renders.
    pub fn len(&self) -> (r: usize)
        ensures
            r == self@.len(),
    {
        self.steps.len()
    }

    /// The step rendered at position `i` of each pass.
    pub fn step_at(&self, i: usize) -> (r: VisualStep)
        requires
            i < self@.len(),
        ensures
            r == self@[i as int],
    {
        self.steps[i]
    }
}

/// The sequence `s` replayed `n` times in a row.
pub open spec fn replays(s: Seq<VisualStep>, n: nat) -> Seq<VisualStep>
    decreases n,
{
    if n == 0 {
        Seq::empty()
    } else {
        replays(s, (n - 1) as nat) + s
    }
}

/// How many of the entries of `s` equal `x`.
pub open spec fn step_count(s: Seq<VisualStep>, x: VisualStep) -> nat
    decreases s.len(),
{
    if s.len() == 0 {
        0
    } else {
        step_count(s.drop_last(), x) + if s.last() == x {
            1nat
        } else {
            0nat
        }
    }
}

/// Replaying `n` times renders `n * s.len()` steps in all.
pub proof fn lemma_replays_len(s: Seq<VisualStep>, n: nat)
    ensures
        replays(s, n).len() == n * s.len(),
    decreases n,
{
    if n > 0 {
        lemma_replays_len(s, (n - 1) as nat);
        assert(replays(s, n) == replays(s, (n - 1) as nat) + s);
        assert(replays(s, n).len() == ((n - 1) as nat) * s.len() + s.len());
        assert(((n - 1) as nat) * s.len() + s.len() == n * s.len()) by (nonlinear_arith)
            requires
                n > 0,
        ;
    } else {
        assert(replays(s, n).len() == 0);
        assert(n * s.len() == 0) by (nonlinear_arith)
            requires
                n == 0,
        ;
    }
}

/// Every step of a replayed trace is a step of the pending sequence.
pub proof fn lemma_replays_membership(s: Seq<VisualStep>, n: nat, i: int)
    requires
        0 <= i < replays(s, n).len(),
    ensures
        s.contains(replays(s, n)[i]),
    decreases n,
{
    if n > 0 {
        let prev = replays(s, (n - 1) as nat);
        if i < prev.len() {
            lemma_replays_membership(s, (n - 1) as nat, i);
        } else {
            assert(replays(s, n)[i] == s[i - prev.len()]);
        }
    }
}

/// Restartability: each of the `n` passes of a replayed trace renders the
/// pending sequence in its exact original order; no state leaks from one pass
/// into the next.
pub proof fn lemma_replays_pass_order(s: Seq<VisualStep>, n: nat, i: nat)
    requires
        i < n,
    ensures
        n * s.len() <= replays(s, n).len(),
        (i + 1) * s.len() <= n * s.len(),
        replays(s, n).subrange((i * s.len()) as int, (i * s.len() + s.len()) as int) =~= s,
    decreases n,
{
    let ghost l = s.len();
    lemma_replays_len(s, n);
    lemma_replays_len(s, (n - 1) as nat);
    assert(i * l + l == (i + 1) * l) by (nonlinear_arith);
    assert((i + 1) * l <= n * l) by (nonlinear_arith)
        requires
            i < n,
    ;
    let prev = replays(s, (n - 1) as nat);
    if i + 1 == n {
        assert(i * l == prev.len()) by (nonlinear_arith)
            requires
                prev.len() == (n - 1) * l && i + 1 == n,
        ;
        assert forall|j: int| 0 <= j < l implies replays(s, n)[i * l + j] == s[j] by {
            assert(replays(s, n)[prev.len() + j] == s[j]);
        }
    } else {
        lemma_replays_pass_order(s, (n - 1) as nat, i);
        assert((i + 1) * l <= (n - 1) * l) by (nonlinear_arith)
            requires
                i + 1 < n,
        ;
        assert forall|j: int| 0 <= j < l implies replays(s, n)[i * l + j] == s[j] by {
            assert(i * l + j < prev.len());
            assert(replays(s, n)[i * l + j] == prev[i * l + j]);
            assert(prev.subrange((i * l) as int, (i * l + l) as int)[j] == prev[i * l + j]);
        }
    }
    assert(replays(s, n).subrange((i * l) as int, (i * l + l) as int) =~= s);
}

/// A step that is not part of the pending sequence is never rendered by any
/// number of replays of it.
pub proof fn lemma_replays_no_foreign_step(s: Seq<VisualStep>, n: nat, x: VisualStep)
    requires
        !s.contains(x),
    ensures
        !replays(s, n).contains(x),
{
    if replays(s, n).contains(x) {
        let i = choose|i: int| 0 <= i < replays(s, n).len() && replays(s, n)[i] == x;
        lemma_replays_membership(s, n, i);
    }
}

/// Counting distributes over concatenation of traces.
pub proof fn lemma_step_count_concat(a: Seq<VisualStep>, b: Seq<VisualStep>, x: VisualStep)
    ensures
        step_count(a + b, x) == step_count(a, x) + step_count(b, x),
    decreases b.len(),
{
    if b.len() == 0 {
        assert(a + b =~= a);
    } else {
        assert((a + b).drop_last() =~= a + b.drop_last());
        lemma_step_count_concat(a, b.drop_last(), x);
    }
}

/// A step occurs in a trace if and only if it is counted at least once.
pub proof fn lemma_step_count_contains(s: Seq<VisualStep>, x: VisualStep)
    ensures
        s.contains(x) <==> step_count(s, x) > 0,
    decreases s.len(),
{
    if s.len() > 0 {
        lemma_step_count_contains(s.drop_last(), x);
        if s.contains(x) && s.last() != x {
            let i = choose|i: int| 0 <= i < s.len() && s[i] == x;
            assert(s.drop_last()[i] == x);
        }
        if s.drop_last().contains(x) {
            let i = choose|i: int| 0 <= i < s.len() - 1 && s.drop_last()[i] == x;
            assert(s[i] == x);
        }
    }
}

} // verus!
