use crate::device::send_fade;
use crate::error::TransitionErr;
use crate::msg::VisualStep;
use vstd::prelude::*;

verus! {

/// Test double for the indicator device: it records every step it is asked to
/// render, and it can be scheduled to start failing at a chosen render call.
pub struct SpyDisplay {
    rendered: Vec<VisualStep>,
    // `Some(k)`: the next `k` render calls succeed and every call after them
    // fails.  `None`: every call succeeds.
    fail_after: Option<usize>,
}

/// The physical blink(1) device, together with a ghost log of the steps whose
/// render command was accepted.
pub struct DeviceDisplay {
    blinkers: blinkrs::Blinkers,
    log: Ghost<Seq<VisualStep>>,
}

/// The capability the engine renders through: either the physical device or
/// the recording test double.
pub enum Display {
    Device(DeviceDisplay),
    Spy(SpyDisplay),
}

/// The schedule `sched` after one render call has been answered: a scheduled
/// count of remaining successes goes down until it reaches zero, where it
/// stays, and an absent schedule stays absent.
pub open spec fn sched_after_render(sched: Option<usize>) -> Option<usize> {
    match sched {
        None => None,
        Some(k) => if k == 0 {
            Some(0usize)
        } else {
            Some((k - 1) as usize)
        },
    }
}

impl Display {
    /// Whether this display is the recording test double.
    pub closed spec fn is_spy(self) -> bool {
        self matches Display::Spy(_)
    }

    /// The steps rendered so far: recorded ones for the test double, logged
    /// ones for the device.
    pub closed spec fn history(self) -> Seq<VisualStep> {
        match self {
            Display::Spy(s) => s.rendered@,
            Display::Device(d) => d.log@,
        }
    }

    /// The test double's failure schedule.
    pub closed spec fn spy_sched(self) -> Option<usize> {
        match self {
            Display::Spy(s) => s.fail_after,
            Display::Device(_) => None,
        }
    }

    /// Whether the test double will answer its next render call with success.
    pub open spec fn spy_next_ok(self) -> bool {
        self.spy_sched() != Some(0usize)
    }

    /// A recording test double that accepts every render call.
    pub fn spy() -> (r: Display)
        ensures
            r.is_spy(),
            r.history() == Seq::<VisualStep>::empty(),
            r.spy_sched() is None,
    {
        Display::Spy(SpyDisplay { rendered: Vec::new(), fail_after: None })
    }

    /// A recording test double that accepts the next `calls` render calls and
    /// fails every call after them.
    pub fn spy_failing_after(calls: usize) -> (r: Display)
        ensures
            r.is_spy(),
            r.history() == Seq::<VisualStep>::empty(),
            r.spy_sched() == Some(calls),
    {
        Display::Spy(SpyDisplay { rendered: Vec::new(), fail_after: Some(calls) })
    }

    /// The physical device, acquired through blinkrs; fails when the USB
    /// context cannot be created.
    pub fn device() -> (r: Result<Display, TransitionErr>)
        ensures
            r matches Ok(d) ==> !d.is_spy() && d.history() == Seq::<VisualStep>::empty(),
            r is Err ==> r == Err::<Display, TransitionErr>(TransitionErr::BlinkConnection),
    {
        match blinkrs::Blinkers::new() {
            Ok(blinkers) => Ok(
                Display::Device(DeviceDisplay { blinkers, log: Ghost(Seq::empty()) }),
            ),
            Err(_) => Err(TransitionErr::BlinkConnection),
        }
    }

    /// Renders one step.  On success the step is appended to the history; on
    /// failure the history is unchanged.  For the test double the outcome is
    /// exactly what its failure schedule dictates.
    pub fn render(&mut self, step: VisualStep) -> (r: Result<(), TransitionErr>)
        ensures
            final(self).is_spy() == old(self).is_spy(),
            r is Ok ==> final(self).history() == old(self).history().push(step),
            r is Err ==> final(self).history() == old(self).history() && r == Err::<
                (),
                TransitionErr,
            >(TransitionErr::BlinkConnection),
            old(self).is_spy() ==> ((r is Ok) <==> old(self).spy_next_ok()),
            final(self).spy_sched() == sched_after_render(old(self).spy_sched()),
    {
        match self {
            Display::Spy(spy) => {
                match spy.fail_after {
                    Some(k) => {
                        if k == 0 {
                            Err(TransitionErr::BlinkConnection)
                        } else {
                            spy.fail_after = Some(k - 1);
                            spy.rendered.push(step);
                            Ok(())
                        }
                    },
                    None => {
                        spy.rendered.push(step);
                        Ok(())
                    },
                }
            },
            Display::Device(dev) => {
                let (red, green, blue) = step.led.rgb();
                match send_fade(&dev.blinkers, red, green, blue, step.millis) {
                    Ok(_) => {
                        dev.log = Ghost(dev.log@.push(step));
                        Ok(())
                    },
                    Err(_) => Err(TransitionErr::BlinkConnection),
                }
            },
        }
    }

    /// The steps the test double has recorded, in the order they were
    /// rendered; absent for the physical device.
    pub fn rendered_steps(&self) -> (r: Option<Vec<VisualStep>>)
        ensures
            (r is Some) == self.is_spy(),
            r matches Some(v) ==> v@ == self.history(),
    {
        match self {
            Display::Spy(spy) => {
                let mut out: Vec<VisualStep> = Vec::new();
                let mut i: usize = 0;
                while i < spy.rendered.len()
                    invariant
                        i <= spy.rendered@.len(),
                        out@ == spy.rendered@.take(i as int),
                    decreases spy.rendered@.len() - i,
                {
                    out.push(spy.rendered[i]);
                    proof {
                        assert(out@ =~= spy.rendered@.take(i + 1 as int));
                    }
                    i = i + 1;
                }
                proof {
                    assert(spy.rendered@.take(spy.rendered@.len() as int) =~= spy.rendered@);
                }
                Some(out)
            },
            Display::Device(_) => None,
        }
    }
}

} // verus!
