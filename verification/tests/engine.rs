use transition::{Display, Led, MsgType, Tick, TransitionErr, Transition, VisualStep};

fn fade(led: Led) -> VisualStep {
    VisualStep { led, millis: 500 }
}

fn rendered(display: &Display) -> Vec<VisualStep> {
    display.rendered_steps().expect("engine should hold the spy display")
}

/// Pending sequence [Cyan, Blank] with default outcomes; one full pass runs
/// before the caller reports success; the spy then shows the pass followed by
/// exactly one green render, and the run result carries no error.
#[test]
fn concrete_success_scenario() {
    let transition = Transition::new(&[Led::Cyan, Led::Blank]).unwrap();
    let (mut engine, notifier) = transition.start(Display::spy());

    assert!(matches!(engine.tick(), Tick::Continue(500)));
    assert!(matches!(engine.tick(), Tick::Continue(500)));
    notifier.notify_success().unwrap();
    let result = engine.run(10);

    assert_eq!(result, Some(Ok(())));
    assert!(engine.finished());
    assert_eq!(
        rendered(engine.display()),
        vec![fade(Led::Cyan), fade(Led::Blank), fade(Led::Green)]
    );
}

/// Same setup but with an orange failure override and the failure reported
/// right after start: exactly one orange render, no pending step rendered
/// before it, and no render of the success color.
#[test]
fn concrete_failure_override_scenario() {
    let transition = Transition::new(&[Led::Cyan, Led::Blank])
        .unwrap()
        .on_failure(&Led::Orange);
    let (mut engine, notifier) = transition.start(Display::spy());

    notifier.notify_failure().unwrap();
    let result = engine.run(10);

    assert_eq!(result, Some(Ok(())));
    let steps = rendered(engine.display());
    assert_eq!(steps, vec![fade(Led::Orange)]);
    assert!(!steps.contains(&fade(Led::Green)));
}

/// Whatever outcome is reported, only the action bound to it is rendered, as
/// the last step of the trace, and it is rendered exactly once however many
/// pending passes ran first.
#[test]
fn signaled_run_renders_chosen_action_once() {
    for passes in [0usize, 1, 3] {
        let transition = Transition::new(&[Led::Yellow]).unwrap();
        let (mut engine, notifier) = transition.start(Display::spy());
        for _ in 0..passes {
            assert!(matches!(engine.tick(), Tick::Continue(500)));
        }
        notifier.notify_success().unwrap();
        assert_eq!(engine.run(10), Some(Ok(())));

        let steps = rendered(engine.display());
        assert_eq!(steps.len(), passes + 1);
        assert_eq!(steps.last(), Some(&fade(Led::Green)));
        assert_eq!(steps.iter().filter(|s| **s == fade(Led::Green)).count(), 1);
        assert_eq!(steps.iter().filter(|s| **s == fade(Led::Red)).count(), 0);
    }
}

/// If notify is never called the engine keeps replaying the pending sequence,
/// in the original order on every pass, and never renders either outcome
/// action.
#[test]
fn no_signal_keeps_replaying_in_order() {
    let transition = Transition::new(&[Led::Cyan, Led::Blank]).unwrap();
    let (mut engine, _notifier) = transition.start(Display::spy());

    let result = engine.run(4);

    assert_eq!(result, None);
    assert!(!engine.finished());
    assert_eq!(
        rendered(engine.display()),
        vec![fade(Led::Cyan), fade(Led::Blank), fade(Led::Cyan), fade(Led::Blank)]
    );
    let steps = rendered(engine.display());
    assert!(!steps.contains(&fade(Led::Green)));
    assert!(!steps.contains(&fade(Led::Red)));
}

/// A display that fails on the third render call aborts the run: the result
/// carries the device error and no render happens after the failing call.
#[test]
fn render_failure_on_third_call_aborts_run() {
    let transition = Transition::new(&[Led::Cyan, Led::Blank]).unwrap();
    let (mut engine, _notifier) = transition.start(Display::spy_failing_after(2));

    let result = engine.run(10);

    assert_eq!(result, Some(Err(TransitionErr::BlinkConnection)));
    assert!(engine.finished());
    assert_eq!(rendered(engine.display()), vec![fade(Led::Cyan), fade(Led::Blank)]);
}

/// A render failure during the terminal action surfaces in the run result and
/// leaves the outcome color unrendered.
#[test]
fn render_failure_on_terminal_action() {
    let transition = Transition::new(&[Led::Cyan, Led::Blank]).unwrap();
    let (mut engine, notifier) = transition.start(Display::spy_failing_after(2));

    assert!(matches!(engine.tick(), Tick::Continue(500)));
    assert!(matches!(engine.tick(), Tick::Continue(500)));
    notifier.notify_failure().unwrap();
    let result = engine.run(10);

    assert_eq!(result, Some(Err(TransitionErr::BlinkConnection)));
    assert_eq!(rendered(engine.display()), vec![fade(Led::Cyan), fade(Led::Blank)]);
}

/// An empty pending sequence renders nothing while waiting, and still renders
/// the outcome action once it is reported.
#[test]
fn empty_pending_sequence_waits_idle() {
    let transition = Transition::new(&[]).unwrap();
    let (mut engine, notifier) = transition.start(Display::spy());

    assert!(matches!(engine.tick(), Tick::Continue(0)));
    assert_eq!(rendered(engine.display()), Vec::new());

    notifier.notify_success().unwrap();
    assert_eq!(engine.run(10), Some(Ok(())));
    assert_eq!(rendered(engine.display()), vec![fade(Led::Green)]);
}

/// A run with no budget does nothing and reports that the engine is still
/// going.
#[test]
fn run_with_no_budget_returns_none() {
    let transition = Transition::new(&[Led::Red]).unwrap();
    let (mut engine, _notifier) = transition.start(Display::spy());

    assert_eq!(engine.run(0), None);
    assert!(!engine.finished());
    assert_eq!(rendered(engine.display()), Vec::new());
}

/// Notifying after the engine has been dropped fails with the notification
/// error, and with that error alone.
#[test]
fn notify_after_engine_dropped_fails() {
    let transition = Transition::new(&[Led::Blue, Led::Blank]).unwrap();
    let (engine, notifier) = transition.start(Display::spy());
    drop(engine);

    assert!(matches!(notifier.notify_success(), Err(TransitionErr::Notification)));
}

/// The failure notification reaches the engine just like the success one.
#[test]
fn notify_failure_renders_failure_action() {
    let transition = Transition::new(&[Led::White]).unwrap();
    let (mut engine, notifier) = transition.start(Display::spy());

    assert!(matches!(engine.tick(), Tick::Continue(500)));
    notifier.notify_failure().unwrap();
    assert_eq!(engine.run(10), Some(Ok(())));
    assert_eq!(rendered(engine.display()), vec![fade(Led::White), fade(Led::Red)]);
}
