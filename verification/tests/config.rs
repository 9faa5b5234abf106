use transition::{Display, Led, Tick, Transition, VisualStep};

fn fade(led: Led) -> VisualStep {
    VisualStep { led, millis: 500 }
}

fn rendered(display: &Display) -> Vec<VisualStep> {
    display.rendered_steps().expect("engine should hold the spy display")
}

#[test]
fn test_clone_of_transition() {
    let transition = Transition::default();
    let other_transition = transition.clone();

    let (mut engine, notifier) = transition.start(Display::spy());
    notifier.notify_failure().unwrap();
    assert_eq!(engine.run(10), Some(Ok(())));

    let (mut engine, notifier) = other_transition.start(Display::spy());
    notifier.notify_success().unwrap();
    assert_eq!(engine.run(10), Some(Ok(())));
}

#[test]
fn test_debug_of_transition() {
    let transition = Transition::default();
    let _ = format!("testing Debug of transition: {:#?}", transition);
}

#[test]
fn test_debug_of_notifier() {
    let transition = Transition::default();
    let (_engine, notifier) = transition.start(Display::spy());
    let _ = format!("testing Debug of notifier: {:#?}", notifier);
}

#[test]
fn test_task_not_executed_when_transition_not_started() {
    let _transition = Transition::default();
    let display = Display::spy();

    let executed = !display.rendered_steps().unwrap().is_empty();
    assert_eq!(false, executed, "Test task was executed");
}

#[test]
fn test_task_was_executed_after_transition_start() {
    let transition = Transition::default();
    let (mut engine, _notifier) = transition.start(Display::spy());

    assert_eq!(engine.run(2), None);

    let executed = !rendered(engine.display()).is_empty();
    assert_eq!(true, executed, "Test task was executed");
}

#[test]
fn test_failure_msg_was_sent_when_failure_notified() {
    let transition = Transition::default();
    let (mut engine, notifier) = transition.start(Display::spy());

    assert_eq!(engine.run(2), None);
    notifier.notify_failure().unwrap();
    assert_eq!(engine.run(10), Some(Ok(())));

    let steps = rendered(engine.display());
    let executed = steps.contains(&fade(Led::Blue));
    assert_eq!(true, executed, "Test task was executed");
    assert_eq!(true, steps.contains(&fade(Led::Red)), "Test failure WAS sent");
    assert_eq!(false, steps.contains(&fade(Led::Green)), "Test success NOT sent");
}

#[test]
fn test_success_msg_was_sent_when_success_notified() {
    let transition = Transition::default();
    let (mut engine, notifier) = transition.start(Display::spy());

    assert_eq!(engine.run(2), None);
    notifier.notify_success().unwrap();
    assert_eq!(engine.run(10), Some(Ok(())));

    let steps = rendered(engine.display());
    let executed = steps.contains(&fade(Led::Blue));
    assert_eq!(true, executed, "Test task was executed");
    assert_eq!(false, steps.contains(&fade(Led::Red)), "Test failure NOT sent");
    assert_eq!(true, steps.contains(&fade(Led::Green)), "Test success WAS sent");
}

/// The default transition blinks blue and blank and keeps the default
/// outcome colors.
#[test]
fn default_transition_blinks_blue_and_blank() {
    let transition = Transition::default();
    let (mut engine, _notifier) = transition.start(Display::spy());

    assert_eq!(engine.run(2), None);
    assert_eq!(rendered(engine.display()), vec![fade(Led::Blue), fade(Led::Blank)]);
}

/// Overriding the success color changes the terminal render and nothing else.
#[test]
fn on_success_overrides_success_color() {
    let transition = Transition::new(&[Led::Pink]).unwrap().on_success(&Led::Cyan);
    let (mut engine, notifier) = transition.start(Display::spy());

    assert!(matches!(engine.tick(), Tick::Continue(500)));
    notifier.notify_success().unwrap();
    assert_eq!(engine.run(10), Some(Ok(())));
    assert_eq!(rendered(engine.display()), vec![fade(Led::Pink), fade(Led::Cyan)]);
}

/// Overriding both outcome colors keeps them independent of each other.
#[test]
fn overrides_are_independent() {
    let transition = Transition::new(&[Led::Blank])
        .unwrap()
        .on_success(&Led::White)
        .on_failure(&Led::Yellow);
    let (mut engine, notifier) = transition.start(Display::spy());

    notifier.notify_failure().unwrap();
    assert_eq!(engine.run(10), Some(Ok(())));
    assert_eq!(rendered(engine.display()), vec![fade(Led::Yellow)]);
}
