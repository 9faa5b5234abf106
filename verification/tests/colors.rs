use transition::{BlinkTask, Led, TransitionErr, VisualStep, HOLD_MILLIS};

#[test]
fn rgb_values_of_every_color() {
    assert_eq!(Led::Red.rgb(), (255, 0, 0));
    assert_eq!(Led::Green.rgb(), (0, 255, 0));
    assert_eq!(Led::Blue.rgb(), (0, 0, 255));
    assert_eq!(Led::Yellow.rgb(), (255, 255, 0));
    assert_eq!(Led::Orange.rgb(), (255, 165, 0));
    assert_eq!(Led::Pink.rgb(), (255, 192, 203));
    assert_eq!(Led::Cyan.rgb(), (0, 255, 255));
    assert_eq!(Led::White.rgb(), (255, 255, 255));
    assert_eq!(Led::Blank.rgb(), (0, 0, 0));
}

#[test]
fn fade_uses_the_standard_hold() {
    assert_eq!(HOLD_MILLIS, 500);
    let step = VisualStep::fade(Led::Pink);
    assert_eq!(step, VisualStep { led: Led::Pink, millis: 500 });
}

#[test]
fn blink_task_keeps_colors_in_order() {
    let task = BlinkTask::new(&[Led::Red, Led::Orange, Led::Blank]).unwrap();
    assert_eq!(task.len(), 3);
    assert_eq!(task.step_at(0), VisualStep { led: Led::Red, millis: 500 });
    assert_eq!(task.step_at(1), VisualStep { led: Led::Orange, millis: 500 });
    assert_eq!(task.step_at(2), VisualStep { led: Led::Blank, millis: 500 });
}

#[test]
fn error_messages() {
    assert_eq!(
        TransitionErr::BlinkConnection.message(),
        "cannot contact blink(1) device"
    );
    assert_eq!(TransitionErr::Notification.message(), "cannot notify second thread");
    assert_ne!(TransitionErr::BlinkConnection, TransitionErr::Notification);
}
