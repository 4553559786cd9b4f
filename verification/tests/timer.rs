use little_stomper::timer::{TimerCommand, TimerEvent, TimerState, TimerWait};

#[test]
fn default_timer_does_not_fire() {
    let timer = TimerState::default();
    assert_eq!(TimerWait { sleep_millis: None, listen: true }, timer.wait());
}

#[test]
fn it_fires_if_elapsed() {
    let mut timer = TimerState::create(5000);
    assert_eq!(TimerWait { sleep_millis: Some(5000), listen: true }, timer.wait());
    assert!(timer.on_event(TimerEvent::Elapsed));
    // It keeps firing at the same period.
    assert_eq!(Some(5000), timer.wait().sleep_millis);
    assert!(timer.on_event(TimerEvent::Elapsed));
}

#[test]
fn reset_does_not_fire_and_keeps_period() {
    let mut timer = TimerState::create(5000);
    assert!(!timer.on_event(TimerEvent::Command(TimerCommand::Reset)));
    assert_eq!(TimerState::create(5000), timer);
}

#[test]
fn it_changes_period() {
    let mut timer = TimerState::create(5000);
    assert!(!timer.on_event(TimerEvent::Command(TimerCommand::ChangePeriod(2000))));
    assert_eq!(TimerWait { sleep_millis: Some(2000), listen: true }, timer.wait());
    assert!(!timer.on_event(TimerEvent::Command(TimerCommand::ChangePeriod(0))));
    assert_eq!(None, timer.wait().sleep_millis);
}

#[test]
fn closed_commands_keep_firing() {
    let mut timer = TimerState::create(300);
    assert!(!timer.on_event(TimerEvent::CommandsClosed));
    assert_eq!(TimerWait { sleep_millis: Some(300), listen: false }, timer.wait());
    assert!(timer.on_event(TimerEvent::Elapsed));
}
