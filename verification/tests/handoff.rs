use esp_embassy_wifihelper::{
    connection_later, Action, Command, Credentials, HandOff, Notice, Phase, ReconnectionDriver,
    HAND_OFF_CAPACITY,
};
use embassy_time::Duration;

fn pair(ssid: &str, password: &str) -> Credentials {
    Credentials::new(ssid.to_string(), password.to_string()).unwrap()
}

#[test]
fn hand_off_has_a_single_slot() {
    assert_eq!(HAND_OFF_CAPACITY, 1);
}

#[test]
fn hand_off_starts_empty() {
    let mut slot = HandOff::new();
    assert_eq!(slot.try_receive(), None);
}

#[test]
fn hand_off_delivers_what_was_sent() {
    let mut slot = HandOff::new();
    assert_eq!(slot.try_send(pair("home", "secret")), Ok(()));
    assert_eq!(slot.try_receive(), Some(pair("home", "secret")));
    assert_eq!(slot.try_receive(), None);
}

#[test]
fn hand_off_second_send_does_not_lose_the_first() {
    let mut slot = HandOff::new();
    assert_eq!(slot.try_send(pair("first", "one")), Ok(()));
    // The slot is taken: the second value comes back, untouched.
    assert_eq!(slot.try_send(pair("second", "two")), Err(pair("second", "two")));
    // The first value is delivered, once.
    assert_eq!(slot.try_receive(), Some(pair("first", "one")));
    assert_eq!(slot.try_receive(), None);
    // Now the second value can follow.
    assert_eq!(slot.try_send(pair("second", "two")), Ok(()));
    assert_eq!(slot.try_receive(), Some(pair("second", "two")));
    assert_eq!(slot.try_receive(), None);
}

#[test]
fn hand_off_refuses_every_send_while_taken() {
    let mut slot = HandOff::new();
    assert_eq!(slot.try_send(pair("first", "one")), Ok(()));
    assert_eq!(slot.try_send(pair("second", "two")), Err(pair("second", "two")));
    assert_eq!(slot.try_send(pair("third", "three")), Err(pair("third", "three")));
    assert_eq!(slot.try_receive(), Some(pair("first", "one")));
}

#[test]
fn driver_waits_while_the_slot_is_empty() {
    let mut slot = HandOff::new();
    let mut driver = connection_later();
    assert_eq!(driver.poll_credentials(&mut slot), None);
    assert_eq!(driver.phase(), Phase::Unconfigured);
    assert_eq!(driver.pending(), Action::AwaitCredentials);
    assert!(driver.credentials().is_none());
}

#[test]
fn driver_takes_credentials_from_the_slot() {
    let mut slot = HandOff::new();
    let mut driver = connection_later();
    assert_eq!(slot.try_send(pair("home", "secret")), Ok(()));
    assert_eq!(
        driver.poll_credentials(&mut slot),
        Some(Command { notice: None, action: Action::QueryStarted })
    );
    assert_eq!(driver.phase(), Phase::Probing);
    assert_eq!(driver.credentials(), Some(&pair("home", "secret")));
    // The slot is empty again.
    assert_eq!(slot.try_receive(), None);
}

#[test]
fn driver_with_credentials_leaves_the_slot_alone() {
    let mut slot = HandOff::new();
    let mut driver = connection_later();
    assert_eq!(slot.try_send(pair("home", "secret")), Ok(()));
    assert!(driver.poll_credentials(&mut slot).is_some());
    assert_eq!(slot.try_send(pair("other", "hidden")), Ok(()));
    assert_eq!(driver.poll_credentials(&mut slot), None);
    assert_eq!(driver.credentials(), Some(&pair("home", "secret")));
    assert_eq!(slot.try_receive(), Some(pair("other", "hidden")));
}

#[test]
fn driver_without_budget_is_exhausted_on_delivery() {
    let mut slot = HandOff::new();
    let mut driver = ReconnectionDriver::with_policy(0, Duration::from_millis(5000));
    assert_eq!(slot.try_send(pair("home", "secret")), Ok(()));
    assert_eq!(
        driver.poll_credentials(&mut slot),
        Some(Command { notice: Some(Notice::Exhausted { attempts: 0 }), action: Action::Halt })
    );
    assert_eq!(driver.phase(), Phase::Exhausted);
}
