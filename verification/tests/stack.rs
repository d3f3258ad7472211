use embassy_net::dns::Error;
use embassy_net::tcp::ConnectError;
use embassy_net::{IpAddress, Ipv4Address, Ipv4Cidr, StaticConfigV4};
use embassy_time::Duration;
use esp_embassy_wifihelper::{
    stack_seed, Action, ConnectionWait, CredentialsError, Phase, Unexpected, WaitEvent, WaitPhase,
    WaitStep, WifiStack, POLL_INTERVAL_MS, RETRY_BUDGET,
};

fn lease(last: u8) -> StaticConfigV4 {
    StaticConfigV4 {
        address: Ipv4Cidr::new(Ipv4Address::new(192, 168, 1, last), 24),
        gateway: Some(Ipv4Address::new(192, 168, 1, 1)),
        dns_servers: Default::default(),
    }
}

fn facade() -> WifiStack {
    WifiStack::new_connect_later().0
}

#[test]
fn seed_joins_high_and_low_word() {
    assert_eq!(stack_seed(0, 0), 0);
    assert_eq!(stack_seed(0, 1), 1);
    assert_eq!(stack_seed(1, 0), 0x1_0000_0000);
    assert_eq!(stack_seed(0xdead_beef, 0x0bad_cafe), 0xdead_beef_0bad_cafe);
    assert_eq!(stack_seed(u32::MAX, u32::MAX), u64::MAX);
    assert_eq!(stack_seed(0, u32::MAX), 0xffff_ffff);
    assert_eq!(stack_seed(u32::MAX, 0), 0xffff_ffff_0000_0000);
}

#[test]
fn poll_interval_is_half_a_second() {
    assert_eq!(POLL_INTERVAL_MS, 500);
    let mut wait = facade().wait_for_connected();
    let step = wait.advance(WaitEvent::Link(false)).unwrap();
    assert_eq!(step, WaitStep::Pause(Duration::from_millis(500)));
    match step {
        WaitStep::Pause(span) => assert_eq!(span.as_millis(), 500),
        _ => panic!("the wait should pause"),
    }
}

#[test]
fn facade_polls_every_half_second() {
    let (stack, _) = WifiStack::new("home".to_string(), "secret".to_string()).unwrap();
    assert_eq!(stack.poll_interval(), Duration::from_millis(500));
    assert_eq!(stack.poll_interval().as_millis(), 500);
    assert_eq!(facade().poll_interval().as_millis(), 500);
    let custom = WifiStack::with_poll_interval(Duration::from_millis(50));
    assert_eq!(custom.poll_interval().as_millis(), 50);
    let mut wait = custom.wait_for_connected();
    assert_eq!(
        wait.advance(WaitEvent::Link(false)),
        Ok(WaitStep::Pause(Duration::from_millis(50)))
    );
}

#[test]
fn wait_begins_with_a_look_at_the_link() {
    let wait = facade().wait_for_connected();
    assert_eq!(wait.phase(), WaitPhase::ProbingLink);
    assert_eq!(wait.pending(), Some(WaitStep::QueryLink));
}

#[test]
fn every_wait_is_its_own() {
    let stack = facade();
    let mut first = stack.wait_for_connected();
    assert_eq!(first.advance(WaitEvent::Link(true)), Ok(WaitStep::QueryLease));
    let second = stack.wait_for_connected();
    assert_eq!(first.phase(), WaitPhase::ProbingLease);
    assert_eq!(second.phase(), WaitPhase::ProbingLink);
}

#[test]
fn wait_pauses_while_the_link_is_down() {
    let mut wait = ConnectionWait::new(Duration::from_millis(500));
    for _ in 0..5 {
        assert_eq!(
            wait.advance(WaitEvent::Link(false)),
            Ok(WaitStep::Pause(Duration::from_millis(500)))
        );
        assert_eq!(wait.phase(), WaitPhase::LinkPause);
        assert_eq!(wait.pending(), Some(WaitStep::Pause(Duration::from_millis(500))));
        assert_eq!(wait.advance(WaitEvent::PauseElapsed), Ok(WaitStep::QueryLink));
        assert_eq!(wait.phase(), WaitPhase::ProbingLink);
    }
}

#[test]
fn wait_does_not_return_with_link_up_and_no_lease() {
    let mut wait = facade().wait_for_connected();
    assert_eq!(wait.advance(WaitEvent::Link(true)), Ok(WaitStep::QueryLease));
    for _ in 0..20 {
        assert_eq!(
            wait.advance(WaitEvent::Lease(None)),
            Ok(WaitStep::Pause(Duration::from_millis(500)))
        );
        assert_eq!(wait.phase(), WaitPhase::LeasePause);
        assert_eq!(wait.advance(WaitEvent::PauseElapsed), Ok(WaitStep::QueryLease));
        assert_eq!(wait.phase(), WaitPhase::ProbingLease);
    }
    // As soon as there is a lease, the wait returns exactly that lease.
    assert_eq!(wait.advance(WaitEvent::Lease(Some(lease(20)))), Ok(WaitStep::Ready(lease(20))));
    assert_eq!(wait.phase(), WaitPhase::Ready);
    assert_eq!(wait.pending(), None);
}

#[test]
fn wait_ignores_a_lease_before_the_link_is_up() {
    let mut wait = facade().wait_for_connected();
    assert_eq!(wait.advance(WaitEvent::Lease(Some(lease(20)))), Err(Unexpected));
    assert_eq!(wait.phase(), WaitPhase::ProbingLink);
    assert_eq!(wait.advance(WaitEvent::Link(false)).is_ok(), true);
    assert_eq!(wait.advance(WaitEvent::Lease(Some(lease(20)))), Err(Unexpected));
    assert_eq!(wait.phase(), WaitPhase::LinkPause);
}

#[test]
fn wait_refuses_events_out_of_turn() {
    let mut wait = facade().wait_for_connected();
    assert_eq!(wait.advance(WaitEvent::PauseElapsed), Err(Unexpected));
    assert_eq!(wait.phase(), WaitPhase::ProbingLink);
    assert_eq!(wait.advance(WaitEvent::Link(true)), Ok(WaitStep::QueryLease));
    assert_eq!(wait.advance(WaitEvent::Link(true)), Err(Unexpected));
    assert_eq!(wait.advance(WaitEvent::PauseElapsed), Err(Unexpected));
    assert_eq!(wait.phase(), WaitPhase::ProbingLease);
    assert!(wait.advance(WaitEvent::Lease(None)).is_ok());
    assert_eq!(wait.advance(WaitEvent::Lease(Some(lease(20)))), Err(Unexpected));
    assert_eq!(wait.advance(WaitEvent::Link(true)), Err(Unexpected));
    assert_eq!(wait.phase(), WaitPhase::LeasePause);
}

#[test]
fn wait_is_over_after_the_lease() {
    let mut wait = facade().wait_for_connected();
    assert!(wait.advance(WaitEvent::Link(true)).is_ok());
    assert_eq!(wait.advance(WaitEvent::Lease(Some(lease(7)))), Ok(WaitStep::Ready(lease(7))));
    assert_eq!(wait.advance(WaitEvent::Lease(Some(lease(8)))), Err(Unexpected));
    assert_eq!(wait.advance(WaitEvent::Link(true)), Err(Unexpected));
    assert_eq!(wait.advance(WaitEvent::PauseElapsed), Err(Unexpected));
    assert_eq!(wait.phase(), WaitPhase::Ready);
}

#[test]
fn wait_does_not_look_at_the_link_again() {
    let mut wait = facade().wait_for_connected();
    assert!(wait.advance(WaitEvent::Link(true)).is_ok());
    assert!(wait.advance(WaitEvent::Lease(None)).is_ok());
    // After the pause the wait asks for the lease, not for the link.
    assert_eq!(wait.advance(WaitEvent::PauseElapsed), Ok(WaitStep::QueryLease));
}

#[test]
fn name_query_answers_with_the_first_address() {
    let stack = facade();
    let found = [
        IpAddress::Ipv4(Ipv4Address::new(142, 250, 74, 36)),
        IpAddress::Ipv4(Ipv4Address::new(10, 0, 0, 1)),
    ];
    assert_eq!(
        stack.dns_query(Ok(&found[..])),
        Ok(IpAddress::Ipv4(Ipv4Address::new(142, 250, 74, 36)))
    );
    assert_eq!(
        stack.dns_query(Ok(&found[1..])),
        Ok(IpAddress::Ipv4(Ipv4Address::new(10, 0, 0, 1)))
    );
}

#[test]
fn name_query_hands_the_error_on() {
    let stack = facade();
    assert_eq!(stack.dns_query(Err(Error::Failed)), Err(Error::Failed));
    assert_eq!(stack.dns_query(Err(Error::InvalidName)), Err(Error::InvalidName));
    assert_eq!(stack.dns_query(Err(Error::NameTooLong)), Err(Error::NameTooLong));
}

#[test]
fn connect_hands_the_socket_on() {
    let stack = facade();
    assert_eq!(stack.make_and_connect_tcp_socket("socket", Ok(())), Ok("socket"));
    assert_eq!(stack.make_and_connect_tcp_socket(17u32, Ok(())), Ok(17u32));
}

#[test]
fn connect_hands_the_error_on() {
    let stack = facade();
    assert_eq!(
        stack.make_and_connect_tcp_socket("socket", Err(ConnectError::TimedOut)),
        Err(ConnectError::TimedOut)
    );
    assert_eq!(
        stack.make_and_connect_tcp_socket("socket", Err(ConnectError::ConnectionReset)),
        Err(ConnectError::ConnectionReset)
    );
    assert_eq!(
        stack.make_and_connect_tcp_socket("socket", Err(ConnectError::NoRoute)),
        Err(ConnectError::NoRoute)
    );
    assert_eq!(
        stack.make_and_connect_tcp_socket("socket", Err(ConnectError::InvalidState)),
        Err(ConnectError::InvalidState)
    );
}

#[test]
fn stack_that_connects_at_once_probes_the_radio() {
    let (stack, driver) = WifiStack::new("home".to_string(), "secret".to_string()).unwrap();
    assert_eq!(driver.phase(), Phase::Probing);
    assert_eq!(driver.pending(), Action::QueryStarted);
    assert_eq!(driver.budget(), 10);
    assert_eq!(driver.budget(), RETRY_BUDGET);
    assert_eq!(driver.attempts(), 0);
    assert_eq!(driver.cool_down(), Duration::from_millis(5000));
    assert_eq!(driver.credentials().unwrap().ssid(), "home");
    assert_eq!(driver.credentials().unwrap().password(), "secret");
    assert_eq!(stack.wait_for_connected().pending(), Some(WaitStep::QueryLink));
}

#[test]
fn stack_refuses_credentials_beyond_the_limits() {
    assert_eq!(
        WifiStack::new("s".repeat(33), "secret".to_string()).err(),
        Some(CredentialsError::SsidTooLong)
    );
    assert_eq!(
        WifiStack::new("home".to_string(), "p".repeat(65)).err(),
        Some(CredentialsError::PasswordTooLong)
    );
}

#[test]
fn stack_that_connects_later_waits_for_credentials() {
    let (stack, driver) = WifiStack::new_connect_later();
    assert_eq!(driver.phase(), Phase::Unconfigured);
    assert_eq!(driver.pending(), Action::AwaitCredentials);
    assert_eq!(driver.budget(), 10);
    assert!(driver.credentials().is_none());
    assert_eq!(stack.wait_for_connected().phase(), WaitPhase::ProbingLink);
}

#[test]
fn assembly_prefers_credentials_at_hand() {
    let (_, driver) =
        WifiStack::new_internal(Some("home".to_string()), Some("secret".to_string()), true)
            .unwrap();
    assert_eq!(driver.phase(), Phase::Probing);
    assert_eq!(driver.credentials().unwrap().ssid(), "home");
}

#[test]
fn assembly_with_half_a_pair_waits_for_delivery() {
    let (_, driver) = WifiStack::new_internal(Some("home".to_string()), None, true).unwrap();
    assert_eq!(driver.phase(), Phase::Unconfigured);
    assert!(driver.credentials().is_none());
    let (_, driver) = WifiStack::new_internal(None, Some("secret".to_string()), true).unwrap();
    assert_eq!(driver.phase(), Phase::Unconfigured);
    // Half a pair is not judged by the limits either.
    let (_, driver) = WifiStack::new_internal(Some("s".repeat(40)), None, true).unwrap();
    assert_eq!(driver.phase(), Phase::Unconfigured);
}

#[test]
fn assembly_without_credentials_waits_for_delivery() {
    let (_, driver) = WifiStack::new_internal(None, None, true).unwrap();
    assert_eq!(driver.phase(), Phase::Unconfigured);
    assert_eq!(driver.pending(), Action::AwaitCredentials);
}

#[test]
fn assembly_refuses_a_pair_beyond_the_limits() {
    assert_eq!(
        WifiStack::new_internal(Some("s".repeat(33)), Some("secret".to_string()), true).err(),
        Some(CredentialsError::SsidTooLong)
    );
    assert_eq!(
        WifiStack::new_internal(Some("home".to_string()), Some("p".repeat(65)), false).err(),
        Some(CredentialsError::PasswordTooLong)
    );
}
