use xnode_deployer::ipv4::{parse_ipv4, Ipv4Address};
use xnode_deployer::readiness::{PollStep, ReadinessPoller};

fn ip(a: u8, b: u8, c: u8, d: u8) -> Ipv4Address {
    Ipv4Address { a, b, c, d }
}

#[test]
fn dotted_quad_accepted() {
    assert_eq!(parse_ipv4("1.2.3.4"), Some(ip(1, 2, 3, 4)));
    assert_eq!(parse_ipv4("255.255.255.255"), Some(ip(255, 255, 255, 255)));
    assert_eq!(parse_ipv4("0.0.0.0"), Some(ip(0, 0, 0, 0)));
    assert_eq!(parse_ipv4("192.168.10.100"), Some(ip(192, 168, 10, 100)));
}

#[test]
fn dotted_quad_rejected() {
    for bad in [
        "", "1.2.3", "1.2.3.4.5", "256.1.1.1", "01.2.3.4", "1.2.3.04", "1..3.4", ".1.2.3",
        "1.2.3.4.", " 1.2.3.4", "1.2.3.4 ", "a.b.c.d", "1.2.3.+4", "1.2.3.1000", "::1",
        "1.2.3.٤", "1111.2.3.4",
    ] {
        assert_eq!(parse_ipv4(bad), None, "{bad:?}");
    }
}

#[test]
fn dotted_quad_more_cases() {
    assert_eq!(parse_ipv4("8.8.8.8"), Some(ip(8, 8, 8, 8)));
    assert_eq!(parse_ipv4("10.0.0.1"), Some(ip(10, 0, 0, 1)));
    assert_eq!(parse_ipv4("00.1.1.1"), None);
    assert_eq!(parse_ipv4("300.1.1.1"), None);
    assert_eq!(parse_ipv4("127.0.0.01"), None);
}

#[test]
fn placeholder_detection() {
    assert!(ip(0, 0, 0, 0).is_unspecified());
    assert!(!ip(0, 0, 0, 1).is_unspecified());
}

#[test]
fn poller_ready_after_placeholders() {
    let mut poller = ReadinessPoller::new(10);
    let observations = [Some(ip(0, 0, 0, 0)), None, Some(ip(0, 0, 0, 0)), Some(ip(5, 6, 7, 8))];
    let mut readies = 0;
    let mut last = PollStep::Wait;
    for o in observations {
        last = poller.observe(o);
        if let PollStep::Ready(_) = last {
            readies += 1;
        }
    }
    assert_eq!(readies, 1);
    assert_eq!(last, PollStep::Ready(ip(5, 6, 7, 8)));
    assert_eq!(poller.polls, 3);
}

#[test]
fn poller_ready_at_once() {
    let mut poller = ReadinessPoller::new(0);
    assert_eq!(poller.observe(Some(ip(1, 1, 1, 1))), PollStep::Ready(ip(1, 1, 1, 1)));
    assert_eq!(poller.polls, 0);
}

#[test]
fn poller_times_out() {
    let mut poller = ReadinessPoller::new(2);
    assert_eq!(poller.observe(None), PollStep::Wait);
    assert_eq!(poller.observe(Some(ip(0, 0, 0, 0))), PollStep::Wait);
    assert_eq!(poller.observe(Some(ip(0, 0, 0, 0))), PollStep::TimedOut);
    assert_eq!(poller.polls, 2);
}
