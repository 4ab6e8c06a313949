use rs_perf_test_helper::retry::{
    interval_default, interval_min, timeout_default, Retry, RetryLike,
};
use rs_perf_test_helper::rpc::common::{Duration as WireDuration, Retry as WireRetry};
use rs_perf_test_helper::status::Code;
use rs_perf_test_helper::time::Duration;

#[test]
fn a_span_is_seconds_and_nanoseconds() {
    let d = Duration::new(2, 500_000_000).unwrap();
    assert_eq!(d.as_secs(), 2);
    assert_eq!(d.subsec_nanos(), 500_000_000);
    assert_eq!(d.as_nanos(), 2_500_000_000);
    assert_eq!(Duration::new(0, 1_000_000_000), None);
    assert_eq!(Duration::new(0, 999_999_999).unwrap().as_nanos(), 999_999_999);
}

#[test]
fn spans_are_made_from_each_unit() {
    assert_eq!(Duration::from_secs(3).as_nanos(), 3_000_000_000);
    assert_eq!(Duration::from_millis(1_500).as_nanos(), 1_500_000_000);
    assert_eq!(Duration::from_micros(100).as_nanos(), 100_000);
    assert_eq!(Duration::from_nanos(1_000_000_001).as_nanos(), 1_000_000_001);
    assert_eq!(Duration::from_nanos(1_000_000_001), Duration::new(1, 1).unwrap());
    assert_eq!(
        Duration::from_secs(u64::MAX).as_nanos(),
        u64::MAX as u128 * 1_000_000_000
    );
    assert_eq!(Duration::from_millis(u64::MAX).as_nanos(), u64::MAX as u128 * 1_000_000);
}

#[test]
fn spans_compare_by_length() {
    let a = Duration::from_millis(100);
    let b = Duration::from_micros(100_001);
    assert!(b.is_longer_than(&a));
    assert!(!a.is_longer_than(&b));
    assert!(!a.is_longer_than(&a));
    assert!(Duration::from_secs(1).is_longer_than(&Duration::new(0, 999_999_999).unwrap()));
    assert_eq!(a.max(b), b);
    assert_eq!(b.max(a), b);
    assert_eq!(a.max(a), a);
}

#[test]
fn a_span_prints_as_the_standard_span_does() {
    assert_eq!(Duration::from_millis(30).pretty(), "30ms");
    assert_eq!(Duration::from_millis(1_500).pretty(), "1.5s");
    assert_eq!(Duration::from_micros(100).pretty(), "100µs");
    assert_eq!(Duration::new(7, 1).unwrap().pretty(), "7.000000001s");
    let d = Duration::new(7, 1).unwrap();
    assert_eq!(d.pretty(), format!("{:#?}", std::time::Duration::new(7, 1)));
}

#[test]
fn the_defaults_are_100_microseconds_and_100_milliseconds() {
    assert_eq!(interval_default().as_nanos(), 100_000);
    assert_eq!(timeout_default().as_nanos(), 100_000_000);
    assert_eq!(interval_min().as_nanos(), 1);
    let r = Retry::new(5, None, None);
    assert_eq!(r.as_retry_max(), 5);
    assert_eq!(r.as_interval(), Duration::from_micros(100));
    assert_eq!(r.as_timeout(), Duration::from_millis(100));
}

#[test]
fn a_policy_keeps_the_spans_it_is_given() {
    let r = Retry::new(3, Some(Duration::from_millis(10)), Some(Duration::from_secs(2)));
    assert_eq!(r.as_retry_max(), 3);
    assert_eq!(r.as_interval(), Duration::from_millis(10));
    assert_eq!(r.as_timeout(), Duration::from_secs(2));
}

#[test]
fn the_interval_is_never_shorter_than_a_nanosecond() {
    let r = Retry::new(3, Some(Duration::from_nanos(0)), Some(Duration::from_nanos(0)));
    assert_eq!(r.as_interval(), Duration::from_nanos(1));
    assert_eq!(r.as_timeout(), Duration::from_nanos(0));
    let r = Retry::new(3, Some(Duration::from_nanos(1)), None);
    assert_eq!(r.as_interval(), Duration::from_nanos(1));
}

#[test]
fn a_wire_policy_is_read_with_its_spans() {
    let w = WireRetry {
        retry_max: 3,
        interval: Some(WireDuration { seconds: 0, nanos: 10_000_000 }),
        timeout: Some(WireDuration { seconds: 1, nanos: 500_000_000 }),
    };
    assert_eq!(w.as_retry_max(), 3);
    assert_eq!(w.as_interval(), Some(Duration::from_millis(10)));
    assert_eq!(w.as_timeout(), Some(Duration::from_millis(1_500)));
    let r = Retry::from(&w);
    assert_eq!(r, Retry::new(3, Some(Duration::from_millis(10)), Some(Duration::from_millis(1_500))));
}

#[test]
fn a_wire_policy_without_spans_gets_the_defaults() {
    let w = WireRetry { retry_max: 0, interval: None, timeout: None };
    let r = Retry::from(&w);
    assert_eq!(r.as_retry_max(), 0);
    assert_eq!(r.as_interval(), Duration::from_micros(100));
    assert_eq!(r.as_timeout(), Duration::from_millis(100));
}

#[test]
fn a_negative_wire_span_counts_as_absent() {
    let w = WireRetry {
        retry_max: 1,
        interval: Some(WireDuration { seconds: -1, nanos: 0 }),
        timeout: Some(WireDuration { seconds: 0, nanos: -5 }),
    };
    assert_eq!(w.as_interval(), None);
    assert_eq!(w.as_timeout(), None);
    let r = Retry::from(&w);
    assert_eq!(r.as_interval(), Duration::from_micros(100));
    assert_eq!(r.as_timeout(), Duration::from_millis(100));
    let least = WireDuration { seconds: i64::MIN, nanos: 0 };
    assert_eq!(least.to_std(), None);
    let nearly = WireDuration { seconds: i64::MIN + 3, nanos: 999_999_999 };
    assert_eq!(nearly.to_std(), None);
}

#[test]
fn a_wire_span_is_brought_to_its_canonical_form() {
    let carried = WireDuration { seconds: 1, nanos: 1_500_000_000 };
    assert_eq!(carried.to_std(), Some(Duration::from_millis(2_500)));
    let mixed = WireDuration { seconds: 1, nanos: -500_000_000 };
    assert_eq!(mixed.to_std(), Some(Duration::from_millis(500)));
    let other = WireDuration { seconds: -1, nanos: 1_500_000_000 };
    assert_eq!(other.to_std(), Some(Duration::from_millis(500)));
    let zero = WireDuration { seconds: 0, nanos: 0 };
    assert_eq!(zero.to_std(), Some(Duration::from_nanos(0)));
    let most = WireDuration { seconds: i64::MAX, nanos: 999_999_999 };
    assert_eq!(most.to_std(), Duration::new(i64::MAX as u64, 999_999_999));
}

#[test]
fn a_policy_must_be_there() {
    let w = WireRetry { retry_max: 2, interval: None, timeout: None };
    assert_eq!(Retry::try_from(Some(&w)), Ok(Retry::new(2, None, None)));
    let e = Retry::try_from::<WireRetry>(None).unwrap_err();
    assert_eq!(e.code(), Code::InvalidArgument);
    assert_eq!(e.message(), "retry missing");
}

/// A policy kept in milliseconds, with a timeout only.
struct Millis {
    tries: u64,
    timeout: u64,
}

impl RetryLike for Millis {
    fn as_retry_max(&self) -> u64 {
        self.tries
    }

    fn as_interval(&self) -> Option<Duration> {
        None
    }

    fn as_timeout(&self) -> Option<Duration> {
        Some(Duration::from_millis(self.timeout))
    }
}

#[test]
fn a_policy_is_read_from_whatever_carries_its_parts() {
    let r = Retry::from(&Millis { tries: 4, timeout: 250 });
    assert_eq!(r.as_retry_max(), 4);
    assert_eq!(r.as_interval(), Duration::from_micros(100));
    assert_eq!(r.as_timeout(), Duration::from_millis(250));
}
