use plugin_suites::call::{HostCall, HostReply};
use plugin_suites::entry::{SuiteId, SuiteName};
use plugin_suites::error::Error;
use plugin_suites::mask::MaskSuite;
use plugin_suites::registry::Registry;
use plugin_suites::value::Value;

#[test]
fn null_registry_is_unavailable_without_a_call() {
    let registry = Registry::from_raw(0);
    assert!(registry.is_null());
    let started = MaskSuite::new(&registry);
    assert_eq!(started.err(), Some(Error::Unavailable));
}

#[test]
fn acquisition_yields_a_guard_that_releases_the_same_pair() {
    let registry = Registry::from_raw(0x1000);
    let acquire = MaskSuite::new(&registry).unwrap();
    let id = SuiteId { name: SuiteName::Mask, version: 6 };
    assert_eq!(acquire.call(), HostCall::Acquire { registry: 0x1000, suite: id });
    let reply = HostReply::new(0, vec![Value::Handle(0x2000)]);
    assert!(acquire.accepts(&reply));
    let guard = acquire.complete(&reply).unwrap();
    let suite = MaskSuite::from_guard(guard).unwrap();
    assert_eq!(suite.release(), HostCall::Release { registry: 0x1000, suite: id });
}
