//! Connection reuse policy.

use pg_proto::cleanliness::{CleanlinessEvent, CleanlinessPolicy, IgnoreCleanliness};

#[derive(Default)]
struct RejectLocks(bool);

impl CleanlinessPolicy for RejectLocks {
    fn observe(&mut self, event: &CleanlinessEvent) {
        match event {
            CleanlinessEvent::AdvisoryLockAcquired => self.0 = true,
            CleanlinessEvent::AdvisoryLocksReleased | CleanlinessEvent::ResetComplete => {
                self.0 = false;
            }
            _ => {}
        }
    }

    fn reusable(&self) -> bool {
        !self.0
    }
}

#[test]
fn application_policy_interprets_protocol_evidence() {
    let mut policy = RejectLocks::default();
    policy.observe(&CleanlinessEvent::AdvisoryLockAcquired);
    assert!(!policy.reusable());
    policy.observe(&CleanlinessEvent::AdvisoryLocksReleased);
    assert!(policy.reusable());
}

#[test]
fn ignoring_policy_always_permits_reuse() {
    let mut policy = IgnoreCleanliness::default();
    policy.observe(&CleanlinessEvent::AdvisoryLockAcquired);
    assert!(policy.reusable());
}
