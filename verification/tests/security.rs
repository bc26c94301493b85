use bsproxy::SecurityManager;

const PEER: (u8, u128) = (4, 0x0a00_0001);
const OTHER: (u8, u128) = (6, 1);

#[test]
fn new_manager_is_empty_with_limit_fifteen() {
    let manager = SecurityManager::new();
    assert_eq!(manager.max_per_ip, 15);
    assert_eq!(manager.count(PEER), None);
}

#[test]
fn admits_up_to_the_limit_then_refuses() {
    let mut manager = SecurityManager::new();
    for i in 0..15 {
        assert!(manager.allow_connection(PEER));
        assert_eq!(manager.count(PEER), Some(i + 1));
    }
    assert!(!manager.allow_connection(PEER));
    assert_eq!(manager.count(PEER), Some(15));
    assert!(manager.allow_connection(OTHER));
    assert_eq!(manager.count(OTHER), Some(1));
}

#[test]
fn refused_attempt_still_creates_an_entry() {
    let mut manager = SecurityManager::new();
    manager.max_per_ip = 0;
    assert!(!manager.allow_connection(PEER));
    assert_eq!(manager.count(PEER), Some(0));
}

#[test]
fn release_lowers_the_count_but_not_below_zero() {
    let mut manager = SecurityManager::new();
    assert!(manager.allow_connection(PEER));
    assert!(manager.allow_connection(PEER));
    manager.release(PEER);
    assert_eq!(manager.count(PEER), Some(1));
    manager.release(PEER);
    assert_eq!(manager.count(PEER), Some(0));
    manager.release(PEER);
    assert_eq!(manager.count(PEER), Some(0));
    manager.release(OTHER);
    assert_eq!(manager.count(OTHER), None);
}

#[test]
fn attempt_then_release_restores_the_count() {
    let mut manager = SecurityManager::new();
    assert!(manager.allow_connection(PEER));
    assert!(manager.allow_connection(PEER));
    assert!(manager.allow_connection(PEER));
    manager.release(PEER);
    assert_eq!(manager.count(PEER), Some(2));
}

#[test]
fn released_slot_can_be_taken_again() {
    let mut manager = SecurityManager::new();
    for _ in 0..15 {
        assert!(manager.allow_connection(PEER));
    }
    assert!(!manager.allow_connection(PEER));
    manager.release(PEER);
    assert!(manager.allow_connection(PEER));
    assert_eq!(manager.count(PEER), Some(15));
}

#[test]
fn prune_drops_only_idle_entries() {
    let mut manager = SecurityManager::new();
    assert!(manager.allow_connection(PEER));
    assert!(manager.allow_connection(OTHER));
    manager.release(OTHER);
    manager.prune_idle();
    assert_eq!(manager.count(PEER), Some(1));
    assert_eq!(manager.count(OTHER), None);
    manager.prune_idle();
    assert_eq!(manager.count(PEER), Some(1));
}

#[test]
fn limit_getter_and_setter() {
    let mut manager = SecurityManager::new();
    assert_eq!(manager.max_per_ip(), 15);
    assert!(manager.allow_connection(PEER));
    manager.set_max_per_ip(1);
    assert_eq!(manager.max_per_ip(), 1);
    assert_eq!(manager.max_per_ip, 1);
    assert_eq!(manager.count(PEER), Some(1));
    assert!(!manager.allow_connection(PEER));
}

#[test]
fn count_is_admitted_less_effective_releases() {
    let mut manager = SecurityManager::new();
    manager.set_max_per_ip(2);
    let mut admitted = 0;
    let mut released = 0;
    for step in 0..20 {
        if step % 3 == 2 {
            if manager.count(PEER).unwrap_or(0) > 0 {
                released += 1;
            }
            manager.release(PEER);
        } else if manager.allow_connection(PEER) {
            admitted += 1;
        }
        let count = manager.count(PEER).unwrap_or(0);
        assert_eq!(count, admitted - released);
        assert!(count <= 2);
    }
}

#[test]
fn count_law_holds_when_the_limit_is_raised() {
    let mut manager = SecurityManager::new();
    manager.set_max_per_ip(1);
    let mut admitted = 0;
    let mut released = 0;
    for step in 0..30 {
        if step == 10 {
            manager.set_max_per_ip(3);
        }
        if step == 20 {
            manager.max_per_ip = 5;
        }
        if step % 4 == 3 {
            if manager.count(PEER).unwrap_or(0) > 0 {
                released += 1;
            }
            manager.release(PEER);
        } else if manager.allow_connection(PEER) {
            admitted += 1;
        }
        let count = manager.count(PEER).unwrap_or(0);
        assert_eq!(count, admitted - released);
        assert!(count <= manager.max_per_ip);
    }
}
