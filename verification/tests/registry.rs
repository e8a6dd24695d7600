use subscriber_set::subscriber_set::{RetainPass, SubscriberSet, Subscription};

/// Run a full retain pass over `key`: offer every callback, record it, and
/// keep it iff `keep` says so. Returns the callbacks in the order offered.
fn run_pass(set: &mut SubscriberSet<u64>, key: u64, keep: impl Fn(u64) -> bool) -> Vec<u64> {
    let mut offered = Vec::new();
    match set.retain(key) {
        Some(mut pass) => {
            while let Some(callback) = pass.next_callback() {
                offered.push(callback);
                let keep_it = keep(callback);
                pass.decide(callback, keep_it);
            }
            set.reconcile(pass);
        }
        None => {}
    }
    offered
}

#[test]
fn insert_then_remove_in_registration_order() {
    let mut set: SubscriberSet<u64> = SubscriberSet::new();
    let a = set.insert(7, 10);
    let b = set.insert(7, 20);
    let c = set.insert(7, 30);
    assert_eq!(a.subscriber_id(), 0);
    assert_eq!(b.subscriber_id(), 1);
    assert_eq!(c.subscriber_id(), 2);
    assert_eq!(a.emitter_key(), 7);
    a.detach();
    b.detach();
    c.detach();
    let callbacks = set.remove(7);
    assert_eq!(callbacks, vec![10, 20, 30]);
    // After remove, the key is gone.
    let again = set.remove(7);
    assert!(again.is_empty());
}

#[test]
fn ids_are_never_reused_across_keys() {
    let mut set: SubscriberSet<&'static str> = SubscriberSet::new();
    let a = set.insert(1, "a");
    let b = set.insert(2, "b");
    let c = set.insert(1, "c");
    assert_eq!((a.subscriber_id(), b.subscriber_id(), c.subscriber_id()), (0, 1, 2));
    a.detach();
    b.detach();
    c.detach();
}

#[test]
fn remove_on_empty_key_returns_empty() {
    let mut set: SubscriberSet<u64> = SubscriberSet::new();
    let callbacks = set.remove(42);
    assert!(callbacks.is_empty());
}

#[test]
fn unsubscribe_removes_exactly_one() {
    let mut set: SubscriberSet<u64> = SubscriberSet::new();
    let a = set.insert(7, 10);
    let b = set.insert(7, 20);
    a.detach();
    set.unsubscribe(b);
    let callbacks = set.remove(7);
    assert_eq!(callbacks, vec![10]);
}

#[test]
fn unsubscribing_the_last_callback_prunes_the_key() {
    let mut set: SubscriberSet<u64> = SubscriberSet::new();
    let a = set.insert(7, 10);
    set.unsubscribe(a);
    assert!(set.remove(7).is_empty());
    // The key can be used again afterwards.
    let b = set.insert(7, 11);
    b.detach();
    assert_eq!(set.remove(7), vec![11]);
}

#[test]
fn detach_makes_the_registration_permanent() {
    let mut set: SubscriberSet<u64> = SubscriberSet::new();
    let a = set.insert(7, 10);
    let b = set.insert(7, 20);
    // Detaching consumes the handle: its removal can never run, so both
    // callbacks stay registered.
    a.detach();
    b.detach();
    let callbacks = set.remove(7);
    assert_eq!(callbacks, vec![10, 20]);
}

#[test]
fn retain_keep_all_invokes_each_once_and_keeps_all() {
    let mut set: SubscriberSet<u64> = SubscriberSet::new();
    for tag in [10, 20, 30] {
        set.insert(7, tag).detach();
    }
    let offered = run_pass(&mut set, 7, |_| true);
    assert_eq!(offered, vec![10, 20, 30]);
    // All still registered, in order.
    assert_eq!(set.remove(7), vec![10, 20, 30]);
}

#[test]
fn retain_discards_what_the_predicate_rejects() {
    let mut set: SubscriberSet<u64> = SubscriberSet::new();
    for tag in [10, 20, 30, 40] {
        set.insert(7, tag).detach();
    }
    let offered = run_pass(&mut set, 7, |tag| tag != 20 && tag != 40);
    assert_eq!(offered, vec![10, 20, 30, 40]);
    assert_eq!(set.remove(7), vec![10, 30]);
}

#[test]
fn retain_on_an_empty_key_fires_nothing() {
    let mut set: SubscriberSet<u64> = SubscriberSet::new();
    assert!(set.retain(9).is_none());
}

#[test]
fn insert_during_pass_is_registered_but_not_invoked() {
    let mut set: SubscriberSet<u64> = SubscriberSet::new();
    set.insert(7, 10).detach();
    set.insert(7, 20).detach();
    let mut pass = set.retain(7).expect("the key has subscribers");
    let mut offered = Vec::new();
    while let Some(callback) = pass.next_callback() {
        offered.push(callback);
        if callback == 10 {
            // A callback re-entrantly registers a new one for the same key.
            set.insert(7, 99).detach();
        }
        pass.decide(callback, true);
    }
    set.reconcile(pass);
    // The fresh callback was not offered by the running pass...
    assert_eq!(offered, vec![10, 20]);
    // ...but is registered afterwards, behind the kept ones.
    assert_eq!(set.remove(7), vec![10, 20, 99]);
}

#[test]
fn drop_during_pass_is_deferred_and_final() {
    let mut set: SubscriberSet<u64> = SubscriberSet::new();
    set.insert(7, 10).detach();
    let b = set.insert(7, 20);
    set.insert(7, 30).detach();
    let mut pass = set.retain(7).expect("the key has subscribers");
    let mut b = Some(b);
    let mut offered = Vec::new();
    while let Some(callback) = pass.next_callback() {
        offered.push(callback);
        if callback == 10 {
            // A callback re-entrantly drops another, already-registered
            // subscription of the same key while it is checked out.
            set.unsubscribe(b.take().expect("dropped once"));
        }
        pass.decide(callback, true);
    }
    set.reconcile(pass);
    // Every checked-out callback still fired once in this pass...
    assert_eq!(offered, vec![10, 20, 30]);
    // ...but the dropped registration did not survive it.
    assert_eq!(set.remove(7), vec![10, 30]);
}

#[test]
fn deferred_drops_of_another_key_wait_for_their_own_pass() {
    let mut set: SubscriberSet<u64> = SubscriberSet::new();
    set.insert(1, 10).detach();
    let other = set.insert(2, 77);
    set.insert(2, 88).detach();

    // Check key 2 out, then run a pass over key 1 while key 2's drop is
    // deferred: reconciling key 1 must not consume key 2's record.
    let pass2: RetainPass<u64> = set.retain(2).expect("key two has subscribers");
    set.unsubscribe(other); // deferred: key two is checked out
    let offered1 = run_pass(&mut set, 1, |_| true);
    assert_eq!(offered1, vec![10]);

    let mut pass2 = pass2;
    while let Some(callback) = pass2.next_callback() {
        pass2.decide(callback, true);
    }
    set.reconcile(pass2);
    assert_eq!(set.remove(2), vec![88]);
}

#[test]
fn scenario_three_callbacks_then_reentrant_drop() {
    // Insert callbacks A (id 0), B (id 1), C (id 2) under key K.
    let mut set: SubscriberSet<&'static str> = SubscriberSet::new();
    let k = 5;
    let a = set.insert(k, "A");
    let b = set.insert(k, "B");
    let c = set.insert(k, "C");
    assert_eq!((a.subscriber_id(), b.subscriber_id(), c.subscriber_id()), (0, 1, 2));
    a.detach();
    b.detach();

    // First pass: invoke each callback and keep it.
    let mut pass = set.retain(k).expect("the key has subscribers");
    let mut invoked = Vec::new();
    while let Some(callback) = pass.next_callback() {
        invoked.push(callback);
        pass.decide(callback, true);
    }
    set.reconcile(pass);
    // A, B, C each invoked once, in that order; K still maps to all three.
    assert_eq!(invoked, vec!["A", "B", "C"]);

    // Second pass: B's invocation drops C's subscription.
    let mut c = Some(c);
    let mut pass = set.retain(k).expect("the key still has subscribers");
    while let Some(callback) = pass.next_callback() {
        if callback == "B" {
            set.unsubscribe(c.take().expect("dropped once"));
        }
        pass.decide(callback, true);
    }
    set.reconcile(pass);

    // A further pass invokes only A and B.
    let mut pass = set.retain(k).expect("the key still has subscribers");
    let mut invoked = Vec::new();
    while let Some(callback) = pass.next_callback() {
        invoked.push(callback);
        pass.decide(callback, true);
    }
    set.reconcile(pass);
    assert_eq!(invoked, vec!["A", "B"]);
}

#[test]
fn subscription_reports_its_key_and_id() {
    let mut set: SubscriberSet<u64> = SubscriberSet::new();
    let s: Subscription = set.insert(3, 1);
    assert_eq!(s.emitter_key(), 3);
    assert_eq!(s.subscriber_id(), 0);
    s.detach();
}

#[test]
fn a_pass_that_keeps_nothing_prunes_the_key() {
    let mut set: SubscriberSet<u64> = SubscriberSet::new();
    set.insert(7, 10).detach();
    set.insert(7, 20).detach();
    let offered = run_pass(&mut set, 7, |_| false);
    assert_eq!(offered, vec![10, 20]);
    assert!(set.retain(7).is_none());
    assert!(set.remove(7).is_empty());
}

#[test]
fn a_deferred_drop_never_touches_a_younger_registration() {
    let mut set: SubscriberSet<u64> = SubscriberSet::new();
    let a = set.insert(7, 10);
    // The whole entry is taken; the drop of the old registration arrives
    // late and is deferred.
    let _ = set.remove(7);
    set.unsubscribe(a);
    // A fresh registration gets a fresh id; consuming the deferred record
    // in the next pass must not remove it.
    set.insert(7, 11).detach();
    let offered = run_pass(&mut set, 7, |_| true);
    assert_eq!(offered, vec![11]);
    assert_eq!(set.remove(7), vec![11]);
}

#[test]
fn a_second_pass_on_a_checked_out_key_extracts_nothing() {
    let mut set: SubscriberSet<u64> = SubscriberSet::new();
    set.insert(7, 10).detach();
    let mut first = set.retain(7).expect("the key has subscribers");
    // While the first pass holds the entry, the key is absent: a racing
    // pass sees nothing to fire and leaves the registry untouched.
    assert!(set.retain(7).is_none());
    while let Some(callback) = first.next_callback() {
        first.decide(callback, true);
    }
    set.reconcile(first);
    assert_eq!(set.remove(7), vec![10]);
}
