use ptuber::notifier::Notifier;

#[test]
fn callbacks_are_called_in_the_order_of_registration() {
    let mut notifier = Notifier::new();
    let first = notifier.register().unwrap();
    let second = notifier.register().unwrap();
    let third = notifier.register().unwrap();
    assert_eq!(first.id(), 0);
    assert_eq!(second.id(), 1);
    assert_eq!(third.id(), 2);
    assert_eq!(notifier.notify(), vec![0, 1, 2]);
    assert_eq!(notifier.notify(), vec![0, 1, 2]);
    assert_eq!(notifier.len(), 3);
}

#[test]
fn a_dropped_guard_silences_its_callback() {
    let mut notifier = Notifier::new();
    let first = notifier.register().unwrap();
    let second = notifier.register().unwrap();
    let third = notifier.register().unwrap();
    notifier.release(second);
    assert_eq!(notifier.len(), 3);
    assert_eq!(notifier.notify(), vec![first.id(), third.id()]);
    // the dead entry was pruned
    assert_eq!(notifier.len(), 2);
    notifier.release(first);
    notifier.release(third);
    assert!(notifier.notify().is_empty());
    assert_eq!(notifier.len(), 0);
}

#[test]
fn identities_are_not_used_again() {
    let mut notifier = Notifier::new();
    let first = notifier.register().unwrap();
    notifier.release(first);
    assert!(notifier.notify().is_empty());
    let second = notifier.register().unwrap();
    assert_eq!(second.id(), 1);
    assert_eq!(notifier.notify(), vec![1]);
}

#[test]
fn an_empty_registry_delivers_to_nobody() {
    let mut notifier = Notifier::new();
    assert!(notifier.notify().is_empty());
    assert_eq!(notifier.len(), 0);
}
