use smack::registry::Registry;

#[test]
fn register_hands_out_distinct_identities() {
    let mut reg = Registry::new();
    let a = reg.register();
    let b = reg.register();
    let c = reg.register();
    assert_ne!(a, b);
    assert_ne!(a, c);
    assert_ne!(b, c);
    assert_eq!(reg.len(), 3);
    assert_eq!(reg.ids().as_slice(), &[a, b, c]);
}

#[test]
fn failed_writer_is_removed_others_are_kept() {
    let mut reg = Registry::new();
    let a = reg.register();
    let b = reg.register();
    let c = reg.register();
    // The write to the middle subscriber failed.
    reg.apply_write_results(&vec![true, false, true]);
    assert_eq!(reg.ids().as_slice(), &[a, c]);
    let _ = b;
    // The dropped subscriber stays gone on the next fan-out.
    reg.apply_write_results(&vec![true, true]);
    assert_eq!(reg.ids().as_slice(), &[a, c]);
}

#[test]
fn all_writers_failing_empties_the_registry() {
    let mut reg = Registry::new();
    reg.register();
    reg.register();
    reg.apply_write_results(&vec![false, false]);
    assert_eq!(reg.len(), 0);
}

#[test]
fn registration_after_prune_is_still_fresh() {
    let mut reg = Registry::new();
    let a = reg.register();
    reg.apply_write_results(&vec![false]);
    let b = reg.register();
    assert_ne!(a, b);
    assert_eq!(reg.ids().as_slice(), &[b]);
}
