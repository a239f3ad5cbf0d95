use host_ai_model_backend::ledger::ByteLedger;

#[test]
fn append_append_snapshot_concatenates() {
    let mut led = ByteLedger::new();
    let a: Vec<u8> = vec![1, 2, 3];
    let b: Vec<u8> = vec![4, 5];
    led.append(&a);
    led.append(&b);
    assert_eq!(led.snapshot(), vec![1, 2, 3, 4, 5]);
}

#[test]
fn append_empty_chunk_changes_nothing() {
    let mut led = ByteLedger::new();
    led.append(&vec![9, 8]);
    led.append(&vec![]);
    assert_eq!(led.snapshot(), vec![9, 8]);
}

#[test]
fn clear_then_snapshot_is_empty() {
    let mut led = ByteLedger::new();
    led.append(&vec![1, 2, 3, 4]);
    led.append(&vec![5]);
    led.clear();
    assert_eq!(led.snapshot(), Vec::<u8>::new());
}

#[test]
fn clear_on_fresh_ledger_is_empty() {
    let mut led = ByteLedger::new();
    led.clear();
    assert_eq!(led.snapshot(), Vec::<u8>::new());
}

#[test]
fn append_after_clear_starts_over() {
    let mut led = ByteLedger::new();
    led.append(&vec![1, 2, 3]);
    led.clear();
    led.append(&vec![7]);
    assert_eq!(led.snapshot(), vec![7]);
}

#[test]
fn snapshot_does_not_mutate() {
    let mut led = ByteLedger::new();
    led.append(&vec![1, 2]);
    let s1 = led.snapshot();
    let s2 = led.snapshot();
    assert_eq!(s1, s2);
}
