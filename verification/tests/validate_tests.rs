use test_generator::validate::{
    compare_final_ram, memory_spans, validation_step, AttemptOutcome, MooRamEntry, RamMismatch,
    ValidationAction,
};

fn e(address: u32, value: u8) -> MooRamEntry {
    MooRamEntry { address, value }
}

#[test]
fn consecutive_entries_form_spans() {
    let entries = [e(0x100, 1), e(0x101, 2), e(0x102, 3), e(0x200, 4), e(0x202, 5), e(0x203, 6)];
    let spans = memory_spans(&entries);
    assert_eq!(spans, vec![(0x100, vec![1, 2, 3]), (0x200, vec![4]), (0x202, vec![5, 6])]);
    // Every value is written once, in order.
    let all: Vec<u8> = spans.iter().flat_map(|s| s.1.clone()).collect();
    assert_eq!(all, vec![1, 2, 3, 4, 5, 6]);
    assert_eq!(memory_spans(&[]), vec![]);
}

#[test]
fn an_entry_at_address_one_first_joins_the_span_at_zero() {
    // The scan starts as if address 0 had been seen.
    assert_eq!(memory_spans(&[e(1, 7), e(2, 8)]), vec![(0, vec![7, 8])]);
}

#[test]
fn final_ram_comparison() {
    let a = [e(1, 1), e(2, 2)];
    assert_eq!(compare_final_ram(&a, &a), Ok(()));
    assert_eq!(compare_final_ram(&a, &a[..1]), Err(RamMismatch::Count { expected: 2, got: 1 }));
    let b = [e(1, 1), e(2, 3)];
    assert_eq!(compare_final_ram(&a, &b), Err(RamMismatch::Entry { index: 1, expected: e(2, 2), got: e(2, 3) }));
}

#[test]
fn attempts_are_bounded() {
    assert_eq!(validation_step(1, 3, AttemptOutcome::Passed, true), ValidationAction::NextTest);
    assert_eq!(validation_step(1, 3, AttemptOutcome::Failed, true), ValidationAction::Retry);
    assert_eq!(validation_step(3, 3, AttemptOutcome::Failed, true), ValidationAction::Abort);
    assert_eq!(validation_step(3, 3, AttemptOutcome::Failed, false), ValidationAction::SkipFile);
}
