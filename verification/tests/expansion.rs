use derive_lit::expand::expansion_trace;
use derive_lit::expand::replay_appending;
use derive_lit::expand::replay_prepending;
use derive_lit::expand::Call;

#[test]
fn back_insertion_calls_in_literal_order() {
    let trace = expansion_trace(vec![1, 2, 3]);
    assert_eq!(
        trace,
        vec![Call::New, Call::Mutate(1), Call::Mutate(2), Call::Mutate(3)]
    );

    // The macro's value equals a manual new(); push(1); push(2); push(3).
    let mut reference: Vec<i32> = Vec::new();
    reference.push(1);
    reference.push(2);
    reference.push(3);
    assert_eq!(replay_appending(trace), reference);
}

#[test]
fn set_insertion_passes_duplicates_through() {
    let trace = expansion_trace(vec![5, 5, 7, 5]);
    assert_eq!(trace.len(), 5);
    assert_eq!(replay_appending(trace), vec![5, 5, 7, 5]);
}

#[test]
fn front_insertion_calls_in_order_value_reversed() {
    let trace = expansion_trace(vec![1, 2, 3]);
    // Call order is the literal order...
    assert_eq!(
        trace,
        vec![Call::New, Call::Mutate(1), Call::Mutate(2), Call::Mutate(3)]
    );
    // ...but a prepending target holds the reverse, as a manual
    // new(); push_front(1); push_front(2); push_front(3) does.
    let mut reference: Vec<i32> = Vec::new();
    reference.insert(0, 1);
    reference.insert(0, 2);
    reference.insert(0, 3);
    assert_eq!(reference, vec![3, 2, 1]);
    assert_eq!(replay_prepending(trace), reference);
}

#[test]
fn pairwise_insertion_keeps_duplicate_keys() {
    let trace = expansion_trace(vec![("a", 1), ("a", 2)]);
    assert_eq!(
        trace,
        vec![Call::New, Call::Mutate(("a", 1)), Call::Mutate(("a", 2))]
    );
    // Two insert calls, no deduplication by the generator.
    assert_eq!(replay_appending(trace), vec![("a", 1), ("a", 2)]);
}

#[test]
fn empty_literal_is_one_constructor_call_only() {
    let trace = expansion_trace::<i32>(vec![]);
    assert_eq!(trace, vec![Call::New]);
    assert_eq!(replay_appending(trace), Vec::<i32>::new());
}
