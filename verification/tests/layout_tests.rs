use llmrs::layout::{layer_range, total_size};

#[test]
fn total_size_adds_sizes() {
    assert_eq!(total_size(&[3, 0, 5]), Some(8));
    assert_eq!(total_size(&[]), Some(0));
}

#[test]
fn total_size_reports_overflow() {
    assert_eq!(total_size(&[usize::MAX, 1]), None);
    assert_eq!(total_size(&[usize::MAX, 0]), Some(usize::MAX));
}

#[test]
fn layer_ranges_are_consecutive() {
    assert_eq!(layer_range(0, 10), (0, 10));
    assert_eq!(layer_range(2, 10), (20, 30));
    let (_, end1) = layer_range(1, 7);
    let (start2, _) = layer_range(2, 7);
    assert_eq!(end1, start2);
}
