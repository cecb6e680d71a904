use alpha_sync::watermark::{filter_new, is_new};

#[test]
fn no_watermark_admits_everything() {
    assert!(is_new(0, None));
    assert!(is_new(i64::MIN, None));
    assert!(is_new(i64::MAX, None));
}

#[test]
fn watermark_boundary_is_idempotent() {
    let w = 1_700_000_000;
    assert!(!is_new(w, Some(w)));
    assert!(is_new(w + 1, Some(w)));
    assert!(!is_new(w - 1, Some(w)));
}

#[test]
fn filter_keeps_only_later_instants_in_order() {
    let times = vec![5, 10, 10, 11, 9, 12];
    let kept = filter_new(&times, Some(10));
    assert_eq!(kept, vec![3, 5]);

    let all = filter_new(&times, None);
    assert_eq!(all, vec![0, 1, 2, 3, 4, 5]);

    let none: Vec<usize> = filter_new(&times, Some(100));
    assert!(none.is_empty());
}
