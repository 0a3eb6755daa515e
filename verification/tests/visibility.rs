use leptos_use::visibility::ElementVisibility;

#[test]
fn not_visible_before_first_report() {
    assert!(!ElementVisibility::new().is_visible());
}

#[test]
fn first_entry_decides() {
    let mut v = ElementVisibility::new();
    v.intersection_observed(&vec![true, false]);
    assert!(v.is_visible());
    v.intersection_observed(&vec![false, true]);
    assert!(!v.is_visible());
}
