use torca::provider_selection::{check_composition, check_selection};

#[test]
fn unavailable_provider_is_rejected_at_the_single_selection_boundary() {
    let included = vec!["iroh".to_owned()];
    assert_eq!(
        check_selection("memory", &included, false, false),
        Err("communication provider 'memory' is not included in this native artifact".to_owned())
    );
    assert_eq!(check_selection("iroh", &included, false, false), Ok(()));
    assert_eq!(
        check_selection("iroh", &included, true, false),
        Err("selected communication provider requires a rendezvous endpoint".to_owned())
    );
    assert_eq!(check_selection("iroh", &included, true, true), Ok(()));
}

#[test]
fn a_composed_provider_must_carry_the_selected_identity() {
    assert_eq!(check_composition("iroh", "iroh", "iroh", "iroh", "iroh"), Ok(()));
    assert_eq!(
        check_composition("iroh", "tor", "iroh", "iroh", "iroh"),
        Err("provider plugin metadata mismatch".to_owned())
    );
    assert_eq!(
        check_composition("iroh", "iroh", "iroh", "iroh", "tor"),
        Err("provider composition mismatch: selected=iroh, bundle=iroh, lifecycle=tor".to_owned())
    );
}
