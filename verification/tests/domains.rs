use registrar_node::domains::{
    authorized_domain_covers, authorized_domains_cover, validate_authorized_domain_list,
    validate_resource_authorized_domains,
};

fn list(names: &[&str]) -> Vec<String> {
    names.iter().map(|name| name.to_string()).collect()
}

#[test]
fn names_cover_themselves_and_what_is_below() {
    assert!(authorized_domain_covers("legal", "legal"));
    assert!(authorized_domain_covers("legal", "legal.contract"));
    assert!(!authorized_domain_covers("legal", "legalese"));
    assert!(!authorized_domain_covers("legal.contract", "legal"));
    assert!(!authorized_domain_covers("legal", "finance"));
}

#[test]
fn lists_are_sorted_and_unique_or_the_wildcard_alone() {
    assert_eq!(validate_authorized_domain_list(&list(&[])), Ok(()));
    assert_eq!(validate_authorized_domain_list(&list(&["*"])), Ok(()));
    assert_eq!(validate_authorized_domain_list(&list(&["finance", "legal"])), Ok(()));
    let refused = Err("invalid_authorized_domains".to_string());
    for names in [
        &["*", "legal"][..],
        &["legal", "finance"][..],
        &["legal", "legal"][..],
        &[""][..],
        &[" "][..],
        &["\u{3000}"][..],
        &[" legal"][..],
        &["legal\u{85}"][..],
        &[".legal"][..],
        &["legal."][..],
        &["legal..contract"][..],
    ] {
        assert_eq!(validate_authorized_domain_list(&list(names)), refused, "{names:?}");
    }
}

#[test]
fn lists_are_covered_name_by_name() {
    assert!(authorized_domains_cover(&list(&[]), &list(&[])));
    assert!(!authorized_domains_cover(&list(&[]), &list(&["legal"])));
    assert!(authorized_domains_cover(&list(&["*"]), &list(&["legal", "*"])));
    assert!(authorized_domains_cover(
        &list(&["finance", "legal"]),
        &list(&["finance.payments", "legal"])
    ));
    assert!(!authorized_domains_cover(
        &list(&["finance"]),
        &list(&["finance.payments", "legal"])
    ));
}

#[test]
fn resources_are_refused_for_their_domains() {
    let verdict = |resource: &[&str], registrar: &[&str]| {
        validate_resource_authorized_domains(&list(resource), &list(registrar))
    };
    assert_eq!(verdict(&["legal"], &["legal"]), Ok(()));
    assert_eq!(verdict(&["legal.contract"], &["legal"]), Ok(()));
    assert_eq!(verdict(&["finance.payments"], &["*"]), Ok(()));
    assert_eq!(verdict(&[], &["*"]), Err("resource_domains_required".to_string()));
    assert_eq!(verdict(&["legal."], &["*"]), Err("invalid_authorized_domains".to_string()));
    assert_eq!(
        verdict(&["legal"], &["legal", "finance"]),
        Err("invalid_authorized_domains".to_string())
    );
    assert_eq!(verdict(&["finance"], &["legal"]), Err("unauthorized_domains".to_string()));
    assert_eq!(verdict(&["*"], &["legal"]), Err("unauthorized_domains".to_string()));
    assert_eq!(verdict(&["*"], &["*"]), Ok(()));
}

#[test]
fn coverage_of_lists_is_transitive() {
    let upper = list(&["legal"]);
    let middle = list(&["legal.contract"]);
    let lower = list(&["legal.contract.review"]);
    assert!(authorized_domains_cover(&upper, &middle));
    assert!(authorized_domains_cover(&middle, &lower));
    assert!(authorized_domains_cover(&upper, &lower));
}
