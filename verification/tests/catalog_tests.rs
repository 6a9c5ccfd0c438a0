use loguinho::catalog::CatalogBuilder;
use loguinho::catalog::PageResponse;

fn page(groups: Option<Vec<Option<&str>>>, token: Option<&str>) -> PageResponse {
    PageResponse {
        groups: groups.map(|gs| gs.into_iter().map(|g| g.map(|s| s.to_string())).collect()),
        next_token: token.map(|s| s.to_string()),
    }
}

#[test]
fn probe_without_token_is_whole_catalog() {
    // First page returns one group and no continuation token: the catalog is
    // that single group and no second request is issued.
    let mut b = CatalogBuilder::new(None, 1, 50);
    let probe = b.next_request().expect("a probe request");
    assert_eq!(probe.page_size, 1);
    assert!(probe.next_token.is_none());
    b.on_page(&page(Some(vec![Some("svc-a")]), None));
    assert!(b.is_done());
    assert!(b.next_request().is_none());
    assert_eq!(b.finish(""), vec!["svc-a".to_string()]);
}

#[test]
fn pages_accumulate_until_token_absent() {
    let mut b = CatalogBuilder::new(None, 1, 50);
    b.on_page(&page(Some(vec![Some("g1")]), Some("t1")));
    assert!(!b.is_done());
    let req = b.next_request().expect("a full-page request");
    assert_eq!(req.page_size, 50);
    assert_eq!(req.next_token.as_deref(), Some("t1"));
    b.on_page(&page(Some(vec![Some("g2"), Some("g3")]), None));
    assert!(b.is_done());
    assert_eq!(
        b.finish(""),
        vec!["g1".to_string(), "g2".to_string(), "g3".to_string()]
    );
}

#[test]
fn absent_group_list_yields_empty_catalog() {
    let mut b = CatalogBuilder::new(None, 1, 50);
    b.on_page(&page(None, None));
    assert!(b.is_done());
    assert!(b.finish("").is_empty());
}

#[test]
fn present_but_empty_page_continues_pagination() {
    let mut b = CatalogBuilder::new(None, 1, 50);
    b.on_page(&page(Some(vec![]), Some("t1")));
    assert!(!b.is_done());
    assert!(b.next_request().is_some());
    b.on_page(&page(Some(vec![Some("g1")]), None));
    assert_eq!(b.finish(""), vec!["g1".to_string()]);
}

#[test]
fn filter_retains_exactly_matching_names() {
    let mut b = CatalogBuilder::new(None, 1, 50);
    b.on_page(&page(
        Some(vec![Some("svc-a"), Some("other"), Some("svc-b")]),
        None,
    ));
    assert_eq!(
        b.finish("svc"),
        vec!["svc-a".to_string(), "svc-b".to_string()]
    );
}

#[test]
fn empty_filter_retains_every_name() {
    let mut b = CatalogBuilder::new(None, 1, 50);
    b.on_page(&page(Some(vec![Some("alpha"), Some("beta")]), None));
    assert_eq!(b.finish(""), vec!["alpha".to_string(), "beta".to_string()]);
}

#[test]
fn nameless_groups_are_dropped() {
    let mut b = CatalogBuilder::new(None, 1, 50);
    b.on_page(&page(Some(vec![None, Some("named")]), None));
    assert_eq!(b.finish(""), vec!["named".to_string()]);
}

#[test]
fn prefix_is_passed_through_to_requests() {
    let b = CatalogBuilder::new(Some("prod-".to_string()), 1, 50);
    let req = b.next_request().expect("a probe request");
    assert_eq!(req.name_prefix.as_deref(), Some("prod-"));
}
