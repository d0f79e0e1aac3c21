use elastic_ermine::catalog::{
    alias_names, combine_catalog_results, combined_scope, index_names,
};
use elastic_ermine::decode::{decode_aliases, decode_indicies};
use elastic_ermine::catalog::{
    apply_filters_update, search_invocation, Context, FilterSelection, FiltersUpdate, SearchType,
};

#[test]
fn both_listings_pass_through_on_success() {
    let r = combine_catalog_results(
        Ok(vec!["logs-1".to_owned()]),
        Ok(vec!["logs".to_owned()]),
    );
    assert_eq!(r.unwrap(), (vec!["logs-1".to_owned()], vec!["logs".to_owned()]));
}

#[test]
fn alias_failure_keeps_the_fetched_indices() {
    let r = combine_catalog_results(Ok(vec!["logs-1".to_owned()]), Err("boom".to_owned()));
    let (msg, indices, aliases) = r.unwrap_err();
    assert_eq!(msg, "Failed to get aliases: boom");
    assert_eq!(indices, Some(vec!["logs-1".to_owned()]));
    assert_eq!(aliases, None);
}

#[test]
fn index_failure_keeps_the_fetched_aliases() {
    let r = combine_catalog_results(Err("down".to_owned()), Ok(vec!["logs".to_owned()]));
    let (msg, indices, aliases) = r.unwrap_err();
    assert_eq!(msg, "Failed to get indicies: down");
    assert_eq!(indices, None);
    assert_eq!(aliases, Some(vec!["logs".to_owned()]));
}

#[test]
fn both_failures_report_both_messages() {
    let r = combine_catalog_results(Err("a".to_owned()), Err("b".to_owned()));
    let (msg, indices, aliases) = r.unwrap_err();
    assert_eq!(msg, "Failed to get indicies: a\n Failed to get aliases: b");
    assert_eq!(indices, None);
    assert_eq!(aliases, None);
}

#[test]
fn name_projections_follow_the_records() {
    let idx = decode_indicies(
        r#"[{"index":"logs-1","uuid":"u1","pri":"1","rep":"0"},{"index":"logs-2","uuid":"u2","pri":"1","rep":"0"}]"#,
    )
    .unwrap();
    assert_eq!(index_names(&idx), vec!["logs-1".to_owned(), "logs-2".to_owned()]);
    let al = decode_aliases(r#"[{"alias":"logs","index":"logs-1"}]"#).unwrap();
    assert_eq!(alias_names(&al), vec!["logs".to_owned()]);
}

#[test]
fn search_scope_appends_aliases_after_indices() {
    let scope = combined_scope(
        vec!["i1".to_owned(), "i2".to_owned()],
        vec!["a1".to_owned()],
    );
    assert_eq!(scope, vec!["i1".to_owned(), "i2".to_owned(), "a1".to_owned()]);
}

#[test]
fn filter_selection_tracks_known_names() {
    let mut sel = FilterSelection::from_names(vec![
        "logs-1".to_owned(),
        "logs-2".to_owned(),
        "logs-1".to_owned(),
    ]);
    assert!(sel.has_name("logs-1"));
    assert!(sel.has_name("logs-2"));
    assert!(!sel.has_name("logs-3"));
    assert!(sel.selected_names().is_empty());
    sel.set_selected("logs-2", true);
    sel.set_selected("logs-3", true);
    assert_eq!(sel.selected_names(), vec!["logs-2".to_owned()]);
    sel.set_selected("logs-1", true);
    assert_eq!(
        sel.selected_names(),
        vec!["logs-1".to_owned(), "logs-2".to_owned()]
    );
    sel.set_selected("logs-2", false);
    assert_eq!(sel.selected_names(), vec!["logs-1".to_owned()]);
}

#[test]
fn filters_update_routes_to_the_named_side() {
    let mut indices = FilterSelection::from_names(vec!["i1".to_owned()]);
    let mut aliases = FilterSelection::from_names(vec!["a1".to_owned()]);
    apply_filters_update(&mut indices, &mut aliases, &FiltersUpdate::AddIndex("i1".to_owned()));
    apply_filters_update(&mut indices, &mut aliases, &FiltersUpdate::AddAlias("a1".to_owned()));
    assert_eq!(indices.selected_names(), vec!["i1".to_owned()]);
    assert_eq!(aliases.selected_names(), vec!["a1".to_owned()]);
    apply_filters_update(&mut indices, &mut aliases, &FiltersUpdate::RemoveIndex("i1".to_owned()));
    assert!(indices.selected_names().is_empty());
    assert_eq!(aliases.selected_names(), vec!["a1".to_owned()]);
}

#[test]
fn search_invocation_follows_the_search_type() {
    let ctx = search_invocation(
        &SearchType::StringSearch,
        "title:quick".to_owned(),
        String::new(),
        vec!["i1".to_owned()],
        vec!["a1".to_owned()],
    );
    match ctx {
        Context::QueryStringSearch { query_string, indices, aliases } => {
            assert_eq!(query_string, "title:quick");
            assert_eq!(indices, vec!["i1".to_owned()]);
            assert_eq!(aliases, vec!["a1".to_owned()]);
        }
        _ => panic!("expected a query string invocation"),
    }
    let ctx2 = search_invocation(
        &SearchType::GenericSearch,
        String::new(),
        "{}".to_owned(),
        Vec::new(),
        Vec::new(),
    );
    assert!(matches!(ctx2, Context::GenericSearch { .. }));
}
