use phosphor_core::query::{queries, Query, QueryError, RegionQuery, Revision};
use phosphor_core::value::Args;

#[test]
fn sixb_spellings_are_the_ones_we_registered() {
    let rows = queries();
    for name in ["unseen-regions", "block-regions", "next-region-by"] {
        assert!(
            rows.iter().any(|spec| spec.name == name),
            "6b draws ({name} …) and nothing registers it"
        );
    }
}

#[test]
fn revisions_only_move_forward() {
    let first = Revision::initial();
    let second = first.next();
    assert!(second > first);
    assert_eq!(second.get(), 1);
}

#[test]
fn a_query_knows_its_row() {
    let query = Query::Region(RegionQuery::UnseenRegions { path: None });
    assert_eq!(query.name(), "unseen-regions");
    assert_eq!(query.domain(), "region");
    assert_eq!(query.spec().since.task, "T041");
}

#[test]
fn a_query_round_trips() {
    let query = Query::Region(RegionQuery::UnseenRegions {
        path: Some("src/retry.rs".to_owned()),
    });
    let call = query.to_call();
    assert_eq!(call.name, "unseen-regions");
    assert_eq!(Query::from_call(&call.name, &call.args).unwrap(), query);
}

#[test]
fn an_absent_optional_argument_is_legal() {
    let query = Query::from_call("unseen-regions", &Args::new()).unwrap();
    assert_eq!(query, Query::Region(RegionQuery::UnseenRegions { path: None }));
}

#[test]
fn an_unknown_query_says_so() {
    assert_eq!(
        Query::from_call("everything", &Args::new()).unwrap_err(),
        QueryError::Unknown { name: "everything".to_owned() }
    );
}
