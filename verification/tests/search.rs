use weaver::server::api::{browser_action_from_last, build_urls, merge_recommendations, restrictions_from, search_listing, code_reply, first_run_from_count, is_first_run};
use weaver::entities::FormattedAction;
use std::sync::atomic::AtomicUsize;

#[test]
fn test_resource() {
    let matches = vec![("url foo".to_string(), "title bar".to_string())];
    assert_eq!(&search_listing(&matches), "url foo title bar\n");
}

#[test]
fn search_listing_has_one_line_per_match() {
    let matches = vec![
        ("http://a".to_string(), "A".to_string()),
        ("http://b".to_string(), "B b".to_string()),
    ];
    assert_eq!("http://a A\nhttp://b B b\n", search_listing(&matches));
    assert_eq!("", search_listing(&Vec::new()));
}

#[test]
fn build_urls_keeps_present_urls_in_order() {
    let all = vec![Some("a".to_string()), None, Some("c".to_string())];
    assert_eq!(vec!["a".to_string(), "c".to_string()], build_urls(&all));
    let r = restrictions_from(&all, &vec![None]);
    assert_eq!(vec!["a".to_string(), "c".to_string()], r.do_not_log);
    assert!(r.do_index.is_empty());
}

fn named(name: &str) -> FormattedAction {
    FormattedAction { name: name.into(), ..Default::default() }
}

#[test]
fn recommendations_are_filled_with_recent_history() {
    let historical = vec![named("h1"), named("h2"), named("h3")];
    let recs = vec![named("r1")];
    let out = merge_recommendations(&historical, recs, Some(3));
    let names: Vec<String> = out.iter().map(|a| a.name.clone()).collect();
    assert_eq!(vec!["r1", "h3", "h2"], names);

    let out = merge_recommendations(&historical, vec![named("r1")], None);
    assert_eq!(4, out.len());

    // More recommendations than asked for: no history follows.
    let out = merge_recommendations(&historical, vec![named("r1"), named("r2")], Some(1));
    assert_eq!(2, out.len());
    let out = merge_recommendations(&historical, vec![named("r1")], Some(0));
    assert_eq!(1, out.len());
    let out = merge_recommendations(&historical, vec![named("r1")], Some(-3));
    assert_eq!(1, out.len());

    let out = merge_recommendations(&historical, vec![named("r1")], Some(1));
    assert_eq!(1, out.len());
}

#[test]
fn last_url_reply() {
    let a = browser_action_from_last(Some(("http://x".into(), "/home".into())));
    assert_eq!("http://x", a.url);
    assert_eq!("/home", a.transition_type);
    let b = browser_action_from_last(None);
    assert_eq!("", b.url);
    assert_eq!("", b.transition_type);
}

#[test]
fn replies_and_runs() {
    assert_eq!("17", code_reply(17));
    assert_eq!("0", code_reply(0));
    assert!(!first_run_from_count(0));
    assert!(first_run_from_count(1));
    assert!(!first_run_from_count(2));
    let counter = AtomicUsize::new(0);
    let runs: Vec<bool> = (0..4).map(|_| is_first_run(&counter)).collect();
    assert_eq!(vec![false, true, false, false], runs);
}

#[test]
fn test_recommendations() {
    // One stored action, "foo", which the recommender also returns.
    let historical = vec![named("foo")];
    let out = merge_recommendations(&historical, vec![named("foo")], None);
    assert_eq!(historical.len(), 1);
    assert_eq!(out.len(), 2);
    assert_eq!(&out[0].name, "foo");
}
