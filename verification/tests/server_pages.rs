use weaver::server::analyses::{analyses_from, analysis_for, analysis_name, WalkEntry};
use weaver::server::asset_map::AssetMap;
use weaver::server::pages::{display_topic, history_pagination, hud_entries, hud_pagination, search_summary, shown_title, sort_topics, Datum, FoundPage, HudAction, Pagination, TopicInfo, TopicRef};
use weaver::server::templates::{is_template_file, reload_report};

#[test]
fn assets_read_back_what_was_stored() {
    let mut m = AssetMap::build(b"body {}".to_vec());
    assert_eq!(b"body {}".to_vec(), m.asset("weaver.css").unwrap());
    assert_eq!("missing asset", m.asset("other.css").unwrap_err());
    assert_eq!("weaver.css", m.reload(b"p {}".to_vec()));
    assert_eq!(b"p {}".to_vec(), m.asset("weaver.css").unwrap());
    m.insert("logo.svg".into(), b"<svg/>".to_vec());
    assert_eq!(b"<svg/>".to_vec(), m.asset("logo.svg").unwrap());
    assert_eq!(b"p {}".to_vec(), m.asset("weaver.css").unwrap());
    let empty = AssetMap::new();
    assert!(empty.asset("weaver.css").is_err());
}

#[test]
fn analyses_are_html_files_in_title_case() {
    assert_eq!(Some("Daily Commands".to_string()), analysis_name("daily_commands.html"));
    assert_eq!(Some("Top Urls".to_string()), analysis_name("topUrls.html"));
    assert_eq!(None, analysis_name("notes.txt"));
    let a = analysis_for("git-usage.html", "/tmp/git-usage.html").unwrap();
    assert_eq!("Git Usage", a.name);
    assert_eq!("git-usage.html", a.file);
    assert_eq!("/tmp/git-usage.html", a.path);
}

#[test]
fn templates_are_html_or_raw() {
    assert!(is_template_file("base.html"));
    assert!(is_template_file("canned.raw"));
    assert!(!is_template_file("style.css"));
    assert_eq!("base.html hud.html", reload_report(&vec!["base.html".into(), "hud.html".into()]));
    assert_eq!("", reload_report(&Vec::new()));
}

#[test]
fn topics_are_counted_and_sorted() {
    let mut d = Datum { total: 3, matches: Vec::new(), topics: Vec::new() };
    let words = vec!["rust".to_string(), "verus".to_string()];
    d.add_topic(4, &words);
    d.add_topic(7, &vec!["shell".to_string()]);
    d.add_topic(7, &vec!["ignored".to_string()]);
    assert_eq!(2, d.topics.len());
    assert_eq!("rust verus", d.topics[0].display);
    assert_eq!(1, d.topics[0].count);
    assert_eq!(2, d.topics[1].count);
    assert_eq!("shell", d.topics[1].display);
    sort_topics(&mut d.topics);
    assert_eq!(7, d.topics[0].id);
    assert_eq!(4, d.topics[1].id);
    assert_eq!("a b c", display_topic(&vec!["a".into(), "b".into(), "c".into()]));
    let mut t = vec![
        TopicInfo { id: 1, count: 1, display: String::new() },
        TopicInfo { id: 2, count: 5, display: String::new() },
        TopicInfo { id: 3, count: 3, display: String::new() },
        TopicInfo { id: 4, count: 5, display: String::new() },
    ];
    sort_topics(&mut t);
    assert_eq!(vec![5, 5, 3, 1], t.iter().map(|x| x.count).collect::<Vec<_>>());
}

#[test]
fn history_pages() {
    assert_eq!(Pagination { start: Some(800), length: Some(200) }, history_pagination(1000));
    assert_eq!(Pagination { start: Some(-190), length: Some(200) }, history_pagination(10));
    assert_eq!((true, Pagination { start: None, length: None }), hud_pagination(10, Some("git")));
    assert_eq!((false, Pagination { start: Some(-190), length: Some(200) }), hud_pagination(10, Some("")));
    assert_eq!((false, Pagination { start: Some(100), length: Some(200) }), hud_pagination(300, None));
    assert_eq!("********", shown_title(false, "secret"));
    assert_eq!("public", shown_title(true, "public"));
}

fn hud_action(id: usize, location: Option<&str>, name: &str) -> HudAction {
    HudAction { id, when: format!("t{}", id), kind: "shell".into(), location: location.map(String::from), name: name.into() }
}

#[test]
fn hud_rows_are_most_recent_first() {
    let fetched = vec![hud_action(1, Some("/tmp"), "ls"), hud_action(2, None, "http://x"), hud_action(3, Some("/home"), "make")];
    let rows = hud_entries(fetched, &vec![true, true, false]);
    assert_eq!(vec![2, 1], rows.iter().map(|r| r.id).collect::<Vec<_>>());
    assert_eq!("http://x", rows[0].location);
    assert_eq!("/tmp", rows[1].location);
    assert_eq!("ls", rows[1].name);
    assert_eq!("t1", rows[1].when);
    assert!(hud_entries(Vec::new(), &Vec::new()).is_empty());
}

fn topic(id: usize, words: &[&str]) -> TopicRef {
    TopicRef { id, words: words.iter().map(|w| w.to_string()).collect() }
}

#[test]
fn search_results_count_their_topics() {
    let found = vec![
        FoundPage { title: "Rust".into(), url: "http://a".into(), display: true, topics: vec![topic(3, &["lang"]), topic(9, &["web"])] },
        FoundPage { title: "Bank".into(), url: "http://b".into(), display: false, topics: vec![topic(9, &["other", "words"])] },
        FoundPage { title: "Empty".into(), url: "http://c".into(), display: true, topics: Vec::new() },
    ];
    let d = search_summary(42, found);
    assert_eq!(42, d.total);
    assert_eq!(3, d.matches.len());
    assert_eq!("Rust", d.matches[0].title);
    assert_eq!("********", d.matches[1].title);
    assert_eq!("http://b", d.matches[1].url);
    assert_eq!(vec![3, 9], d.matches[0].topic_ids);
    assert!(d.matches[2].topic_ids.is_empty());
    assert_eq!(2, d.topics.len());
    assert_eq!(9, d.topics[0].id);
    assert_eq!(2, d.topics[0].count);
    assert_eq!("web", d.topics[0].display);
    assert_eq!(3, d.topics[1].id);
    assert_eq!(1, d.topics[1].count);
}

#[test]
fn test_search_results() {
    // The index holds one page, "url foo" titled "title bar", shown.
    let found = vec![FoundPage { title: "title bar".into(), url: "url foo".into(), display: true, topics: Vec::new() }];
    let d = search_summary(1, found);
    assert!(d.matches.iter().any(|m| m.title.contains("title bar")));
}

#[test]
fn analyses_are_the_html_files_in_walk_order() {
    let entry = |name: Option<&str>, is_file: bool, path: &str| WalkEntry { name: name.map(String::from), is_file, path: path.into() };
    let entries = vec![
        entry(Some("html"), false, "/a/html"),
        entry(Some("daily_commands.html"), true, "/a/html/daily_commands.html"),
        entry(Some("notes.txt"), true, "/a/html/notes.txt"),
        entry(None, true, "/a/html/bad"),
        entry(Some("git-usage.html"), true, "/a/html/git-usage.html"),
        entry(Some("dir.html"), false, "/a/html/dir.html"),
    ];
    let found = analyses_from(&entries);
    assert_eq!(2, found.len());
    assert_eq!("Daily Commands", found[0].name);
    assert_eq!("daily_commands.html", found[0].file);
    assert_eq!("/a/html/daily_commands.html", found[0].path);
    assert_eq!("Git Usage", found[1].name);
}
