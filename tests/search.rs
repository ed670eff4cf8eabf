use mejiro::search::{field_has_word, SearchEngine, SearchPostData, WordSearchEngine};

fn id_meta(id: u32) -> serde_json::Value {
    let mut m = serde_json::Map::new();
    m.insert("id".to_string(), serde_json::Value::from(id));
    serde_json::Value::Object(m)
}

fn make_post(id: u32, fields: &[&str]) -> SearchPostData {
    SearchPostData {
        id: id.to_string(),
        fields: fields.iter().map(|s| s.to_string()).collect(),
        meta: id_meta(id),
    }
}

#[test]
fn search_is_case_insensitive() {
    let posts = vec![make_post(1, &["Hello World"]), make_post(2, &["rust language"])];

    let engine = WordSearchEngine::new(posts);
    let results = engine.search("hello");
    assert_eq!(results.len(), 1);
    assert_eq!(results[0]["id"], 1);

    let results_upper = engine.search("RUST");
    assert_eq!(results_upper.len(), 1);
    assert_eq!(results_upper[0]["id"], 2);
}

#[test]
fn search_matches_complete_words() {
    let posts = vec![make_post(1, &["rust lang"]), make_post(2, &["crust test"])];

    let engine = WordSearchEngine::new(posts);
    let results = engine.search("rust");
    assert_eq!(results.len(), 1);
    assert_eq!(results[0]["id"], 1);
}

#[test]
fn search_returns_empty_for_no_match() {
    let posts = vec![make_post(1, &["hello world"])];
    let engine = WordSearchEngine::new(posts);
    let results = engine.search("absent");
    assert!(results.is_empty());
}

#[test]
fn search_two_documents_scenario() {
    let a = SearchPostData {
        id: "a".to_string(),
        fields: vec!["Hello World".to_string()],
        meta: serde_json::Value::from("a"),
    };
    let b = SearchPostData {
        id: "b".to_string(),
        fields: vec!["rust language".to_string()],
        meta: serde_json::Value::from("b"),
    };
    let engine = WordSearchEngine::new(vec![a, b]);
    assert_eq!(engine.search("hello"), vec![serde_json::Value::from("a")]);
    assert_eq!(engine.search("RUST"), vec![serde_json::Value::from("b")]);
    assert!(engine.search("rus").is_empty());
    assert!(engine.search("").is_empty());
}

#[test]
fn search_keeps_index_order() {
    let posts = vec![
        make_post(1, &["alpha beta"]),
        make_post(2, &["gamma"]),
        make_post(3, &["x", "BETA delta"]),
    ];
    let engine = WordSearchEngine::new(posts);
    let results = engine.search("beta");
    assert_eq!(results, vec![id_meta(1), id_meta(3)]);
    let through_trait = SearchEngine::search(&engine, "beta");
    assert_eq!(through_trait, vec![id_meta(1), id_meta(3)]);
}

#[test]
fn multi_word_query_matches_nothing() {
    let engine = WordSearchEngine::new(vec![make_post(1, &["hello world"])]);
    assert!(engine.search("hello world").is_empty());
}

#[test]
fn words_split_on_any_whitespace() {
    assert!(field_has_word("a\tb\ncd  e", "cd"));
    assert!(field_has_word("x\u{3000}y", "y"));
    assert!(!field_has_word("abc", "b"));
    assert!(!field_has_word("abc", ""));
    assert!(field_has_word("abc", "abc"));
}
