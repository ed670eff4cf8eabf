use mejiro::meta::{parse_front_matter, split_front_matter, BlogMeta, BlogParseError, Post};

/// Decodes a metadata block as the application does: every field but
/// `tldr` is required and must have its type; a failure carries the first
/// line of the message, as for a malformed block.
fn decode(block: &str) -> Result<BlogMeta, BlogParseError> {
    let fail = |m: &str| BlogParseError::yaml_parse_error(m);
    let v: serde_yaml::Value =
        serde_yaml::from_str(block).map_err(|e| fail(&e.to_string()))?;
    let field = |k: &str| v.get(k).ok_or_else(|| fail(&format!("missing field `{}`", k)));
    let text = |k: &str| -> Result<String, BlogParseError> {
        field(k)?.as_str().map(|s| s.to_string()).ok_or_else(|| fail(&format!("{}: invalid type", k)))
    };
    let mut topics = Vec::new();
    for t in field("topics")?.as_sequence().ok_or_else(|| fail("topics: invalid type"))? {
        topics.push(t.as_str().ok_or_else(|| fail("topics: invalid type"))?.to_string());
    }
    let tldr = match v.get("tldr") {
        None => None,
        Some(t) if t.is_null() => None,
        Some(t) => Some(t.as_str().ok_or_else(|| fail("tldr: invalid type"))?.to_string()),
    };
    Ok(BlogMeta {
        title: text("title")?,
        topics,
        published: field("published")?.as_bool().ok_or_else(|| fail("published: invalid type"))?,
        published_at: text("published_at")?,
        tldr,
    })
}

#[test]
fn test_from_markdown_str_invalid_yaml() {
    let markdown = r#"---
title: "Test Post"
topics: ["rust", "blog"
published: true
published_at: "2025-06-07"
---

This is the blog post content.
"#;

    let result = parse_front_matter(markdown);

    match result {
        Err(BlogParseError::YamlParseError(msg)) => {
            assert!(
                msg.contains("while parsing a flow sequence")
                    || msg.contains("did not find expected ',' or ']'")
                    || msg.contains("expected ',' or ']'"),
                "Unexpected error message: {}",
                msg
            );
            assert!(!msg.contains('\n'));
        }
        _ => panic!("Expected YamlParseError, got {:?}", result),
    }
}

#[test]
fn test_from_markdown_str_missing_metadata() {
    let markdown = r#"
# No Front Matter Here

This post does not have any metadata.
"#;

    let result = parse_front_matter(markdown);
    assert!(matches!(result, Err(BlogParseError::MetadataNotFound)));
    assert!(matches!(split_front_matter(markdown), Err(BlogParseError::MetadataNotFound)));
}

#[test]
fn front_matter_splits_block_and_body() {
    let doc = "---\ntitle: A\npublished: true\n---\n\n# Body\ntext\n";
    let (block, body) = split_front_matter(doc).unwrap();
    assert_eq!(block, "title: A\npublished: true");
    assert_eq!(body, "\n# Body\ntext");
}

#[test]
fn front_matter_delimiters_may_carry_whitespace_and_crlf() {
    let doc = "  ---  \r\ntitle: A\r\n\t---\r\nbody\r\n";
    let (block, body) = split_front_matter(doc).unwrap();
    assert_eq!(block, "title: A");
    assert_eq!(body, "body");
}

#[test]
fn front_matter_without_closing_line_has_empty_body() {
    let (block, body) = split_front_matter("---\na: 1\nb: 2").unwrap();
    assert_eq!(block, "a: 1\nb: 2");
    assert_eq!(body, "");
}

#[test]
fn front_matter_must_open_the_document() {
    assert_eq!(split_front_matter(""), Err(BlogParseError::MetadataNotFound));
    assert_eq!(split_front_matter("----\n---\n"), Err(BlogParseError::MetadataNotFound));
    assert_eq!(
        split_front_matter("# Title\n---\na: 1\n---\n"),
        Err(BlogParseError::MetadataNotFound)
    );
}

#[test]
fn yaml_error_keeps_first_line() {
    assert_eq!(
        BlogParseError::yaml_parse_error("bad thing\nat line 3"),
        BlogParseError::YamlParseError("bad thing".to_string())
    );
    assert_eq!(
        BlogParseError::yaml_parse_error(""),
        BlogParseError::YamlParseError("unknown error".to_string())
    );
}

#[test]
fn error_messages() {
    assert_eq!(
        BlogParseError::MetadataNotFound.message(),
        "The markdown file is missing a metadata (YAML) header."
    );
    assert_eq!(
        BlogParseError::YamlParseError("x".to_string()).message(),
        "Failed to parse metadata: x"
    );
    assert_eq!(BlogParseError::IoError("gone".to_string()).message(), "File error: gone");
}

fn meta(published: bool) -> BlogMeta {
    BlogMeta {
        title: "T".to_string(),
        topics: vec![],
        published,
        published_at: "2024-01-01".to_string(),
        tldr: None,
    }
}

#[test]
fn unpublished_document_gives_no_post() {
    let doc = "---\ntitle: T\ntopics: []\npublished: false\npublished_at: \"2024-01-01\"\n---\n# Hi\n";
    let (block, body) = split_front_matter(doc).unwrap();
    let m = decode(&block).unwrap();
    assert!(!m.published);
    assert!(Post::from_document(m, body, "draft".to_string()).is_none());
}

#[test]
fn published_document_is_rendered() {
    let post = Post::from_document(meta(true), "# Hi\n\nSome *text*.".to_string(), "p".to_string())
        .unwrap();
    assert_eq!(post.html_body, "<h1>Hi</h1>\n<p>Some <em>text</em>.</p>\n");
    assert_eq!(post.markdown_body, "# Hi\n\nSome *text*.");
    assert_eq!(post.name, "p");
}

#[test]
fn listing_filter() {
    assert!(meta(false).is_listed(true));
    assert!(!meta(false).is_listed(false));
    assert!(meta(true).is_listed(false));
}

#[test]
fn well_formed_block_is_accepted() {
    let doc = "---\ntitle: A\ntopics: [x, y]\n---\nbody";
    assert_eq!(
        parse_front_matter(doc),
        Ok(("title: A\ntopics: [x, y]".to_string(), "body".to_string()))
    );
    let m = decode("title: A\ntopics: [x, y]\npublished: true\npublished_at: \"2024-01-01\"").unwrap();
    assert_eq!(m.topics, vec!["x".to_string(), "y".to_string()]);
    assert_eq!(m.tldr, None);
    assert_eq!(
        decode("title: A\ntopics: [x]"),
        Err(BlogParseError::YamlParseError("missing field `published`".to_string()))
    );
}

#[test]
fn malformed_block_reports_first_line() {
    let doc = "---\nkey: [unclosed\n---\n";
    match parse_front_matter(doc) {
        Err(BlogParseError::YamlParseError(msg)) => {
            assert!(!msg.is_empty());
            assert!(!msg.contains('\n'));
        }
        other => panic!("expected a YAML error, got {:?}", other),
    }
}

#[test]
fn new_post_scaffold() {
    let m = BlogMeta::new_post("2025-01-02");
    assert_eq!(m.title, "New Post");
    assert!(m.topics.is_empty());
    assert!(!m.published);
    assert_eq!(m.published_at, "2025-01-02");
    assert_eq!(m.tldr, Some("A short summary here.".to_string()));
    assert_eq!(mejiro::meta::new_post_file_name("20250102", "aB3xZ"), "20250102-aB3xZ.md");
    let doc = mejiro::meta::new_post_document("title: New Post\n");
    assert_eq!(doc, "---\ntitle: New Post\n---\n\n# New Post\n\nWrite your content here!\n");
    let (block, body) = split_front_matter(&doc).unwrap();
    assert_eq!(block, "title: New Post");
    assert_eq!(body, "\n# New Post\n\nWrite your content here!");
}
