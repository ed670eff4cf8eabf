use mejiro::code_block::{code_include_paths, expand_code_includes, infer_language_from_path, language_for_extension};

#[test]
fn test_infer_language_from_path() {
    assert_eq!(infer_language_from_path("main.py"), "python");
    assert_eq!(infer_language_from_path("app.rs"), "rust");
    assert_eq!(infer_language_from_path("index.js"), "javascript");
    assert_eq!(infer_language_from_path("App.tsx"), "typescript");
    assert_eq!(infer_language_from_path("test.go"), "go");
    assert_eq!(infer_language_from_path("unknown.xyz"), "");
}

#[test]
fn infer_language_needs_an_extension() {
    assert_eq!(infer_language_from_path("Makefile"), "");
    assert_eq!(infer_language_from_path(".bashrc"), "");
    assert_eq!(infer_language_from_path("dir.rs/notes"), "");
    assert_eq!(infer_language_from_path("src/lib.rs"), "rust");
    assert_eq!(language_for_extension("kts"), "kotlin");
    assert_eq!(language_for_extension("hpp"), "cpp");
}

#[test]
fn test_preprocess_code_includes() {
    let markdown = "# Test\n\n@code[test.py]\n\nSome text";
    assert_eq!(code_include_paths(markdown), vec!["test.py".to_string()]);
    let contents = vec![Some("def hello():\n    print('Hello, World!')\n".to_string())];
    let result = expand_code_includes(markdown, &contents);

    assert!(result.contains("```python"));
    assert!(result.contains("def hello():"));
    assert!(result.contains("print('Hello, World!')"));
    assert!(result.contains("Some text"));
    assert_eq!(
        result,
        "# Test\n\n```python\ndef hello():\n    print('Hello, World!')\n\n```\n\nSome text"
    );
}

#[test]
fn test_preprocess_code_includes_missing_file() {
    let markdown = "@code[nonexistent.py]";
    let result = expand_code_includes(markdown, &vec![None]);
    assert_eq!(result, "@code[nonexistent.py]");
}

#[test]
fn test_preprocess_no_code_includes() {
    let markdown = "# Test\n\nJust regular markdown content.";
    assert!(code_include_paths(markdown).is_empty());
    let result = expand_code_includes(markdown, &vec![]);
    assert_eq!(result, markdown);
}

#[test]
fn unclosed_directive_is_kept_as_text() {
    let markdown = "a @code[x.rs and @code[y.go";
    assert!(code_include_paths(markdown).is_empty());
    assert_eq!(expand_code_includes(markdown, &vec![]), markdown);
}

#[test]
fn directives_take_contents_in_order() {
    let markdown = "@code[a.rs] @code[b.txt] @code[c.go]";
    assert_eq!(
        code_include_paths(markdown),
        vec!["a.rs".to_string(), "b.txt".to_string(), "c.go".to_string()]
    );
    let contents = vec![Some("fn a() {}".to_string()), Some("plain".to_string()), None];
    assert_eq!(
        expand_code_includes(markdown, &contents),
        "```rust\nfn a() {}\n``` ```\nplain\n``` @code[c.go]"
    );
}
