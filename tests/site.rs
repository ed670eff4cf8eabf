use mejiro::config::{default_images_dir, BlogOwner, BlogStyles, MejiroConfig};
use mejiro::fingerprint::{css_filename_from_digest, css_filename_with_hash, hex_text};
use mejiro::html::{aside_html, footer_html_for_year, icon_html, index_html, post_html};
use mejiro::meta::{split_front_matter, BlogMeta, Post};
use mejiro::paths::{file_name, name_extension, name_stem, path_stem};
use mejiro::site::{assemble_site, build_search_index, find_name_collision, post_page_path, search_fields, search_meta, sort_posts, text_before};
use mejiro::text::decimal_text;

fn post(name: &str, date: &str) -> Post {
    Post {
        meta: BlogMeta {
            title: format!("Title {}", name),
            topics: vec!["rust".to_string(), "web".to_string()],
            published: true,
            published_at: date.to_string(),
            tldr: Some(format!("About {}", name)),
        },
        html_body: format!("<p>{}</p>\n", name),
        markdown_body: name.to_string(),
        name: name.to_string(),
    }
}

fn config() -> MejiroConfig {
    MejiroConfig {
        owner: BlogOwner::new("Ann", "https://gh/ann", "https://li/ann"),
        site_title: "Ann's Blog".to_string(),
        styles: BlogStyles::new("assets/icon.svg", "style.css"),
        images_dir: default_images_dir(),
    }
}

#[test]
fn index_lists_newest_first() {
    let posts = vec![post("a", "2024-01-01"), post("b", "2024-03-01"), post("c", "2024-02-01")];
    let sorted = sort_posts(posts);
    let dates: Vec<&str> = sorted.iter().map(|p| p.meta.published_at.as_str()).collect();
    assert_eq!(dates, vec!["2024-03-01", "2024-02-01", "2024-01-01"]);
}

#[test]
fn equal_dates_keep_input_order() {
    let posts = vec![post("a", "2024-01-01"), post("b", "2024-05-01"), post("c", "2024-01-01"), post("d", "2024-05-01")];
    let names: Vec<String> = sort_posts(posts).into_iter().map(|p| p.name).collect();
    assert_eq!(names, vec!["b", "d", "a", "c"]);
    assert!(sort_posts(vec![]).is_empty());
}

#[test]
fn lexical_order() {
    assert!(text_before("2024-01-01", "2024-02-01"));
    assert!(!text_before("2024-02-01", "2024-01-01"));
    assert!(!text_before("2024", "2024"));
    assert!(text_before("2024", "2024-01"));
    assert!(text_before("", "a"));
}

#[test]
fn fingerprint_of_stylesheet() {
    assert_eq!(css_filename_with_hash(b""), "style.e3b0c442.css");
    assert_eq!(css_filename_with_hash(b"a long stylesheet").len(), 18);
    assert_eq!(css_filename_with_hash(b"abc"), "style.ba7816bf.css");
    assert_eq!(css_filename_with_hash(b"body{}"), css_filename_with_hash(b"body{}"));
    assert_ne!(css_filename_with_hash(b"body{}"), css_filename_with_hash(b"body{ }"));
    assert_eq!(css_filename_from_digest(&[0x00, 0xff, 0x10, 0xab, 0x99]), "style.00ff10ab.css");
    assert_eq!(hex_text(&[0x0f, 0xa0]), "0fa0");
}

#[test]
fn numbers_in_decimal() {
    assert_eq!(decimal_text(0), "0");
    assert_eq!(decimal_text(2025), "2025");
    assert_eq!(decimal_text(-17), "-17");
    assert_eq!(decimal_text(i64::MIN), i64::MIN.to_string());
}

#[test]
fn fragments() {
    assert_eq!(
        aside_html("Ann", "G", "L", "i.png"),
        "\n<aside>\n  <div class=\"logo\">\n    <img src=\"i.png\" alt=\"Logo\">\n    <span>Ann</span>\n  </div>\n  <nav class=\"links\">\n    <a href=\"/\">Home</a>\n    <a href=\"G\">GitHub</a>\n    <a href=\"L\">LinkedIn</a>\n  </nav>\n</aside>\n"
    );
    assert_eq!(footer_html_for_year("Site", 2024), "\n<footer>\n    <p>&copy; 2024 Site</p>\n</footer>\n");
    assert_eq!(footer_html_for_year("S", -5), "\n<footer>\n    <p>&copy; -5 S</p>\n</footer>\n");
    assert_eq!(icon_html("a/icon.svg"), "<link rel=\"icon\" href=\"/a/icon.svg\" type=\"image/svg+xml\">");
    assert_eq!(icon_html("icon.ico"), "<link rel=\"icon\" href=\"/icon.ico\" type=\"image/x-icon\">");
    assert_eq!(icon_html("icon.JPEG"), "<link rel=\"icon\" href=\"/icon.JPEG\" type=\"image/png\">");
    assert_eq!(icon_html("icon.jpeg"), "<link rel=\"icon\" href=\"/icon.jpeg\" type=\"image/jpeg\">");
    assert_eq!(icon_html("icon"), "<link rel=\"icon\" href=\"/icon\" type=\"image/png\">");
}

#[test]
fn path_parts() {
    assert_eq!(file_name("posts/2024-x.md"), Some("2024-x.md".to_string()));
    assert_eq!(file_name("a/.."), None);
    assert_eq!(path_stem("posts/hello.world.md"), Some("hello.world".to_string()));
    assert_eq!(name_stem(".hidden"), ".hidden");
    assert_eq!(name_extension(".hidden"), None);
    assert_eq!(name_extension("a."), Some("".to_string()));
    assert_eq!(name_extension("a.tar.gz"), Some("gz".to_string()));
}

#[test]
fn post_page_shows_header_and_body() {
    let p = post("hello", "2024-06-01");
    let page = post_html(&p, "Site", "<aside/>", "<footer/>", "<link/>", "../style.1.css");
    assert!(page.contains("<title>Title hello</title>"));
    assert!(page.contains("<meta property=\"og:description\" content=\"About hello\" />"));
    assert!(page.contains("<link rel=\"stylesheet\" href=\"../style.1.css\">"));
    assert!(page.contains("<header>\n  <h1>Title hello</h1>\n  <div class=\"post-meta\">\n    <span class=\"published-at\">2024-06-01</span>\n    <p class=\"summary\">About hello</p>\n  </div>\n</header>"));
    assert!(page.contains("<article>\n        <p>hello</p>\n\n      </article>"));
    let mut q = p.clone();
    q.meta.tldr = None;
    let page = post_html(&q, "Site", "", "", "", "");
    assert!(page.contains("<meta property=\"og:description\" content=\"Site\" />"));
    assert!(!page.contains("summary"));
}

#[test]
fn index_page_entries() {
    let mut p = post("hello", "2024-06-01");
    let page = index_html("My Site", &[p.clone()], "<aside/>", "<footer/>", "<link/>", "style.0a1b2c3d.css");
    assert!(page.contains("<title>My Site</title>\n  <link rel=\"stylesheet\" href=\"style.0a1b2c3d.css\">\n  <link/>\n</head>"));
    assert!(page.contains("        <li>\n          <a href=\"posts/hello.html\"><strong>Title hello</strong></a>\n          <p class=\"summary\">About hello</p>\n          <p class=\"topics\">Tags: rust, web</p>\n          <p class=\"published-at\">Published at: 2024-06-01</p>\n        </li>\n"));
    p.meta.topics.clear();
    p.meta.tldr = None;
    let page = index_html("", &[p], "", "", "", "");
    assert!(page.contains("</strong></a>\n          \n          \n          <p class=\"published-at\">"));
    assert!(page.ends_with("</script>\n\n</body>\n</html>\n"));
}

#[test]
fn search_documents_follow_posts() {
    let p = post("hello", "2024-06-01");
    assert_eq!(post_page_path("x"), "posts/x.html");
    assert_eq!(
        search_fields(&p),
        vec!["Title hello".to_string(), "rust, web".to_string(), "About hello".to_string(), "hello".to_string()]
    );
    let m = search_meta(&p);
    assert_eq!(m.path, "posts/hello.html");
    assert_eq!(m.tags, vec!["rust".to_string(), "web".to_string()]);
    let q = post("other", "2024-01-01");
    let index = build_search_index(&[p, q], vec![serde_json::Value::from(1), serde_json::Value::from(2)]);
    assert_eq!(index.len(), 2);
    assert_eq!(index[0].id, "hello");
    assert_eq!(index[1].id, "other");
    assert_eq!(index[1].meta, serde_json::Value::from(2));
}

#[test]
fn site_pages() {
    let site = assemble_site(&config(), vec![post("old", "2023-01-01"), post("new", "2024-01-01")], "style.abcd0123.css", "<footer/>");
    assert_eq!(site.posts[0].name, "new");
    assert_eq!(site.post_pages.len(), 2);
    assert_eq!(site.post_pages[0].0, "posts/new.html");
    assert!(site.post_pages[0].1.contains("href=\"../style.abcd0123.css\""));
    assert!(site.post_pages[0].1.contains("<img src=\"../icon.svg\" alt=\"Logo\">"));
    assert!(site.post_pages[0].1.contains("<link rel=\"icon\" href=\"/../icon.svg\" type=\"image/svg+xml\">"));
    assert!(site.index_page.contains("<img src=\"assets/icon.svg\" alt=\"Logo\">"));
    assert!(site.index_page.contains("<title>Ann's Blog</title>"));
    assert!(site.index_page.contains("<link rel=\"stylesheet\" href=\"style.abcd0123.css\">"));
    let first = site.index_page.find("posts/new.html").unwrap();
    let second = site.index_page.find("posts/old.html").unwrap();
    assert!(first < second);
}

/// Decodes a metadata block as the application does: every field but
/// `tldr` is required and must have its type.
fn decode(block: &str) -> BlogMeta {
    let v: serde_yaml::Value = serde_yaml::from_str(block).unwrap();
    let text = |k: &str| v.get(k).expect("missing field").as_str().expect("not a string").to_string();
    BlogMeta {
        title: text("title"),
        topics: v
            .get("topics")
            .expect("missing field")
            .as_sequence()
            .expect("not a sequence")
            .iter()
            .map(|x| x.as_str().expect("not a string").to_string())
            .collect(),
        published: v.get("published").expect("missing field").as_bool().expect("not a bool"),
        published_at: text("published_at"),
        tldr: match v.get("tldr") {
            None => None,
            Some(t) if t.is_null() => None,
            Some(t) => Some(t.as_str().expect("not a string").to_string()),
        },
    }
}

#[test]
fn two_documents_one_published() {
    let docs = vec![
        ("2024-06-01-hello.md", "---\ntitle: Hello\ntopics: [rust]\npublished: true\npublished_at: \"2024-06-01\"\n---\n# Hello\n"),
        ("draft.md", "---\ntitle: Draft\ntopics: []\npublished: false\npublished_at: \"2024-07-01\"\n---\nwip\n"),
    ];
    let mut posts = Vec::new();
    for (path, text) in docs {
        let (block, body) = split_front_matter(text).unwrap();
        let name = path_stem(path).unwrap();
        if let Some(p) = Post::from_document(decode(&block), body, name) {
            posts.push(p);
        }
    }
    let site = assemble_site(&config(), posts, "style.00000000.css", "");
    let metas: Vec<serde_json::Value> = site.posts.iter().map(|p| serde_json::Value::from(search_meta(p).path)).collect();
    let index = build_search_index(&site.posts, metas);
    assert_eq!(index.len(), 1);
    assert_eq!(site.post_pages.len(), 1);
    assert_eq!(site.post_pages[0].0, "posts/2024-06-01-hello.html");
    assert_eq!(index[0].id, "2024-06-01-hello");
    assert_eq!(index[0].meta, serde_json::Value::from("posts/2024-06-01-hello.html"));
}

#[test]
fn initial_configuration() {
    let c = MejiroConfig::initial();
    assert_eq!(c.site_title, "My Blog");
    assert_eq!(c.styles.css_file, "style.css");
    assert_eq!(c.styles.icon, "icon.png");
    assert_eq!(c.images_dir, "images");
    assert_eq!(c.owner.name, "Your Name");
}

#[test]
fn default_icon_is_a_png() {
    let icon = mejiro::config::default_icon().unwrap();
    assert_eq!(&icon[..4], &[0x89, b'P', b'N', b'G']);
    assert_eq!(icon.len(), 68);
}

#[test]
fn name_collisions_are_found() {
    let posts = vec![post("a", "2024-01-01"), post("b", "2024-01-02"), post("a", "2024-01-03")];
    assert_eq!(find_name_collision(&posts), Some((0, 2)));
    let later = vec![post("x", "1"), post("y", "1"), post("y", "1"), post("x", "1")];
    assert_eq!(find_name_collision(&later), Some((1, 2)));
    assert_eq!(find_name_collision(&posts[..2]), None);
    assert_eq!(find_name_collision(&[]), None);
}
