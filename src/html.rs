//! The HTML fragments and pages of the site, assembled from fixed templates.

use vstd::prelude::*;
use crate::meta::Post;
use crate::paths::{chars_equal, extension_of_path, path_extension, text_is};
use crate::text::{chars_of, decimal_of, decimal_text, join_strings, join_with, strings_view};

verus! {

pub const ASIDE_A: &'static str = "\n<aside>\n  <div class=\"logo\">\n    <img src=\"";
pub const ASIDE_B: &'static str = "\" alt=\"Logo\">\n    <span>";
pub const ASIDE_C: &'static str = "</span>\n  </div>\n  <nav class=\"links\">\n    <a href=\"/\">Home</a>\n    <a href=\"";
pub const ASIDE_D: &'static str = "\">GitHub</a>\n    <a href=\"";
pub const ASIDE_E: &'static str = "\">LinkedIn</a>\n  </nav>\n</aside>\n";

pub open spec fn aside_spec(name: Seq<char>, github: Seq<char>, linkedin: Seq<char>, icon: Seq<char>) -> Seq<char> {
    ASIDE_A@ + icon + ASIDE_B@ + name + ASIDE_C@ + github + ASIDE_D@ + linkedin + ASIDE_E@
}

/// The side bar: the owner's icon and name, and links home and to the
/// owner's profiles.
pub fn aside_html(owner_name: &str, owner_github_link: &str, owner_linkedin_link: &str, icon_path: &str) -> (r: String)
    ensures
        r@ == aside_spec(owner_name@, owner_github_link@, owner_linkedin_link@, icon_path@),
{
    let mut r = String::from_str(ASIDE_A);
    r.append(icon_path);
    r.append(ASIDE_B);
    r.append(owner_name);
    r.append(ASIDE_C);
    r.append(owner_github_link);
    r.append(ASIDE_D);
    r.append(owner_linkedin_link);
    r.append(ASIDE_E);
    r
}

pub const FOOTER_A: &'static str = "\n<footer>\n    <p>&copy; ";
pub const FOOTER_B: &'static str = "</p>\n</footer>\n";

pub open spec fn footer_spec(site_title: Seq<char>, year: int) -> Seq<char> {
    FOOTER_A@ + decimal_of(year) + " "@ + site_title + FOOTER_B@
}

/// The footer for the given year.
pub fn footer_html_for_year(site_title: &str, year: i32) -> (r: String)
    ensures
        r@ == footer_spec(site_title@, year as int),
{
    let mut r = String::from_str(FOOTER_A);
    let y = decimal_text(year as i64);
    r.append(y.as_str());
    r.append(" ");
    r.append(site_title);
    r.append(FOOTER_B);
    r
}

/// The media type announced for an icon with the given extension.
pub open spec fn icon_type_of(ext: Option<Seq<char>>) -> Seq<char> {
    match ext {
        Some(e) => if e == "png"@ {
            "image/png"@
        } else if e == "ico"@ {
            "image/x-icon"@
        } else if e == "svg"@ {
            "image/svg+xml"@
        } else if e == "jpg"@ || e == "jpeg"@ {
            "image/jpeg"@
        } else {
            "image/png"@
        },
        None => "image/png"@,
    }
}

pub const ICON_A: &'static str = "<link rel=\"icon\" href=\"/";
pub const ICON_B: &'static str = "\" type=\"";
pub const ICON_C: &'static str = "\">";

pub open spec fn icon_spec(icon_path: Seq<char>, icon_type: Seq<char>) -> Seq<char> {
    ICON_A@ + icon_path + ICON_B@ + icon_type + ICON_C@
}

/// The media type of an icon, from its extension.
pub fn icon_type(ext: Option<&str>) -> (r: &'static str)
    ensures
        r@ == icon_type_of(
            match ext {
                Some(e) => Some(e@),
                None => None,
            },
        ),
{
    match ext {
        Some(e) => {
            let c = chars_of(e);
            if text_is(&c, "png") {
                "image/png"
            } else if text_is(&c, "ico") {
                "image/x-icon"
            } else if text_is(&c, "svg") {
                "image/svg+xml"
            } else if text_is(&c, "jpg") || text_is(&c, "jpeg") {
                "image/jpeg"
            } else {
                "image/png"
            }
        },
        None => "image/png",
    }
}

/// The `<link rel="icon">` element for an icon at `icon_path` under the site root.
pub fn icon_html(icon_path: &str) -> (r: String)
    ensures
        r@ == icon_spec(icon_path@, icon_type_of(extension_of_path(icon_path@))),
{
    let ext = path_extension(icon_path);
    let t = match &ext {
        Some(e) => icon_type(Some(e.as_str())),
        None => icon_type(None),
    };
    let mut r = String::from_str(ICON_A);
    r.append(icon_path);
    r.append(ICON_B);
    r.append(t);
    r.append(ICON_C);
    r
}


pub const POST_A: &'static str = r#"<!DOCTYPE html>
<html lang="en">
<head>
  <meta charset="UTF-8" />
  <meta name="viewport" content="width=device-width, initial-scale=1.0" />
  <title>"#;
pub const POST_B: &'static str = r#"</title>
  <meta property="og:title" content=""#;
pub const POST_C: &'static str = r#"" />
  <meta property="og:description" content=""#;
pub const POST_D: &'static str = r#"" />
  <meta property="og:type" content="article" />
  <meta property="og:site_name" content=""#;
pub const POST_E: &'static str = r#"" />
  <link rel="stylesheet" href=""#;
pub const POST_F: &'static str = r#"">
  <link rel="stylesheet" href="https://cdn.jsdelivr.net/npm/prismjs@1.29.0/themes/prism-tomorrow.min.css">
  <script src="https://cdn.jsdelivr.net/npm/prismjs@1.29.0/components/prism-core.min.js"></script>
  <script src="https://cdn.jsdelivr.net/npm/prismjs@1.29.0/plugins/autoloader/prism-autoloader.min.js"></script>
  <script>
    // Load languages on demand from the CDN
    if (window.Prism && Prism.plugins.autoloader) {
      Prism.plugins.autoloader.languages_path = "https://cdn.jsdelivr.net/npm/prismjs@1.29.0/components/";
    }
  </script>
  "#;
pub const POST_G: &'static str = r#"
</head>
<body>
  <div class="container">
    "#;
pub const POST_H: &'static str = r#"
    <main>
      "#;
pub const POST_I: &'static str = r#"
      <article>
        "#;
pub const POST_J: &'static str = r#"
      </article>
    </main>
  </div>
  "#;
pub const POST_K: &'static str = r#"
  <script>Prism.highlightAll();</script>
</body>
</html>
"#;

pub const HEADER_A: &'static str = "<header>\n  <h1>";
pub const HEADER_B: &'static str = "</h1>\n  <div class=\"post-meta\">\n    <span class=\"published-at\">";
pub const HEADER_C: &'static str = "</span>\n    ";
pub const HEADER_D: &'static str = "\n  </div>\n</header>";
pub const SUMMARY_A: &'static str = "<p class=\"summary\">";
pub const SUMMARY_B: &'static str = "</p>";

/// The summary paragraph, or nothing when there is no summary.
pub open spec fn summary_spec(tldr: Option<String>) -> Seq<char> {
    match tldr {
        Some(t) => SUMMARY_A@ + t@ + SUMMARY_B@,
        None => Seq::empty(),
    }
}

/// A post page's header: title, publication date and summary.
pub open spec fn header_spec(p: Post) -> Seq<char> {
    HEADER_A@ + p.meta.title@ + HEADER_B@ + p.meta.published_at@ + HEADER_C@ + summary_spec(p.meta.tldr)
        + HEADER_D@
}

/// The page description: the post's summary, or else the site title.
pub open spec fn description_spec(p: Post, site_title: Seq<char>) -> Seq<char> {
    match p.meta.tldr {
        Some(t) => t@,
        None => site_title,
    }
}

pub open spec fn post_spec(
    p: Post,
    site_title: Seq<char>,
    aside: Seq<char>,
    footer: Seq<char>,
    icon: Seq<char>,
    css: Seq<char>,
) -> Seq<char> {
    POST_A@ + p.meta.title@ + POST_B@ + p.meta.title@ + POST_C@ + description_spec(p, site_title) + POST_D@
        + site_title + POST_E@ + css + POST_F@ + icon + POST_G@ + aside + POST_H@ + header_spec(p)
        + POST_I@ + p.html_body@ + POST_J@ + footer + POST_K@
}

fn summary_html(tldr: &Option<String>) -> (r: String)
    ensures
        r@ == summary_spec(*tldr),
{
    match tldr {
        Some(t) => {
            let mut r = String::from_str(SUMMARY_A);
            r.append(t.as_str());
            r.append(SUMMARY_B);
            r
        },
        None => String::new(),
    }
}

/// The page of one post.
pub fn post_html(
    post: &Post,
    site_title: &str,
    aside_html: &str,
    footer_html: &str,
    icon_html: &str,
    css_file_path: &str,
) -> (r: String)
    ensures
        r@ == post_spec(*post, site_title@, aside_html@, footer_html@, icon_html@, css_file_path@),
{
    let mut header = String::from_str(HEADER_A);
    header.append(post.meta.title.as_str());
    header.append(HEADER_B);
    header.append(post.meta.published_at.as_str());
    header.append(HEADER_C);
    let summary = summary_html(&post.meta.tldr);
    header.append(summary.as_str());
    header.append(HEADER_D);
    let mut r = String::from_str(POST_A);
    r.append(post.meta.title.as_str());
    r.append(POST_B);
    r.append(post.meta.title.as_str());
    r.append(POST_C);
    match &post.meta.tldr {
        Some(t) => r.append(t.as_str()),
        None => r.append(site_title),
    }
    r.append(POST_D);
    r.append(site_title);
    r.append(POST_E);
    r.append(css_file_path);
    r.append(POST_F);
    r.append(icon_html);
    r.append(POST_G);
    r.append(aside_html);
    r.append(POST_H);
    r.append(header.as_str());
    r.append(POST_I);
    r.append(post.html_body.as_str());
    r.append(POST_J);
    r.append(footer_html);
    r.append(POST_K);
    r
}

pub const INDEX_A: &'static str = r#"<!DOCTYPE html>
<html lang="en">
<head>
  <meta charset="UTF-8" />
  <meta name="viewport" content="width=device-width, initial-scale=1.0" />
  <title>"#;
pub const INDEX_A2: &'static str = r#"</title>
  <link rel="stylesheet" href=""#;
pub const INDEX_A3: &'static str = r#"">
  "#;
pub const INDEX_B: &'static str = r#"
</head>
<body>
  <div class="container">
    "#;
pub const INDEX_C: &'static str = r#"
    <main>
      <div class="search-bar-wrapper">
        <i id="search-trigger" class="fas fa-search"></i>
        <span id="search-wrapper" class="hidden">
          <input type="text" id="search-input" placeholder="Search..." />
          <i id="search-cleaner" class="fa fa-times"></i>
        </span>
      </div>

      <h1>Posts</h1>
      <ul id="post-list">
"#;
pub const INDEX_D: &'static str = r#"      </ul>
      <ul id="search-results" class="hidden"></ul>
    </main>
  </div>
"#;
pub const INDEX_SCRIPT: &'static str = r#"
  <script type="module">
    import init, { search } from './mejiro_search.js';

    let postsData = [];

    async function loadPosts() {
      const response = await fetch('/posts.json');
      postsData = await response.json();
    }

    async function initialize() {
      await init();
      await loadPosts();
    }

    function doSearch() {
      const query = searchInput.value.trim();
      const searchResults = document.getElementById('search-results');
      const postList = document.getElementById('post-list');

      if (!query) {
        searchResults.classList.add('hidden');
        postList.classList.remove('hidden');
        return;
      }

      const results = search(postsData, query);
      const plainResults = results.map(item => Object.fromEntries(item));

      if (plainResults.length === 0) {
        searchResults.innerHTML = '<li>No posts found.</li>';
      } else {
        searchResults.innerHTML = '';
        plainResults.forEach(post => {
          const li = document.createElement('li');
          li.innerHTML = `
            <a href="${post.path}"><strong>${post.title}</strong></a>
            <p class="summary">${post.tldr || ''}</p>
            <p class="topics">Tags: ${post.tags.join(', ')}</p>
            <p class="published-at">Published at: ${post.published_at || 'Unknown'}</p>
          `;
          searchResults.appendChild(li);
        });
      }

      searchResults.classList.remove('hidden');
      postList.classList.add('hidden');
    }

    const searchTrigger = document.getElementById('search-trigger');
    const searchWrapper = document.getElementById('search-wrapper');
    const searchInput = document.getElementById('search-input');
    const searchCleaner = document.getElementById('search-cleaner');

    searchTrigger.addEventListener('click', () => {
      searchWrapper.classList.toggle('hidden');
      if (!searchWrapper.classList.contains('hidden')) {
        searchInput.focus();
      }
    });

    searchCleaner.addEventListener('click', () => {
      searchInput.value = '';
      doSearch();
    });

    searchInput.addEventListener('input', doSearch);

    initialize();
  </script>
"#;
pub const INDEX_END: &'static str = "\n</body>\n</html>\n";

pub const ENTRY_A: &'static str = "        <li>\n          <a href=\"posts/";
pub const ENTRY_B: &'static str = ".html\"><strong>";
pub const ENTRY_C: &'static str = "</strong></a>\n          ";
pub const ENTRY_SEP: &'static str = "\n          ";
pub const ENTRY_D: &'static str = "\n        </li>\n";
pub const TOPICS_A: &'static str = "<p class=\"topics\">Tags: ";
pub const DATE_A: &'static str = "<p class=\"published-at\">Published at: ";

/// The tags paragraph, or nothing when the post has no topics.
pub open spec fn topics_spec(topics: Seq<String>) -> Seq<char> {
    if topics.len() > 0 {
        TOPICS_A@ + join_with(strings_view(topics), ", "@) + SUMMARY_B@
    } else {
        Seq::empty()
    }
}

/// One entry of the index list: title linking to the post page, summary,
/// tags and publication date.
pub open spec fn entry_spec(p: Post) -> Seq<char> {
    ENTRY_A@ + p.name@ + ENTRY_B@ + p.meta.title@ + ENTRY_C@ + summary_spec(p.meta.tldr) + ENTRY_SEP@
        + topics_spec(p.meta.topics@) + ENTRY_SEP@ + DATE_A@ + p.meta.published_at@ + SUMMARY_B@
        + ENTRY_D@
}

/// The entries of all posts, in the given order.
pub open spec fn entries_spec(posts: Seq<Post>) -> Seq<char>
    decreases posts.len(),
{
    if posts.len() == 0 {
        Seq::empty()
    } else {
        entries_spec(posts.drop_last()) + entry_spec(posts.last())
    }
}

pub open spec fn index_spec(
    title: Seq<char>,
    posts: Seq<Post>,
    aside: Seq<char>,
    footer: Seq<char>,
    icon: Seq<char>,
    css: Seq<char>,
) -> Seq<char> {
    INDEX_A@ + title + INDEX_A2@ + css + INDEX_A3@ + icon + INDEX_B@ + aside + INDEX_C@ + entries_spec(posts) + INDEX_D@ + footer
        + INDEX_SCRIPT@ + INDEX_END@
}

fn entry_html(p: &Post) -> (r: String)
    ensures
        r@ == entry_spec(*p),
{
    let mut r = String::from_str(ENTRY_A);
    r.append(p.name.as_str());
    r.append(ENTRY_B);
    r.append(p.meta.title.as_str());
    r.append(ENTRY_C);
    let summary = summary_html(&p.meta.tldr);
    r.append(summary.as_str());
    r.append(ENTRY_SEP);
    if p.meta.topics.len() > 0 {
        r.append(TOPICS_A);
        let joined = join_strings(&p.meta.topics, ", ");
        r.append(joined.as_str());
        r.append(SUMMARY_B);
    }
    r.append(ENTRY_SEP);
    r.append(DATE_A);
    r.append(p.meta.published_at.as_str());
    r.append(SUMMARY_B);
    r.append(ENTRY_D);
    r
}

/// The index page, titled `title` and styled by the stylesheet at
/// `css_file_path`: every post listed in the given order, and the search box.
pub fn index_html(
    title: &str,
    posts: &[Post],
    aside_html: &str,
    footer_html: &str,
    icon_html: &str,
    css_file_path: &str,
) -> (r: String)
    ensures
        r@ == index_spec(title@, posts@, aside_html@, footer_html@, icon_html@, css_file_path@),
{
    let mut r = String::from_str(INDEX_A);
    r.append(title);
    r.append(INDEX_A2);
    r.append(css_file_path);
    r.append(INDEX_A3);
    r.append(icon_html);
    r.append(INDEX_B);
    r.append(aside_html);
    r.append(INDEX_C);
    let ghost head = r@;
    let mut i: usize = 0;
    while i < posts.len()
        invariant
            i <= posts@.len(),
            r@ == head + entries_spec(posts@.subrange(0, i as int)),
        decreases posts@.len() - i,
    {
        assert(posts@.subrange(0, i + 1).drop_last() =~= posts@.subrange(0, i as int));
        let e = entry_html(&posts[i]);
        r.append(e.as_str());
        i = i + 1;
    }
    assert(posts@.subrange(0, posts@.len() as int) =~= posts@);
    r.append(INDEX_D);
    r.append(footer_html);
    r.append(INDEX_SCRIPT);
    r.append(INDEX_END);
    r
}

} // verus!
