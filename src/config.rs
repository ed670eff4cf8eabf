//! The site configuration: owner, title, styles and images directory.

use vstd::prelude::*;

verus! {

/// The blog's owner, shown in the side bar.
#[derive(Debug, Clone, PartialEq, Eq)]
pub struct BlogOwner {
    pub name: String,
    pub github_link: String,
    pub linkedin_link: String,
}

impl BlogOwner {
    pub fn new(name: &str, github_link: &str, linkedin_link: &str) -> (r: Self)
        ensures
            r.name@ == name@,
            r.github_link@ == github_link@,
            r.linkedin_link@ == linkedin_link@,
    {
        Self {
            name: String::from_str(name),
            github_link: String::from_str(github_link),
            linkedin_link: String::from_str(linkedin_link),
        }
    }
}

/// The stylesheet and icon files of the site.
#[derive(Debug, Clone, PartialEq, Eq)]
pub struct BlogStyles {
    pub icon: String,
    pub css_file: String,
}

impl BlogStyles {
    pub fn new(icon: &str, css_file: &str) -> (r: Self)
        ensures
            r.icon@ == icon@,
            r.css_file@ == css_file@,
    {
        Self { icon: String::from_str(icon), css_file: String::from_str(css_file) }
    }
}

/// The configuration of one build. It is read once and never changed.
#[derive(Debug, Clone, PartialEq, Eq)]
pub struct MejiroConfig {
    pub owner: BlogOwner,
    pub site_title: String,
    pub styles: BlogStyles,
    pub images_dir: String,
}

/// The images directory used when the configuration names none.
pub fn default_images_dir() -> (r: String)
    ensures
        r@ == "images"@,
{
    String::from_str("images")
}

impl MejiroConfig {
    /// The configuration written for a new blog.
    pub fn initial() -> (r: Self)
        ensures
            r.owner.name@ == "Your Name"@,
            r.owner.github_link@ == "https://github.com/your-profile"@,
            r.owner.linkedin_link@ == "https://linkedin.com/in/your-profile"@,
            r.site_title@ == "My Blog"@,
            r.styles.css_file@ == "style.css"@,
            r.styles.icon@ == "icon.png"@,
            r.images_dir@ == "images"@,
    {
        MejiroConfig {
            owner: BlogOwner::new(
                "Your Name",
                "https://github.com/your-profile",
                "https://linkedin.com/in/your-profile",
            ),
            site_title: String::from_str("My Blog"),
            styles: BlogStyles::new("icon.png", "style.css"),
            images_dir: default_images_dir(),
        }
    }
}


/// What the standard base64 alphabet (with padding) decodes a text to, or
/// `None` when the text is not valid base64: a function of the text alone.
pub uninterp spec fn base64_decoded(s: Seq<char>) -> Option<Seq<u8>>;

/// Relies on `base64::Engine::decode` with `base64::prelude::BASE64_STANDARD`.
#[verifier::external_body]
fn decode_base64(s: &str) -> (r: Option<Vec<u8>>)
    ensures
        r is None ==> base64_decoded(s@) is None,
        r matches Some(b) ==> base64_decoded(s@) == Some(b@),
{
    base64::Engine::decode(&base64::prelude::BASE64_STANDARD, s).ok()
}

/// A one-pixel PNG image, in base64.
pub const DEFAULT_ICON_BASE64: &'static str = "iVBORw0KGgoAAAANSUhEUgAAAAEAAAABCAQAAAC1HAwCAAAAC0lEQVR4nGNgYAAAAAMAASsJTYQAAAAASUVORK5CYII=";

/// The bytes of the icon written for a new blog.
pub fn default_icon() -> (r: Option<Vec<u8>>)
    ensures
        r is None ==> base64_decoded(DEFAULT_ICON_BASE64@) is None,
        r matches Some(b) ==> base64_decoded(DEFAULT_ICON_BASE64@) == Some(b@),
{
    decode_base64(DEFAULT_ICON_BASE64)
}

} // verus!
