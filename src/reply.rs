//! The message envelope a reply is delivered in.

use vstd::prelude::*;

verus! {

/// The accent colours replies use; the chat layer maps each to the
/// platform's colour of the same name.
#[derive(PartialEq, Eq, Structural, Clone, Copy, Debug)]
pub enum Accent {
    DarkBlue,
    DarkGreen,
    Red,
    DarkPurple,
    DarkGold,
    DarkOrange,
    DarkTeal,
    DarkRed,
}

/// The label every reply is signed with.
pub const AUTHOR_NAME: &'static str = "Stack-Buddy";

/// The thumbnail every reply carries.
pub const THUMBNAIL_URL: &'static str = "https://i.imgur.com/xRT3jsZ.png";

/// A reply envelope: author label, body text, thumbnail, accent colour and
/// an optional image. The send time is stamped on delivery.
pub struct Embed {
    pub author: String,
    pub description: String,
    pub thumbnail: String,
    pub accent: Accent,
    pub image: Option<String>,
}

/// The author label every reply carries.
pub open spec fn author_text() -> Seq<char> {
    "Stack-Buddy"@
}

/// The thumbnail address every reply carries.
pub open spec fn thumbnail_text() -> Seq<char> {
    "https://i.imgur.com/xRT3jsZ.png"@
}

/// Whether `e` is the envelope for `body` with the given accent and image.
pub open spec fn is_embed(e: Embed, body: Seq<char>, accent: Accent, image: Option<Seq<char>>) -> bool {
    &&& e.author@ == author_text()
    &&& e.description@ == body
    &&& e.thumbnail@ == thumbnail_text()
    &&& e.accent == accent
    &&& match image {
        Some(i) => e.image matches Some(s) && s@ == i,
        None => e.image is None,
    }
}

impl Embed {
    /// Wraps `body` in the fixed envelope, with the given accent and no image.
    pub fn new(body: String, accent: Accent) -> (r: Embed)
        ensures
            is_embed(r, body@, accent, None),
    {
        Embed {
            author: String::from_str(AUTHOR_NAME),
            description: body,
            thumbnail: String::from_str(THUMBNAIL_URL),
            accent,
            image: None,
        }
    }

    /// Wraps `body` in the fixed envelope, with the given accent and image.
    pub fn with_image(body: String, accent: Accent, image: &str) -> (r: Embed)
        ensures
            is_embed(r, body@, accent, Some(image@)),
    {
        Embed {
            author: String::from_str(AUTHOR_NAME),
            description: body,
            thumbnail: String::from_str(THUMBNAIL_URL),
            accent,
            image: Some(String::from_str(image)),
        }
    }
}

} // verus!
