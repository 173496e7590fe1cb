//! Builds Gravatar image URLs from an email address and a few display options.
//!
//! The email is trimmed and lowercased, hashed with MD5, and the hexadecimal
//! digest names the avatar; the options become a query string whose pairs
//! always come in the order size, default image, force default, rating.
//! Each value is form-encoded (`application/x-www-form-urlencoded`, as the
//! url crate writes it: a space becomes `+`, any byte but ASCII letters,
//! digits and `*-._` becomes `%XX`).
//!
//! See <http://en.gravatar.com/site/implement/images/>.

use vstd::prelude::*;

pub mod digest;
pub mod gravatar;
pub mod laws;
pub mod query;

verus! {

/// The default image to display if the user's email does not have a Gravatar.
#[derive(Clone, Debug)]
pub enum Default {
    /// The URL of an image file to display as the default. It is sent in the
    /// serialization that the url crate gives it, so a space in its path
    /// goes out as `%20` and, form-encoded, as `%2520`; a text that does not
    /// parse as a URL is sent as it is.
    Url(String),
    /// Gravatar answers HTTP 404 (File Not Found) if the email is not found.
    Http404,
    /// A transparent PNG image.
    Blank,
    /// A cartoon-style silhouette of a person, the same for every email.
    MysteryMan,
    /// A geometric pattern based on the email hash.
    Identicon,
    /// A "monster" with colors and faces generated from the email hash.
    MonsterId,
    /// A face with features and backgrounds generated from the email hash.
    Wavatar,
    /// An 8-bit arcade-style pixelated face generated from the email hash.
    Retro,
}

/// The highest rating for which Gravatar shows the user's own image instead
/// of the default.
#[derive(Clone, Copy, Debug, PartialEq, Eq, Structural)]
pub enum Rating {
    /// "G"-rated images only.
    G,
    /// "PG"-rated images or lower.
    Pg,
    /// "R"-rated images or lower.
    R,
    /// All images, up to and including "X"-rated ones.
    X,
}

/// The parameters of one Gravatar image URL.
#[derive(Clone, Debug)]
pub struct Gravatar {
    /// The email of the user whose Gravatar is wanted.
    pub email: String,
    /// The image size in pixels; Gravatar serves 1 to 2048 and uses 80 when
    /// none is given. Passed on as it is.
    pub size: Option<u16>,
    /// The image to use if the user has no Gravatar; with none, Gravatar
    /// shows its logo.
    pub default: Option<Default>,
    /// If true, Gravatar always returns the default image.
    pub force_default: bool,
    /// The highest rating to show; with none, Gravatar shows "G" only.
    pub rating: Option<Rating>,
    /// If true, the secure URL (`https://secure.gravatar.com/avatar/...`) is
    /// used, else the plain one (`http://www.gravatar.com/avatar/...`).
    pub ssl: bool,
}

} // verus!
