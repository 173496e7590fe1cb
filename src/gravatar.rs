//! The URL builder: base URL from the digest, query pairs from the options.

use crate::digest::{digest_of, email_digest};
use crate::query::{decimal, decimal_of, pairs_view, query_of, query_string};
use crate::{Gravatar, Rating};
use vstd::prelude::*;

verus! {

/// What `Url::parse` followed by `Url::as_str` makes of a text: its
/// serialization, or `None` where the text does not parse as a URL.
pub uninterp spec fn parsed_url_of(s: Seq<char>) -> Option<Seq<char>>;

/// Relies on url's `Url::parse`, and `Url::as_str` for the serialization; the
/// result depends on the text alone.
#[verifier::external_body]
fn parse_url(s: &str) -> (r: Option<String>)
    ensures
        match r {
            Some(t) => parsed_url_of(s@) == Some(t@),
            None => parsed_url_of(s@) == None::<Seq<char>>,
        },
{
    match url::Url::parse(s) {
        Ok(u) => Some(u.as_str().to_string()),
        Err(_) => None,
    }
}

/// The text that stands for a default image in the query: a URL in its
/// parsed serialization (or as given, where it does not parse), else the
/// keyword of the built-in image.
pub open spec fn default_value_of(d: crate::Default) -> Seq<char> {
    match d {
        crate::Default::Url(u) => match parsed_url_of(u@) {
            Some(t) => t,
            None => u@,
        },
        crate::Default::Http404 => "404"@,
        crate::Default::Blank => "blank"@,
        crate::Default::MysteryMan => "mm"@,
        crate::Default::Identicon => "identicon"@,
        crate::Default::MonsterId => "monsterid"@,
        crate::Default::Wavatar => "wavatar"@,
        crate::Default::Retro => "retro"@,
    }
}

pub open spec fn rating_value_of(r: Rating) -> Seq<char> {
    match r {
        Rating::G => "g"@,
        Rating::Pg => "pg"@,
        Rating::R => "r"@,
        Rating::X => "x"@,
    }
}

pub open spec fn size_pairs(g: Gravatar) -> Seq<(Seq<char>, Seq<char>)> {
    match g.size {
        Some(n) => seq![("s"@, decimal_of(n as nat))],
        None => Seq::empty(),
    }
}

pub open spec fn default_pairs(g: Gravatar) -> Seq<(Seq<char>, Seq<char>)> {
    match g.default {
        Some(d) => seq![("d"@, default_value_of(d))],
        None => Seq::empty(),
    }
}

pub open spec fn force_default_pairs(g: Gravatar) -> Seq<(Seq<char>, Seq<char>)> {
    if g.force_default {
        seq![("f"@, "y"@)]
    } else {
        Seq::empty()
    }
}

pub open spec fn rating_pairs(g: Gravatar) -> Seq<(Seq<char>, Seq<char>)> {
    match g.rating {
        Some(r) => seq![("r"@, rating_value_of(r))],
        None => Seq::empty(),
    }
}

/// The query pairs of a request, values not yet encoded: size, default image,
/// force default, rating, each only where it is set.
pub open spec fn params_of(g: Gravatar) -> Seq<(Seq<char>, Seq<char>)> {
    size_pairs(g) + default_pairs(g) + force_default_pairs(g) + rating_pairs(g)
}

/// Scheme, host and path of the avatar with the given digest.
pub open spec fn base_url_of(ssl: bool, digest: Seq<char>) -> Seq<char> {
    (if ssl {
        "https://secure"@
    } else {
        "http://www"@
    }) + ".gravatar.com/avatar/"@ + digest
}

/// The base URL, followed by `?` and the query only where there are pairs.
pub open spec fn url_of(ssl: bool, digest: Seq<char>, ps: Seq<(Seq<char>, Seq<char>)>) -> Seq<
    char,
> {
    if ps.len() == 0 {
        base_url_of(ssl, digest)
    } else {
        base_url_of(ssl, digest) + seq!['?'] + query_of(ps)
    }
}

/// The image URL of a request.
pub open spec fn image_url_of(g: Gravatar) -> Seq<char> {
    url_of(g.ssl, digest_of(g.email@), params_of(g))
}

impl crate::Default {
    /// The text that stands for this default image in the query.
    pub fn value(&self) -> (r: String)
        ensures
            r@ == default_value_of(*self),
    {
        match self {
            crate::Default::Url(u) => match parse_url(u.as_str()) {
                Some(t) => t,
                None => u.clone(),
            },
            crate::Default::Http404 => String::from_str("404"),
            crate::Default::Blank => String::from_str("blank"),
            crate::Default::MysteryMan => String::from_str("mm"),
            crate::Default::Identicon => String::from_str("identicon"),
            crate::Default::MonsterId => String::from_str("monsterid"),
            crate::Default::Wavatar => String::from_str("wavatar"),
            crate::Default::Retro => String::from_str("retro"),
        }
    }
}

impl Rating {
    /// The text that stands for this rating in the query.
    pub fn value(&self) -> (r: String)
        ensures
            r@ == rating_value_of(*self),
    {
        match self {
            Rating::G => String::from_str("g"),
            Rating::Pg => String::from_str("pg"),
            Rating::R => String::from_str("r"),
            Rating::X => String::from_str("x"),
        }
    }
}

/// The URL of the avatar named by `digest`, with the query that `params`
/// serialises appended where it is not empty.
pub fn assemble_url(ssl: bool, digest: &str, params: &Vec<(String, String)>) -> (r: String)
    ensures
        r@ == url_of(ssl, digest@, pairs_view(params@)),
{
    let mut r = if ssl {
        String::from_str("https://secure")
    } else {
        String::from_str("http://www")
    };
    r.append(".gravatar.com/avatar/");
    r.append(digest);
    if params.len() > 0 {
        r.append("?");
        proof {
            reveal_strlit("?");
        }
        let q = query_string(params);
        r.append(q.as_str());
    }
    r
}

impl Gravatar {
    /// A request for `email` with no size, default image or rating, without
    /// forcing the default, over the secure URL.
    pub fn new(email: &str) -> (r: Gravatar)
        ensures
            r.email@ == email@,
            r.size == None::<u16>,
            r.default == None::<crate::Default>,
            !r.force_default,
            r.rating == None::<Rating>,
            r.ssl,
    {
        Gravatar {
            email: String::from_str(email),
            size: None,
            default: None,
            force_default: false,
            rating: None,
            ssl: true,
        }
    }

    /// The query pairs of this request, values not yet encoded.
    pub fn params(&self) -> (r: Vec<(String, String)>)
        ensures
            pairs_view(r@) == params_of(*self),
    {
        let mut ps: Vec<(String, String)> = Vec::new();
        match self.size {
            Some(n) => ps.push((String::from_str("s"), decimal(n))),
            None => {},
        }
        assert(pairs_view(ps@) =~= size_pairs(*self));
        match &self.default {
            Some(d) => ps.push((String::from_str("d"), d.value())),
            None => {},
        }
        assert(pairs_view(ps@) =~= size_pairs(*self) + default_pairs(*self));
        if self.force_default {
            ps.push((String::from_str("f"), String::from_str("y")));
        }
        assert(pairs_view(ps@) =~= size_pairs(*self) + default_pairs(*self) + force_default_pairs(
            *self,
        ));
        match self.rating {
            Some(r) => ps.push((String::from_str("r"), r.value())),
            None => {},
        }
        assert(pairs_view(ps@) =~= params_of(*self));
        ps
    }

    /// The image URL of this request.
    pub fn image_url(&self) -> (r: String)
        ensures
            r@ == image_url_of(*self),
    {
        let digest = email_digest(self.email.as_str());
        let params = self.params();
        assemble_url(self.ssl, digest.as_str(), &params)
    }

    /// Sets the image size.
    pub fn set_size(&mut self, size: Option<u16>) -> (r: &mut Self)
        ensures
            *r == (Gravatar { size, ..*old(self) }),
            *final(self) == *final(r),
    {
        self.size = size;
        self
    }

    /// Sets the default image.
    pub fn set_default(&mut self, default: Option<crate::Default>) -> (r: &mut Self)
        ensures
            *r == (Gravatar { default, ..*old(self) }),
            *final(self) == *final(r),
    {
        self.default = default;
        self
    }

    /// Sets whether the default image is always shown.
    pub fn set_force_default(&mut self, force_default: bool) -> (r: &mut Self)
        ensures
            *r == (Gravatar { force_default, ..*old(self) }),
            *final(self) == *final(r),
    {
        self.force_default = force_default;
        self
    }

    /// Sets the highest rating shown.
    pub fn set_rating(&mut self, rating: Option<Rating>) -> (r: &mut Self)
        ensures
            *r == (Gravatar { rating, ..*old(self) }),
            *final(self) == *final(r),
    {
        self.rating = rating;
        self
    }

    /// Chooses between the secure and the plain URL.
    pub fn set_ssl(&mut self, ssl: bool) -> (r: &mut Self)
        ensures
            *r == (Gravatar { ssl, ..*old(self) }),
            *final(self) == *final(r),
    {
        self.ssl = ssl;
        self
    }
}

} // verus!
