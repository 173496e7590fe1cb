//! Properties that relate the builder's functions to one another.

use crate::digest::{
    all_white_space, digest_of, is_lower_hex, is_white_space, normalized, trim_end, trim_start,
    trimmed,
};
use crate::gravatar::{
    base_url_of, default_pairs, default_value_of, force_default_pairs, image_url_of, params_of,
    rating_pairs, size_pairs,
};
use crate::query::{form_decoded, form_encoded, law_form_encoding_round_trip, pair_text};
use crate::Gravatar;
use vstd::prelude::*;

verus! {

proof fn lemma_trim_start_skips_lead(lead: Seq<char>, s: Seq<char>)
    requires
        all_white_space(lead),
    ensures
        trim_start(lead + s) == trim_start(s),
    decreases lead.len(),
{
    if lead.len() == 0 {
        assert(lead + s =~= s);
    } else {
        assert((lead + s)[0] == lead[0]);
        assert((lead + s).drop_first() =~= lead.drop_first() + s);
        lemma_trim_start_skips_lead(lead.drop_first(), s);
    }
}

proof fn lemma_trim_end_skips_trail(s: Seq<char>, trail: Seq<char>)
    requires
        all_white_space(trail),
    ensures
        trim_end(s + trail) == trim_end(s),
    decreases trail.len(),
{
    if trail.len() == 0 {
        assert(s + trail =~= s);
    } else {
        assert((s + trail).last() == trail.last());
        assert((s + trail).drop_last() =~= s + trail.drop_last());
        lemma_trim_end_skips_trail(s, trail.drop_last());
    }
}

proof fn lemma_trim_start_append(x: Seq<char>, t: Seq<char>)
    ensures
        trim_start(x + t) == if trim_start(x).len() > 0 {
            trim_start(x) + t
        } else {
            trim_start(t)
        },
    decreases x.len(),
{
    if x.len() == 0 {
        assert(x + t =~= t);
    } else {
        assert((x + t)[0] == x[0]);
        if is_white_space(x[0]) {
            assert((x + t).drop_first() =~= x.drop_first() + t);
            lemma_trim_start_append(x.drop_first(), t);
        }
    }
}

/// White space before and after an email does not change its digest.
pub proof fn law_digest_ignores_surrounding_white_space(
    lead: Seq<char>,
    email: Seq<char>,
    trail: Seq<char>,
)
    requires
        all_white_space(lead),
        all_white_space(trail),
    ensures
        digest_of(lead + email + trail) == digest_of(email),
{
    assert(lead + email + trail =~= lead + (email + trail));
    lemma_trim_start_skips_lead(lead, email + trail);
    lemma_trim_start_append(email, trail);
    if trim_start(email).len() > 0 {
        lemma_trim_end_skips_trail(trim_start(email), trail);
    } else {
        lemma_trim_start_skips_lead(trail, Seq::empty());
        assert(trail + Seq::<char>::empty() =~= trail);
    }
    assert(trimmed(lead + email + trail) == trimmed(email));
}

/// Two requests that differ only in white space around the email have the
/// same image URL.
pub proof fn law_url_ignores_surrounding_white_space(
    g: Gravatar,
    h: Gravatar,
    lead: Seq<char>,
    trail: Seq<char>,
)
    requires
        all_white_space(lead),
        all_white_space(trail),
        h.email@ == lead + g.email@ + trail,
        h == (Gravatar { email: h.email, ..g }),
    ensures
        image_url_of(g) == image_url_of(h),
{
    law_digest_ignores_surrounding_white_space(lead, g.email@, trail);
    assert(params_of(g) == params_of(h));
}

/// Two requests that differ only in their emails, where the emails have the
/// same trimmed, lowercased form, have the same image URL: the digest is
/// blind to surrounding white space and to letter case.
pub proof fn law_url_depends_on_normalized_email(g: Gravatar, h: Gravatar)
    requires
        normalized(g.email@) == normalized(h.email@),
        h == (Gravatar { email: h.email, ..g }),
    ensures
        image_url_of(g) == image_url_of(h),
{
    assert(params_of(g) == params_of(h));
}

/// A request with no option set has the bare base URL, without `?`.
pub proof fn law_no_options_gives_base_url(g: Gravatar)
    requires
        g.size is None,
        g.default is None,
        !g.force_default,
        g.rating is None,
    ensures
        image_url_of(g) == base_url_of(g.ssl, digest_of(g.email@)),
{
    assert(params_of(g) =~= Seq::empty());
}

/// A base URL built from a lowercase hexadecimal digest holds no `?`.
pub proof fn law_base_url_has_no_question_mark(ssl: bool, digest: Seq<char>)
    requires
        forall|i: int| 0 <= i < digest.len() ==> is_lower_hex(#[trigger] digest[i]),
    ensures
        !base_url_of(ssl, digest).contains('?'),
{
    reveal_strlit("https://secure");
    reveal_strlit("http://www");
    reveal_strlit(".gravatar.com/avatar/");
    let b = base_url_of(ssl, digest);
    assert forall|i: int| 0 <= i < b.len() implies b[i] != '?' by {
        let p = if ssl {
            "https://secure"@
        } else {
            "http://www"@
        };
        let q = p + ".gravatar.com/avatar/"@;
        if i >= q.len() {
            assert(b[i] == digest[i - q.len()]);
        }
    }
}

/// The secure URL starts with `https://secure.`, the plain one with
/// `http://www.`.
pub proof fn law_transport_prefix(g: Gravatar)
    ensures
        g.ssl ==> image_url_of(g).take(15) == "https://secure."@,
        !g.ssl ==> image_url_of(g).take(11) == "http://www."@,
{
    reveal_strlit("https://secure");
    reveal_strlit("http://www");
    reveal_strlit(".gravatar.com/avatar/");
    reveal_strlit("https://secure.");
    reveal_strlit("http://www.");
    let u = image_url_of(g);
    let b = base_url_of(g.ssl, digest_of(g.email@));
    assert(u.take(b.len() as int) == b);
    if g.ssl {
        assert(u.take(15) =~= "https://secure."@);
    } else {
        assert(u.take(11) =~= "http://www."@);
    }
}

proof fn lemma_keys_distinct()
    ensures
        "s"@ != "d"@,
        "s"@ != "f"@,
        "s"@ != "r"@,
        "d"@ != "f"@,
        "d"@ != "r"@,
        "f"@ != "r"@,
{
    reveal_strlit("s");
    reveal_strlit("d");
    reveal_strlit("f");
    reveal_strlit("r");
    assert("s"@[0] != "d"@[0]);
    assert("s"@[0] != "f"@[0]);
    assert("s"@[0] != "r"@[0]);
    assert("d"@[0] != "f"@[0]);
    assert("d"@[0] != "r"@[0]);
    assert("f"@[0] != "r"@[0]);
}

/// The place of a query key in the fixed order `s`, `d`, `f`, `r`.
pub open spec fn key_rank(k: Seq<char>) -> int {
    if k == "s"@ {
        0
    } else if k == "d"@ {
        1
    } else if k == "f"@ {
        2
    } else {
        3
    }
}

/// How many of the four options a request sets.
pub open spec fn options_set(g: Gravatar) -> nat {
    (if g.size is Some {
        1nat
    } else {
        0nat
    }) + (if g.default is Some {
        1nat
    } else {
        0nat
    }) + (if g.force_default {
        1nat
    } else {
        0nat
    }) + (if g.rating is Some {
        1nat
    } else {
        0nat
    })
}

/// A request has one query pair for each option it sets, and the pairs come
/// in the order `s`, `d`, `f`, `r`, whatever order the options were set in.
pub proof fn law_pairs_in_fixed_order(g: Gravatar)
    ensures
        params_of(g).len() == options_set(g),
        forall|i: int, j: int|
            0 <= i < j < params_of(g).len() ==> key_rank(#[trigger] params_of(g)[i].0) < key_rank(
                #[trigger] params_of(g)[j].0,
            ),
{
    lemma_keys_distinct();
    let ps = params_of(g);
    let a = size_pairs(g);
    let b = default_pairs(g);
    let c = force_default_pairs(g);
    let d = rating_pairs(g);
    assert(a.len() == 0 || key_rank(a[0].0) == 0);
    assert(b.len() == 0 || key_rank(b[0].0) == 1);
    assert(c.len() == 0 || key_rank(c[0].0) == 2);
    assert(d.len() == 0 || key_rank(d[0].0) == 3);
    assert forall|i: int, j: int| 0 <= i < j < ps.len() implies key_rank(#[trigger] ps[i].0)
        < key_rank(#[trigger] ps[j].0) by {
        let k = a.len() as int;
        let l = k + b.len();
        let m = l + c.len();
        assert(ps[i] == if i < k {
            a[i]
        } else if i < l {
            b[i - k]
        } else if i < m {
            c[i - l]
        } else {
            d[i - m]
        });
        assert(ps[j] == if j < k {
            a[j]
        } else if j < l {
            b[j - k]
        } else if j < m {
            c[j - l]
        } else {
            d[j - m]
        });
    }
}

/// A request that sets exactly one option has one `key=value` pair after
/// the `?` of its base URL.
pub proof fn law_one_option_one_pair(g: Gravatar)
    requires
        options_set(g) == 1,
    ensures
        params_of(g).len() == 1,
        image_url_of(g) == base_url_of(g.ssl, digest_of(g.email@)) + seq!['?'] + pair_text(
            params_of(g)[0],
        ),
{
    law_pairs_in_fixed_order(g);
}

/// Without force default no `f` pair is emitted; with it the pair `f=y` is.
pub proof fn law_force_default_pair(g: Gravatar)
    ensures
        !g.force_default ==> forall|i: int|
            0 <= i < params_of(g).len() ==> (#[trigger] params_of(g)[i]).0 != "f"@,
        g.force_default ==> params_of(g).contains(("f"@, "y"@)),
{
    lemma_keys_distinct();
    let ps = params_of(g);
    let a = size_pairs(g);
    let b = default_pairs(g);
    let c = force_default_pairs(g);
    let d = rating_pairs(g);
    let l = (a.len() + b.len()) as int;
    assert forall|i: int| 0 <= i < ps.len() && ps[i] != ("f"@, "y"@) implies (
    #[trigger] ps[i]).0 != "f"@ by {
        let m = l + c.len();
        if i < a.len() {
            assert(ps[i] == a[i]);
        } else if i < l {
            assert(ps[i] == b[i - a.len()]);
        } else if i < m {
            assert(ps[i] == c[i - l]);
        } else {
            assert(ps[i] == d[i - m]);
        }
    }
    if g.force_default {
        assert(ps[l] == ("f"@, "y"@));
    }
}

/// A default image given as a URL is sent as the `d` pair, form-encoded: the
/// query holds no raw space, and decoding the value gives back the URL's text.
pub proof fn law_default_url_is_encoded(g: Gravatar, u: String)
    requires
        g.default == Some(crate::Default::Url(u)),
    ensures
        params_of(g).contains(("d"@, default_value_of(crate::Default::Url(u)))),
        !form_encoded(default_value_of(crate::Default::Url(u))).contains(' '),
        form_decoded(form_encoded(default_value_of(crate::Default::Url(u)))) == default_value_of(
            crate::Default::Url(u),
        ),
{
    let v = default_value_of(crate::Default::Url(u));
    law_form_encoding_round_trip(v);
    assert(params_of(g)[size_pairs(g).len() as int] == ("d"@, v));
}

} // verus!
