//! Links that open a chat with a user.

use vstd::prelude::*;
use crate::strings::{chars_of, push_signed_decimal, push_text, signed_decimal};

verus! {

/// The longest text, in characters, that is handed to the url crate. A
/// character of a URL takes twelve bytes at most once it is written, and a
/// URL is no longer than 2^32 bytes: two texts of this length fit together.
pub const LONGEST_URL_PART: usize = 0x0800_0000;

/// The text of the URL `base` with its query set to `query`, as the url
/// crate writes it; nothing where `base` is no absolute URL.
pub uninterp spec fn url_with_query(base: Seq<char>, query: Seq<char>) -> Option<Seq<char>>;

/// `url::Url::set_query` on the URL that `url::Url::parse` reads from
/// `base`, written back as a text. Claimed: the result depends on the two
/// texts alone. The crate gives up on a URL whose text grows past 2^32
/// bytes, whether before or after the query is written; `requires` keeps
/// both texts so short that it cannot.
#[verifier::external_body]
fn with_query(base: &str, query: &str) -> (link: Option<String>)
    requires
        base@.len() <= LONGEST_URL_PART,
        query@.len() <= LONGEST_URL_PART,
    ensures
        link.is_some() == url_with_query(base@, query@).is_some(),
        link.is_some() ==> link.unwrap()@ == url_with_query(base@, query@).unwrap(),
{
    match url::Url::parse(base) {
        Ok(mut url) => {
            url.set_query(Some(query));
            Some(String::from(url))
        },
        Err(_) => None,
    }
}

/// The link made of `base` and `query`; none for a query longer than a
/// URL can take.
pub open spec fn spec_link(base: Seq<char>, query: Seq<char>) -> Option<Seq<char>> {
    if query.len() <= LONGEST_URL_PART {
        url_with_query(base, query)
    } else {
        None
    }
}

/// The link that opens a chat with a user: by the user's name where they
/// have one; else by their id, unless they keep that from being linked;
/// else none. A name too long for a URL gives no link.
pub open spec fn spec_user_url(username: Option<Seq<char>>, id: i64, privacy: bool) -> Option<
    Seq<char>,
> {
    match username {
        Some(name) => spec_link("tg://resolve"@, "domain="@ + name),
        None => if !privacy {
            spec_link("tg://user"@, "id="@ + signed_decimal(id as int))
        } else {
            None
        },
    }
}

/// The link made of `base`, which is one of the two fixed beginnings, and
/// `query`.
fn link(base: &'static str, query: &str) -> (link: Option<String>)
    requires
        base@.len() <= 12,
    ensures
        link.is_some() == spec_link(base@, query@).is_some(),
        link.is_some() ==> link.unwrap()@ == spec_link(base@, query@).unwrap(),
{
    if chars_of(query).len() <= LONGEST_URL_PART {
        with_query(base, query)
    } else {
        None
    }
}

/// The link that opens a chat with the user `id`, who is called `username`
/// and has or has not the privacy of forwards switched on.
pub fn user_url(username: Option<&str>, id: i64, has_privacy_enabled: bool) -> (link: Option<String>)
    ensures
        link.is_some() == spec_user_url(
            match username {
                Some(name) => Some(name@),
                None => None,
            },
            id,
            has_privacy_enabled,
        ).is_some(),
        link.is_some() ==> link.unwrap()@ == spec_user_url(
            match username {
                Some(name) => Some(name@),
                None => None,
            },
            id,
            has_privacy_enabled,
        ).unwrap(),
{
    proof {
        reveal_strlit("tg://resolve");
        reveal_strlit("tg://user");
    }
    match username {
        Some(name) => {
            let mut query = String::new();
            push_text(&mut query, "domain=");
            push_text(&mut query, name);
            link("tg://resolve", query.as_str())
        },
        None => {
            if !has_privacy_enabled {
                let mut query = String::new();
                push_text(&mut query, "id=");
                push_signed_decimal(&mut query, id);
                link("tg://user", query.as_str())
            } else {
                None
            }
        },
    }
}

} // verus!
