//! The server side: the request and reply types, the checks a new link
//! goes through, and the replies built from what the store answers.

use vstd::prelude::*;
use vstd::string::*;

use crate::text::{
    alphanumeric, all_alias_chars, all_white_space, has_white_space, is_white_space,
    lemma_trim_end_shape, only_alias_chars, scan_white_space, trim_end_slashes,
    trim_end_slashes_of,
};

verus! {

/// Where short links point when no base address is configured.
pub const DEFAULT_BASE_URL: &'static str = "http://localhost:8080";

/// Message of a link that is empty or only white space.
pub const URL_BLANK_MSG: &'static str = "url is empty or whitespace";

/// Message of a link that holds white space.
pub const URL_WHITESPACE_MSG: &'static str = "url must not contain whitespace";

/// Message of an alias shorter than five bytes.
pub const ALIAS_SHORT_MSG: &'static str = "alias must be at least 5 characters";

/// Message of an alias with a character other than a letter, a digit, `-`
/// or `_`.
pub const ALIAS_CHARS_MSG: &'static str = "alias can only contain letters, numbers, - and _";

/// Message shown for `CreateUrlError::AliasTaken`.
pub const ALIAS_TAKEN_MSG: &'static str = "That nano url is already taken, try another one";

/// Message shown for `CreateUrlError::Internal`.
pub const INTERNAL_MSG: &'static str = "Something went wrong creating your link, please try again";

/// Fewest bytes an alias may have.
pub const MIN_ALIAS_BYTES: usize = 5;

/// A request to shorten `url`, under `alias` if one is given, valid until
/// `expiration` (a `YYYY-MM-DD` date) if one is given.
pub struct CreateUrlRequest {
    pub url: String,
    pub alias: Option<String>,
    pub expiration: Option<String>,
}

/// Why a link could not be created.
#[derive(Debug, Clone)]
pub enum CreateUrlError {
    /// The request itself is wrong; the text says how.
    BadRequest(String),
    /// The alias asked for is in use.
    AliasTaken,
    /// The store failed, or no free short code was found.
    Internal,
}

/// Counts over all stored links.
pub struct Stats {
    pub total_links: i64,
    pub total_redirects: i64,
}

/// One recently created link: its short form, where it points, and how
/// often it was followed.
pub struct RecentLink {
    pub short: String,
    pub url: String,
    pub clicks: i64,
}

/// The HTTP status that answers an error: 400, 409 or 500.
pub open spec fn status_of(e: CreateUrlError) -> u16 {
    match e {
        CreateUrlError::BadRequest(_) => 400,
        CreateUrlError::AliasTaken => 409,
        CreateUrlError::Internal => 500,
    }
}

/// The text shown for an error.
pub open spec fn message_of(e: CreateUrlError) -> Seq<char> {
    match e {
        CreateUrlError::BadRequest(m) => m@,
        CreateUrlError::AliasTaken => ALIAS_TAKEN_MSG@,
        CreateUrlError::Internal => INTERNAL_MSG@,
    }
}

impl CreateUrlError {
    /// The HTTP status of this error.
    pub fn as_status_code(&self) -> (code: u16)
        ensures
            code == status_of(*self),
    {
        match self {
            CreateUrlError::BadRequest(_) => 400,
            CreateUrlError::AliasTaken => 409,
            CreateUrlError::Internal => 500,
        }
    }

    /// The text of this error, as its `Display` shows it.
    pub fn message(&self) -> (m: String)
        ensures
            m@ == message_of(*self),
    {
        match self {
            CreateUrlError::BadRequest(m) => m.clone(),
            CreateUrlError::AliasTaken => String::from_str(ALIAS_TAKEN_MSG),
            CreateUrlError::Internal => String::from_str(INTERNAL_MSG),
        }
    }
}

/// A link the server takes: not blank and free of white space.
pub open spec fn url_accepted(url: Seq<char>) -> bool {
    !all_white_space(url) && !has_white_space(url)
}

/// The message the server answers a link with, if it refuses it.
pub open spec fn url_refusal(url: Seq<char>) -> Option<Seq<char>> {
    if all_white_space(url) {
        Some(URL_BLANK_MSG@)
    } else if has_white_space(url) {
        Some(URL_WHITESPACE_MSG@)
    } else {
        None
    }
}

/// An alias the server takes: at least five bytes in UTF-8, and made of
/// alphanumeric characters, `-` and `_`.
pub open spec fn alias_accepted(alias: Seq<char>) -> bool {
    vstd::utf8::encode_utf8(alias).len() >= MIN_ALIAS_BYTES && all_alias_chars(alias)
}

/// The message the server answers an alias with, if it refuses it.
pub open spec fn alias_refusal(alias: Seq<char>) -> Option<Seq<char>> {
    if vstd::utf8::encode_utf8(alias).len() < MIN_ALIAS_BYTES {
        Some(ALIAS_SHORT_MSG@)
    } else if !all_alias_chars(alias) {
        Some(ALIAS_CHARS_MSG@)
    } else {
        None
    }
}

/// A link made only of white space (or empty) is refused as blank; a
/// link that mixes white space with other characters is refused for its
/// white space; a non-empty link without white space is accepted.
pub proof fn lemma_url_refusal(url: Seq<char>)
    ensures
        (forall|i: int| 0 <= i < url.len() ==> is_white_space(#[trigger] url[i])) ==> url_refusal(
            url,
        ) == Some(URL_BLANK_MSG@),
        (exists|i: int| 0 <= i < url.len() && is_white_space(#[trigger] url[i])) && (exists|j: int|
            0 <= j < url.len() && !is_white_space(#[trigger] url[j])) ==> url_refusal(url) == Some(
            URL_WHITESPACE_MSG@,
        ),
        url.len() > 0 && (forall|i: int| 0 <= i < url.len() ==> !is_white_space(#[trigger] url[i]))
            ==> url_refusal(url) is None,
{
    if url.len() > 0 && (forall|i: int| 0 <= i < url.len() ==> !is_white_space(#[trigger] url[i])) {
        assert(!is_white_space(url[0]));
    }
}

/// An alias holding a character that is neither alphanumeric nor `-` nor
/// `_` is refused, whatever its length.
pub proof fn lemma_alias_bad_char(alias: Seq<char>, i: int)
    requires
        0 <= i < alias.len(),
        !alphanumeric(alias[i]),
        alias[i] != '-',
        alias[i] != '_',
    ensures
        !alias_accepted(alias),
        alias_refusal(alias) is Some,
{
}

/// An alias of at least five bytes whose characters are all alphanumeric,
/// `-` or `_` is accepted.
pub proof fn lemma_alias_good(alias: Seq<char>)
    requires
        vstd::utf8::encode_utf8(alias).len() >= MIN_ALIAS_BYTES,
        forall|i: int|
            0 <= i < alias.len() ==> alphanumeric(#[trigger] alias[i]) || alias[i] == '-'
                || alias[i] == '_',
    ensures
        alias_accepted(alias),
        alias_refusal(alias) is None,
{
}

/// What a check answers: `Ok` when there is no refusal, else a bad request
/// with the refusal's text.
pub open spec fn answers(r: Result<(), CreateUrlError>, refusal: Option<Seq<char>>) -> bool {
    match refusal {
        None => r is Ok,
        Some(m) => r matches Err(CreateUrlError::BadRequest(t)) && t@ == m,
    }
}

/// Checks the link of a request: a blank link and a link with white space
/// are bad requests.
pub fn validate_url(url: &str) -> (r: Result<(), CreateUrlError>)
    ensures
        answers(r, url_refusal(url@)),
        r is Ok <==> url_accepted(url@),
{
    let (blank, spaced) = scan_white_space(url);
    if blank {
        return Err(CreateUrlError::BadRequest(String::from_str(URL_BLANK_MSG)));
    }
    if spaced {
        return Err(CreateUrlError::BadRequest(String::from_str(URL_WHITESPACE_MSG)));
    }
    Ok(())
}

/// Checks an alias: fewer than five bytes, or a character other than an
/// alphanumeric one, `-` or `_`, make a bad request.
pub fn validate_alias(alias: &str) -> (r: Result<(), CreateUrlError>)
    ensures
        answers(r, alias_refusal(alias@)),
        r is Ok <==> alias_accepted(alias@),
{
    if alias.as_bytes().len() < MIN_ALIAS_BYTES {
        return Err(CreateUrlError::BadRequest(String::from_str(ALIAS_SHORT_MSG)));
    }
    if !only_alias_chars(alias) {
        return Err(CreateUrlError::BadRequest(String::from_str(ALIAS_CHARS_MSG)));
    }
    Ok(())
}

/// The base address short links use: the configured one, else
/// `DEFAULT_BASE_URL`.
pub fn base_url(configured: Option<String>) -> (r: String)
    ensures
        r@ == match configured {
            Some(s) => s@,
            None => DEFAULT_BASE_URL@,
        },
{
    match configured {
        Some(s) => s,
        None => String::from_str(DEFAULT_BASE_URL),
    }
}

/// The short link of `hash` under `base`: the base without its trailing
/// slashes, one slash, then the hash.
pub open spec fn short_link_of(base: Seq<char>, hash: Seq<char>) -> Seq<char> {
    trim_end_slashes(base) + seq!['/'] + hash
}

/// A trailing slash on the base address does not change a short link.
pub proof fn lemma_short_link_ignores_trailing_slash(base: Seq<char>, hash: Seq<char>)
    ensures
        short_link_of(base.push('/'), hash) == short_link_of(base, hash),
{
    assert(base.push('/').drop_last() =~= base);
}

/// A short link is the base address with its trailing slashes cut off,
/// then one slash, then the code exactly as given: the part before the
/// slash is a prefix of the base that does not end in a slash, and all of
/// the base after it is slashes.
pub proof fn lemma_short_link_shape(base: Seq<char>, hash: Seq<char>)
    ensures
        ({
            let l = short_link_of(base, hash);
            let p = l.len() - hash.len() - 1;
            &&& 0 <= p <= base.len()
            &&& l.subrange(p + 1, l.len() as int) == hash
            &&& l[p] == '/'
            &&& l.take(p) == base.take(p)
            &&& forall|i: int| p <= i < base.len() ==> base[i] == '/'
            &&& p == 0 || base[p - 1] != '/'
        }),
{
    lemma_trim_end_shape(base);
    let t = trim_end_slashes(base);
    let l = short_link_of(base, hash);
    let p = l.len() - hash.len() - 1;
    assert(p == t.len());
    assert(l.subrange(p + 1, l.len() as int) =~= hash);
    assert(l.take(p) =~= t);
    assert(l[p] == '/');
}

/// Builds the short link of `hash` under `base`.
pub fn short_link(base: &str, hash: &str) -> (r: String)
    ensures
        r@ == short_link_of(base@, hash@),
{
    let head = trim_end_slashes_of(base);
    let mut link = String::from_str(head);
    link.append("/");
    link.append(hash);
    proof {
        reveal_strlit("/");
    }
    link
}


/// What the store answered when asked for the link of a short code that
/// has not expired.
pub enum Lookup {
    /// The link it points to.
    Found(String),
    /// No such live code.
    Missing,
    /// The store failed.
    Failed,
}

/// The answer to a visit of a short link.
pub enum RedirectReply {
    /// A temporary redirect to the stored link.
    Temporary(String),
    /// No live link under that code.
    NotFound,
    /// The store failed.
    ServerError,
}

/// The HTTP status of a redirect reply: 307, 404 or 500.
pub open spec fn redirect_status_of(r: RedirectReply) -> u16 {
    match r {
        RedirectReply::Temporary(_) => 307,
        RedirectReply::NotFound => 404,
        RedirectReply::ServerError => 500,
    }
}

impl RedirectReply {
    /// The HTTP status of this reply.
    pub fn status_code(&self) -> (code: u16)
        ensures
            code == redirect_status_of(*self),
    {
        match self {
            RedirectReply::Temporary(_) => 307,
            RedirectReply::NotFound => 404,
            RedirectReply::ServerError => 500,
        }
    }
}

/// Answers a visit from what the store found: a temporary redirect to a
/// live link, not found when there is none, a server error when the store
/// failed.
pub fn redirect(found: Lookup) -> (reply: RedirectReply)
    ensures
        match found {
            Lookup::Found(url) => reply matches RedirectReply::Temporary(to) && to@ == url@,
            Lookup::Missing => reply is NotFound,
            Lookup::Failed => reply is ServerError,
        },
{
    match found {
        Lookup::Found(url) => RedirectReply::Temporary(url),
        Lookup::Missing => RedirectReply::NotFound,
        Lookup::Failed => RedirectReply::ServerError,
    }
}

/// Turns stored rows `(hash, url, clicks)` into recent links whose short
/// form is the short link of the hash under `base`, in the same order.
pub fn get_recent_links(base: &str, rows: &[(String, String, i64)]) -> (links: Vec<RecentLink>)
    ensures
        links.len() == rows.len(),
        forall|i: int|
            0 <= i < rows.len() ==> {
                &&& (#[trigger] links[i]).short@ == short_link_of(base@, rows[i].0@)
                &&& links[i].url@ == rows[i].1@
                &&& links[i].clicks == rows[i].2
            },
{
    let mut links: Vec<RecentLink> = Vec::new();
    let n: usize = rows.len();
    let mut i: usize = 0;
    while i < n
        invariant
            n == rows.len(),
            i <= n,
            links.len() == i,
            forall|j: int|
                0 <= j < i ==> {
                    &&& (#[trigger] links[j]).short@ == short_link_of(base@, rows[j].0@)
                    &&& links[j].url@ == rows[j].1@
                    &&& links[j].clicks == rows[j].2
                },
        decreases n - i,
    {
        let row = &rows[i];
        let short = short_link(base, row.0.as_str());
        links.push(RecentLink { short, url: row.1.clone(), clicks: row.2 });
        i = i + 1;
    }
    links
}

} // verus!
