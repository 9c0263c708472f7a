//! The form that creates a short link: the hints shown while typing, what
//! a submit sends, and how the form resets once the link exists.

use vstd::prelude::*;
use vstd::string::*;

use crate::backend::{alias_refusal, url_refusal, CreateUrlRequest};
use crate::text::{all_alias_chars, all_white_space, has_white_space, only_alias_chars, scan_white_space};

verus! {

/// Hint for an empty or blank link.
pub const URL_REQUIRED_HINT: &'static str = "URL is required";

/// Hint for a link with white space.
pub const URL_WHITESPACE_HINT: &'static str = "URL must not contain whitespace";

/// Hint for an alias shorter than five bytes.
pub const ALIAS_SHORT_HINT: &'static str = "Alias must be at least 5 characters";

/// Hint for an alias with other characters than letters, digits, `-`, `_`.
pub const ALIAS_CHARS_HINT: &'static str = "Alias can only contain letters, numbers, - and _";

/// The hint shown for a link, if any.
pub open spec fn url_hint(url: Seq<char>) -> Option<Seq<char>> {
    if all_white_space(url) {
        Some(URL_REQUIRED_HINT@)
    } else if has_white_space(url) {
        Some(URL_WHITESPACE_HINT@)
    } else {
        None
    }
}

/// The hint shown for an alias, if any.
pub open spec fn alias_hint(alias: Seq<char>) -> Option<Seq<char>> {
    if vstd::utf8::encode_utf8(alias).len() < 5 {
        Some(ALIAS_SHORT_HINT@)
    } else if !all_alias_chars(alias) {
        Some(ALIAS_CHARS_HINT@)
    } else {
        None
    }
}

/// The views of an optional text.
pub open spec fn text_of(o: Option<String>) -> Option<Seq<char>> {
    match o {
        Some(s) => Some(s@),
        None => None,
    }
}

/// The views of an optional static text.
pub open spec fn hint_text(o: Option<&'static str>) -> Option<Seq<char>> {
    match o {
        Some(s) => Some(s@),
        None => None,
    }
}

/// The hint for a link: required when blank, no white space allowed.
pub fn validate_url(url: &str) -> (r: Option<&'static str>)
    ensures
        hint_text(r) == url_hint(url@),
{
    let (blank, spaced) = scan_white_space(url);
    if blank {
        Some(URL_REQUIRED_HINT)
    } else if spaced {
        Some(URL_WHITESPACE_HINT)
    } else {
        None
    }
}

/// The hint for an alias: at least five bytes, letters, digits, `-`, `_`.
pub fn validate_alias(alias: &str) -> (r: Option<&'static str>)
    ensures
        hint_text(r) == alias_hint(alias@),
{
    if alias.as_bytes().len() < 5 {
        Some(ALIAS_SHORT_HINT)
    } else if !only_alias_chars(alias) {
        Some(ALIAS_CHARS_HINT)
    } else {
        None
    }
}

/// The form accepts a link exactly when the server's check does.
pub proof fn lemma_url_hint_agrees(url: Seq<char>)
    ensures
        url_hint(url) is None <==> url_refusal(url) is None,
{
}

/// The form accepts an alias exactly when the server's check does.
pub proof fn lemma_alias_hint_agrees(alias: Seq<char>)
    ensures
        alias_hint(alias) is None <==> alias_refusal(alias) is None,
{
}

/// Turns a hint into the text the form keeps.
fn owned_hint(h: Option<&'static str>) -> (r: Option<String>)
    ensures
        text_of(r) == hint_text(h),
{
    match h {
        Some(m) => Some(String::from_str(m)),
        None => None,
    }
}

/// The state of the link form.
pub struct HomeForm {
    /// The last short link created.
    pub nano_url: Option<String>,
    pub long_url: String,
    pub alias: Option<String>,
    /// The chosen expiry date, as `YYYY-MM-DD`.
    pub expiration: Option<String>,
    pub long_url_error: Option<String>,
    pub alias_error: Option<String>,
}

impl HomeForm {
    /// An empty form.
    pub fn new() -> (f: HomeForm)
        ensures
            f.nano_url is None,
            f.long_url@ == Seq::<char>::empty(),
            f.alias is None,
            f.expiration is None,
            f.long_url_error is None,
            f.alias_error is None,
    {
        HomeForm {
            nano_url: None,
            long_url: String::new(),
            alias: None,
            expiration: None,
            long_url_error: None,
            alias_error: None,
        }
    }

    /// The link field changed to `v`: its hint is cleared while it is
    /// empty and otherwise follows the check.
    pub fn input_long_url(&mut self, v: String)
        ensures
            final(self).long_url@ == v@,
            text_of(final(self).long_url_error) == if v@.len() == 0 {
                None
            } else {
                url_hint(v@)
            },
            final(self).nano_url == old(self).nano_url,
            final(self).alias == old(self).alias,
            final(self).expiration == old(self).expiration,
            final(self).alias_error == old(self).alias_error,
    {
        if v.as_str().is_empty() {
            self.long_url_error = None;
        } else {
            self.long_url_error = owned_hint(validate_url(v.as_str()));
        }
        self.long_url = v;
    }

    /// The alias field changed to `v`: an empty field means no alias and
    /// no hint; otherwise the alias is `v` and its hint follows the check.
    pub fn input_alias(&mut self, v: String)
        ensures
            v@.len() == 0 ==> final(self).alias is None && final(self).alias_error is None,
            v@.len() > 0 ==> text_of(final(self).alias) == Some(v@) && text_of(
                final(self).alias_error,
            ) == alias_hint(v@),
            final(self).nano_url == old(self).nano_url,
            final(self).long_url == old(self).long_url,
            final(self).expiration == old(self).expiration,
            final(self).long_url_error == old(self).long_url_error,
    {
        if v.as_str().is_empty() {
            self.alias = None;
            self.alias_error = None;
        } else {
            self.alias_error = owned_hint(validate_alias(v.as_str()));
            self.alias = Some(v);
        }
    }

    /// The form is submitted: both hints are set from the checks, and when
    /// neither has anything to say the request to send comes back.
    pub fn submit(&mut self) -> (r: Option<CreateUrlRequest>)
        ensures
            text_of(final(self).long_url_error) == url_hint(old(self).long_url@),
            text_of(final(self).alias_error) == match old(self).alias {
                Some(a) => alias_hint(a@),
                None => None,
            },
            r is Some <==> (final(self).long_url_error is None && final(self).alias_error is None),
            r matches Some(req) ==> {
                &&& req.url@ == old(self).long_url@
                &&& text_of(req.alias) == text_of(old(self).alias)
                &&& text_of(req.expiration) == text_of(old(self).expiration)
                &&& url_refusal(req.url@) is None
                &&& (req.alias matches Some(a) ==> alias_refusal(a@) is None)
            },
            final(self).nano_url == old(self).nano_url,
            final(self).long_url == old(self).long_url,
            final(self).alias == old(self).alias,
            final(self).expiration == old(self).expiration,
    {
        let url_err = owned_hint(validate_url(self.long_url.as_str()));
        let alias_err = match &self.alias {
            Some(a) => owned_hint(validate_alias(a.as_str())),
            None => None,
        };
        let failed = url_err.is_some() || alias_err.is_some();
        self.long_url_error = url_err;
        self.alias_error = alias_err;
        if failed {
            return None;
        }
        Some(
            CreateUrlRequest {
                url: self.long_url.clone(),
                alias: self.alias.clone(),
                expiration: self.expiration.clone(),
            },
        )
    }

    /// The link `link` was created: it is shown, and the fields and hints
    /// are cleared.
    pub fn created(&mut self, link: String)
        ensures
            text_of(final(self).nano_url) == Some(link@),
            final(self).long_url@ == Seq::<char>::empty(),
            final(self).alias is None,
            final(self).expiration is None,
            final(self).long_url_error is None,
            final(self).alias_error is None,
    {
        self.nano_url = Some(link);
        self.long_url = String::new();
        self.alias = None;
        self.expiration = None;
        self.long_url_error = None;
        self.alias_error = None;
    }
}

} // verus!
