//! The URL normaliser: a URL reduced to its origin, with the scheme forced to
//! `https`, used to compare URLs against the blocklist.
use url::Url as WhatwgUrl;
use vstd::prelude::*;

verus! {

#[verifier::external_type_specification]
#[verifier::external_body]
pub struct ExUrl(WhatwgUrl);

/// The serialization of what `url::Url::parse` returns for `input`, or `None` where
/// it fails.
pub uninterp spec fn url_parse(input: Seq<char>) -> Option<Seq<char>>;

/// The serialization of the URL serialized as `url` after `url::Url::set_scheme`
/// with `scheme` (unchanged where the change is refused).
pub uninterp spec fn url_with_scheme(url: Seq<char>, scheme: Seq<char>) -> Seq<char>;

/// The serialization of the URL serialized as `url` after `url::Url::set_path` with
/// `path`.
pub uninterp spec fn url_with_path(url: Seq<char>, path: Seq<char>) -> Seq<char>;

/// The serialization of the URL serialized as `url` after `url::Url::set_query`
/// with `None`.
pub uninterp spec fn url_without_query(url: Seq<char>) -> Seq<char>;

/// The serialization of the URL serialized as `url` after `url::Url::set_fragment`
/// with `None`.
pub uninterp spec fn url_without_fragment(url: Seq<char>) -> Seq<char>;

/// The longest serialization, in characters, that is changed in place. The URL
/// library keeps byte offsets in `u32`; beyond this length a longer scheme or path
/// could overflow them.
pub const MAX_URL_CHARS: usize = 0x3fff_0000;

/// The scheme that normalisation forces.
pub const SECURE_SCHEME: &'static str = "https";

/// A parsed URL together with its serialization.
pub(crate) struct ParsedUrl {
    parsed: WhatwgUrl,
    text: String,
}

impl ParsedUrl {
    /// The serialization of this URL.
    pub(crate) closed spec fn serialization(&self) -> Seq<char> {
        self.text@
    }

    /// Relies on `url::Url::parse`: parses `input` as an absolute URL.
    #[verifier::external_body]
    pub(crate) fn parse(input: &str) -> (r: Option<ParsedUrl>)
        ensures
            r matches Some(u) ==> url_parse(input@) == Some(u.serialization()),
            r is None ==> url_parse(input@) is None,
    {
        match WhatwgUrl::parse(input) {
            Ok(parsed) => {
                let text = parsed.as_str().to_string();
                Some(ParsedUrl { parsed, text })
            },
            Err(_) => None,
        }
    }

    /// Relies on `url::Url::set_scheme`, which leaves the URL as it was where the
    /// change is refused. The length bound keeps its `u32` offsets from overflowing.
    #[verifier::external_body]
    pub(crate) fn set_scheme(&mut self, scheme: &str)
        requires
            old(self).serialization().len() + scheme@.len() <= MAX_URL_CHARS,
        ensures
            final(self).serialization() == url_with_scheme(old(self).serialization(), scheme@),
    {
        let _ = self.parsed.set_scheme(scheme);
        self.text = self.parsed.as_str().to_string();
    }

    /// Relies on `url::Url::set_path`. The length bound keeps its `u32` offsets from
    /// overflowing, a path character taking at most three times its bytes once
    /// percent-encoded.
    #[verifier::external_body]
    pub(crate) fn set_path(&mut self, path: &str)
        requires
            old(self).serialization().len() + 3 * path@.len() <= MAX_URL_CHARS,
        ensures
            final(self).serialization() == url_with_path(old(self).serialization(), path@),
    {
        self.parsed.set_path(path);
        self.text = self.parsed.as_str().to_string();
    }

    /// Relies on `url::Url::set_query` with `None`: removes the query.
    #[verifier::external_body]
    pub(crate) fn clear_query(&mut self)
        ensures
            final(self).serialization() == url_without_query(old(self).serialization()),
    {
        self.parsed.set_query(None);
        self.text = self.parsed.as_str().to_string();
    }

    /// Relies on `url::Url::set_fragment` with `None`: removes the fragment.
    #[verifier::external_body]
    pub(crate) fn clear_fragment(&mut self)
        ensures
            final(self).serialization() == url_without_fragment(old(self).serialization()),
    {
        self.parsed.set_fragment(None);
        self.text = self.parsed.as_str().to_string();
    }

    /// The serialization of this URL.
    pub(crate) fn as_str(&self) -> (r: &str)
        ensures
            r@ == self.serialization(),
    {
        self.text.as_str()
    }
}

/// The origin form of the URL serialized as `url`: scheme forced to `https`, path,
/// query and fragment cleared; `None` where the URL is too long to change in place.
pub open spec fn origin_form(url: Seq<char>) -> Option<Seq<char>> {
    if url.len() + SECURE_SCHEME@.len() > MAX_URL_CHARS {
        None
    } else {
        let secure = url_with_scheme(url, SECURE_SCHEME@);
        if secure.len() > MAX_URL_CHARS {
            None
        } else {
            Some(url_without_fragment(url_without_query(url_with_path(secure, Seq::empty()))))
        }
    }
}

/// `s` without its trailing `/` characters.
pub open spec fn trim_trailing_slashes(s: Seq<char>) -> Seq<char>
    decreases s.len(),
{
    if s.len() > 0 && s.last() == '/' {
        trim_trailing_slashes(s.drop_last())
    } else {
        s
    }
}

/// Dropping trailing slashes a second time changes nothing.
pub proof fn lemma_trim_trailing_slashes_idempotent(s: Seq<char>)
    ensures
        trim_trailing_slashes(trim_trailing_slashes(s)) == trim_trailing_slashes(s),
    decreases s.len(),
{
    if s.len() > 0 && s.last() == '/' {
        lemma_trim_trailing_slashes_idempotent(s.drop_last());
    }
}

/// The normalised form of `url`: the origin form of the parsed URL without trailing
/// slashes, or `url` itself where it does not parse (or is too long to change).
pub open spec fn normalized_url(url: Seq<char>) -> Seq<char> {
    match url_parse(url) {
        Some(parsed) => match origin_form(parsed) {
            Some(origin) => trim_trailing_slashes(origin),
            None => url,
        },
        None => url,
    }
}

/// `s` without its trailing `/` characters.
pub fn without_trailing_slashes(s: &str) -> (r: String)
    ensures
        r@ == trim_trailing_slashes(s@),
{
    let n = s.unicode_len();
    let mut end = n;
    assert(s@.subrange(0, n as int) =~= s@);
    while end > 0 && s.get_char(end - 1) == '/'
        invariant
            end <= n,
            n == s@.len(),
            trim_trailing_slashes(s@) == trim_trailing_slashes(s@.subrange(0, end as int)),
        decreases end,
    {
        assert(s@.subrange(0, end as int).drop_last() =~= s@.subrange(0, end as int - 1));
        end -= 1;
    }
    String::from_str(s.substring_char(0, end))
}

/// Normalises `url` for comparison: where it parses, the scheme becomes `https`,
/// path, query and fragment are cleared and trailing slashes are dropped; where it
/// does not, it is returned unchanged.
pub fn normalize_url(url: &str) -> (r: String)
    ensures
        r@ == normalized_url(url@),
{
    let mut parsed = match ParsedUrl::parse(url) {
        Some(u) => u,
        None => return String::from_str(url),
    };
    proof {
        reveal_strlit("https");
        reveal_strlit("");
        assert(""@ =~= Seq::<char>::empty());
    }
    if parsed.as_str().unicode_len() > MAX_URL_CHARS - SECURE_SCHEME.unicode_len() {
        return String::from_str(url);
    }
    parsed.set_scheme(SECURE_SCHEME);
    if parsed.as_str().unicode_len() > MAX_URL_CHARS {
        return String::from_str(url);
    }
    parsed.set_path("");
    parsed.clear_query();
    parsed.clear_fragment();
    without_trailing_slashes(parsed.as_str())
}

} // verus!
