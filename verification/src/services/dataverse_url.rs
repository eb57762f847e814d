//! Server URL handling: normalization of user-entered Dataverse URLs, API
//! base candidates, collection alias extraction and resolution of upload URLs.
use vstd::prelude::*;

use crate::domain::errors::{bad_request, AppError, AppResult};
use crate::text::{
    chars_of, decimal, decimal_exec, drop_trailing, eq_ignore_ascii_case,
    eq_ignore_ascii_case_exec, owned, push_all, starts_with, starts_with_exec, str_eq,
    string_of, string_views, trim, trim_end_class, trim_ws, CharClass,
};

verus! {

/// Components of a parsed absolute URL.
#[derive(Debug, Clone)]
pub struct UrlParts {
    /// Scheme, without the `:`.
    pub scheme: String,
    /// Host, when the URL has one.
    pub host: Option<String>,
    /// Explicit port, when it is not the scheme's default.
    pub port: Option<u16>,
    /// Percent-encoded path.
    pub path: String,
}

/// The parts of a parsed URL, as text.
pub struct UrlPartsView {
    pub scheme: Seq<char>,
    pub host: Option<Seq<char>>,
    pub port: Option<u16>,
    pub path: Seq<char>,
}

impl View for UrlParts {
    type V = UrlPartsView;

    open spec fn view(&self) -> UrlPartsView {
        UrlPartsView {
            scheme: self.scheme@,
            host: match self.host {
                Some(h) => Some(h@),
                None => None,
            },
            port: self.port,
            path: self.path@,
        }
    }
}

/// View of a parse outcome: the components, or the error text.
pub open spec fn parse_view(r: Result<UrlParts, String>) -> Result<UrlPartsView, Seq<char>> {
    match r {
        Ok(p) => Ok(p@),
        Err(e) => Err(e@),
    }
}

/// Name for what `url::Url::parse` gives for an input (WHATWG URL parsing):
/// the scheme, host, port and path of the URL, or the text of the parse error.
pub uninterp spec fn parsed_url(input: Seq<char>) -> Result<UrlPartsView, Seq<char>>;

/// `url::Url::parse`, read back through `scheme`, `host_str`, `port` and
/// `path`; on failure the `Display` text of the `ParseError`.
///
/// Claims: the outcome is `parsed_url` of the input, a function of the input
/// alone. Nothing more is claimed of what the parser accepts.
#[verifier::external_body]
pub(crate) fn parse_url(input: &str) -> (r: Result<UrlParts, String>)
    ensures
        parse_view(r) == parsed_url(input@),
{
    match url::Url::parse(input) {
        Ok(u) => Ok(
            UrlParts {
                scheme: u.scheme().to_string(),
                host: match u.host_str() {
                    Some(h) => Some(h.to_string()),
                    None => None,
                },
                port: u.port(),
                path: u.path().to_string(),
            },
        ),
        Err(e) => Err(e.to_string()),
    }
}

/// `s` split at every `sep` (`str::split` with a character pattern).
pub open spec fn split_on(s: Seq<char>, sep: char) -> Seq<Seq<char>>
    decreases s.len(),
{
    if s.len() == 0 {
        seq![Seq::<char>::empty()]
    } else if s.last() == sep {
        split_on(s.drop_last(), sep).push(Seq::<char>::empty())
    } else {
        let p = split_on(s.drop_last(), sep);
        p.update(p.len() - 1, p.last().push(s.last()))
    }
}

proof fn lemma_split_nonempty(s: Seq<char>, sep: char)
    ensures
        split_on(s, sep).len() >= 1,
    decreases s.len(),
{
    if s.len() > 0 {
        lemma_split_nonempty(s.drop_last(), sep);
    }
}

/// Path segments of a URL path (`Url::path_segments`): the path after its
/// leading `/`, split at `/`; none when the path does not start with `/`.
pub open spec fn url_segments(path: Seq<char>) -> Seq<Seq<char>> {
    if path.len() > 0 && path[0] == '/' {
        split_on(path.drop_first(), '/')
    } else {
        Seq::empty()
    }
}

/// The texts of a list of character vectors.
pub open spec fn views_of(v: Seq<Vec<char>>) -> Seq<Seq<char>> {
    v.map_values(|x: Vec<char>| x@)
}

fn split_exec(s: &[char], sep: char) -> (r: Vec<Vec<char>>)
    ensures
        views_of(r@) == split_on(s@, sep),
{
    let mut done: Vec<Vec<char>> = Vec::new();
    let mut cur: Vec<char> = Vec::new();
    let mut i: usize = 0;
    assert(s@.take(0) =~= Seq::<char>::empty());
    assert(views_of(done@).push(cur@) =~= seq![Seq::<char>::empty()]);
    while i < s.len()
        invariant
            i <= s.len(),
            split_on(s@.take(i as int), sep) == views_of(done@).push(cur@),
        decreases s.len() - i,
    {
        let ghost prev = s@.take(i as int);
        assert(s@.take(i + 1).drop_last() =~= prev);
        if s[i] == sep {
            let finished = cur;
            done.push(finished);
            cur = Vec::new();
            assert(views_of(done@).push(cur@) =~= views_of(done@.drop_last()).push(
                finished@,
            ).push(Seq::<char>::empty()));
        } else {
            cur.push(s[i]);
            let ghost p = split_on(prev, sep);
            assert(p.update(p.len() - 1, p.last().push(s@[i as int])) =~= views_of(done@).push(
                cur@,
            ));
        }
        i = i + 1;
    }
    let last = cur;
    done.push(last);
    assert(s@.take(s.len() as int) =~= s@);
    assert(views_of(done@) =~= views_of(done@.drop_last()).push(last@));
    done
}

/// Path segments of a URL path (see `url_segments`).
pub fn path_segments(path: &str) -> (r: Vec<Vec<char>>)
    ensures
        views_of(r@) == url_segments(path@),
{
    let p = chars_of(path);
    if p.len() > 0 && p[0] == '/' {
        let rest = crate::text::copy_range(&p, 1, p.len());
        assert(rest@ =~= p@.drop_first());
        split_exec(&rest, '/')
    } else {
        let r: Vec<Vec<char>> = Vec::new();
        assert(views_of(r@) =~= Seq::<Seq<char>>::empty());
        r
    }
}

/// `scheme://host[:port]`.
pub open spec fn origin_of(scheme: Seq<char>, host: Seq<char>, port: Option<u16>) -> Seq<char> {
    match port {
        Some(p) => scheme + "://"@ + host + ":"@ + decimal(p as nat),
        None => scheme + "://"@ + host,
    }
}

fn origin_exec(scheme: &str, host: &str, port: Option<u16>) -> (r: String)
    ensures
        r@ == origin_of(scheme@, host@, port),
{
    let mut v = chars_of(scheme);
    push_all(&mut v, &chars_of("://"));
    push_all(&mut v, &chars_of(host));
    match port {
        Some(p) => {
            push_all(&mut v, &chars_of(":"));
            push_all(&mut v, &decimal_exec(p as u64));
        },
        None => {},
    }
    string_of(&v)
}

/// The text to parse: surrounding whitespace and trailing slashes removed.
pub open spec fn trimmed_server_url(value: Seq<char>) -> Seq<char> {
    drop_trailing(trim_ws(value), CharClass::Is('/'))
}

/// Outcome of server URL normalization.
pub enum UrlCheck {
    Normalized(Seq<char>),
    Rejected(Seq<char>),
}

/// The path starts with `/dataverse/<alias>` (any ASCII case).
pub open spec fn in_dataverse_subtree(p: UrlPartsView) -> bool {
    let segs = url_segments(p.path);
    segs.len() >= 2 && eq_ignore_ascii_case(segs[0], "dataverse"@)
}

/// Normalization of the trimmed text given its parse: http(s) only, and a
/// `/dataverse/<alias>` sub-tree URL is reduced to its origin.
pub open spec fn normalized_from(
    trimmed: Seq<char>,
    parsed: Result<UrlPartsView, Seq<char>>,
) -> UrlCheck {
    match parsed {
        Err(m) => UrlCheck::Rejected(m),
        Ok(p) => if p.scheme != "http"@ && p.scheme != "https"@ {
            UrlCheck::Rejected("server URL must use http or https"@)
        } else if in_dataverse_subtree(p) {
            match p.host {
                Some(h) => UrlCheck::Normalized(origin_of(p.scheme, h, p.port)),
                None => UrlCheck::Rejected("server URL must include a host"@),
            }
        } else {
            UrlCheck::Normalized(trimmed)
        },
    }
}

/// `r` is the outcome `c`: the normalized URL, or an invalid-input error
/// with the message.
pub open spec fn check_result(r: AppResult<String>, c: UrlCheck) -> bool {
    match c {
        UrlCheck::Normalized(u) => r matches Ok(s) && s@ == u,
        UrlCheck::Rejected(m) => r matches Err(e) && e matches AppError::InvalidInput(x) && x@
            == m,
    }
}

fn in_dataverse_subtree_exec(p: &UrlParts) -> (r: bool)
    ensures
        r == in_dataverse_subtree(p@),
{
    let segs = path_segments(p.path.as_str());
    proof {
        assert(views_of(segs@).len() == segs@.len());
    }
    if segs.len() >= 2 {
        assert(views_of(segs@)[0] == segs@[0]@);
        eq_ignore_ascii_case_exec(&segs[0], &chars_of("dataverse"))
    } else {
        false
    }
}

/// Normalizes the trimmed server URL text given its parse outcome.
pub fn normalize_parsed_server_url(
    trimmed: &str,
    parsed: &Result<UrlParts, String>,
) -> (r: AppResult<String>)
    ensures
        check_result(r, normalized_from(trimmed@, parse_view(*parsed))),
{
    match parsed {
        Err(m) => Err(bad_request(m.as_str())),
        Ok(p) => {
            if !str_eq(p.scheme.as_str(), "http") && !str_eq(p.scheme.as_str(), "https") {
                return Err(bad_request("server URL must use http or https"));
            }
            if in_dataverse_subtree_exec(p) {
                match &p.host {
                    Some(h) => Ok(origin_exec(p.scheme.as_str(), h.as_str(), p.port)),
                    None => Err(bad_request("server URL must include a host")),
                }
            } else {
                Ok(owned(trimmed))
            }
        },
    }
}

/// Normalizes a user-entered server URL: surrounding whitespace and trailing
/// slashes are removed, only http(s) URLs are accepted, and a URL pointing
/// into a `/dataverse/<alias>` collection is reduced to the server origin.
pub fn normalize_server_url(value: &str) -> (r: AppResult<String>)
    ensures
        check_result(
            r,
            normalized_from(
                trimmed_server_url(value@),
                parsed_url(trimmed_server_url(value@)),
            ),
        ),
{
    let v = chars_of(value);
    let t = trim(&v);
    let t2 = trim_end_class(&t, CharClass::Is('/'));
    let trimmed = string_of(&t2);
    let parsed = parse_url(trimmed.as_str());
    normalize_parsed_server_url(trimmed.as_str(), &parsed)
}

/// API base URLs to try for a server URL: the URL without trailing slashes,
/// then the origin when the URL has a path and the origin differs.
pub open spec fn api_candidates_from(
    server_url: Seq<char>,
    parsed: Result<UrlPartsView, Seq<char>>,
) -> Seq<Seq<char>> {
    let first = drop_trailing(server_url, CharClass::Is('/'));
    match parsed {
        Err(_) => seq![first],
        Ok(p) => if p.path == "/"@ {
            seq![first]
        } else {
            match p.host {
                None => seq![first],
                Some(h) => {
                    let o = origin_of(p.scheme, h, p.port);
                    if o == first {
                        seq![first]
                    } else {
                        seq![first, o]
                    }
                },
            }
        },
    }
}


/// API base URLs to try, given the parse of `server_url`.
pub fn api_candidates_from_parsed(
    server_url: &str,
    parsed: &Result<UrlParts, String>,
) -> (r: Vec<String>)
    ensures
        string_views(r@) == api_candidates_from(server_url@, parse_view(*parsed)),
{
    let first_chars = trim_end_class(&chars_of(server_url), CharClass::Is('/'));
    let first = string_of(&first_chars);
    let mut candidates: Vec<String> = Vec::new();
    candidates.push(first);
    let ghost one = string_views(candidates@);
    assert(one =~= seq![first_chars@]);
    match parsed {
        Err(_) => {},
        Ok(p) => {
            if !str_eq(p.path.as_str(), "/") {
                match &p.host {
                    None => {},
                    Some(h) => {
                        let o = origin_exec(p.scheme.as_str(), h.as_str(), p.port);
                        if !str_eq(o.as_str(), candidates[0].as_str()) {
                            candidates.push(o);
                            assert(string_views(candidates@) =~= one.push(o@));
                        }
                    },
                }
            }
        },
    }
    candidates
}

/// API base URLs to try for a server URL (see `api_candidates_from`).
pub fn server_url_api_candidates(server_url: &str) -> (r: Vec<String>)
    ensures
        string_views(r@) == api_candidates_from(server_url@, parsed_url(server_url@)),
{
    let parsed = parse_url(server_url);
    api_candidates_from_parsed(server_url, &parsed)
}

/// The collection alias of a `/dataverse/<alias>` URL, trimmed and non-empty.
pub open spec fn alias_from(parsed: Result<UrlPartsView, Seq<char>>) -> Option<Seq<char>> {
    match parsed {
        Err(_) => None,
        Ok(p) => {
            let segs = url_segments(p.path);
            if segs.len() >= 2 && eq_ignore_ascii_case(segs[0], "dataverse"@) && trim_ws(
                segs[1],
            ).len() > 0 {
                Some(trim_ws(segs[1]))
            } else {
                None
            }
        },
    }
}

/// The collection alias, given the parse of the server URL.
pub fn alias_from_parsed(parsed: &Result<UrlParts, String>) -> (r: Option<String>)
    ensures
        crate::text::opt_view(r) == alias_from(parse_view(*parsed)),
{
    match parsed {
        Err(_) => None,
        Ok(p) => {
            let segs = path_segments(p.path.as_str());
            proof {
                assert(views_of(segs@).len() == segs@.len());
            }
            if segs.len() >= 2 {
                assert(views_of(segs@)[0] == segs@[0]@);
                assert(views_of(segs@)[1] == segs@[1]@);
                if eq_ignore_ascii_case_exec(&segs[0], &chars_of("dataverse")) {
                    let alias = trim(&segs[1]);
                    if alias.len() > 0 {
                        return Some(string_of(&alias));
                    }
                }
            }
            None
        },
    }
}

/// The collection alias of a `/dataverse/<alias>` server URL.
pub fn extract_dataverse_alias(server_url: &str) -> (r: Option<String>)
    ensures
        crate::text::opt_view(r) == alias_from(parsed_url(server_url@)),
{
    let parsed = parse_url(server_url);
    alias_from_parsed(&parsed)
}

/// An absolute `http(s)://` URL is kept; anything else is appended to the
/// server URL without its trailing slashes.
pub open spec fn resolved_url(server_url: Seq<char>, candidate: Seq<char>) -> Seq<char> {
    if starts_with(candidate, "http://"@) || starts_with(candidate, "https://"@) {
        candidate
    } else {
        drop_trailing(server_url, CharClass::Is('/')) + candidate
    }
}

/// Resolves an upload URL returned by the server against the server URL.
pub fn resolve_url(server_url: &str, candidate: &str) -> (r: String)
    ensures
        r@ == resolved_url(server_url@, candidate@),
{
    let c = chars_of(candidate);
    if starts_with_exec(&c, &chars_of("http://")) || starts_with_exec(&c, &chars_of("https://")) {
        string_of(&c)
    } else {
        let mut base = trim_end_class(&chars_of(server_url), CharClass::Is('/'));
        push_all(&mut base, &c);
        string_of(&base)
    }
}

} // verus!
