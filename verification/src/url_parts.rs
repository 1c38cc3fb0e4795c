use vstd::prelude::*;

verus! {

/// What the link parser reads of a parsed URL: its host, if it has one, and
/// its percent-decoded query pairs in order.
#[derive(Debug, Clone, PartialEq, Eq)]
pub struct UrlParts {
    pub host: Option<String>,
    pub query: Vec<(String, String)>,
}

/// The view of an optional string.
pub open spec fn opt_str_view(o: Option<String>) -> Option<Seq<char>> {
    match o {
        Some(s) => Some(s@),
        None => None,
    }
}

/// The view of a list of query pairs.
pub open spec fn pairs_view(v: Seq<(String, String)>) -> Seq<(Seq<char>, Seq<char>)> {
    v.map_values(|p: (String, String)| (p.0@, p.1@))
}

/// The view of URL parts: host and query pairs as character sequences.
pub struct UrlPartsView {
    pub host: Option<Seq<char>>,
    pub query: Seq<(Seq<char>, Seq<char>)>,
}

impl View for UrlParts {
    type V = UrlPartsView;

    open spec fn view(&self) -> UrlPartsView {
        UrlPartsView { host: opt_str_view(self.host), query: pairs_view(self.query@) }
    }
}

/// What the WHATWG URL parser of the `url` crate makes of `input`: on success
/// the host (`Url::host_str`) and the decoded query pairs (`Url::query_pairs`);
/// on failure the text of its error.
pub uninterp spec fn whatwg_url_parse(input: Seq<char>) -> Result<
    (Option<Seq<char>>, Seq<(Seq<char>, Seq<char>)>),
    Seq<char>,
>;

/// Calls `url::Url::parse`, then `Url::host_str` and `Url::query_pairs` on
/// the result, and converts them to owned strings one for one; an error is
/// converted to its `Display` text. All three are named `whatwg_url_parse`.
#[verifier::external_body]
pub(crate) fn url_parse(input: &str) -> (res: Result<UrlParts, String>)
    ensures
        match res {
            Ok(p) => whatwg_url_parse(input@) == Ok::<
                (Option<Seq<char>>, Seq<(Seq<char>, Seq<char>)>),
                Seq<char>,
            >((p@.host, p@.query)),
            Err(m) => whatwg_url_parse(input@) == Err::<
                (Option<Seq<char>>, Seq<(Seq<char>, Seq<char>)>),
                Seq<char>,
            >(m@),
        },
{
    match url::Url::parse(input) {
        Ok(u) => Ok(UrlParts {
            host: u.host_str().map(|h| h.to_string()),
            query: u.query_pairs().map(|(k, v)| (k.into_owned(), v.into_owned())).collect(),
        }),
        Err(e) => Err(e.to_string()),
    }
}

} // verus!
