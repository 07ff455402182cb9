use vstd::prelude::*;
use vstd::string::*;
use vstd::utf8::encode_utf8;

use crate::error::{AppError, ErrorView};
use crate::text::{joined, owned, same_text};

verus! {

/// The parts of a request's URI that the protocol reads.
#[derive(Debug)]
pub struct RequestUri {
    pub scheme: Option<String>,
    pub host: Option<String>,
    pub path: String,
    /// The query component, still form-encoded; empty where there is none.
    pub query: String,
}

pub struct UriView {
    pub scheme: Option<Seq<char>>,
    pub host: Option<Seq<char>>,
    pub path: Seq<char>,
    pub query: Seq<char>,
}

impl View for RequestUri {
    type V = UriView;

    open spec fn view(&self) -> UriView {
        UriView {
            scheme: self.scheme.deep_view(),
            host: self.host.deep_view(),
            path: self.path@,
            query: self.query@,
        }
    }
}

/// The key/value pairs of `application/x-www-form-urlencoded` bytes, decoded.
pub uninterp spec fn form_decode(input: Seq<u8>) -> Seq<(Seq<char>, Seq<char>)>;

/// Relies on `form_urlencoded::parse`: the pairs of the input split at `&` and `=`,
/// with `+` and percent escapes decoded, in their order.
#[verifier::external_body]
pub(crate) fn form_pairs(input: &[u8]) -> (r: Vec<(String, String)>)
    ensures
        r.deep_view() == form_decode(input@),
{
    form_urlencoded::parse(input).map(|(k, v)| (k.into_owned(), v.into_owned())).collect()
}

/// The pairs of a URI's query component.
pub open spec fn query_pairs(u: UriView) -> Seq<(Seq<char>, Seq<char>)> {
    form_decode(encode_utf8(u.query))
}

/// The text of the URI made of a scheme, an authority and a path-and-query, if
/// those parts make one.
pub uninterp spec fn uri_text(
    scheme: Option<Seq<char>>,
    host: Option<Seq<char>>,
    path_and_query: Seq<char>,
) -> Option<Seq<char>>;

/// Relies on http's `uri::Builder`: it builds a URI from the parts that are
/// given, or fails where they do not make one; the URI is then written out.
#[verifier::external_body]
fn build_uri(scheme: &Option<String>, host: &Option<String>, path: &str) -> (r: Option<String>)
    ensures
        r.deep_view() == uri_text(scheme.deep_view(), host.deep_view(), path@),
{
    let mut uri = actix_web::http::Uri::builder();
    if let Some(scheme) = scheme {
        uri = uri.scheme(scheme.as_str());
    }
    if let Some(host) = host {
        uri = uri.authority(host.as_str());
    }
    uri.path_and_query(path).build().ok().map(|u| u.to_string())
}

/// Whether a string is an absolute IRI.
pub uninterp spec fn iri_is_valid(s: Seq<char>) -> bool;

/// Relies on oxigraph's `NamedNode::new`, which accepts exactly the absolute IRIs.
#[verifier::external_body]
fn is_absolute_iri(s: &str) -> (r: bool)
    ensures
        r == iri_is_valid(s@),
{
    oxigraph::model::NamedNode::new(s).is_ok()
}

/// Whether `s` is an absolute IRI.
pub fn check_iri(s: &str) -> (r: bool)
    ensures
        r == iri_is_valid(s@),
{
    is_absolute_iri(s)
}

/// The path, or `path`, on the request's scheme and host.
pub open spec fn base_url_of(u: UriView, path: Option<Seq<char>>) -> Result<Seq<char>, ErrorView> {
    let p = match path {
        Some(p) => p,
        None => u.path,
    };
    match uri_text(u.scheme, u.host, p) {
        Some(s) => Ok(s),
        None => Err(ErrorView::BadUrl),
    }
}

pub open spec fn text_result(r: Result<String, AppError>) -> Result<Seq<char>, ErrorView> {
    match r {
        Ok(s) => Ok(s@),
        Err(e) => Err(e@),
    }
}

/// The absolute URL made of the request's scheme and host and either `path`
/// (a path and query) or, where it is `None`, the request's own path without
/// its query.
pub fn base_url(uri: &RequestUri, path: Option<&str>) -> (r: Result<String, AppError>)
    ensures
        text_result(r) == base_url_of(
            uri@,
            match path {
                Some(p) => Some(p@),
                None => None,
            },
        ),
{
    let p = match path {
        Some(p) => p,
        None => uri.path.as_str(),
    };
    match build_uri(&uri.scheme, &uri.host, p) {
        Some(s) => Ok(s),
        None => Err(AppError::BadUrl),
    }
}

/// The parameters that address a graph of the store.
#[derive(Debug)]
pub struct StoreGraphInfo {
    pub default: Option<String>,
    pub graph: Option<String>,
}

/// The `default` and `graph` values among the first `n` pairs; a second
/// occurrence of either is refused and other keys are ignored.
pub open spec fn store_info_scan(pairs: Seq<(Seq<char>, Seq<char>)>, n: int) -> Result<
    (Option<Seq<char>>, Option<Seq<char>>),
    ErrorView,
>
    decreases n,
{
    if n <= 0 {
        Ok((None, None))
    } else {
        match store_info_scan(pairs, n - 1) {
            Err(e) => Err(e),
            Ok((d, g)) => {
                let (k, v) = pairs[n - 1];
                if k == "default"@ {
                    if d is Some {
                        Err(ErrorView::DuplicateParameter(k))
                    } else {
                        Ok((Some(v), g))
                    }
                } else if k == "graph"@ {
                    if g is Some {
                        Err(ErrorView::DuplicateParameter(k))
                    } else {
                        Ok((d, Some(v)))
                    }
                } else {
                    Ok((d, g))
                }
            },
        }
    }
}

proof fn lemma_store_scan_failure_stays(pairs: Seq<(Seq<char>, Seq<char>)>, m: int, n: int)
    requires
        0 <= m <= n,
        store_info_scan(pairs, m) is Err,
    ensures
        store_info_scan(pairs, n) == store_info_scan(pairs, m),
    decreases n - m,
{
    if n > m {
        lemma_store_scan_failure_stays(pairs, m, n - 1);
    }
}

/// The `default` and `graph` parameters of a request's query component.
pub open spec fn store_info_of(u: UriView) -> Result<
    (Option<Seq<char>>, Option<Seq<char>>),
    ErrorView,
> {
    let pairs = query_pairs(u);
    store_info_scan(pairs, pairs.len() as int)
}

pub open spec fn info_result(r: Result<StoreGraphInfo, AppError>) -> Result<
    (Option<Seq<char>>, Option<Seq<char>>),
    ErrorView,
> {
    match r {
        Ok(i) => Ok((i.default.deep_view(), i.graph.deep_view())),
        Err(e) => Err(e@),
    }
}

/// Reads the `default` and `graph` parameters from the request's query component.
pub fn store_graph_info(uri: &RequestUri) -> (r: Result<StoreGraphInfo, AppError>)
    ensures
        info_result(r) == store_info_of(uri@),
{
    let pairs = form_pairs(uri.query.as_str().as_bytes());
    let ghost ps = pairs.deep_view();
    let mut default: Option<String> = None;
    let mut graph: Option<String> = None;
    let mut i: usize = 0;
    while i < pairs.len()
        invariant
            i <= pairs.len(),
            ps == pairs.deep_view(),
            ps == query_pairs(uri@),
            store_info_scan(ps, i as int) == Ok::<_, ErrorView>(
                (default.deep_view(), graph.deep_view()),
            ),
        decreases pairs.len() - i,
    {
        let k = &pairs[i].0;
        let v = &pairs[i].1;
        assert(ps[i as int] == (k@, v@));
        if same_text(k.as_str(), "default") {
            if default.is_some() {
                proof {
                    lemma_store_scan_failure_stays(ps, i + 1, ps.len() as int);
                }
                return Err(AppError::DuplicateParameter(owned(k.as_str())));
            }
            default = Some(owned(v.as_str()));
        } else if same_text(k.as_str(), "graph") {
            if graph.is_some() {
                proof {
                    lemma_store_scan_failure_stays(ps, i + 1, ps.len() as int);
                }
                return Err(AppError::DuplicateParameter(owned(k.as_str())));
            }
            graph = Some(owned(v.as_str()));
        }
        i = i + 1;
    }
    Ok(StoreGraphInfo { default, graph })
}

/// What a Graph Store request addresses.
#[derive(Debug, PartialEq, Eq)]
pub enum GraphTarget {
    /// The whole dataset: no single graph.
    WholeStore,
    DefaultGraph,
    /// The named graph with this absolute IRI.
    NamedGraph(String),
}

pub enum TargetView {
    WholeStore,
    DefaultGraph,
    NamedGraph(Seq<char>),
}

impl View for GraphTarget {
    type V = TargetView;

    open spec fn view(&self) -> TargetView {
        match self {
            GraphTarget::WholeStore => TargetView::WholeStore,
            GraphTarget::DefaultGraph => TargetView::DefaultGraph,
            GraphTarget::NamedGraph(s) => TargetView::NamedGraph(s@),
        }
    }
}

/// The named graph whose identifier is the URL built from `path` on the
/// request's scheme and host.
pub open spec fn named_target(u: UriView, path: Seq<char>) -> Result<TargetView, ErrorView> {
    match uri_text(u.scheme, u.host, path) {
        None => Err(ErrorView::BadUrl),
        Some(s) => if iri_is_valid(s) {
            Ok(TargetView::NamedGraph(s))
        } else {
            Err(ErrorView::InvalidIri(s))
        },
    }
}

/// The path of the store's collection endpoint.
pub open spec fn store_path() -> Seq<char> {
    "/store"@
}

/// What a request addresses. On the collection endpoint, the parameters decide:
/// `graph` names a graph by a path on this host, `default` the default graph,
/// and neither the whole store; both together are refused. Any other path under
/// the store names the graph whose identifier is the request's own URL.
pub open spec fn target_of(u: UriView, default: Option<Seq<char>>, graph: Option<Seq<char>>) -> Result<
    TargetView,
    ErrorView,
> {
    if u.path == store_path() {
        match graph {
            Some(g) => if default is Some {
                Err(ErrorView::ConflictingParameters)
            } else {
                named_target(u, g)
            },
            None => if default is Some {
                Ok(TargetView::DefaultGraph)
            } else {
                Ok(TargetView::WholeStore)
            },
        }
    } else {
        named_target(u, u.path)
    }
}

pub open spec fn target_result(r: Result<GraphTarget, AppError>) -> Result<TargetView, ErrorView> {
    match r {
        Ok(t) => Ok(t@),
        Err(e) => Err(e@),
    }
}

fn named_graph_at(uri: &RequestUri, path: &str) -> (r: Result<GraphTarget, AppError>)
    ensures
        target_result(r) == named_target(uri@, path@),
{
    let iri = base_url(uri, Some(path))?;
    if is_absolute_iri(iri.as_str()) {
        Ok(GraphTarget::NamedGraph(iri))
    } else {
        Err(AppError::InvalidIri(iri))
    }
}

/// Resolves what a Graph Store request addresses; the store is not consulted.
pub fn store_target(uri: &RequestUri, info: &StoreGraphInfo) -> (r: Result<GraphTarget, AppError>)
    ensures
        target_result(r) == target_of(uri@, info.default.deep_view(), info.graph.deep_view()),
{
    if same_text(uri.path.as_str(), "/store") {
        match &info.graph {
            Some(graph) => {
                if info.default.is_some() {
                    Err(AppError::ConflictingParameters)
                } else {
                    named_graph_at(uri, graph.as_str())
                }
            },
            None => {
                if info.default.is_some() {
                    Ok(GraphTarget::DefaultGraph)
                } else {
                    Ok(GraphTarget::WholeStore)
                }
            },
        }
    } else {
        named_graph_at(uri, uri.path.as_str())
    }
}

/// The lower-case hexadecimal digit of `d`, below 16.
pub open spec fn hex_digit(d: nat) -> char {
    "0123456789abcdef"@[d as int]
}

/// `n` in lower-case hexadecimal, without leading zeros.
pub open spec fn hex_of(n: nat) -> Seq<char>
    decreases n,
{
    if n < 16 {
        seq![hex_digit(n)]
    } else {
        hex_of(n / 16).push(hex_digit(n % 16))
    }
}

fn hex_digit_text(d: u128) -> (r: &'static str)
    requires
        d < 16,
    ensures
        r@ == seq![hex_digit(d as nat)],
{
    let digits = "0123456789abcdef";
    proof {
        reveal_strlit("0123456789abcdef");
    }
    let r = digits.substring_char(d as usize, d as usize + 1);
    assert(r@ =~= seq![hex_digit(d as nat)]);
    r
}

/// `n` written in lower-case hexadecimal.
pub fn hex_text(n: u128) -> (r: String)
    ensures
        r@ == hex_of(n as nat),
    decreases n,
{
    let digit = hex_digit_text(n % 16);
    if n < 16 {
        owned(digit)
    } else {
        let head = hex_text(n / 16);
        joined(head.as_str(), digit)
    }
}

/// The path of the graph minted for the number `n`.
pub open spec fn minted_path(n: nat) -> Seq<char> {
    "/store/"@ + hex_of(n)
}

/// The identifier of a new graph under the store, named by the number `n`.
pub fn minted_graph(uri: &RequestUri, n: u128) -> (r: Result<GraphTarget, AppError>)
    ensures
        target_result(r) == named_target(uri@, minted_path(n as nat)),
{
    let hex = hex_text(n);
    let path = joined("/store/", hex.as_str());
    named_graph_at(uri, path.as_str())
}

} // verus!
