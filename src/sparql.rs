use oxigraph::sparql::algebra::GraphUpdateOperation;
use oxigraph::sparql::{Query, Update};
use vstd::prelude::*;
use vstd::string::*;
use vstd::utf8::{decode_utf8, encode_utf8, valid_utf8};

use crate::error::{message_of, status_of, AppError, ErrorView};
use crate::format::{
    graph_media_type_of, media_essence, media_type_essence, results_media_type_of, GraphFormat,
    ResultsFormat,
};
use crate::negotiate::{
    graph_candidates, graph_content_negotiation, negotiated, result_view,
    results_candidates, results_content_negotiation,
};
use crate::route::Method;
use crate::target::{
    base_url, base_url_of, check_iri, form_decode, form_pairs, iri_is_valid, query_pairs, RequestUri,
    UriView,
};
use crate::text::{owned, same_text};

verus! {

/// oxigraph's parsed SPARQL query, carried through unopened.
#[verifier::external_type_specification]
#[verifier::external_body]
pub struct ExQuery(Query);

/// oxigraph's parsed SPARQL update, carried through unopened.
#[verifier::external_type_specification]
#[verifier::external_body]
pub struct ExUpdate(Update);

/// The two kinds of SPARQL request.
#[derive(Debug, Clone, Copy, PartialEq, Eq, Structural)]
pub enum SparqlOperation {
    Query,
    Update,
}

/// The form key that carries the operation's text.
pub open spec fn text_key(op: SparqlOperation) -> Seq<char> {
    match op {
        SparqlOperation::Query => "query"@,
        SparqlOperation::Update => "update"@,
    }
}

/// The form key that adds a graph to the default graph.
pub open spec fn default_key(op: SparqlOperation) -> Seq<char> {
    match op {
        SparqlOperation::Query => "default-graph-uri"@,
        SparqlOperation::Update => "using-graph-uri"@,
    }
}

/// The form key that adds a graph to the named graphs.
pub open spec fn named_key(op: SparqlOperation) -> Seq<char> {
    match op {
        SparqlOperation::Query => "named-graph-uri"@,
        SparqlOperation::Update => "using-named-graph-uri"@,
    }
}

/// The media type of a request body that is the operation's text.
pub open spec fn direct_media_type(op: SparqlOperation) -> Seq<char> {
    match op {
        SparqlOperation::Query => "application/sparql-query"@,
        SparqlOperation::Update => "application/sparql-update"@,
    }
}

pub open spec fn form_media_type() -> Seq<char> {
    "application/x-www-form-urlencoded"@
}

pub open spec fn multiple_error(op: SparqlOperation) -> ErrorView {
    match op {
        SparqlOperation::Query => ErrorView::MultipleQueries,
        SparqlOperation::Update => ErrorView::MultipleUpdates,
    }
}

pub open spec fn missing_error(op: SparqlOperation) -> ErrorView {
    match op {
        SparqlOperation::Query => ErrorView::MissingQuery,
        SparqlOperation::Update => ErrorView::MissingUpdate,
    }
}

/// The text and the dataset parameters of a SPARQL request.
#[derive(Debug)]
pub struct OperationParams {
    pub text: String,
    pub default_graphs: Vec<String>,
    pub named_graphs: Vec<String>,
}

pub struct ParamsView {
    pub text: Seq<char>,
    pub default_graphs: Seq<Seq<char>>,
    pub named_graphs: Seq<Seq<char>>,
}

impl View for OperationParams {
    type V = ParamsView;

    open spec fn view(&self) -> ParamsView {
        ParamsView {
            text: self.text@,
            default_graphs: self.default_graphs.deep_view(),
            named_graphs: self.named_graphs.deep_view(),
        }
    }
}

/// The state after reading the first `n` pairs, starting from the text `preset`:
/// the text key may occur once in all, the two graph keys any number of times,
/// and no other key at all.
pub open spec fn operation_scan(
    op: SparqlOperation,
    pairs: Seq<(Seq<char>, Seq<char>)>,
    n: int,
    preset: Option<Seq<char>>,
) -> Result<(Option<Seq<char>>, Seq<Seq<char>>, Seq<Seq<char>>), ErrorView>
    decreases n,
{
    if n <= 0 {
        Ok((preset, Seq::empty(), Seq::empty()))
    } else {
        match operation_scan(op, pairs, n - 1, preset) {
            Err(e) => Err(e),
            Ok((t, d, g)) => {
                let (k, v) = pairs[n - 1];
                if k == text_key(op) {
                    if t is Some {
                        Err(multiple_error(op))
                    } else {
                        Ok((Some(v), d, g))
                    }
                } else if k == default_key(op) {
                    Ok((t, d.push(v), g))
                } else if k == named_key(op) {
                    Ok((t, d, g.push(v)))
                } else {
                    Err(ErrorView::UnexpectedParameter(k))
                }
            },
        }
    }
}

/// The parameters that the form pairs `pairs` give, with `preset` as the text
/// where the body already held it.
pub open spec fn operation_params_of(
    op: SparqlOperation,
    pairs: Seq<(Seq<char>, Seq<char>)>,
    preset: Option<Seq<char>>,
) -> Result<ParamsView, ErrorView> {
    match operation_scan(op, pairs, pairs.len() as int, preset) {
        Err(e) => Err(e),
        Ok((t, d, g)) => match t {
            None => Err(missing_error(op)),
            Some(text) => Ok(ParamsView { text, default_graphs: d, named_graphs: g }),
        },
    }
}

pub open spec fn params_result(r: Result<OperationParams, AppError>) -> Result<ParamsView, ErrorView> {
    match r {
        Ok(p) => Ok(p@),
        Err(e) => Err(e@),
    }
}

proof fn lemma_operation_scan_failure_stays(
    op: SparqlOperation,
    pairs: Seq<(Seq<char>, Seq<char>)>,
    preset: Option<Seq<char>>,
    m: int,
    n: int,
)
    requires
        0 <= m <= n,
        operation_scan(op, pairs, m, preset) is Err,
    ensures
        operation_scan(op, pairs, n, preset) == operation_scan(op, pairs, m, preset),
    decreases n - m,
{
    if n > m {
        lemma_operation_scan_failure_stays(op, pairs, preset, m, n - 1);
    }
}

fn operation_keys(op: SparqlOperation) -> (r: (&'static str, &'static str, &'static str))
    ensures
        r.0@ == text_key(op),
        r.1@ == default_key(op),
        r.2@ == named_key(op),
{
    match op {
        SparqlOperation::Query => ("query", "default-graph-uri", "named-graph-uri"),
        SparqlOperation::Update => ("update", "using-graph-uri", "using-named-graph-uri"),
    }
}

fn multiple(op: SparqlOperation) -> (r: AppError)
    ensures
        r@ == multiple_error(op),
{
    match op {
        SparqlOperation::Query => AppError::MultipleQueries,
        SparqlOperation::Update => AppError::MultipleUpdates,
    }
}

fn missing(op: SparqlOperation) -> (r: AppError)
    ensures
        r@ == missing_error(op),
{
    match op {
        SparqlOperation::Query => AppError::MissingQuery,
        SparqlOperation::Update => AppError::MissingUpdate,
    }
}

/// Reads the form-encoded `encoded` into the operation's text and dataset
/// parameters; `preset` is the text where the request body already is it.
pub fn operation_params(op: SparqlOperation, encoded: &[u8], preset: Option<String>) -> (r: Result<
    OperationParams,
    AppError,
>)
    ensures
        params_result(r) == operation_params_of(op, form_decode(encoded@), preset.deep_view()),
{
    let (text_name, default_name, named_name) = operation_keys(op);
    let pairs = form_pairs(encoded);
    let ghost ps = pairs.deep_view();
    let ghost pre = preset.deep_view();
    let mut text = preset;
    let mut default_graphs: Vec<String> = Vec::new();
    let mut named_graphs: Vec<String> = Vec::new();
    assert(default_graphs.deep_view() =~= Seq::<Seq<char>>::empty());
    assert(named_graphs.deep_view() =~= Seq::<Seq<char>>::empty());
    let mut i: usize = 0;
    while i < pairs.len()
        invariant
            i <= pairs.len(),
            ps == pairs.deep_view(),
            ps == form_decode(encoded@),
            pre == preset.deep_view(),
            text_name@ == text_key(op),
            default_name@ == default_key(op),
            named_name@ == named_key(op),
            operation_scan(op, ps, i as int, pre) == Ok::<_, ErrorView>(
                (text.deep_view(), default_graphs.deep_view(), named_graphs.deep_view()),
            ),
        decreases pairs.len() - i,
    {
        let k = &pairs[i].0;
        let v = &pairs[i].1;
        assert(ps[i as int] == (k@, v@));
        if same_text(k.as_str(), text_name) {
            if text.is_some() {
                assert(operation_scan(op, ps, i + 1, pre) == Err::<
                    (Option<Seq<char>>, Seq<Seq<char>>, Seq<Seq<char>>),
                    ErrorView,
                >(multiple_error(op)));
                proof {
                    lemma_operation_scan_failure_stays(op, ps, pre, i + 1, ps.len() as int);
                }
                return Err(multiple(op));
            }
            text = Some(owned(v.as_str()));
        } else if same_text(k.as_str(), default_name) {
            let ghost before = default_graphs.deep_view();
            default_graphs.push(owned(v.as_str()));
            assert(default_graphs.deep_view() =~= before.push(v@));
        } else if same_text(k.as_str(), named_name) {
            let ghost before = named_graphs.deep_view();
            named_graphs.push(owned(v.as_str()));
            assert(named_graphs.deep_view() =~= before.push(v@));
        } else {
            assert(operation_scan(op, ps, i + 1, pre) == Err::<
                (Option<Seq<char>>, Seq<Seq<char>>, Seq<Seq<char>>),
                ErrorView,
            >(ErrorView::UnexpectedParameter(k@)));
            proof {
                lemma_operation_scan_failure_stays(op, ps, pre, i + 1, ps.len() as int);
            }
            return Err(AppError::UnexpectedParameter(owned(k.as_str())));
        }
        i = i + 1;
    }
    match text {
        None => Err(missing(op)),
        Some(text) => Ok(OperationParams { text, default_graphs, named_graphs }),
    }
}

/// Relies on std's `str::from_utf8`, which accepts exactly the valid UTF-8 byte
/// sequences, and on `str::to_string`, which copies the decoded text.
#[verifier::external_body]
fn utf8_text(bytes: &[u8]) -> (r: Option<String>)
    ensures
        r.deep_view() == (if valid_utf8(bytes@) {
            Some(decode_utf8(bytes@))
        } else {
            None
        }),
{
    std::str::from_utf8(bytes).ok().map(|s| s.to_string())
}

/// Where a SPARQL request carries its text and dataset parameters. A `GET`
/// query has them in the URL's query component. A `POST` names its body's
/// format: the SPARQL media type makes the body the text verbatim (the
/// parameters stay in the URL), the form media type makes it a form.
pub open spec fn request_params_of(
    op: SparqlOperation,
    method: Method,
    u: UriView,
    content_type: Option<Seq<char>>,
    body: Seq<u8>,
) -> Result<ParamsView, ErrorView> {
    match method {
        Method::Get => if op == SparqlOperation::Query {
            operation_params_of(op, query_pairs(u), None)
        } else {
            Err(ErrorView::MethodNotAllowed)
        },
        Method::Post => match content_type {
            None => Err(ErrorView::MissingContentType),
            Some(c) => match media_essence(c) {
                None => Err(ErrorView::MalformedMediaType),
                Some(e) => if e == direct_media_type(op) {
                    if valid_utf8(body) {
                        operation_params_of(op, query_pairs(u), Some(decode_utf8(body)))
                    } else {
                        Err(ErrorView::BadPayload)
                    }
                } else if e == form_media_type() {
                    operation_params_of(op, form_decode(body), None)
                } else {
                    Err(ErrorView::UnsupportedMediaType(c))
                },
            },
        },
        _ => Err(ErrorView::MethodNotAllowed),
    }
}

fn direct_type(op: SparqlOperation) -> (r: &'static str)
    ensures
        r@ == direct_media_type(op),
{
    match op {
        SparqlOperation::Query => "application/sparql-query",
        SparqlOperation::Update => "application/sparql-update",
    }
}

/// The text and dataset parameters of a SPARQL request, from wherever its
/// method and content type put them.
pub fn request_params(
    op: SparqlOperation,
    method: Method,
    uri: &RequestUri,
    content_type: Option<&str>,
    body: &[u8],
) -> (r: Result<OperationParams, AppError>)
    ensures
        params_result(r) == request_params_of(
            op,
            method,
            uri@,
            match content_type {
                Some(c) => Some(c@),
                None => None,
            },
            body@,
        ),
{
    match method {
        Method::Get => {
            if op == SparqlOperation::Query {
                operation_params(op, uri.query.as_str().as_bytes(), None)
            } else {
                Err(AppError::MethodNotAllowed)
            }
        },
        Method::Post => match content_type {
            None => Err(AppError::MissingContentType),
            Some(c) => match media_type_essence(c) {
                None => Err(AppError::MalformedMediaType),
                Some(e) => {
                    if same_text(e.as_str(), direct_type(op)) {
                        match utf8_text(body) {
                            Some(text) => operation_params(
                                op,
                                uri.query.as_str().as_bytes(),
                                Some(text),
                            ),
                            None => Err(AppError::BadPayload),
                        }
                    } else if same_text(e.as_str(), "application/x-www-form-urlencoded") {
                        operation_params(op, body, None)
                    } else {
                        Err(AppError::UnsupportedMediaType(owned(c)))
                    }
                },
            },
        },
        _ => Err(AppError::MethodNotAllowed),
    }
}

/// The first identifier in `iris` that is not an absolute IRI.
pub open spec fn first_invalid(iris: Seq<Seq<char>>) -> Option<Seq<char>>
    decreases iris.len(),
{
    if iris.len() == 0 {
        None
    } else if !iri_is_valid(iris[0]) {
        Some(iris[0])
    } else {
        first_invalid(iris.drop_first())
    }
}

fn first_invalid_iri(iris: &Vec<String>) -> (r: Option<String>)
    ensures
        r.deep_view() == first_invalid(iris.deep_view()),
{
    let ghost s = iris.deep_view();
    assert(s.subrange(0, s.len() as int) =~= s);
    let mut i: usize = 0;
    while i < iris.len()
        invariant
            i <= iris.len(),
            s == iris.deep_view(),
            first_invalid(s) == first_invalid(s.subrange(i as int, s.len() as int)),
        decreases iris.len() - i,
    {
        let ghost rest = s.subrange(i as int, s.len() as int);
        assert(rest.drop_first() =~= s.subrange(i + 1, s.len() as int));
        if !check_iri(iris[i].as_str()) {
            return Some(owned(iris[i].as_str()));
        }
        i = i + 1;
    }
    None
}

/// The first graph identifier of the parameters, default graphs first, that is
/// not an absolute IRI.
fn invalid_graph(params: &OperationParams) -> (r: Option<String>)
    ensures
        r.deep_view() == first_invalid(params@.default_graphs + params@.named_graphs),
{
    let d = first_invalid_iri(&params.default_graphs);
    if d.is_some() {
        proof {
            lemma_first_invalid_append(params@.default_graphs, params@.named_graphs);
        }
        return d;
    }
    proof {
        lemma_first_invalid_append(params@.default_graphs, params@.named_graphs);
    }
    first_invalid_iri(&params.named_graphs)
}

proof fn lemma_first_invalid_append(a: Seq<Seq<char>>, b: Seq<Seq<char>>)
    ensures
        first_invalid(a + b) == (match first_invalid(a) {
            Some(x) => Some(x),
            None => first_invalid(b),
        }),
    decreases a.len(),
{
    if a.len() > 0 {
        assert((a + b).drop_first() =~= a.drop_first() + b);
        lemma_first_invalid_append(a.drop_first(), b);
    } else {
        assert(a + b =~= b);
    }
}

/// How many characters a `\u` (4) or `\U` (8) escape reads after the letter.
pub open spec fn escape_width(letter: u8) -> int {
    if letter == 0x75 {
        4
    } else if letter == 0x55 {
        8
    } else {
        0
    }
}

/// Whether the bytes that an escape whose backslash is at `i` reads (4 after
/// a `u`, 8 after a `U`, or as many as are left) are ASCII.
pub open spec fn escape_reads_ascii(b: Seq<u8>, i: int) -> bool {
    forall|j: int|
        i + 2 <= j < b.len() && j < i + 2 + escape_width(b[i + 1]) ==> #[trigger] b[j] < 128
}

/// Whether every `\u` and `\U` escape of a UTF-8 text reads ASCII bytes. In
/// UTF-8 a byte below 128 is a whole ASCII character, so this holds exactly
/// when the characters that each escape reads are ASCII.
#[verifier::opaque]
pub open spec fn escapes_are_ascii(b: Seq<u8>) -> bool {
    forall|i: int|
        0 <= i && i + 1 < b.len() && b[i] == 0x5c ==> #[trigger] escape_reads_ascii(b, i)
}

fn escape_at_is_ascii(b: &[u8], i: usize) -> (r: bool)
    requires
        i + 1 < b@.len(),
    ensures
        r == escape_reads_ascii(b@, i as int),
{
    let n = b.len();
    let w: usize = if b[i + 1] == 0x75 {
        4
    } else if b[i + 1] == 0x55 {
        8
    } else {
        0
    };
    let mut j: usize = i + 2;
    while j < n && j - (i + 2) < w
        invariant
            i + 2 <= j,
            i + 1 < n,
            n == b@.len(),
            w as int == escape_width(b@[i + 1]),
            forall|l: int| i + 2 <= l < j ==> #[trigger] b@[l] < 128,
        decreases n - j,
    {
        if b[j] >= 128 {
            return false;
        }
        j = j + 1;
    }
    true
}

/// Whether the escapes of `text` read only ASCII characters.
pub fn escapes_ascii(text: &str) -> (r: bool)
    ensures
        r == escapes_are_ascii(text.spec_bytes()),
{
    reveal(escapes_are_ascii);
    let b = text.as_bytes();
    let n = b.len();
    let mut i: usize = 0;
    while i < n
        invariant
            i <= n,
            n == b@.len(),
            b@ == text.spec_bytes(),
            forall|k: int|
                0 <= k < i && k + 1 < n && b@[k] == 0x5c ==> #[trigger] escape_reads_ascii(b@, k),
        decreases n - i,
    {
        if b[i] == 0x5c && i + 1 < n {
            if !escape_at_is_ascii(b, i) {
                reveal(escapes_are_ascii);
                assert(!escapes_are_ascii(text.spec_bytes()));
                return false;
            }
        }
        i = i + 1;
    }
    true
}

/// Whether SPARQL query text parses, relative to a base IRI.
pub uninterp spec fn query_parses(text: Seq<char>, base: Seq<char>) -> bool;

/// Whether SPARQL update text parses, relative to a base IRI.
pub uninterp spec fn update_parses(text: Seq<char>, base: Seq<char>) -> bool;

/// For each operation of the update that SPARQL text denotes: for a
/// DELETE/INSERT, whether its `USING` dataset is the default one (it has no
/// `USING` clause); none for other operations.
pub uninterp spec fn update_scopes_of(text: Seq<char>, base: Seq<char>) -> Seq<Option<bool>>;

/// A graph restriction: the default graphs, then the named graphs.
pub type DatasetView = (Seq<Seq<char>>, Seq<Seq<char>>);

/// A parsed query, with what is known of it.
pub struct PreparedQuery {
    query: Query,
    text: Ghost<Seq<char>>,
    base: Ghost<Seq<char>>,
    dataset: Ghost<Option<DatasetView>>,
}

impl PreparedQuery {
    /// The text it was parsed from.
    pub closed spec fn text(&self) -> Seq<char> {
        self.text@
    }

    /// The IRI that its relative IRIs resolve against.
    pub closed spec fn base(&self) -> Seq<char> {
        self.base@
    }

    /// The dataset that replaced the one its text declares, if one did.
    pub closed spec fn dataset(&self) -> Option<DatasetView> {
        self.dataset@
    }

    /// The query, to run.
    pub fn into_query(self) -> Query {
        self.query
    }
}

/// A parsed update, with what is known of it.
pub struct PreparedUpdate {
    update: Update,
    /// The scope of each operation as parsed (see `update_scopes_of`).
    scopes: Vec<Option<bool>>,
    text: Ghost<Seq<char>>,
    base: Ghost<Seq<char>>,
    using: Ghost<Seq<Option<DatasetView>>>,
}

impl PreparedUpdate {
    /// The text it was parsed from.
    pub closed spec fn text(&self) -> Seq<char> {
        self.text@
    }

    /// The IRI that its relative IRIs resolve against.
    pub closed spec fn base(&self) -> Seq<char> {
        self.base@
    }

    /// For each operation, the dataset that was made its `USING` dataset, if one was.
    pub closed spec fn using(&self) -> Seq<Option<DatasetView>> {
        self.using@
    }

    /// The update, to run.
    pub fn into_update(self) -> Update {
        self.update
    }
}

/// Relies on oxigraph's `Query::parse`: the query that the text denotes, with
/// relative IRIs resolved against `base`, or an error where it does not parse.
/// Its unescaping of `\u` and `\U` slices the characters that follow by byte
/// position, which panics unless they are ASCII: those texts are left out.
#[verifier::external_body]
fn parse_query(text: &str, base: &str) -> (r: Option<PreparedQuery>)
    requires
        escapes_are_ascii(text.spec_bytes()),
    ensures
        (r is Some) == query_parses(text@, base@),
        r is Some ==> r->Some_0.text@ == text@ && r->Some_0.base@ == base@
            && r->Some_0.dataset@ is None,
{
    let query = Query::parse(text, Some(base)).ok()?;
    Some(PreparedQuery { query, text: Ghost(text@), base: Ghost(base@), dataset: Ghost(None) })
}

/// Relies on oxigraph's `Update::parse` (the update that the text denotes, with
/// relative IRIs resolved against `base`, or an error where it does not parse),
/// and reads each operation's scope: a `GraphUpdateOperation::DeleteInsert`
/// gives `QueryDataset::is_default_dataset` of its `using`. Texts whose `\u`
/// and `\U` escapes read non-ASCII characters make the parser panic and are
/// left out.
#[verifier::external_body]
fn parse_update(text: &str, base: &str) -> (r: Option<PreparedUpdate>)
    requires
        escapes_are_ascii(text.spec_bytes()),
    ensures
        (r is Some) == update_parses(text@, base@),
        r is Some ==> r->Some_0.text@ == text@ && r->Some_0.base@ == base@
            && r->Some_0.scopes@ == update_scopes_of(text@, base@)
            && r->Some_0.using@ == Seq::new(r->Some_0.scopes@.len(), |i: int| None::<DatasetView>),
{
    let update = Update::parse(text, Some(base)).ok()?;
    let scopes = update.operations.iter().map(|op| match op {
        GraphUpdateOperation::DeleteInsert { using, .. } => Some(using.is_default_dataset()),
        _ => None,
    }).collect();
    Some(PreparedUpdate { update, scopes, text: Ghost(text@), base: Ghost(base@), using: Ghost(Seq::empty()) })
}

/// Relies on oxigraph's `QueryDataset::set_default_graph` and
/// `set_available_named_graphs`, through `Query::dataset_mut`: the query's
/// dataset becomes the given graphs, whatever its text declared. The
/// identifiers have been checked to be absolute IRIs.
#[verifier::external_body]
fn set_query_dataset(query: &mut PreparedQuery, default_graphs: &Vec<String>, named_graphs: &Vec<String>)
    ensures
        final(query).text == old(query).text,
        final(query).base == old(query).base,
        final(query).dataset@ == Some((default_graphs.deep_view(), named_graphs.deep_view())),
{
    let dataset = query.query.dataset_mut();
    dataset.set_default_graph(
        default_graphs.iter().map(|g| oxigraph::model::NamedNode::new_unchecked(g.as_str()).into()).collect(),
    );
    dataset.set_available_named_graphs(
        named_graphs.iter().map(|g| oxigraph::model::NamedNode::new_unchecked(g.as_str()).into()).collect(),
    );
}

/// Relies on oxigraph's `QueryDataset::set_default_graph` and
/// `set_available_named_graphs` on the `using` dataset of the operation at
/// `i`, a `GraphUpdateOperation::DeleteInsert` as its scope shows. The
/// identifiers have been checked to be absolute IRIs.
#[verifier::external_body]
fn set_update_using(update: &mut PreparedUpdate, i: usize, default_graphs: &Vec<String>, named_graphs: &Vec<String>)
    requires
        i < old(update).scopes@.len(),
        old(update).scopes@[i as int] is Some,
    ensures
        final(update).scopes@ == old(update).scopes@,
        final(update).text == old(update).text,
        final(update).base == old(update).base,
        final(update).using@ == old(update).using@.update(
            i as int,
            Some((default_graphs.deep_view(), named_graphs.deep_view())),
        ),
{
    if let Some(GraphUpdateOperation::DeleteInsert { using, .. }) = update.update.operations.get_mut(i) {
        using.set_default_graph(
            default_graphs.iter().map(|g| oxigraph::model::NamedNode::new_unchecked(g.as_str()).into()).collect(),
        );
        using.set_available_named_graphs(
            named_graphs.iter().map(|g| oxigraph::model::NamedNode::new_unchecked(g.as_str()).into()).collect(),
        );
    }
}

/// Whether the request gives dataset parameters.
pub open spec fn has_dataset(p: ParamsView) -> bool {
    p.default_graphs.len() > 0 || p.named_graphs.len() > 0
}

/// The dataset that the parameters impose, if they give one.
pub open spec fn scoped_dataset(p: ParamsView) -> Option<DatasetView> {
    if has_dataset(p) {
        Some((p.default_graphs, p.named_graphs))
    } else {
        None
    }
}

/// What preparing an operation comes to before any dataset conflict: the base
/// is the request's URL without its query; then the text's escapes must read
/// ASCII characters and the text must parse against the base; then every
/// graph identifier must be an absolute IRI.
pub open spec fn preparation_of(u: UriView, p: ParamsView, op: SparqlOperation) -> Result<(), ErrorView> {
    match base_url_of(u, None) {
        Err(e) => Err(e),
        Ok(base) => if !escapes_are_ascii(encode_utf8(p.text)) || !(if op == SparqlOperation::Query {
            query_parses(p.text, base)
        } else {
            update_parses(p.text, base)
        }) {
            Err(ErrorView::QueryParse)
        } else {
            match first_invalid(p.default_graphs + p.named_graphs) {
                Some(iri) => Err(ErrorView::InvalidIri(iri)),
                None => Ok(()),
            }
        },
    }
}

pub open spec fn unit_result<T>(r: Result<T, AppError>) -> Result<(), ErrorView> {
    match r {
        Ok(_) => Ok(()),
        Err(e) => Err(e@),
    }
}

/// What a prepared query holds: the parameters' text, parsed against the
/// request's base, with the dataset they give in place of its own.
pub open spec fn prepared_query_is(q: PreparedQuery, u: UriView, p: ParamsView) -> bool {
    &&& q.text() == p.text
    &&& Ok::<_, ErrorView>(q.base()) == base_url_of(u, None)
    &&& q.dataset() == scoped_dataset(p)
}

/// Parses a query and scopes it to the dataset that the parameters give, if
/// they give one; that dataset replaces the one the query text declares.
pub fn prepare_query(uri: &RequestUri, params: &OperationParams) -> (r: Result<PreparedQuery, AppError>)
    ensures
        unit_result(r) == preparation_of(uri@, params@, SparqlOperation::Query),
        r is Ok ==> prepared_query_is(r->Ok_0, uri@, params@),
{
    let base = base_url(uri, None)?;
    if !escapes_ascii(params.text.as_str()) {
        return Err(AppError::QueryParse);
    }
    let mut query = match parse_query(params.text.as_str(), base.as_str()) {
        Some(q) => q,
        None => return Err(AppError::QueryParse),
    };
    if let Some(iri) = invalid_graph(params) {
        return Err(AppError::InvalidIri(iri));
    }
    if params.default_graphs.len() > 0 || params.named_graphs.len() > 0 {
        set_query_dataset(&mut query, &params.default_graphs, &params.named_graphs);
    }
    Ok(query)
}

/// Whether one of the scopes is a DELETE/INSERT with its own `USING` clause.
pub open spec fn has_own_using(scopes: Seq<Option<bool>>) -> bool {
    exists|i: int| 0 <= i < scopes.len() && scopes[i] == Some(false)
}

/// The `USING` dataset that each operation gets: every DELETE/INSERT takes the
/// dataset that the parameters give, if any; other operations none.
pub open spec fn using_of(scopes: Seq<Option<bool>>, dataset: Option<DatasetView>) -> Seq<
    Option<DatasetView>,
> {
    Seq::new(
        scopes.len(),
        |i: int|
            if scopes[i] is Some {
                dataset
            } else {
                None
            },
    )
}

/// Whether an update's scopes hold a DELETE/INSERT with its own `USING` clause.
pub fn own_using(scopes: &Vec<Option<bool>>) -> (r: bool)
    ensures
        r == has_own_using(scopes@),
{
    let mut i: usize = 0;
    while i < scopes.len()
        invariant
            i <= scopes.len(),
            forall|k: int| 0 <= k < i ==> scopes@[k] != Some(false),
        decreases scopes.len() - i,
    {
        if scopes[i] == Some(false) {
            return true;
        }
        i = i + 1;
    }
    false
}

/// What a prepared update holds: the parameters' text, parsed against the
/// request's base, each DELETE/INSERT with the dataset they give as its `USING`
/// dataset.
pub open spec fn prepared_update_is(r: PreparedUpdate, u: UriView, p: ParamsView) -> bool {
    &&& r.text() == p.text
    &&& Ok::<_, ErrorView>(r.base()) == base_url_of(u, None)
    &&& r.using() == using_of(update_scopes_of(p.text, r.base()), scoped_dataset(p))
}

/// What preparing an update comes to: as `preparation_of`, and then, where the
/// parameters give a dataset, a conflict if an operation has its own `USING`.
pub open spec fn update_preparation_of(u: UriView, p: ParamsView) -> Result<(), ErrorView> {
    match preparation_of(u, p, SparqlOperation::Update) {
        Err(e) => Err(e),
        Ok(()) => if has_dataset(p) && has_own_using(
            update_scopes_of(p.text, base_url_of(u, None)->Ok_0),
        ) {
            Err(ErrorView::UsingConflict)
        } else {
            Ok(())
        },
    }
}

/// Parses an update and, where the parameters give a dataset, makes it the
/// `USING` dataset of every DELETE/INSERT operation; an operation that has its
/// own `USING` clause makes that a conflict.
pub fn prepare_update(uri: &RequestUri, params: &OperationParams) -> (r: Result<PreparedUpdate, AppError>)
    ensures
        unit_result(r) == update_preparation_of(uri@, params@),
        r is Ok ==> prepared_update_is(r->Ok_0, uri@, params@),
{
    let base = base_url(uri, None)?;
    if !escapes_ascii(params.text.as_str()) {
        return Err(AppError::QueryParse);
    }
    let mut update = match parse_update(params.text.as_str(), base.as_str()) {
        Some(u) => u,
        None => return Err(AppError::QueryParse),
    };
    if let Some(iri) = invalid_graph(params) {
        return Err(AppError::InvalidIri(iri));
    }
    let ghost scopes = update.scopes@;
    let with_dataset = params.default_graphs.len() > 0 || params.named_graphs.len() > 0;
    if !with_dataset {
        assert(update.using@ =~= using_of(scopes, None));
        return Ok(update);
    }
    if own_using(&update.scopes) {
        return Err(AppError::UsingConflict);
    }
    let ghost ds = scoped_dataset(params@);
    assert(params@.default_graphs.len() == params.default_graphs.len());
    assert(params@.named_graphs.len() == params.named_graphs.len());
    assert(ds == Some((params.default_graphs.deep_view(), params.named_graphs.deep_view())));
    let n = update.scopes.len();
    let mut i: usize = 0;
    while i < n
        invariant
            i <= n,
            n == scopes.len(),
            update.scopes@ == scopes,
            update.text@ == params@.text,
            update.base@ == base@,
            update.using@.len() == n,
            ds == Some((params.default_graphs.deep_view(), params.named_graphs.deep_view())),
            forall|k: int|
                0 <= k < n ==> #[trigger] update.using@[k] == (if k < i && scopes[k] is Some {
                    ds
                } else {
                    None
                }),
        decreases n - i,
    {
        if update.scopes[i].is_some() {
            set_update_using(&mut update, i, &params.default_graphs, &params.named_graphs);
        }
        i = i + 1;
    }
    assert(update.using@ =~= using_of(scopes, ds));
    Ok(update)
}

/// The form of a query's answer.
#[derive(Debug, Clone, Copy, PartialEq, Eq, Structural)]
pub enum QueryAnswer {
    /// A graph (CONSTRUCT, DESCRIBE), in a graph format.
    Graph(GraphFormat),
    /// Solutions or a boolean (SELECT, ASK), in a results format.
    Solutions(ResultsFormat),
}

/// The format of an answer: a graph is negotiated among the graph formats,
/// anything else among the four SPARQL results formats.
pub open spec fn answer_of(is_graph: bool, accept: Seq<Seq<char>>) -> Result<QueryAnswer, ErrorView> {
    if is_graph {
        match negotiated(accept, graph_candidates()) {
            Ok(f) => Ok(QueryAnswer::Graph(f)),
            Err(e) => Err(e),
        }
    } else {
        match negotiated(accept, results_candidates()) {
            Ok(f) => Ok(QueryAnswer::Solutions(f)),
            Err(e) => Err(e),
        }
    }
}

impl QueryAnswer {
    /// The status of a query's answer.
    pub fn status(&self) -> (r: u16)
        ensures
            r == 200,
    {
        200
    }

    /// The media type of a query's answer.
    pub fn media_type(&self) -> (r: &'static str)
        ensures
            r@ == match self {
                QueryAnswer::Graph(f) => graph_media_type_of(*f),
                QueryAnswer::Solutions(f) => results_media_type_of(*f),
            },
    {
        match self {
            QueryAnswer::Graph(f) => f.media_type(),
            QueryAnswer::Solutions(f) => f.media_type(),
        }
    }
}

impl PreparedUpdate {
    /// The status of the answer once the update has run: no content.
    pub fn done_status(&self) -> (r: u16)
        ensures
            r == 204,
    {
        204
    }
}

/// Chooses how to write a query's answer, for the `Accept` values `accept`.
pub fn query_answer_format(is_graph: bool, accept: &Vec<String>) -> (r: Result<QueryAnswer, AppError>)
    ensures
        result_view(r) == answer_of(is_graph, accept.deep_view()),
{
    if is_graph {
        match graph_content_negotiation(accept) {
            Ok(f) => Ok(QueryAnswer::Graph(f)),
            Err(e) => Err(e),
        }
    } else {
        match results_content_negotiation(accept) {
            Ok(f) => Ok(QueryAnswer::Solutions(f)),
            Err(e) => Err(e),
        }
    }
}

/// Whether `k` is one of the three form keys of the operation.
pub open spec fn is_protocol_key(op: SparqlOperation, k: Seq<char>) -> bool {
    k == text_key(op) || k == default_key(op) || k == named_key(op)
}

proof fn lemma_operation_scan_failure_is_bad_request(
    op: SparqlOperation,
    pairs: Seq<(Seq<char>, Seq<char>)>,
    n: int,
)
    ensures
        operation_scan(op, pairs, n, None) is Err ==> status_of(
            operation_scan(op, pairs, n, None)->Err_0,
        ) == 400,
    decreases n,
{
    if n > 0 {
        lemma_operation_scan_failure_is_bad_request(op, pairs, n - 1);
    }
}

proof fn lemma_operation_scan_clean_prefix(op: SparqlOperation, pairs: Seq<(Seq<char>, Seq<char>)>, n: int)
    requires
        0 <= n <= pairs.len(),
        forall|j: int| 0 <= j < n ==> is_protocol_key(op, #[trigger] pairs[j].0),
        forall|j: int, k: int|
            0 <= j < k < n ==> !(#[trigger] pairs[j].0 == text_key(op) && #[trigger] pairs[k].0
                == text_key(op)),
    ensures
        operation_scan(op, pairs, n, None) is Ok,
        operation_scan(op, pairs, n, None)->Ok_0.0 is Some ==> exists|j: int|
            0 <= j < n && #[trigger] pairs[j].0 == text_key(op),
    decreases n,
{
    if n > 0 {
        lemma_operation_scan_clean_prefix(op, pairs, n - 1);
        let prev = operation_scan(op, pairs, n - 1, None)->Ok_0;
        if pairs[n - 1].0 == text_key(op) && prev.0 is Some {
            let j = choose|j: int| 0 <= j < n - 1 && #[trigger] pairs[j].0 == text_key(op);
            assert(pairs[j].0 == text_key(op) && pairs[n - 1].0 == text_key(op));
        }
    }
}

/// A form that holds a key the protocol does not define is refused with 400.
pub proof fn lemma_unexpected_parameter_refused(
    op: SparqlOperation,
    pairs: Seq<(Seq<char>, Seq<char>)>,
    i: int,
)
    requires
        0 <= i < pairs.len(),
        !is_protocol_key(op, pairs[i].0),
    ensures
        operation_params_of(op, pairs, None) is Err,
        status_of(operation_params_of(op, pairs, None)->Err_0) == 400,
{
    lemma_operation_scan_failure_stays(op, pairs, None, i + 1, pairs.len() as int);
    lemma_operation_scan_failure_is_bad_request(op, pairs, pairs.len() as int);
}

/// Where the first key that the protocol does not define follows only protocol
/// keys, with the text key at most once, the refusal names that key.
pub proof fn lemma_unexpected_parameter_named(
    op: SparqlOperation,
    pairs: Seq<(Seq<char>, Seq<char>)>,
    i: int,
)
    requires
        0 <= i < pairs.len(),
        !is_protocol_key(op, pairs[i].0),
        forall|j: int| 0 <= j < i ==> is_protocol_key(op, #[trigger] pairs[j].0),
        forall|j: int, k: int|
            0 <= j < k < i ==> !(#[trigger] pairs[j].0 == text_key(op) && #[trigger] pairs[k].0
                == text_key(op)),
    ensures
        operation_params_of(op, pairs, None) == Err::<ParamsView, _>(
            ErrorView::UnexpectedParameter(pairs[i].0),
        ),
        status_of(ErrorView::UnexpectedParameter(pairs[i].0)) == 400,
        message_of(ErrorView::UnexpectedParameter(pairs[i].0)) == "bad request: Unexpected parameter: "@
            + pairs[i].0,
{
    lemma_operation_scan_clean_prefix(op, pairs, i);
    lemma_operation_scan_failure_stays(op, pairs, None, i + 1, pairs.len() as int);
}

pub open spec fn ct_view(content_type: Option<&str>) -> Option<Seq<char>> {
    match content_type {
        Some(c) => Some(c@),
        None => None,
    }
}

/// What a query request comes to before it runs: where its text is, then its
/// preparation.
pub open spec fn query_request_of(
    method: Method,
    u: UriView,
    content_type: Option<Seq<char>>,
    body: Seq<u8>,
) -> Result<(), ErrorView> {
    match request_params_of(SparqlOperation::Query, method, u, content_type, body) {
        Err(e) => Err(e),
        Ok(p) => preparation_of(u, p, SparqlOperation::Query),
    }
}

/// The query that a request to the query endpoint asks to run, scoped to the
/// dataset its parameters give.
pub fn query_operation(method: Method, uri: &RequestUri, content_type: Option<&str>, body: &[u8]) -> (r:
    Result<PreparedQuery, AppError>)
    ensures
        unit_result(r) == query_request_of(method, uri@, ct_view(content_type), body@),
        r is Ok ==> prepared_query_is(
            r->Ok_0,
            uri@,
            request_params_of(SparqlOperation::Query, method, uri@, ct_view(content_type), body@)->Ok_0,
        ),
{
    let params = request_params(SparqlOperation::Query, method, uri, content_type, body)?;
    prepare_query(uri, &params)
}

/// What an update request comes to before it runs: where its text is, then its
/// preparation.
pub open spec fn update_request_of(
    method: Method,
    u: UriView,
    content_type: Option<Seq<char>>,
    body: Seq<u8>,
) -> Result<(), ErrorView> {
    match request_params_of(SparqlOperation::Update, method, u, content_type, body) {
        Err(e) => Err(e),
        Ok(p) => update_preparation_of(u, p),
    }
}

/// The update that a request to the update endpoint asks to run, with the
/// dataset its parameters give as the `USING` dataset of each DELETE/INSERT.
pub fn update_operation(method: Method, uri: &RequestUri, content_type: Option<&str>, body: &[u8]) -> (r:
    Result<PreparedUpdate, AppError>)
    ensures
        unit_result(r) == update_request_of(method, uri@, ct_view(content_type), body@),
        r is Ok ==> prepared_update_is(
            r->Ok_0,
            uri@,
            request_params_of(SparqlOperation::Update, method, uri@, ct_view(content_type), body@)->Ok_0,
        ),
{
    let params = request_params(SparqlOperation::Update, method, uri, content_type, body)?;
    prepare_update(uri, &params)
}

} // verus!
