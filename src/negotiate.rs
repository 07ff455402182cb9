use actix_web::http::header::{from_comma_delimited, Accept, HeaderValue};
use vstd::prelude::*;

use crate::error::{AppError, ErrorView};
use crate::format::{
    dataset_media_type_of, graph_media_type_of, results_media_type_of, DatasetFormat,
    GraphFormat, ResultsFormat,
};
use crate::text::{owned, same_text};

verus! {

/// The media types of a list of `Accept` header values, most preferred first,
/// or none where a value is not header text.
pub uninterp spec fn accept_precedence(values: Seq<Seq<char>>) -> Option<Seq<Seq<char>>>;

/// Relies on actix-http: `from_comma_delimited` reads the `Accept` values into
/// quality-weighted media types (an entry that does not parse is skipped, a value
/// that is not visible ASCII fails), and `Accept::mime_precedence` orders them by
/// q-factor, then specificity, then header order. Each comes back as its text.
#[verifier::external_body]
fn media_precedence(values: &Vec<String>) -> (r: Option<Vec<String>>)
    ensures
        r.deep_view() == accept_precedence(values.deep_view()),
{
    let headers = values.iter().map(|v| HeaderValue::from_str(v)).collect::<Result<Vec<_>, _>>();
    let items = from_comma_delimited(headers.ok()?.iter()).ok()?;
    Some(Accept(items).mime_precedence().iter().map(|m| m.to_string()).collect())
}

/// The value paired with `name` in the first candidate that has that name.
pub open spec fn lookup<F>(candidates: Seq<(Seq<char>, F)>, name: Seq<char>) -> Option<F>
    decreases candidates.len(),
{
    if candidates.len() == 0 {
        None
    } else if candidates[0].0 == name {
        Some(candidates[0].1)
    } else {
        lookup(candidates.drop_first(), name)
    }
}

/// The candidate for the first media type in `precedence` that names one exactly.
pub open spec fn pick<F>(precedence: Seq<Seq<char>>, candidates: Seq<(Seq<char>, F)>) -> Option<F>
    decreases precedence.len(),
{
    if precedence.len() == 0 {
        None
    } else {
        match lookup(candidates, precedence[0]) {
            Some(f) => Some(f),
            None => pick(precedence.drop_first(), candidates),
        }
    }
}

/// The server's default: its most preferred candidate, if it lists any.
pub open spec fn default_candidate<F>(candidates: Seq<(Seq<char>, F)>) -> Result<F, ErrorView> {
    if candidates.len() == 0 {
        Err(ErrorView::NotAcceptable)
    } else {
        Ok(candidates[0].1)
    }
}

/// What negotiation yields for the `Accept` values `accept` among `candidates`,
/// which the server lists from most to least preferred: the server's default
/// when the client states no acceptable entry; else the first of the client's
/// entries, in its own precedence, that names a candidate exactly.
pub open spec fn negotiated<F>(accept: Seq<Seq<char>>, candidates: Seq<(Seq<char>, F)>) -> Result<
    F,
    ErrorView,
> {
    if accept.len() == 0 {
        default_candidate(candidates)
    } else {
        match accept_precedence(accept) {
            None => Err(ErrorView::InvalidHeader),
            Some(p) => if p.len() == 0 {
                default_candidate(candidates)
            } else {
                match pick(p, candidates) {
                    Some(f) => Ok(f),
                    None => Err(ErrorView::NotAcceptable),
                }
            },
        }
    }
}

pub open spec fn candidates_view<F>(c: Seq<(String, F)>) -> Seq<(Seq<char>, F)> {
    c.map_values(|e: (String, F)| (e.0@, e.1))
}

/// A negotiation result seen through its error's view.
pub open spec fn result_view<T>(r: Result<T, AppError>) -> Result<T, ErrorView> {
    match r {
        Ok(t) => Ok(t),
        Err(e) => Err(e@),
    }
}

fn find_candidate<F: Copy>(candidates: &Vec<(String, F)>, name: &String) -> (r: Option<F>)
    ensures
        r == lookup(candidates_view(candidates@), name@),
{
    let ghost cs = candidates_view(candidates@);
    assert(cs.subrange(0, cs.len() as int) =~= cs);
    let mut i: usize = 0;
    while i < candidates.len()
        invariant
            i <= candidates.len(),
            cs == candidates_view(candidates@),
            lookup(cs, name@) == lookup(cs.subrange(i as int, cs.len() as int), name@),
        decreases candidates.len() - i,
    {
        let ghost rest = cs.subrange(i as int, cs.len() as int);
        assert(rest.drop_first() =~= cs.subrange(i + 1, cs.len() as int));
        if same_text(candidates[i].0.as_str(), name.as_str()) {
            return Some(candidates[i].1);
        }
        i = i + 1;
    }
    None
}

fn pick_candidate<F: Copy>(precedence: &Vec<String>, candidates: &Vec<(String, F)>) -> (r: Option<
    F,
>)
    ensures
        r == pick(precedence.deep_view(), candidates_view(candidates@)),
{
    let ghost p = precedence.deep_view();
    let ghost cs = candidates_view(candidates@);
    assert(p.subrange(0, p.len() as int) =~= p);
    let mut i: usize = 0;
    while i < precedence.len()
        invariant
            i <= precedence.len(),
            p == precedence.deep_view(),
            cs == candidates_view(candidates@),
            pick(p, cs) == pick(p.subrange(i as int, p.len() as int), cs),
        decreases precedence.len() - i,
    {
        let ghost rest = p.subrange(i as int, p.len() as int);
        assert(rest.drop_first() =~= p.subrange(i + 1, p.len() as int));
        match find_candidate(candidates, &precedence[i]) {
            Some(f) => return Some(f),
            None => {},
        }
        i = i + 1;
    }
    assert(p.subrange(i as int, p.len() as int).len() == 0);
    None
}

fn default_of<F: Copy>(candidates: &Vec<(String, F)>) -> (r: Result<F, AppError>)
    ensures
        result_view(r) == default_candidate(candidates_view(candidates@)),
{
    if candidates.len() == 0 {
        Err(AppError::NotAcceptable)
    } else {
        Ok(candidates[0].1)
    }
}

/// Chooses among `candidates`, listed from most to least preferred by the server,
/// the one that the `Accept` header values `accept` make best.
pub fn negotiate<F: Copy>(accept: &Vec<String>, candidates: &Vec<(String, F)>) -> (r: Result<
    F,
    AppError,
>)
    ensures
        result_view(r) == negotiated(accept.deep_view(), candidates_view(candidates@)),
{
    if accept.len() == 0 {
        return default_of(candidates);
    }
    match media_precedence(accept) {
        None => Err(AppError::InvalidHeader),
        Some(precedence) => {
            if precedence.len() == 0 {
                default_of(candidates)
            } else {
                match pick_candidate(&precedence, candidates) {
                    Some(f) => Ok(f),
                    None => Err(AppError::NotAcceptable),
                }
            }
        },
    }
}

/// The graph formats, from most to least preferred.
pub open spec fn graph_candidates() -> Seq<(Seq<char>, GraphFormat)> {
    seq![
        (graph_media_type_of(GraphFormat::NTriples), GraphFormat::NTriples),
        (graph_media_type_of(GraphFormat::Turtle), GraphFormat::Turtle),
        (graph_media_type_of(GraphFormat::RdfXml), GraphFormat::RdfXml),
    ]
}

/// The dataset formats, from most to least preferred.
pub open spec fn dataset_candidates() -> Seq<(Seq<char>, DatasetFormat)> {
    seq![
        (dataset_media_type_of(DatasetFormat::NQuads), DatasetFormat::NQuads),
        (dataset_media_type_of(DatasetFormat::TriG), DatasetFormat::TriG),
    ]
}

/// The SPARQL results formats, from most to least preferred.
pub open spec fn results_candidates() -> Seq<(Seq<char>, ResultsFormat)> {
    seq![
        (results_media_type_of(ResultsFormat::Xml), ResultsFormat::Xml),
        (results_media_type_of(ResultsFormat::Json), ResultsFormat::Json),
        (results_media_type_of(ResultsFormat::Csv), ResultsFormat::Csv),
        (results_media_type_of(ResultsFormat::Tsv), ResultsFormat::Tsv),
    ]
}

/// The graph format to answer with, for the `Accept` values `accept`.
pub fn graph_content_negotiation(accept: &Vec<String>) -> (r: Result<GraphFormat, AppError>)
    ensures
        result_view(r) == negotiated(accept.deep_view(), graph_candidates()),
{
    let mut candidates: Vec<(String, GraphFormat)> = Vec::new();
    candidates.push((owned(GraphFormat::NTriples.media_type()), GraphFormat::NTriples));
    candidates.push((owned(GraphFormat::Turtle.media_type()), GraphFormat::Turtle));
    candidates.push((owned(GraphFormat::RdfXml.media_type()), GraphFormat::RdfXml));
    assert(candidates_view(candidates@) =~= graph_candidates());
    negotiate(accept, &candidates)
}

/// The dataset format to answer with, for the `Accept` values `accept`.
pub fn dataset_content_negotiation(accept: &Vec<String>) -> (r: Result<DatasetFormat, AppError>)
    ensures
        result_view(r) == negotiated(accept.deep_view(), dataset_candidates()),
{
    let mut candidates: Vec<(String, DatasetFormat)> = Vec::new();
    candidates.push((owned(DatasetFormat::NQuads.media_type()), DatasetFormat::NQuads));
    candidates.push((owned(DatasetFormat::TriG.media_type()), DatasetFormat::TriG));
    assert(candidates_view(candidates@) =~= dataset_candidates());
    negotiate(accept, &candidates)
}

/// The SPARQL results format to answer with, for the `Accept` values `accept`.
pub fn results_content_negotiation(accept: &Vec<String>) -> (r: Result<ResultsFormat, AppError>)
    ensures
        result_view(r) == negotiated(accept.deep_view(), results_candidates()),
{
    let mut candidates: Vec<(String, ResultsFormat)> = Vec::new();
    candidates.push((owned(ResultsFormat::Xml.media_type()), ResultsFormat::Xml));
    candidates.push((owned(ResultsFormat::Json.media_type()), ResultsFormat::Json));
    candidates.push((owned(ResultsFormat::Csv.media_type()), ResultsFormat::Csv));
    candidates.push((owned(ResultsFormat::Tsv.media_type()), ResultsFormat::Tsv));
    assert(candidates_view(candidates@) =~= results_candidates());
    negotiate(accept, &candidates)
}

} // verus!
