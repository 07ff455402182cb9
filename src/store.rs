use vstd::prelude::*;

use crate::error::{status_of, AppError, ErrorView};
use crate::format::{
    dataset_format_for, graph_format_for, media_essence, media_type_essence, DatasetFormat,
    GraphFormat,
};
use crate::negotiate::{
    dataset_candidates, dataset_content_negotiation, graph_candidates, graph_content_negotiation,
    negotiated, result_view,
};
use crate::route::Method;
use crate::target::{
    minted_graph, minted_path, named_target, query_pairs, store_graph_info, store_info_of,
    store_info_scan, store_path, store_target, target_of, GraphTarget, RequestUri, TargetView,
    UriView,
};
use crate::text::owned;

verus! {

/// A graph of the store: the default graph or a named one.
#[derive(Debug, PartialEq, Eq)]
pub enum GraphName {
    DefaultGraph,
    NamedGraph(String),
}

pub enum GraphNameView {
    DefaultGraph,
    NamedGraph(Seq<char>),
}

impl View for GraphName {
    type V = GraphNameView;

    open spec fn view(&self) -> GraphNameView {
        match self {
            GraphName::DefaultGraph => GraphNameView::DefaultGraph,
            GraphName::NamedGraph(s) => GraphNameView::NamedGraph(s@),
        }
    }
}

/// One call into the store. A plan runs its calls in order and stops at the
/// first that fails.
#[derive(Debug, PartialEq, Eq)]
pub enum StoreAction {
    /// Write the whole dataset into the response body.
    DumpDataset(DatasetFormat),
    /// Write one graph into the response body.
    DumpGraph(GraphName, GraphFormat),
    /// Merge the request body, a dataset, into the store.
    LoadDataset(DatasetFormat),
    /// Add the request body, a graph, to one graph.
    LoadGraph(GraphName, GraphFormat),
    /// Remove every triple of one graph.
    ClearGraph(GraphName),
    /// Remove everything.
    ClearAll,
    /// Create an empty named graph.
    InsertNamedGraph(String),
    /// Remove a named graph with its triples.
    RemoveNamedGraph(String),
}

pub enum ActionView {
    DumpDataset(DatasetFormat),
    DumpGraph(GraphNameView, GraphFormat),
    LoadDataset(DatasetFormat),
    LoadGraph(GraphNameView, GraphFormat),
    ClearGraph(GraphNameView),
    ClearAll,
    InsertNamedGraph(Seq<char>),
    RemoveNamedGraph(Seq<char>),
}

impl View for StoreAction {
    type V = ActionView;

    open spec fn view(&self) -> ActionView {
        match self {
            StoreAction::DumpDataset(f) => ActionView::DumpDataset(*f),
            StoreAction::DumpGraph(g, f) => ActionView::DumpGraph(g@, *f),
            StoreAction::LoadDataset(f) => ActionView::LoadDataset(*f),
            StoreAction::LoadGraph(g, f) => ActionView::LoadGraph(g@, *f),
            StoreAction::ClearGraph(g) => ActionView::ClearGraph(g@),
            StoreAction::ClearAll => ActionView::ClearAll,
            StoreAction::InsertNamedGraph(s) => ActionView::InsertNamedGraph(s@),
            StoreAction::RemoveNamedGraph(s) => ActionView::RemoveNamedGraph(s@),
        }
    }
}

/// The store calls that answer a request, and the answer once they succeed.
#[derive(Debug)]
pub struct StorePlan {
    pub actions: Vec<StoreAction>,
    /// The status of the response.
    pub status: u16,
    /// The `Location` of a graph that the request created under a new name.
    pub location: Option<String>,
}

pub struct PlanView {
    pub actions: Seq<ActionView>,
    pub status: u16,
    pub location: Option<Seq<char>>,
}

impl View for StorePlan {
    type V = PlanView;

    open spec fn view(&self) -> PlanView {
        PlanView {
            actions: self.actions@.map_values(|a: StoreAction| a@),
            status: self.status,
            location: self.location.deep_view(),
        }
    }
}

/// What a request does with a named graph once the store has said whether it exists.
#[derive(Debug, Clone, Copy, PartialEq, Eq, Structural)]
pub enum StoreIntent {
    /// `GET`: write the graph out.
    Read,
    /// `HEAD`: only say whether it exists.
    Probe,
    /// `PUT`: replace its content with the body.
    Replace(GraphFormat),
    /// `POST`: add the body to it.
    Merge(GraphFormat),
    /// `DELETE`: remove it.
    Remove,
}

/// The next step of a Graph Store request.
#[derive(Debug)]
pub enum StoreStep {
    /// Ask the store whether this named graph exists, then resume with the answer.
    Lookup(String, StoreIntent),
    /// Run this plan.
    Run(StorePlan),
}

pub enum StepView {
    Lookup(Seq<char>, StoreIntent),
    Run(PlanView),
}

impl View for StoreStep {
    type V = StepView;

    open spec fn view(&self) -> StepView {
        match self {
            StoreStep::Lookup(g, i) => StepView::Lookup(g@, *i),
            StoreStep::Run(p) => StepView::Run(p@),
        }
    }
}

/// A Graph Store request, as far as the protocol reads it.
#[derive(Debug)]
pub struct StoreRequest {
    pub method: Method,
    pub uri: RequestUri,
    pub content_type: Option<String>,
    /// Every `Accept` header value, in order.
    pub accept: Vec<String>,
}

pub struct RequestView {
    pub method: Method,
    pub uri: UriView,
    pub content_type: Option<Seq<char>>,
    pub accept: Seq<Seq<char>>,
}

impl View for StoreRequest {
    type V = RequestView;

    open spec fn view(&self) -> RequestView {
        RequestView {
            method: self.method,
            uri: self.uri@,
            content_type: self.content_type.deep_view(),
            accept: self.accept.deep_view(),
        }
    }
}

pub open spec fn plan_of(actions: Seq<ActionView>, status: u16) -> PlanView {
    PlanView { actions, status, location: None }
}

pub open spec fn run(actions: Seq<ActionView>, status: u16) -> Result<StepView, ErrorView> {
    Ok(StepView::Run(plan_of(actions, status)))
}

/// The step of a `PUT` with body media type `c` (essence `e`) to `t`.
pub open spec fn put_step_of(t: TargetView, c: Seq<char>, e: Seq<char>) -> Result<
    StepView,
    ErrorView,
> {
    match t {
        TargetView::WholeStore => if dataset_format_for(e) is Some {
            Err(ErrorView::WholeStorePut)
        } else {
            Err(ErrorView::UnsupportedMediaType(c))
        },
        TargetView::DefaultGraph => match graph_format_for(e) {
            None => Err(ErrorView::UnsupportedMediaType(c)),
            Some(f) => run(
                seq![
                    ActionView::ClearGraph(GraphNameView::DefaultGraph),
                    ActionView::LoadGraph(GraphNameView::DefaultGraph, f),
                ],
                204,
            ),
        },
        TargetView::NamedGraph(g) => match graph_format_for(e) {
            None => Err(ErrorView::UnsupportedMediaType(c)),
            Some(f) => Ok(StepView::Lookup(g, StoreIntent::Replace(f))),
        },
    }
}

/// The step of a `POST` with body media type `c` (essence `e`) to `t`; `n`
/// names the graph that a graph posted to the whole store goes into.
pub open spec fn post_step_of(u: UriView, t: TargetView, c: Seq<char>, e: Seq<char>, n: u128) -> Result<
    StepView,
    ErrorView,
> {
    match t {
        TargetView::WholeStore => match dataset_format_for(e) {
            Some(f) => run(seq![ActionView::LoadDataset(f)], 204),
            None => match graph_format_for(e) {
                None => Err(ErrorView::UnsupportedMediaType(c)),
                Some(f) => match named_target(u, minted_path(n as nat)) {
                    Ok(TargetView::NamedGraph(g)) => Ok(
                        StepView::Run(
                            PlanView {
                                actions: seq![
                                    ActionView::InsertNamedGraph(g),
                                    ActionView::LoadGraph(GraphNameView::NamedGraph(g), f),
                                ],
                                status: 201,
                                location: Some(g),
                            },
                        ),
                    ),
                    Ok(_) => Err(ErrorView::BadUrl),
                    Err(err) => Err(err),
                },
            },
        },
        TargetView::DefaultGraph => match graph_format_for(e) {
            None => Err(ErrorView::UnsupportedMediaType(c)),
            Some(f) => run(seq![ActionView::LoadGraph(GraphNameView::DefaultGraph, f)], 204),
        },
        TargetView::NamedGraph(g) => match graph_format_for(e) {
            None => Err(ErrorView::UnsupportedMediaType(c)),
            Some(f) => Ok(StepView::Lookup(g, StoreIntent::Merge(f))),
        },
    }
}

/// The first step of a Graph Store request. The query parameters are read
/// first; a write then needs a well-formed `Content-Type`; then the target is
/// resolved. Reads and deletes of a named graph, and writes to one, first ask
/// whether it exists; `n` names the graph that a graph posted to the whole
/// store goes into.
pub open spec fn begin_of(q: RequestView, n: u128) -> Result<StepView, ErrorView> {
    match store_info_of(q.uri) {
        Err(e) => Err(e),
        Ok((d, g)) => match q.method {
            Method::Get => match target_of(q.uri, d, g) {
                Err(e) => Err(e),
                Ok(TargetView::WholeStore) => match negotiated(q.accept, dataset_candidates()) {
                    Ok(f) => run(seq![ActionView::DumpDataset(f)], 200),
                    Err(e) => Err(e),
                },
                Ok(TargetView::DefaultGraph) => match negotiated(q.accept, graph_candidates()) {
                    Ok(f) => run(seq![ActionView::DumpGraph(GraphNameView::DefaultGraph, f)], 200),
                    Err(e) => Err(e),
                },
                Ok(TargetView::NamedGraph(iri)) => Ok(StepView::Lookup(iri, StoreIntent::Read)),
            },
            Method::Head => match target_of(q.uri, d, g) {
                Err(e) => Err(e),
                Ok(TargetView::NamedGraph(iri)) => Ok(StepView::Lookup(iri, StoreIntent::Probe)),
                Ok(_) => run(Seq::empty(), 200),
            },
            Method::Delete => match target_of(q.uri, d, g) {
                Err(e) => Err(e),
                Ok(TargetView::WholeStore) => run(seq![ActionView::ClearAll], 204),
                Ok(TargetView::DefaultGraph) => run(
                    seq![ActionView::ClearGraph(GraphNameView::DefaultGraph)],
                    204,
                ),
                Ok(TargetView::NamedGraph(iri)) => Ok(StepView::Lookup(iri, StoreIntent::Remove)),
            },
            Method::Put | Method::Post => match q.content_type {
                None => Err(ErrorView::MissingContentType),
                Some(c) => match media_essence(c) {
                    None => Err(ErrorView::MalformedMediaType),
                    Some(e) => match target_of(q.uri, d, g) {
                        Err(err) => Err(err),
                        Ok(t) => if q.method == Method::Put {
                            put_step_of(t, c, e)
                        } else {
                            post_step_of(q.uri, t, c, e, n)
                        },
                    },
                },
            },
            Method::Other => Err(ErrorView::MethodNotAllowed),
        },
    }
}

/// The plan for a request on the named graph `g`, once the store has said
/// whether it `exists`. A read, probe or delete of an absent graph is a 404;
/// a write to one creates it first and answers 201.
pub open spec fn resume_of(intent: StoreIntent, g: Seq<char>, exists: bool, accept: Seq<Seq<char>>) -> Result<
    PlanView,
    ErrorView,
> {
    let named = GraphNameView::NamedGraph(g);
    match intent {
        StoreIntent::Read => if !exists {
            Err(ErrorView::NotFound(g))
        } else {
            match negotiated(accept, graph_candidates()) {
                Ok(f) => Ok(plan_of(seq![ActionView::DumpGraph(named, f)], 200)),
                Err(e) => Err(e),
            }
        },
        StoreIntent::Probe => if exists {
            Ok(plan_of(Seq::empty(), 200))
        } else {
            Err(ErrorView::NotFound(g))
        },
        StoreIntent::Replace(f) => if exists {
            Ok(plan_of(seq![ActionView::ClearGraph(named), ActionView::LoadGraph(named, f)], 204))
        } else {
            Ok(
                plan_of(
                    seq![ActionView::InsertNamedGraph(g), ActionView::LoadGraph(named, f)],
                    201,
                ),
            )
        },
        StoreIntent::Merge(f) => if exists {
            Ok(plan_of(seq![ActionView::LoadGraph(named, f)], 204))
        } else {
            Ok(
                plan_of(
                    seq![ActionView::InsertNamedGraph(g), ActionView::LoadGraph(named, f)],
                    201,
                ),
            )
        },
        StoreIntent::Remove => if exists {
            Ok(plan_of(seq![ActionView::RemoveNamedGraph(g)], 204))
        } else {
            Err(ErrorView::NotFound(g))
        },
    }
}

pub open spec fn step_result(r: Result<StoreStep, AppError>) -> Result<StepView, ErrorView> {
    match r {
        Ok(s) => Ok(s@),
        Err(e) => Err(e@),
    }
}

pub open spec fn plan_result(r: Result<StorePlan, AppError>) -> Result<PlanView, ErrorView> {
    match r {
        Ok(p) => Ok(p@),
        Err(e) => Err(e@),
    }
}

fn plan(actions: Vec<StoreAction>, status: u16) -> (r: StorePlan)
    ensures
        r@ == plan_of(actions@.map_values(|a: StoreAction| a@), status),
{
    StorePlan { actions, status, location: None }
}

fn one(a: StoreAction) -> (r: Vec<StoreAction>)
    ensures
        r@.map_values(|x: StoreAction| x@) == seq![a@],
{
    let mut v: Vec<StoreAction> = Vec::new();
    v.push(a);
    assert(v@.map_values(|x: StoreAction| x@) =~= seq![a@]);
    v
}

fn two(a: StoreAction, b: StoreAction) -> (r: Vec<StoreAction>)
    ensures
        r@.map_values(|x: StoreAction| x@) == seq![a@, b@],
{
    let mut v: Vec<StoreAction> = Vec::new();
    v.push(a);
    v.push(b);
    assert(v@.map_values(|x: StoreAction| x@) =~= seq![a@, b@]);
    v
}

fn put_step(target: GraphTarget, content_type: &str, essence: &str) -> (r: Result<StoreStep, AppError>)
    ensures
        step_result(r) == put_step_of(target@, content_type@, essence@),
{
    match target {
        GraphTarget::WholeStore => {
            if DatasetFormat::from_media_type(essence).is_some() {
                Err(AppError::WholeStorePut)
            } else {
                Err(AppError::UnsupportedMediaType(owned(content_type)))
            }
        },
        GraphTarget::DefaultGraph => match GraphFormat::from_media_type(essence) {
            None => Err(AppError::UnsupportedMediaType(owned(content_type))),
            Some(f) => Ok(
                StoreStep::Run(
                    plan(
                        two(
                            StoreAction::ClearGraph(GraphName::DefaultGraph),
                            StoreAction::LoadGraph(GraphName::DefaultGraph, f),
                        ),
                        204,
                    ),
                ),
            ),
        },
        GraphTarget::NamedGraph(g) => match GraphFormat::from_media_type(essence) {
            None => Err(AppError::UnsupportedMediaType(owned(content_type))),
            Some(f) => Ok(StoreStep::Lookup(g, StoreIntent::Replace(f))),
        },
    }
}

fn post_step(uri: &RequestUri, target: GraphTarget, content_type: &str, essence: &str, n: u128) -> (r:
    Result<StoreStep, AppError>)
    ensures
        step_result(r) == post_step_of(uri@, target@, content_type@, essence@, n),
{
    match target {
        GraphTarget::WholeStore => match DatasetFormat::from_media_type(essence) {
            Some(f) => Ok(StoreStep::Run(plan(one(StoreAction::LoadDataset(f)), 204))),
            None => match GraphFormat::from_media_type(essence) {
                None => Err(AppError::UnsupportedMediaType(owned(content_type))),
                Some(f) => match minted_graph(uri, n) {
                    Ok(GraphTarget::NamedGraph(g)) => {
                        let location = owned(g.as_str());
                        let load = StoreAction::LoadGraph(
                            GraphName::NamedGraph(owned(g.as_str())),
                            f,
                        );
                        let actions = two(StoreAction::InsertNamedGraph(g), load);
                        Ok(StoreStep::Run(StorePlan { actions, status: 201, location: Some(location) }))
                    },
                    Ok(_) => Err(AppError::BadUrl),
                    Err(err) => Err(err),
                },
            },
        },
        GraphTarget::DefaultGraph => match GraphFormat::from_media_type(essence) {
            None => Err(AppError::UnsupportedMediaType(owned(content_type))),
            Some(f) => Ok(
                StoreStep::Run(plan(one(StoreAction::LoadGraph(GraphName::DefaultGraph, f)), 204)),
            ),
        },
        GraphTarget::NamedGraph(g) => match GraphFormat::from_media_type(essence) {
            None => Err(AppError::UnsupportedMediaType(owned(content_type))),
            Some(f) => Ok(StoreStep::Lookup(g, StoreIntent::Merge(f))),
        },
    }
}

/// The first step of a Graph Store request, with `n` naming the graph that a
/// graph posted to the whole store goes into.
pub fn begin_store_request_with(req: &StoreRequest, n: u128) -> (r: Result<StoreStep, AppError>)
    ensures
        step_result(r) == begin_of(req@, n),
{
    let info = store_graph_info(&req.uri)?;
    match req.method {
        Method::Get => match store_target(&req.uri, &info)? {
            GraphTarget::WholeStore => match dataset_content_negotiation(&req.accept) {
                Ok(f) => Ok(StoreStep::Run(plan(one(StoreAction::DumpDataset(f)), 200))),
                Err(e) => Err(e),
            },
            GraphTarget::DefaultGraph => match graph_content_negotiation(&req.accept) {
                Ok(f) => Ok(
                    StoreStep::Run(
                        plan(one(StoreAction::DumpGraph(GraphName::DefaultGraph, f)), 200),
                    ),
                ),
                Err(e) => Err(e),
            },
            GraphTarget::NamedGraph(iri) => Ok(StoreStep::Lookup(iri, StoreIntent::Read)),
        },
        Method::Head => match store_target(&req.uri, &info)? {
            GraphTarget::NamedGraph(iri) => Ok(StoreStep::Lookup(iri, StoreIntent::Probe)),
            _ => {
                let none: Vec<StoreAction> = Vec::new();
                assert(none@.map_values(|a: StoreAction| a@) =~= Seq::<ActionView>::empty());
                Ok(StoreStep::Run(plan(none, 200)))
            },
        },
        Method::Delete => match store_target(&req.uri, &info)? {
            GraphTarget::WholeStore => Ok(StoreStep::Run(plan(one(StoreAction::ClearAll), 204))),
            GraphTarget::DefaultGraph => Ok(
                StoreStep::Run(plan(one(StoreAction::ClearGraph(GraphName::DefaultGraph)), 204)),
            ),
            GraphTarget::NamedGraph(iri) => Ok(StoreStep::Lookup(iri, StoreIntent::Remove)),
        },
        Method::Put | Method::Post => match &req.content_type {
            None => Err(AppError::MissingContentType),
            Some(c) => match media_type_essence(c.as_str()) {
                None => Err(AppError::MalformedMediaType),
                Some(e) => {
                    let target = store_target(&req.uri, &info)?;
                    if req.method == Method::Put {
                        put_step(target, c.as_str(), e.as_str())
                    } else {
                        post_step(&req.uri, target, c.as_str(), e.as_str(), n)
                    }
                },
            },
        },
        Method::Other => Err(AppError::MethodNotAllowed),
    }
}

/// The plan for a request on the named graph `graph`, once the store has
/// said whether it `exists`.
pub fn resume_store_request(intent: StoreIntent, graph: &str, exists: bool, accept: &Vec<String>) -> (r:
    Result<StorePlan, AppError>)
    ensures
        plan_result(r) == resume_of(intent, graph@, exists, accept.deep_view()),
{
    let named = GraphName::NamedGraph(owned(graph));
    match intent {
        StoreIntent::Read => {
            if !exists {
                Err(AppError::NotFound(owned(graph)))
            } else {
                match graph_content_negotiation(accept) {
                    Ok(f) => Ok(plan(one(StoreAction::DumpGraph(named, f)), 200)),
                    Err(e) => Err(e),
                }
            }
        },
        StoreIntent::Probe => {
            if exists {
                let none: Vec<StoreAction> = Vec::new();
                assert(none@.map_values(|a: StoreAction| a@) =~= Seq::<ActionView>::empty());
                Ok(plan(none, 200))
            } else {
                Err(AppError::NotFound(owned(graph)))
            }
        },
        StoreIntent::Replace(f) => {
            if exists {
                let clear = StoreAction::ClearGraph(GraphName::NamedGraph(owned(graph)));
                Ok(plan(two(clear, StoreAction::LoadGraph(named, f)), 204))
            } else {
                let insert = StoreAction::InsertNamedGraph(owned(graph));
                Ok(plan(two(insert, StoreAction::LoadGraph(named, f)), 201))
            }
        },
        StoreIntent::Merge(f) => {
            if exists {
                Ok(plan(one(StoreAction::LoadGraph(named, f)), 204))
            } else {
                let insert = StoreAction::InsertNamedGraph(owned(graph));
                Ok(plan(two(insert, StoreAction::LoadGraph(named, f)), 201))
            }
        },
        StoreIntent::Remove => {
            if exists {
                Ok(plan(one(StoreAction::RemoveNamedGraph(owned(graph))), 204))
            } else {
                Err(AppError::NotFound(owned(graph)))
            }
        },
    }
}

/// Relies on rand's `random`: a value drawn from the standard distribution of
/// its type; nothing is promised of which.
pub assume_specification<T>[ rand::random::<T> ]() -> (r: T)
    where
        rand::distributions::Standard: rand::distributions::Distribution<T>,
;

/// The first step of a Graph Store request. A graph posted to the whole store
/// goes into a new graph whose name holds a random 128-bit number.
pub fn begin_store_request(req: &StoreRequest) -> (r: Result<StoreStep, AppError>)
    ensures
        exists|n: u128| step_result(r) == begin_of(req@, n),
{
    let n: u128 = rand::random();
    begin_store_request_with(req, n)
}

/// Whether the named graph `g` exists after `actions` run, given whether it
/// existed before: creating and removing it decide, and clearing the store
/// removes it. Clearing a graph keeps it, and a load is taken not to create one.
pub open spec fn exists_after(actions: Seq<ActionView>, g: Seq<char>, before: bool) -> bool
    decreases actions.len(),
{
    if actions.len() == 0 {
        before
    } else {
        let now = match actions[0] {
            ActionView::InsertNamedGraph(h) => h == g || before,
            ActionView::RemoveNamedGraph(h) => h != g && before,
            ActionView::ClearAll => false,
            _ => before,
        };
        exists_after(actions.drop_first(), g, now)
    }
}

/// The `default` and `graph` parameters that a request resolves to, when they read.
pub open spec fn resolved_target(u: UriView) -> Result<TargetView, ErrorView> {
    match store_info_of(u) {
        Err(e) => Err(e),
        Ok((d, g)) => target_of(u, d, g),
    }
}

/// The graph format of a write's `Content-Type`.
pub open spec fn body_graph_format(q: RequestView) -> Option<GraphFormat> {
    match q.content_type {
        None => None,
        Some(c) => match media_essence(c) {
            None => None,
            Some(e) => graph_format_for(e),
        },
    }
}

proof fn lemma_store_scan_sees(pairs: Seq<(Seq<char>, Seq<char>)>, n: int, i: int)
    requires
        0 <= i < n <= pairs.len(),
        store_info_scan(pairs, n) is Ok,
    ensures
        pairs[i].0 == "default"@ ==> store_info_scan(pairs, n)->Ok_0.0 is Some,
        pairs[i].0 == "graph"@ ==> store_info_scan(pairs, n)->Ok_0.1 is Some,
    decreases n,
{
    reveal_strlit("default");
    reveal_strlit("graph");
    assert("default"@ != "graph"@) by {
        assert("default"@.len() != "graph"@.len());
    }
    if i < n - 1 {
        lemma_store_scan_sees(pairs, n - 1, i);
    }
}

proof fn lemma_store_scan_failure_is_bad_request(pairs: Seq<(Seq<char>, Seq<char>)>, n: int)
    ensures
        store_info_scan(pairs, n) is Err ==> status_of(store_info_scan(pairs, n)->Err_0) == 400,
    decreases n,
{
    if n > 0 {
        lemma_store_scan_failure_is_bad_request(pairs, n - 1);
    }
}

/// Both `graph` and `default` on the collection endpoint are refused with 400,
/// whatever the method among the five and whatever the body.
pub proof fn lemma_graph_and_default_conflict(q: RequestView, n: u128, i: int, j: int)
    requires
        q.uri.path == store_path(),
        q.method != Method::Other,
        0 <= i < query_pairs(q.uri).len(),
        0 <= j < query_pairs(q.uri).len(),
        query_pairs(q.uri)[i].0 == "graph"@,
        query_pairs(q.uri)[j].0 == "default"@,
    ensures
        begin_of(q, n) is Err,
        status_of(begin_of(q, n)->Err_0) == 400,
{
    let pairs = query_pairs(q.uri);
    lemma_store_scan_failure_is_bad_request(pairs, pairs.len() as int);
    if store_info_of(q.uri) is Ok {
        lemma_store_scan_sees(pairs, pairs.len() as int, i);
        lemma_store_scan_sees(pairs, pairs.len() as int, j);
    }
}

/// A GET or HEAD on the default graph never asks whether it exists, and is
/// never answered 404: the default graph always exists.
pub proof fn lemma_default_graph_always_found(q: RequestView, n: u128)
    requires
        q.method == Method::Get || q.method == Method::Head,
        resolved_target(q.uri) == Ok::<_, ErrorView>(TargetView::DefaultGraph),
    ensures
        match begin_of(q, n) {
            Ok(StepView::Run(p)) => p.status == 200,
            Ok(StepView::Lookup(_, _)) => false,
            Err(e) => status_of(e) != 404,
        },
{
}

/// A PUT of a graph in a supported format to an absent named graph creates it
/// and answers 201. A GET of the same resource then finds it and writes its
/// triples out (200, where a graph format is acceptable), and a second PUT
/// replaces its content and answers 204.
pub proof fn lemma_put_creates_then_replaces(
    put: RequestView,
    get: RequestView,
    n: u128,
    iri: Seq<char>,
    f: GraphFormat,
)
    requires
        put.method == Method::Put,
        body_graph_format(put) == Some(f),
        resolved_target(put.uri) == Ok::<_, ErrorView>(TargetView::NamedGraph(iri)),
        get.method == Method::Get,
        get.uri == put.uri,
    ensures
        begin_of(put, n) == Ok::<_, ErrorView>(StepView::Lookup(iri, StoreIntent::Replace(f))),
        resume_of(StoreIntent::Replace(f), iri, false, put.accept) is Ok,
        resume_of(StoreIntent::Replace(f), iri, false, put.accept)->Ok_0.status == 201,
        exists_after(
            resume_of(StoreIntent::Replace(f), iri, false, put.accept)->Ok_0.actions,
            iri,
            false,
        ),
        begin_of(get, n) == Ok::<_, ErrorView>(StepView::Lookup(iri, StoreIntent::Read)),
        negotiated(get.accept, graph_candidates()) is Ok ==> resume_of(
            StoreIntent::Read,
            iri,
            true,
            get.accept,
        ) == Ok::<_, ErrorView>(
            plan_of(
                seq![
                    ActionView::DumpGraph(
                        GraphNameView::NamedGraph(iri),
                        negotiated(get.accept, graph_candidates())->Ok_0,
                    ),
                ],
                200,
            ),
        ),
        resume_of(StoreIntent::Replace(f), iri, true, put.accept)->Ok_0.status == 204,
{
    reveal_with_fuel(exists_after, 3);
    let acts = resume_of(StoreIntent::Replace(f), iri, false, put.accept)->Ok_0.actions;
    assert(acts.drop_first().drop_first().len() == 0);
}

/// A DELETE of an absent named graph is answered 404. A DELETE of a present
/// one removes it (204), so that a repeated DELETE is answered 404 again.
pub proof fn lemma_delete_absent_is_not_found(q: RequestView, n: u128, iri: Seq<char>)
    requires
        q.method == Method::Delete,
        resolved_target(q.uri) == Ok::<_, ErrorView>(TargetView::NamedGraph(iri)),
    ensures
        begin_of(q, n) == Ok::<_, ErrorView>(StepView::Lookup(iri, StoreIntent::Remove)),
        resume_of(StoreIntent::Remove, iri, false, q.accept) == Err::<PlanView, _>(
            ErrorView::NotFound(iri),
        ),
        status_of(ErrorView::NotFound(iri)) == 404,
        resume_of(StoreIntent::Remove, iri, true, q.accept)->Ok_0.status == 204,
        !exists_after(resume_of(StoreIntent::Remove, iri, true, q.accept)->Ok_0.actions, iri, true),
        resume_of(
            StoreIntent::Remove,
            iri,
            exists_after(resume_of(StoreIntent::Remove, iri, true, q.accept)->Ok_0.actions, iri, true),
            q.accept,
        ) == Err::<PlanView, _>(ErrorView::NotFound(iri)),
{
    reveal_with_fuel(exists_after, 2);
    let acts = resume_of(StoreIntent::Remove, iri, true, q.accept)->Ok_0.actions;
    assert(acts.drop_first().len() == 0);
}

/// A POST of a graph (in a graph format that is not a dataset format) to the
/// collection endpoint without `graph` or `default` creates a new graph under
/// the store, answers 201 with its identifier as `Location`, and a GET of that
/// graph then finds it (200, where a graph format is acceptable).
pub proof fn lemma_post_creates_new_graph(
    q: RequestView,
    n: u128,
    f: GraphFormat,
    iri: Seq<char>,
    accept: Seq<Seq<char>>,
)
    requires
        q.method == Method::Post,
        q.uri.path == store_path(),
        store_info_of(q.uri) == Ok::<_, ErrorView>((None::<Seq<char>>, None::<Seq<char>>)),
        body_graph_format(q) == Some(f),
        dataset_format_for(media_essence(q.content_type->Some_0)->Some_0) is None,
        named_target(q.uri, minted_path(n as nat)) == Ok::<_, ErrorView>(TargetView::NamedGraph(iri)),
    ensures
        begin_of(q, n) == Ok::<_, ErrorView>(
            StepView::Run(
                PlanView {
                    actions: seq![
                        ActionView::InsertNamedGraph(iri),
                        ActionView::LoadGraph(GraphNameView::NamedGraph(iri), f),
                    ],
                    status: 201,
                    location: Some(iri),
                },
            ),
        ),
        exists_after(
            seq![
                ActionView::InsertNamedGraph(iri),
                ActionView::LoadGraph(GraphNameView::NamedGraph(iri), f),
            ],
            iri,
            false,
        ),
        negotiated(accept, graph_candidates()) is Ok ==> resume_of(
            StoreIntent::Read,
            iri,
            true,
            accept,
        )->Ok_0.status == 200,
{
    let acts = seq![
        ActionView::InsertNamedGraph(iri),
        ActionView::LoadGraph(GraphNameView::NamedGraph(iri), f),
    ];
    reveal_with_fuel(exists_after, 3);
    assert(acts.drop_first().drop_first().len() == 0);
}

} // verus!
