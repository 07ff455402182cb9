use std::io::Cursor;

use actix_web::http::Uri;
use knowgraf::error::{AppError, IoFailure};
use knowgraf::format::{DatasetFormat, GraphFormat, ResultsFormat};
use knowgraf::route::{route, Method, Route};
use knowgraf::sparql::{query_answer_format, query_operation, update_operation, QueryAnswer};
use knowgraf::store::{
    begin_store_request, resume_store_request, GraphName, StoreAction, StorePlan, StoreRequest,
    StoreStep,
};
use knowgraf::target::RequestUri;
use oxigraph::model::NamedNodeRef;
use oxigraph::sparql::{QueryResults, QueryResultsFormat};
use oxigraph::SledStore;

struct Reply {
    status: u16,
    location: Option<String>,
    content_type: Option<String>,
    body: Vec<u8>,
}

fn request_uri(uri: &str) -> RequestUri {
    let u: Uri = uri.parse().unwrap();
    RequestUri {
        scheme: u.scheme_str().map(|s| s.to_string()),
        host: u.host().map(|h| h.to_string()),
        path: u.path().to_string(),
        query: u.query().unwrap_or("").to_string(),
    }
}

fn io_error(e: std::io::Error) -> AppError {
    AppError::from_io(match e.kind() {
        std::io::ErrorKind::UnexpectedEof => IoFailure::UnexpectedEnd,
        std::io::ErrorKind::InvalidData => IoFailure::InvalidData,
        _ => IoFailure::Other,
    })
}

fn graph_format(f: GraphFormat) -> oxigraph::io::GraphFormat {
    match f {
        GraphFormat::NTriples => oxigraph::io::GraphFormat::NTriples,
        GraphFormat::Turtle => oxigraph::io::GraphFormat::Turtle,
        GraphFormat::RdfXml => oxigraph::io::GraphFormat::RdfXml,
    }
}

fn dataset_format(f: DatasetFormat) -> oxigraph::io::DatasetFormat {
    match f {
        DatasetFormat::NQuads => oxigraph::io::DatasetFormat::NQuads,
        DatasetFormat::TriG => oxigraph::io::DatasetFormat::TriG,
    }
}

fn results_format(f: ResultsFormat) -> QueryResultsFormat {
    match f {
        ResultsFormat::Xml => QueryResultsFormat::Xml,
        ResultsFormat::Json => QueryResultsFormat::Json,
        ResultsFormat::Csv => QueryResultsFormat::Csv,
        ResultsFormat::Tsv => QueryResultsFormat::Tsv,
    }
}

fn graph_name(g: &GraphName) -> oxigraph::model::GraphName {
    match g {
        GraphName::DefaultGraph => oxigraph::model::GraphName::DefaultGraph,
        GraphName::NamedGraph(iri) => oxigraph::model::NamedNode::new_unchecked(iri.as_str()).into(),
    }
}

fn run_plan(store: &SledStore, plan: StorePlan, body: &[u8]) -> Result<Reply, AppError> {
    let mut out = Vec::new();
    let mut content_type = None;
    for action in &plan.actions {
        match action {
            StoreAction::DumpDataset(f) => {
                store.dump_dataset(&mut out, dataset_format(*f)).map_err(io_error)?;
                content_type = Some(f.media_type().to_string());
            }
            StoreAction::DumpGraph(g, f) => {
                store.dump_graph(&mut out, graph_format(*f), &graph_name(g)).map_err(io_error)?;
                content_type = Some(f.media_type().to_string());
            }
            StoreAction::LoadDataset(f) => store
                .load_dataset(Cursor::new(body), dataset_format(*f), None)
                .map_err(io_error)?,
            StoreAction::LoadGraph(g, f) => store
                .load_graph(Cursor::new(body), graph_format(*f), &graph_name(g), None)
                .map_err(io_error)?,
            StoreAction::ClearGraph(g) => store.clear_graph(&graph_name(g)).map_err(io_error)?,
            StoreAction::ClearAll => store.clear().map_err(io_error)?,
            StoreAction::InsertNamedGraph(iri) => store
                .insert_named_graph(NamedNodeRef::new_unchecked(iri.as_str()))
                .map_err(io_error)?,
            StoreAction::RemoveNamedGraph(iri) => store
                .remove_named_graph(NamedNodeRef::new_unchecked(iri.as_str()))
                .map_err(io_error)?,
        }
    }
    Ok(Reply { status: plan.status, location: plan.location, content_type, body: out })
}

fn store_call(store: &SledStore, req: StoreRequest, body: &[u8]) -> Result<Reply, AppError> {
    let plan = match begin_store_request(&req)? {
        StoreStep::Run(plan) => plan,
        StoreStep::Lookup(graph, intent) => {
            let exists = store
                .contains_named_graph(NamedNodeRef::new_unchecked(graph.as_str()))
                .map_err(io_error)?;
            resume_store_request(intent, &graph, exists, &req.accept)?
        }
    };
    run_plan(store, plan, body)
}

fn query_call(store: &SledStore, method: Method, uri: &RequestUri, content_type: Option<&str>, accept: &Vec<String>, body: &[u8]) -> Result<Reply, AppError> {
    let query = query_operation(method, uri, content_type, body)?;
    let results = store.query(query.into_query()).map_err(|_| AppError::QueryEvaluation)?;
    let is_graph = matches!(results, QueryResults::Graph(_));
    let mut out = Vec::new();
    let answer = query_answer_format(is_graph, accept)?;
    match answer {
        QueryAnswer::Graph(f) => {
            results.write_graph(&mut out, graph_format(f)).map_err(|_| AppError::QueryEvaluation)?
        }
        QueryAnswer::Solutions(f) => {
            results.write(&mut out, results_format(f)).map_err(|_| AppError::QueryEvaluation)?
        }
    }
    Ok(Reply { status: answer.status(), location: None, content_type: Some(answer.media_type().to_string()), body: out })
}

fn call(store: &SledStore, method: Method, uri: &str, content_type: Option<&str>, accept: &[&str], body: &str) -> Reply {
    let ruri = request_uri(uri);
    let accept: Vec<String> = accept.iter().map(|a| a.to_string()).collect();
    let body = body.as_bytes();
    let outcome = match route(method, &ruri.path) {
        Route::Query => query_call(store, method, &ruri, content_type, &accept, body),
        Route::Update => update_operation(method, &ruri, content_type, body).and_then(|u| {
            let status = u.done_status();
            store.update(u.into_update()).map_err(|_| AppError::QueryEvaluation)?;
            Ok(Reply { status, location: None, content_type: None, body: Vec::new() })
        }),
        Route::Store => {
            let req = StoreRequest {
                method,
                uri: ruri,
                content_type: content_type.map(|c| c.to_string()),
                accept,
            };
            store_call(store, req, body)
        }
        Route::Index => Ok(Reply { status: 200, location: None, content_type: None, body: Vec::new() }),
        Route::NotFound => Ok(Reply { status: 404, location: None, content_type: None, body: Vec::new() }),
        Route::MethodNotAllowed => Err(AppError::MethodNotAllowed),
    };
    outcome.unwrap_or_else(|e| Reply {
        status: e.status_code(),
        location: None,
        content_type: Some("text/html; charset=utf-8".to_string()),
        body: e.message().into_bytes(),
    })
}

fn new_store() -> SledStore {
    SledStore::new().unwrap()
}

const SELECT_ALL: &str = "SELECT * WHERE { ?s ?p ?o }";

#[test]
fn post_dataset_file() {
    let store = new_store();
    let resp = call(&store, Method::Post, "/store", Some("application/trig"), &[], "<http://example.com> <http://example.com> <http://example.com> .");
    assert_eq!(resp.status, 204);
}

#[test]
fn post_graph_file() {
    let store = new_store();
    let resp = call(&store, Method::Post, "http://example.com/store", Some("text/turtle"), &[], "<http://example.com/ns/data#i01> <http://example.com/ns/book#firstName> \"Richard\" .");
    assert_eq!(resp.status, 201);
    assert!(resp.location.is_some());
}

#[test]
fn post_graph_file_default() {
    let store = new_store();
    let resp = call(&store, Method::Post, "http://example.com/store?default", Some("text/turtle"), &[], "<http://example.com/ns/data#i01> <http://example.com/ns/book#firstName> \"Richard\" .");
    assert_eq!(resp.status, 204);
}

#[test]
fn post_no_content() {
    let store = new_store();
    let resp = call(&store, Method::Post, "/store", None, &[], "");
    assert_eq!(resp.status, 400);
}

#[test]
fn post_unsupported_file() {
    let store = new_store();
    let resp = call(&store, Method::Post, "/store", Some("text/foo"), &[], "");
    assert_eq!(resp.status, 415);
}

#[test]
fn post_wrong_file() {
    let store = new_store();
    let resp = call(&store, Method::Post, "/store", Some("application/trig"), &[], "<http://example.com>");
    assert_eq!(resp.status, 400);
}

#[test]
fn get_query() {
    let store = new_store();
    let resp = call(&store, Method::Get, "http://localhost/query?query=SELECT%20*%20WHERE%20{%20?s%20?p%20?o%20}", None, &[], "");
    assert_eq!(resp.status, 200);
}

#[test]
fn get_query_named_graph() {
    let store = new_store();
    let resp = call(&store, Method::Get, "http://localhost/query?query=SELECT%20*%20WHERE%20{%20?s%20?p%20?o%20}&named-graph-uri=http://example.com/a&named-graph-uri=http://example.com/b", None, &[], "");
    assert_eq!(resp.status, 200);
}

#[test]
fn get_query_default_graph() {
    let store = new_store();
    let resp = call(&store, Method::Get, "http://localhost/query?query=SELECT%20*%20WHERE%20{%20?s%20?p%20?o%20}&default-graph-uri=http://example.com/a&default-graph-uri=http://example.com/b", None, &[], "");
    assert_eq!(resp.status, 200);
}

#[test]
fn get_bad_query() {
    let store = new_store();
    let resp = call(&store, Method::Get, "http://localhost/query?query=SELECT", None, &[], "");
    assert_eq!(resp.status, 400);
}

#[test]
fn get_without_query() {
    let store = new_store();
    let resp = call(&store, Method::Get, "http://localhost/query", None, &[], "");
    assert_eq!(resp.status, 400);
}

#[test]
fn post_query() {
    let store = new_store();
    let resp = call(&store, Method::Post, "http://localhost/query", Some("application/sparql-query"), &[], SELECT_ALL);
    assert_eq!(resp.status, 200);
}

#[test]
fn post_bad_query() {
    let store = new_store();
    let resp = call(&store, Method::Post, "http://localhost/query", Some("application/sparql-query"), &[], "SELECT");
    assert_eq!(resp.status, 400);
}

#[test]
fn post_unknown_query() {
    let store = new_store();
    let resp = call(&store, Method::Post, "http://localhost/query", Some("application/sparql-todo"), &[], "SELECT");
    assert_eq!(resp.status, 415);
}

#[test]
fn post_query_no_content_type() {
    let store = new_store();
    let resp = call(&store, Method::Post, "http://localhost/query", None, &[], "SELECT");
    assert_eq!(resp.status, 400);
}

#[test]
fn post_query_as_form() {
    let store = new_store();
    let resp = call(&store, Method::Post, "http://localhost/query", Some("application/x-www-form-urlencoded"), &[], "query=SELECT%20*%20WHERE%20{%20?s%20?p%20?o%20}");
    assert_eq!(resp.status, 200);
}

#[test]
fn form_query_with_unknown_key() {
    let store = new_store();
    let resp = call(&store, Method::Post, "http://localhost/query", Some("application/x-www-form-urlencoded"), &[], "query=ASK%7B%7D&colour=blue");
    assert_eq!(resp.status, 400);
    assert!(String::from_utf8(resp.body).unwrap().contains("colour"));
}

#[test]
fn empty_store_select_is_well_formed() {
    let store = new_store();
    let resp = call(&store, Method::Post, "http://localhost/query", Some("application/sparql-query"), &["application/sparql-results+json"], SELECT_ALL);
    assert_eq!(resp.status, 200);
    assert_eq!(resp.content_type.as_deref(), Some("application/sparql-results+json"));
    let text = String::from_utf8(resp.body).unwrap();
    assert!(text.contains("\"bindings\":[]"), "{}", text);
    let resp = call(&store, Method::Post, "http://localhost/query", Some("application/sparql-query"), &[], SELECT_ALL);
    assert_eq!(resp.content_type.as_deref(), Some("application/sparql-results+xml"));
    assert!(String::from_utf8(resp.body).unwrap().contains("<results>"));
}

#[test]
fn construct_answers_with_a_graph() {
    let store = new_store();
    call(&store, Method::Put, "http://localhost/store?default", Some("application/n-triples"), &[], "<http://a> <http://b> <http://c> .\n");
    let resp = call(&store, Method::Post, "http://localhost/query", Some("application/sparql-query"), &["text/turtle"], "CONSTRUCT WHERE { ?s ?p ?o }");
    assert_eq!(resp.status, 200);
    assert_eq!(resp.content_type.as_deref(), Some("text/turtle"));
    let resp = call(&store, Method::Post, "http://localhost/query", Some("application/sparql-query"), &["text/html"], "CONSTRUCT WHERE { ?s ?p ?o }");
    assert_eq!(resp.status, 406);
}

#[test]
fn non_ascii_escapes_are_refused() {
    let store = new_store();
    let resp = call(&store, Method::Post, "http://localhost/query", Some("application/sparql-query"), &[], "SELECT * WHERE { ?s ?p \"\\u\u{20ac}\u{e9}00\" }");
    assert_eq!(resp.status, 400);
    let resp = call(&store, Method::Post, "http://localhost/update", Some("application/sparql-update"), &[], "INSERT DATA { <http://a> <http://b> \"\\U\u{e9}0000000\" }");
    assert_eq!(resp.status, 400);
    let resp = call(&store, Method::Post, "http://localhost/query", Some("application/sparql-query"), &[], "ASK { ?s ?p \"\\u00e9\" }");
    assert_eq!(resp.status, 200);
}

#[test]
fn post_update() {
    let store = new_store();
    let resp = call(&store, Method::Post, "http://localhost/update", Some("application/sparql-update"), &[], "INSERT DATA { <http://example.com> <http://example.com> <http://example.com> }");
    assert_eq!(resp.status, 204);
}

#[test]
fn post_bad_update() {
    let store = new_store();
    let resp = call(&store, Method::Post, "http://localhost/update", Some("application/sparql-update"), &[], "INSERT");
    assert_eq!(resp.status, 400);
}

#[test]
fn update_with_using_and_parameters_conflicts() {
    let store = new_store();
    let update = "DELETE { ?s ?p ?o } USING <http://example.com/g> WHERE { ?s ?p ?o }";
    let resp = call(&store, Method::Post, "http://localhost/update?using-graph-uri=http://example.com/h", Some("application/sparql-update"), &[], update);
    assert_eq!(resp.status, 400);
    let resp = call(&store, Method::Post, "http://localhost/update", Some("application/sparql-update"), &[], update);
    assert_eq!(resp.status, 204);
    let plain = "DELETE { ?s ?p ?o } WHERE { ?s ?p ?o }";
    let resp = call(&store, Method::Post, "http://localhost/update?using-graph-uri=http://example.com/h", Some("application/sparql-update"), &[], plain);
    assert_eq!(resp.status, 204);
}

#[test]
fn delete_twice_is_404() {
    let store = new_store();
    let g = "http://localhost/store/a";
    assert_eq!(call(&store, Method::Delete, g, None, &[], "").status, 404);
    assert_eq!(call(&store, Method::Put, g, Some("text/turtle"), &[], "").status, 201);
    assert_eq!(call(&store, Method::Delete, g, None, &[], "").status, 204);
    assert_eq!(call(&store, Method::Delete, g, None, &[], "").status, 404);
}

#[test]
fn empty_default_graph_is_found() {
    let store = new_store();
    assert_eq!(call(&store, Method::Get, "http://localhost/store?default", None, &[], "").status, 200);
    assert_eq!(call(&store, Method::Head, "http://localhost/store?default", None, &[], "").status, 200);
}

#[test]
fn whole_store_dump() {
    let store = new_store();
    call(&store, Method::Put, "http://localhost/store/g", Some("text/turtle"), &[], "<http://a> <http://b> <http://c> .");
    let resp = call(&store, Method::Get, "http://localhost/store", None, &["application/n-quads"], "");
    assert_eq!(resp.status, 200);
    assert_eq!(resp.content_type.as_deref(), Some("application/n-quads"));
    assert!(String::from_utf8(resp.body).unwrap().contains("<http://localhost/store/g>"));
    assert_eq!(call(&store, Method::Delete, "http://localhost/store", None, &[], "").status, 204);
    assert_eq!(call(&store, Method::Head, "http://localhost/store/g", None, &[], "").status, 404);
}

const PERSON_1: &str = "
@prefix foaf: <http://xmlns.com/foaf/0.1/> .
@prefix v: <http://www.w3.org/2006/vcard/ns#> .

<http://$HOST$/$GRAPHSTORE$/person/1> a foaf:Person;
    foaf:businessCard [
        a v:VCard;
        v:fn \"John Doe\"
    ].
";

const PERSON_1_JANE: &str = "
@prefix foaf: <http://xmlns.com/foaf/0.1/> .
@prefix v: <http://www.w3.org/2006/vcard/ns#> .

<http://$HOST$/$GRAPHSTORE$/person/1> a foaf:Person;
    foaf:businessCard [
        a v:VCard;
        v:fn \"Jane Doe\"
    ].
";

const ALICE: &str = "
@prefix foaf: <http://xmlns.com/foaf/0.1/> .
@prefix v: <http://www.w3.org/2006/vcard/ns#> .

[]  a foaf:Person;
    foaf:businessCard [
        a v:VCard;
        v:given-name \"Alice\"
    ] .
";

#[test]
fn graph_store_protocol() {
    let store = new_store();
    let turtle = Some("text/turtle; charset=utf-8");
    let person_1 = "http://localhost/store/person/1.ttl";
    let person_2 = "http://localhost/store/person/2.ttl";

    assert_eq!(call(&store, Method::Put, person_1, turtle, &[], PERSON_1).status, 201);
    assert_eq!(call(&store, Method::Head, person_1, None, &[], "").status, 200);
    assert_eq!(call(&store, Method::Head, "http://localhost/store/person/4.ttl", None, &[], "").status, 404);
    assert_eq!(call(&store, Method::Put, person_1, turtle, &[], PERSON_1_JANE).status, 204);
    let resp = call(&store, Method::Get, person_1, None, &["text/turtle"], "");
    assert_eq!(resp.status, 200);
    assert!(String::from_utf8(resp.body).unwrap().contains("Jane Doe"));
    assert_eq!(call(&store, Method::Put, "http://localhost/store?default", turtle, &[], ALICE).status, 204);
    assert_eq!(call(&store, Method::Get, "http://localhost/store?default", None, &["text/turtle"], "").status, 200);
    assert_eq!(call(&store, Method::Put, person_1, turtle, &[], "@prefix fo").status, 400);
    assert_eq!(call(&store, Method::Put, person_2, turtle, &[], "").status, 201);
    assert_eq!(call(&store, Method::Get, person_2, None, &["text/turtle"], "").status, 200);
    assert_eq!(call(&store, Method::Put, person_2, turtle, &[], ALICE).status, 204);
    assert_eq!(call(&store, Method::Get, person_2, None, &["text/turtle"], "").status, 200);
    assert_eq!(call(&store, Method::Delete, person_2, None, &[], "").status, 204);
    assert_eq!(call(&store, Method::Get, person_2, None, &[], "").status, 404);
    assert_eq!(call(&store, Method::Delete, person_2, None, &[], "").status, 404);
    assert_eq!(call(&store, Method::Post, person_1, turtle, &[], "").status, 204);

    let resp = call(&store, Method::Post, "http://localhost/store", turtle, &[], ALICE);
    assert_eq!(resp.status, 201);
    let location = resp.location.unwrap();
    assert_eq!(call(&store, Method::Get, &location, None, &["text/turtle"], "").status, 200);
    assert_eq!(call(&store, Method::Post, &location, turtle, &[], "").status, 204);
    assert_eq!(call(&store, Method::Get, &location, None, &["text/turtle"], "").status, 200);
}
