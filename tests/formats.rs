use knowgraf::error::{AppError, IoFailure};
use knowgraf::format::{dataset_format_from_path, media_type_essence, DatasetFormat, GraphFormat, ResultsFormat};
use knowgraf::negotiate::{dataset_content_negotiation, graph_content_negotiation, results_content_negotiation};
use knowgraf::route::{route, Method, Route};

fn strings(values: &[&str]) -> Vec<String> {
    values.iter().map(|v| v.to_string()).collect()
}

#[test]
fn no_extension() {
    assert_eq!(dataset_format_from_path("test/test"), None);
}

#[test]
fn unknown_extension() {
    assert_eq!(dataset_format_from_path("test/test.foo"), None);
}

#[test]
fn trig() {
    assert_eq!(dataset_format_from_path("test/test.trig"), Some(DatasetFormat::TriG));
}

#[test]
fn nquads() {
    assert_eq!(dataset_format_from_path("test/test.nq"), Some(DatasetFormat::NQuads));
}

#[test]
fn hidden_file_has_no_extension() {
    assert_eq!(dataset_format_from_path("test/.trig"), None);
}

#[test]
fn graph_formats_from_media_types() {
    assert_eq!(GraphFormat::from_media_type("text/turtle"), Some(GraphFormat::Turtle));
    assert_eq!(GraphFormat::from_media_type("text/turtle; charset=utf-8"), Some(GraphFormat::Turtle));
    assert_eq!(GraphFormat::from_media_type("text/plain"), Some(GraphFormat::NTriples));
    assert_eq!(GraphFormat::from_media_type("application/xml"), Some(GraphFormat::RdfXml));
    assert_eq!(GraphFormat::from_media_type("application/trig"), None);
    assert_eq!(DatasetFormat::from_media_type("application/trig"), Some(DatasetFormat::TriG));
    assert_eq!(DatasetFormat::from_media_type("text/x-nquads"), Some(DatasetFormat::NQuads));
    assert_eq!(DatasetFormat::from_media_type("text/turtle"), None);
}

#[test]
fn canonical_media_types() {
    assert_eq!(GraphFormat::NTriples.media_type(), "application/n-triples");
    assert_eq!(GraphFormat::Turtle.media_type(), "text/turtle");
    assert_eq!(GraphFormat::RdfXml.media_type(), "application/rdf+xml");
    assert_eq!(DatasetFormat::NQuads.media_type(), "application/n-quads");
    assert_eq!(DatasetFormat::TriG.media_type(), "application/trig");
    assert_eq!(ResultsFormat::Json.media_type(), "application/sparql-results+json");
    assert_eq!(ResultsFormat::Csv.media_type(), "text/csv; charset=utf-8");
    assert_eq!(DatasetFormat::TriG.file_extension(), "trig");
}

#[test]
fn essence_drops_parameters() {
    assert_eq!(media_type_essence("Text/Turtle; charset=utf-8"), Some("text/turtle".to_string()));
    assert_eq!(media_type_essence("not a media type"), None);
}

#[test]
fn turtle_accepted_is_chosen() {
    assert_eq!(graph_content_negotiation(&strings(&["text/turtle"])), Ok(GraphFormat::Turtle));
}

#[test]
fn no_accept_gives_first_supported() {
    assert_eq!(graph_content_negotiation(&Vec::new()), Ok(GraphFormat::NTriples));
    assert_eq!(dataset_content_negotiation(&Vec::new()), Ok(DatasetFormat::NQuads));
    assert_eq!(results_content_negotiation(&Vec::new()), Ok(ResultsFormat::Xml));
}

#[test]
fn quality_orders_the_choice() {
    let accept = strings(&["application/rdf+xml;q=0.5, text/turtle;q=0.9"]);
    assert_eq!(graph_content_negotiation(&accept), Ok(GraphFormat::Turtle));
    let accept = strings(&["text/html", "application/rdf+xml"]);
    assert_eq!(graph_content_negotiation(&accept), Ok(GraphFormat::RdfXml));
    let accept = strings(&["application/sparql-results+json"]);
    assert_eq!(results_content_negotiation(&accept), Ok(ResultsFormat::Json));
}

#[test]
fn nothing_acceptable_is_406() {
    let r = graph_content_negotiation(&strings(&["image/png"]));
    assert_eq!(r, Err(AppError::NotAcceptable));
    assert_eq!(AppError::NotAcceptable.status_code(), 406);
}

#[test]
fn status_codes() {
    assert_eq!(AppError::Io.status_code(), 500);
    assert_eq!(AppError::BadInput.status_code(), 400);
    assert_eq!(AppError::QueryParse.status_code(), 400);
    assert_eq!(AppError::QueryEvaluation.status_code(), 400);
    assert_eq!(AppError::ConflictingParameters.status_code(), 400);
    assert_eq!(AppError::UnsupportedMediaType("text/foo".to_string()).status_code(), 415);
    assert_eq!(AppError::NotFound("http://example.com/g".to_string()).status_code(), 404);
    assert_eq!(AppError::MethodNotAllowed.status_code(), 405);
}

#[test]
fn messages_name_their_subject() {
    assert_eq!(
        AppError::UnexpectedParameter("foo".to_string()).message(),
        "bad request: Unexpected parameter: foo"
    );
    assert_eq!(
        AppError::NotFound("http://example.com/g".to_string()).message(),
        "The graph http://example.com/g does not exist"
    );
    assert_eq!(AppError::MissingContentType.message(), "bad request: No Content-Type given");
}

#[test]
fn io_failures() {
    assert_eq!(AppError::from_io(IoFailure::UnexpectedEnd), AppError::BadInput);
    assert_eq!(AppError::from_io(IoFailure::InvalidData), AppError::BadInput);
    assert_eq!(AppError::from_io(IoFailure::Other), AppError::Io);
}

#[test]
fn routes() {
    assert_eq!(route(Method::Get, "/"), Route::Index);
    assert_eq!(route(Method::Post, "/"), Route::MethodNotAllowed);
    assert_eq!(route(Method::Get, "/query"), Route::Query);
    assert_eq!(route(Method::Post, "/query"), Route::Query);
    assert_eq!(route(Method::Get, "/update"), Route::MethodNotAllowed);
    assert_eq!(route(Method::Post, "/update"), Route::Update);
    assert_eq!(route(Method::Delete, "/store"), Route::Store);
    assert_eq!(route(Method::Head, "/store/person/1.ttl"), Route::Store);
    assert_eq!(route(Method::Other, "/store"), Route::MethodNotAllowed);
    assert_eq!(route(Method::Get, "/elsewhere"), Route::NotFound);
}
