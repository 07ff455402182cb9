use vstd::prelude::*;

use crate::text::same_text;

verus! {

/// Serialisations of a single graph (triples only).
#[derive(Debug, Clone, Copy, PartialEq, Eq, Structural)]
pub enum GraphFormat {
    NTriples,
    Turtle,
    RdfXml,
}

/// Serialisations of a whole dataset (quads across named graphs).
#[derive(Debug, Clone, Copy, PartialEq, Eq, Structural)]
pub enum DatasetFormat {
    NQuads,
    TriG,
}

/// Serialisations of SPARQL solutions and booleans.
#[derive(Debug, Clone, Copy, PartialEq, Eq, Structural)]
pub enum ResultsFormat {
    Xml,
    Json,
    Csv,
    Tsv,
}

/// Whether `c` has the Unicode `White_Space` property (what `char::is_whitespace` tests).
pub open spec fn is_white_space(c: char) -> bool {
    let u = c as u32;
    (0x9 <= u && u <= 0xd) || u == 0x20 || u == 0x85 || u == 0xa0 || u == 0x1680 || (0x2000 <= u
        && u <= 0x200a) || u == 0x2028 || u == 0x2029 || u == 0x202f || u == 0x205f || u == 0x3000
}

/// `s` without its leading white space.
pub open spec fn trim_start(s: Seq<char>) -> Seq<char>
    decreases s.len(),
{
    if s.len() > 0 && is_white_space(s[0]) {
        trim_start(s.drop_first())
    } else {
        s
    }
}

/// `s` without its trailing white space.
pub open spec fn trim_end(s: Seq<char>) -> Seq<char>
    decreases s.len(),
{
    if s.len() > 0 && is_white_space(s.last()) {
        trim_end(s.drop_last())
    } else {
        s
    }
}

/// The part of a media type before its first `;`, where its parameters begin.
pub open spec fn before_parameters(m: Seq<char>) -> Seq<char>
    decreases m.len(),
{
    if m.len() == 0 {
        m
    } else if m[0] == ';' {
        Seq::empty()
    } else {
        seq![m[0]] + before_parameters(m.drop_first())
    }
}

/// The graph format that a bare media type names.
pub open spec fn graph_format_named(b: Seq<char>) -> Option<GraphFormat> {
    if b == "application/n-triples"@ || b == "text/plain"@ {
        Some(GraphFormat::NTriples)
    } else if b == "text/turtle"@ || b == "application/turtle"@ || b == "application/x-turtle"@ {
        Some(GraphFormat::Turtle)
    } else if b == "application/rdf+xml"@ || b == "application/xml"@ || b == "text/xml"@ {
        Some(GraphFormat::RdfXml)
    } else {
        None
    }
}

/// The dataset format that a bare media type names.
pub open spec fn dataset_format_named(b: Seq<char>) -> Option<DatasetFormat> {
    if b == "application/n-quads"@ || b == "text/x-nquads"@ || b == "text/nquads"@ {
        Some(DatasetFormat::NQuads)
    } else if b == "application/trig"@ || b == "application/x-trig"@ {
        Some(DatasetFormat::TriG)
    } else {
        None
    }
}

/// The graph format of a media type; its parameters and surrounding white space do not count.
pub open spec fn graph_format_for(m: Seq<char>) -> Option<GraphFormat> {
    graph_format_named(trim_end(trim_start(before_parameters(m))))
}

/// The dataset format of a media type; its parameters and surrounding white space do not count.
pub open spec fn dataset_format_for(m: Seq<char>) -> Option<DatasetFormat> {
    dataset_format_named(trim_end(trim_start(before_parameters(m))))
}

pub open spec fn graph_media_type_of(f: GraphFormat) -> Seq<char> {
    match f {
        GraphFormat::NTriples => "application/n-triples"@,
        GraphFormat::Turtle => "text/turtle"@,
        GraphFormat::RdfXml => "application/rdf+xml"@,
    }
}

pub open spec fn dataset_media_type_of(f: DatasetFormat) -> Seq<char> {
    match f {
        DatasetFormat::NQuads => "application/n-quads"@,
        DatasetFormat::TriG => "application/trig"@,
    }
}

pub open spec fn results_media_type_of(f: ResultsFormat) -> Seq<char> {
    match f {
        ResultsFormat::Xml => "application/sparql-results+xml"@,
        ResultsFormat::Json => "application/sparql-results+json"@,
        ResultsFormat::Csv => "text/csv; charset=utf-8"@,
        ResultsFormat::Tsv => "text/tab-separated-values; charset=utf-8"@,
    }
}

pub open spec fn dataset_extension_of(f: DatasetFormat) -> Seq<char> {
    match f {
        DatasetFormat::NQuads => "nq"@,
        DatasetFormat::TriG => "trig"@,
    }
}

/// Relies on oxigraph's `GraphFormat::from_media_type`, which matches the
/// trimmed text before the first `;` against its table of media types.
#[verifier::external_body]
fn graph_format_from_media_type(m: &str) -> (r: Option<GraphFormat>)
    ensures
        r == graph_format_for(m@),
{
    match oxigraph::io::GraphFormat::from_media_type(m) {
        Some(oxigraph::io::GraphFormat::NTriples) => Some(GraphFormat::NTriples),
        Some(oxigraph::io::GraphFormat::Turtle) => Some(GraphFormat::Turtle),
        Some(oxigraph::io::GraphFormat::RdfXml) => Some(GraphFormat::RdfXml),
        _ => None,
    }
}

/// Relies on oxigraph's `DatasetFormat::from_media_type`, which matches the
/// trimmed text before the first `;` against its table of media types.
#[verifier::external_body]
fn dataset_format_from_media_type(m: &str) -> (r: Option<DatasetFormat>)
    ensures
        r == dataset_format_for(m@),
{
    match oxigraph::io::DatasetFormat::from_media_type(m) {
        Some(oxigraph::io::DatasetFormat::NQuads) => Some(DatasetFormat::NQuads),
        Some(oxigraph::io::DatasetFormat::TriG) => Some(DatasetFormat::TriG),
        _ => None,
    }
}

/// Relies on oxigraph's `GraphFormat::media_type`: the canonical media type of each format.
#[verifier::external_body]
fn graph_media_type(f: GraphFormat) -> (r: &'static str)
    ensures
        r@ == graph_media_type_of(f),
{
    match f {
        GraphFormat::NTriples => oxigraph::io::GraphFormat::NTriples,
        GraphFormat::Turtle => oxigraph::io::GraphFormat::Turtle,
        GraphFormat::RdfXml => oxigraph::io::GraphFormat::RdfXml,
    }.media_type()
}

/// Relies on oxigraph's `DatasetFormat::media_type`: the canonical media type of each format.
#[verifier::external_body]
fn dataset_media_type(f: DatasetFormat) -> (r: &'static str)
    ensures
        r@ == dataset_media_type_of(f),
{
    match f {
        DatasetFormat::NQuads => oxigraph::io::DatasetFormat::NQuads,
        DatasetFormat::TriG => oxigraph::io::DatasetFormat::TriG,
    }.media_type()
}

/// Relies on oxigraph's `QueryResultsFormat::media_type`: the media type each format is written with.
#[verifier::external_body]
fn results_media_type(f: ResultsFormat) -> (r: &'static str)
    ensures
        r@ == results_media_type_of(f),
{
    match f {
        ResultsFormat::Xml => oxigraph::sparql::QueryResultsFormat::Xml,
        ResultsFormat::Json => oxigraph::sparql::QueryResultsFormat::Json,
        ResultsFormat::Csv => oxigraph::sparql::QueryResultsFormat::Csv,
        ResultsFormat::Tsv => oxigraph::sparql::QueryResultsFormat::Tsv,
    }.media_type()
}

/// Relies on oxigraph's `DatasetFormat::file_extension`: the usual file extension of each format.
#[verifier::external_body]
fn dataset_file_extension(f: DatasetFormat) -> (r: &'static str)
    ensures
        r@ == dataset_extension_of(f),
{
    match f {
        DatasetFormat::NQuads => oxigraph::io::DatasetFormat::NQuads,
        DatasetFormat::TriG => oxigraph::io::DatasetFormat::TriG,
    }.file_extension()
}

impl GraphFormat {
    /// The graph format that a media type names, if any.
    pub fn from_media_type(m: &str) -> (r: Option<GraphFormat>)
        ensures
            r == graph_format_for(m@),
    {
        graph_format_from_media_type(m)
    }

    /// The media type this format is served with.
    pub fn media_type(self) -> (r: &'static str)
        ensures
            r@ == graph_media_type_of(self),
    {
        graph_media_type(self)
    }
}

impl DatasetFormat {
    /// The dataset format that a media type names, if any.
    pub fn from_media_type(m: &str) -> (r: Option<DatasetFormat>)
        ensures
            r == dataset_format_for(m@),
    {
        dataset_format_from_media_type(m)
    }

    /// The media type this format is served with.
    pub fn media_type(self) -> (r: &'static str)
        ensures
            r@ == dataset_media_type_of(self),
    {
        dataset_media_type(self)
    }

    /// The file extension of this format.
    pub fn file_extension(self) -> (r: &'static str)
        ensures
            r@ == dataset_extension_of(self),
    {
        dataset_file_extension(self)
    }
}

impl ResultsFormat {
    /// The media type this format is served with.
    pub fn media_type(self) -> (r: &'static str)
        ensures
            r@ == results_media_type_of(self),
    {
        results_media_type(self)
    }
}

/// The extension of the file name at the end of a path.
pub uninterp spec fn extension_of(path: Seq<char>) -> Option<Seq<char>>;

/// Relies on std's `Path::extension`: the text after the final `.` of the path's
/// file name, if it has one that does not begin it.
#[verifier::external_body]
fn path_extension(path: &str) -> (r: Option<String>)
    ensures
        r.deep_view() == extension_of(path@),
{
    std::path::Path::new(path).extension().map(|e| e.to_string_lossy().into_owned())
}

/// The dataset format that a file's extension announces.
pub open spec fn dataset_format_for_path(path: Seq<char>) -> Option<DatasetFormat> {
    match extension_of(path) {
        None => None,
        Some(e) => if e == dataset_extension_of(DatasetFormat::TriG) {
            Some(DatasetFormat::TriG)
        } else if e == dataset_extension_of(DatasetFormat::NQuads) {
            Some(DatasetFormat::NQuads)
        } else {
            None
        },
    }
}

/// The dataset format of a file, by its extension: TriG or N-Quads, or none.
pub fn dataset_format_from_path(path: &str) -> (r: Option<DatasetFormat>)
    ensures
        r == dataset_format_for_path(path@),
{
    match path_extension(path) {
        None => None,
        Some(ext) => {
            if same_text(ext.as_str(), DatasetFormat::TriG.file_extension()) {
                Some(DatasetFormat::TriG)
            } else if same_text(ext.as_str(), DatasetFormat::NQuads.file_extension()) {
                Some(DatasetFormat::NQuads)
            } else {
                None
            }
        },
    }
}

/// The essence (`type/subtype`, lower case, without parameters) of a media type,
/// or none where the text is not a media type.
pub uninterp spec fn media_essence(m: Seq<char>) -> Option<Seq<char>>;

/// Relies on mime's `Mime::from_str`, which parses a media type, and on
/// `Mime::essence_str`, its type and subtype without parameters.
#[verifier::external_body]
fn essence_of(m: &str) -> (r: Option<String>)
    ensures
        r.deep_view() == media_essence(m@),
{
    m.parse::<mime::Mime>().ok().map(|t| t.essence_str().to_string())
}

/// The essence of a media type, if the text is one.
pub fn media_type_essence(m: &str) -> (r: Option<String>)
    ensures
        r.deep_view() == media_essence(m@),
{
    essence_of(m)
}

proof fn lemma_without_parameters(m: Seq<char>)
    requires
        forall|i: int| 0 <= i < m.len() ==> #[trigger] m[i] != ';',
    ensures
        before_parameters(m) == m,
    decreases m.len(),
{
    if m.len() > 0 {
        lemma_without_parameters(m.drop_first());
        assert(seq![m[0]] + m.drop_first() =~= m);
    }
}

proof fn lemma_plain_media_type(m: Seq<char>)
    requires
        forall|i: int| 0 <= i < m.len() ==> m[i] != ';' && !is_white_space(#[trigger] m[i]),
    ensures
        trim_end(trim_start(before_parameters(m))) == m,
{
    lemma_without_parameters(m);
    if m.len() > 0 {
        assert(!is_white_space(m[0]));
        assert(!is_white_space(m.last()));
    }
}

/// Each graph format is recognised by the media type it is served with.
pub proof fn lemma_graph_media_type_round_trip(f: GraphFormat)
    ensures
        graph_format_for(graph_media_type_of(f)) == Some(f),
{
    reveal_strlit("application/n-triples");
    reveal_strlit("text/plain");
    reveal_strlit("text/turtle");
    reveal_strlit("application/turtle");
    reveal_strlit("application/x-turtle");
    reveal_strlit("application/rdf+xml");
    reveal_strlit("application/xml");
    reveal_strlit("text/xml");
    lemma_plain_media_type(graph_media_type_of(f));
}

/// Each dataset format is recognised by the media type it is served with.
pub proof fn lemma_dataset_media_type_round_trip(f: DatasetFormat)
    ensures
        dataset_format_for(dataset_media_type_of(f)) == Some(f),
{
    reveal_strlit("application/n-quads");
    reveal_strlit("text/x-nquads");
    reveal_strlit("text/nquads");
    reveal_strlit("application/trig");
    reveal_strlit("application/x-trig");
    lemma_plain_media_type(dataset_media_type_of(f));
}

} // verus!
