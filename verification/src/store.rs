//! The RDF graph that holds the profile. The graph, its triple store and its
//! Turtle writer belong to the `rdf` crate; this module states what the
//! builder relies on when it calls them.

use vstd::prelude::*;
use crate::terms::{Namespaces, Node, Statement, all_writable, presents, statement};
use rdf::graph::Graph;
use rdf::namespace::Namespace;
use rdf::triple::Triple;
use rdf::uri::Uri;
use rdf::writer::rdf_writer::RdfWriter;
use rdf::writer::turtle_writer::TurtleWriter;

verus! {

/// The graph of the `rdf` crate: a list of triples and a table of prefixes.
#[verifier::external_type_specification]
#[verifier::external_body]
pub struct ExGraph(rdf::graph::Graph);

/// The error of the `rdf` crate.
#[verifier::external_type_specification]
#[verifier::external_body]
pub struct ExWriterError(rdf::error::Error);

/// The statements that a graph holds, in the order in which they were added.
pub uninterp spec fn graph_statements(graph: Graph) -> Seq<Statement>;

/// The prefix bindings of a graph: each prefix with its namespace URI.
pub uninterp spec fn graph_namespaces(graph: Graph) -> Namespaces;

/// `Graph::new` without a base URI. Trusted: the new graph holds no statement
/// and no prefix binding.
#[verifier::external_body]
pub(crate) fn graph_new() -> (fresh: Graph)
    ensures
        graph_statements(fresh) == Seq::<Statement>::empty(),
        graph_namespaces(fresh) == Namespaces::empty(),
{
    Graph::new(None)
}

/// `Graph::add_namespace`, on the namespace that `Namespace::new` makes of
/// the prefix and the URI. Trusted: the prefix is bound to the URI, in place
/// of an earlier binding of the same prefix; the other bindings and the
/// statements stay.
#[verifier::external_body]
pub(crate) fn graph_add_namespace(graph: &mut Graph, prefix: &str, uri: &str)
    ensures
        graph_namespaces(*final(graph)) == graph_namespaces(*old(graph)).insert(prefix@, uri@),
        graph_statements(*final(graph)) == graph_statements(*old(graph)),
{
    graph.add_namespace(&Namespace::new(prefix.to_string(), Uri::new(uri.to_string())));
}

/// `Graph::add_triple`, on the triple that `Triple::new` makes of the three
/// nodes, each made by the graph's constructor for its kind. Trusted: the
/// statement is appended, whether or not the graph holds an equal one
/// already; the prefix bindings stay.
#[verifier::external_body]
pub(crate) fn graph_add_triple(graph: &mut Graph, subject: &Node, predicate: &Node, object: &Node)
    ensures
        graph_statements(*final(graph)) == graph_statements(*old(graph)).push(
            statement(subject@, predicate@, object@),
        ),
        graph_namespaces(*final(graph)) == graph_namespaces(*old(graph)),
{
    let convert = |node: &Node| match node {
        Node::Uri(uri) => graph.create_uri_node(&Uri::new(uri.clone())),
        Node::Literal(text) => graph.create_literal_node(text.clone()),
        Node::Blank(id) => graph.create_blank_node_with_id(id.clone()),
    };
    let triple = Triple::new(&convert(subject), &convert(predicate), &convert(object));
    graph.add_triple(&triple);
}

/// `TurtleWriter::write_to_string`, with a writer made for the graph's own
/// prefix bindings. Trusted: the writer fails exactly when some statement of
/// the graph is not writable, and a text that it gives presents the graph.
/// It writes one line for each prefix binding. Then it sorts the statements
/// and formats each subject, each predicate and each object, or an equal
/// node just before it; it refuses a literal as a subject or a predicate, a
/// blank node as a predicate, and a literal with both a data type and a
/// language tag. It writes a literal as it is, between quotes unless it
/// reads `true` or `false`, and escapes nothing; a blank node as `_:` and
/// its label; and a URI that begins with no namespace of the bindings
/// between angle brackets. A URI that some namespace begins it writes as
/// the prefix of one such namespace, a colon, and the URI with each
/// occurrence of the namespace taken out and each slash turned into a
/// colon: that is the local name as it is where the namespace abbreviates
/// the URI plainly. No more is said of the text: the prefixes come, and the
/// namespace for a URI is picked, in the order in which a hash map is
/// walked.
#[verifier::external_body]
pub(crate) fn graph_to_turtle(graph: &Graph) -> (text: Result<String, rdf::error::Error>)
    ensures
        text is Ok <==> all_writable(graph_statements(*graph)),
        text matches Ok(written) ==> presents(
            written@,
            graph_statements(*graph),
            graph_namespaces(*graph),
        ),
{
    TurtleWriter::new(graph.namespaces()).write_to_string(graph)
}

} // verus!
