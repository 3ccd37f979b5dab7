//! RDF terms and statements: the mathematical model of what a graph holds,
//! and the executable nodes that the builder hands to the graph.

use vstd::prelude::*;

verus! {

/// An RDF term: a URI, a literal with its optional data type and language
/// tag, or a blank node with its label.
pub enum Term {
    Uri(Seq<char>),
    Literal { text: Seq<char>, data_type: Option<Seq<char>>, language: Option<Seq<char>> },
    Blank(Seq<char>),
}

/// An RDF statement: subject, predicate, object.
pub struct Statement {
    pub subject: Term,
    pub predicate: Term,
    pub object: Term,
}

/// Prefix bindings: each prefix with the namespace URI that it abbreviates.
pub type Namespaces = Map<Seq<char>, Seq<char>>;

/// The URI term for `uri`.
pub open spec fn uri_term(uri: Seq<char>) -> Term {
    Term::Uri(uri)
}

/// The literal term for `text`, with neither data type nor language tag.
pub open spec fn plain_literal(text: Seq<char>) -> Term {
    Term::Literal { text, data_type: None, language: None }
}

/// The blank term labelled `id`.
pub open spec fn blank_term(id: Seq<char>) -> Term {
    Term::Blank(id)
}

/// The statement with the given subject, predicate and object.
pub open spec fn statement(subject: Term, predicate: Term, object: Term) -> Statement {
    Statement { subject, predicate, object }
}

/// Whether Turtle has a way to write the statement down: the subject is no
/// literal, the predicate is a URI, and a literal object does not carry both
/// a data type and a language tag.
pub open spec fn writable(s: Statement) -> bool {
    &&& !(s.subject is Literal)
    &&& s.predicate is Uri
    &&& (s.object matches Term::Literal { data_type, language, .. } ==> !(data_type is Some
        && language is Some))
}

/// Whether every statement of the sequence is writable.
pub open spec fn all_writable(statements: Seq<Statement>) -> bool {
    forall|i: int| 0 <= i < statements.len() ==> writable(#[trigger] statements[i])
}

/// Whether `part` occurs in `whole` as a run of consecutive characters.
pub open spec fn occurs_in(part: Seq<char>, whole: Seq<char>) -> bool {
    exists|start: int|
        0 <= start && start + part.len() <= whole.len() && #[trigger] whole.subrange(
            start,
            start + part.len(),
        ) == part
}

/// Whether Turtle abbreviates the URI: some namespace of the bindings begins
/// it.
pub open spec fn is_abbreviated(uri: Seq<char>, namespaces: Namespaces) -> bool {
    exists|prefix: Seq<char>|
        namespaces.dom().contains(prefix) && (#[trigger] namespaces[prefix]).is_prefix_of(uri)
}

/// The line of a Turtle text that declares a prefix.
pub open spec fn declaration(prefix: Seq<char>, uri: Seq<char>) -> Seq<char> {
    "@prefix "@ + prefix + ": <"@ + uri + "> .\n"@
}

/// What is left of a URI after the namespace that begins it.
pub open spec fn local_name(uri: Seq<char>, namespace: Seq<char>) -> Seq<char> {
    uri.skip(namespace.len() as int)
}

/// Whether the namespace abbreviates the URI plainly, so that the short form
/// is the prefix, a colon and the local name as it is: the namespace is not
/// empty and begins the URI, and the local name holds neither the namespace
/// again nor a slash.
pub open spec fn abbreviates_plainly(namespace: Seq<char>, uri: Seq<char>) -> bool {
    &&& namespace.len() > 0
    &&& namespace.is_prefix_of(uri)
    &&& !occurs_in(namespace, local_name(uri, namespace))
    &&& !local_name(uri, namespace).contains('/')
}

/// Whether the text shows the URI under the prefix: the namespace of the
/// prefix begins the URI, and where it abbreviates the URI plainly, the
/// short form occurs in the text.
pub open spec fn shows_short(
    text: Seq<char>,
    uri: Seq<char>,
    prefix: Seq<char>,
    namespaces: Namespaces,
) -> bool {
    &&& namespaces.dom().contains(prefix)
    &&& namespaces[prefix].is_prefix_of(uri)
    &&& abbreviates_plainly(namespaces[prefix], uri) ==> occurs_in(
        prefix + ":"@ + local_name(uri, namespaces[prefix]),
        text,
    )
}

/// Whether the text shows the URI: between angle brackets if it is not
/// abbreviated, and otherwise under one of the prefixes whose namespace
/// begins it.
pub open spec fn shows_uri(text: Seq<char>, uri: Seq<char>, namespaces: Namespaces) -> bool {
    if is_abbreviated(uri, namespaces) {
        exists|prefix: Seq<char>| #[trigger] shows_short(text, uri, prefix, namespaces)
    } else {
        occurs_in("<"@ + uri + ">"@, text)
    }
}

/// Whether the text shows the term: a literal by its text, a blank node by
/// its label after `_:`, and a URI in full or in short.
pub open spec fn shows(text: Seq<char>, term: Term, namespaces: Namespaces) -> bool {
    match term {
        Term::Uri(uri) => shows_uri(text, uri, namespaces),
        Term::Literal { text: literal, .. } => occurs_in(literal, text),
        Term::Blank(id) => occurs_in("_:"@ + id, text),
    }
}

/// Whether the text presents a graph: it declares each prefix binding, and
/// it shows the subject, the predicate and the object of each statement.
pub open spec fn presents(text: Seq<char>, statements: Seq<Statement>, namespaces: Namespaces) -> bool {
    &&& forall|prefix: Seq<char>| #[trigger]
        namespaces.dom().contains(prefix) ==> occurs_in(
            declaration(prefix, namespaces[prefix]),
            text,
        )
    &&& forall|i: int|
        0 <= i < statements.len() ==> {
            &&& shows(text, (#[trigger] statements[i]).subject, namespaces)
            &&& shows(text, statements[i].predicate, namespaces)
            &&& shows(text, statements[i].object, namespaces)
        }
}

/// The objects that the statements give for a subject and a predicate, in
/// the order of the statements.
pub open spec fn objects_of(statements: Seq<Statement>, subject: Term, predicate: Term) -> Seq<
    Term,
> {
    statements.filter(|s: Statement| s.subject == subject && s.predicate == predicate).map_values(
        |s: Statement| s.object,
    )
}

/// The objects of a sequence of statements followed by another are those of
/// the first followed by those of the second.
pub proof fn lemma_objects_of_concat(
    first: Seq<Statement>,
    second: Seq<Statement>,
    subject: Term,
    predicate: Term,
)
    ensures
        objects_of(first + second, subject, predicate) == objects_of(first, subject, predicate)
            + objects_of(second, subject, predicate),
{
    let asked = |s: Statement| s.subject == subject && s.predicate == predicate;
    Seq::filter_distributes_over_add(first, second, asked);
}

/// Blocks of statements give the same multiset of statements in whatever
/// order they come.
pub proof fn lemma_blocks_in_any_order(blocks: Seq<Seq<Statement>>, reordered: Seq<Seq<Statement>>)
    requires
        blocks.to_multiset() == reordered.to_multiset(),
    ensures
        blocks.flatten().to_multiset() == reordered.flatten().to_multiset(),
    decreases blocks.len(),
{
    broadcast use vstd::multiset::group_multiset_axioms;

    blocks.to_multiset_ensures();
    reordered.to_multiset_ensures();
    if blocks.len() == 0 {
        assert(blocks =~= reordered);
    } else {
        let last = blocks.last();
        let front = blocks.drop_last();
        assert(blocks[blocks.len() - 1] == last);
        assert(blocks.contains(last));
        assert(blocks.to_multiset().count(last) > 0);
        assert(reordered.to_multiset().count(last) > 0);
        assert(reordered.contains(last));
        let place = choose|place: int| 0 <= place < reordered.len() && reordered[place] == last;
        let head = reordered.take(place);
        let tail = reordered.skip(place + 1);
        let others = reordered.remove(place);
        assert(front =~= blocks.remove(blocks.len() - 1));
        vstd::seq_lib::to_multiset_remove(blocks, blocks.len() - 1);
        vstd::seq_lib::to_multiset_remove(reordered, place);
        lemma_blocks_in_any_order(front, others);
        assert(blocks =~= front.push(last));
        front.lemma_flatten_push(last);
        assert(reordered =~= head + seq![last] + tail);
        assert(others =~= head + tail);
        seq![last].lemma_flatten_one_element();
        vstd::seq_lib::lemma_flatten_concat(head, seq![last]);
        vstd::seq_lib::lemma_flatten_concat(head + seq![last], tail);
        vstd::seq_lib::lemma_flatten_concat(head, tail);
        vstd::seq_lib::lemma_multiset_commutative(front.flatten(), last);
        vstd::seq_lib::lemma_multiset_commutative(head.flatten() + last, tail.flatten());
        vstd::seq_lib::lemma_multiset_commutative(head.flatten(), last);
        vstd::seq_lib::lemma_multiset_commutative(head.flatten(), tail.flatten());
        assert(blocks.flatten().to_multiset() =~= reordered.flatten().to_multiset());
    }
}

/// The statements of a profile, taken as a multiset, do not depend on the
/// order of what was added to it: blocks of statements that follow what the
/// profile held before give the same multiset in whatever order they come.
pub proof fn lemma_order_is_immaterial(
    before: Seq<Statement>,
    blocks: Seq<Seq<Statement>>,
    reordered: Seq<Seq<Statement>>,
)
    requires
        blocks.to_multiset() == reordered.to_multiset(),
    ensures
        (before + blocks.flatten()).to_multiset() == (before + reordered.flatten()).to_multiset(),
{
    lemma_blocks_in_any_order(blocks, reordered);
    vstd::seq_lib::lemma_multiset_commutative(before, blocks.flatten());
    vstd::seq_lib::lemma_multiset_commutative(before, reordered.flatten());
}

/// A node as the builder makes it: a URI, a plain literal, or a blank node.
pub enum Node {
    Uri(String),
    Literal(String),
    Blank(String),
}

impl View for Node {
    type V = Term;

    open spec fn view(&self) -> Term {
        match self {
            Node::Uri(uri) => uri_term(uri@),
            Node::Literal(text) => plain_literal(text@),
            Node::Blank(id) => blank_term(id@),
        }
    }
}

impl Node {
    /// The URI node for `uri`.
    pub fn uri(uri: &str) -> (node: Node)
        ensures
            node@ == uri_term(uri@),
    {
        Node::Uri(String::from_str(uri))
    }

    /// The plain literal node for `text`.
    pub fn literal(text: &str) -> (node: Node)
        ensures
            node@ == plain_literal(text@),
    {
        Node::Literal(String::from_str(text))
    }

    /// The blank node labelled `id`.
    pub fn blank(id: &str) -> (node: Node)
        ensures
            node@ == blank_term(id@),
    {
        Node::Blank(String::from_str(id))
    }
}

} // verus!
