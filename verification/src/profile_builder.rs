//! The profile builder: a graph that starts as an empty profile card and to
//! which each operation appends the statements for one piece of data.

use vstd::prelude::*;
use crate::number_text::{decimal, i32_to_decimal, signed_decimal, u32_to_decimal};
use crate::store::{
    graph_add_namespace, graph_add_triple, graph_namespaces, graph_new, graph_statements,
    graph_to_turtle,
};
use crate::terms::{
    Namespaces, Node, Statement, Term, all_writable, blank_term, is_abbreviated,
    lemma_objects_of_concat, local_name, objects_of, occurs_in, plain_literal, presents, shows,
    shows_short, statement, uri_term, writable,
};
use crate::vocabulary::{
    DATE_SEPARATOR, DEFAULT_HOLDER, DEFAULT_NAMESPACE, DEFAULT_PREFIX, DOCUMENT, FOAF_ACCOUNT,
    FOAF_BIRTHDAY, FOAF_FAMILY_NAME, FOAF_FIRST_NAME, FOAF_GENDER, FOAF_GIVEN_NAME, FOAF_KNOWS,
    FOAF_LAST_NAME, FOAF_MAKER, FOAF_MBOX, FOAF_NAME, FOAF_NAMESPACE, FOAF_PERSON,
    FOAF_PERSONAL_PROFILE_DOCUMENT, FOAF_PHONE, FOAF_PREFIX, FOAF_PRIMARY_TOPIC, FRAGMENT,
    MAILTO_SCHEME, ME, PROFILE_NAMESPACE, PROFILE_PREFIX, RDF_TYPE, RESOURCE_NAMESPACE,
    RESOURCE_PREFIX,
    SCHEMA_ADDRESS, SCHEMA_ALUMNI_OF, SCHEMA_BIRTH_DATE, SCHEMA_BIRTH_PLACE,
    SCHEMA_EDUCATIONAL_ORGANIZATION, SCHEMA_EMAIL, SCHEMA_FAMILY_NAME, SCHEMA_GENDER,
    SCHEMA_GIVEN_NAME, SCHEMA_HOME_LOCATION, SCHEMA_NAME, SCHEMA_NAMESPACE, SCHEMA_PERSON,
    SCHEMA_PLACE, SCHEMA_PREFIX, SCHEMA_TELEPHONE, TEL_SCHEME, VCARD_NAMESPACE, VCARD_PREFIX,
};

verus! {

/// Whether `c` separates words in a name: a space, a full stop or a hyphen.
pub open spec fn is_separator(c: char) -> bool {
    c == ' ' || c == '.' || c == '-'
}

/// The cleaned form of a text: its commas are dropped, and each space, full
/// stop and hyphen becomes an underscore.
pub open spec fn clean(src: Seq<char>) -> Seq<char> {
    src.filter(|c: char| c != ',').map_values(
        |c: char|
            if is_separator(c) {
                '_'
            } else {
                c
            },
    )
}

/// What one character contributes to the cleaned form.
pub open spec fn clean_char(c: char) -> Seq<char> {
    if c == ',' {
        Seq::<char>::empty()
    } else if is_separator(c) {
        seq!['_']
    } else {
        seq![c]
    }
}

/// Cleaning goes character by character: the cleaned form of a text with one
/// more character is the cleaned text followed by what that character gives.
pub proof fn lemma_clean_push(src: Seq<char>, c: char)
    ensures
        clean(src.push(c)) == clean(src) + clean_char(c),
{
    assert(src.push(c).drop_last() =~= src);
    reveal(Seq::filter);
}

/// Whether `c` is a character that cleaning leaves as it is.
pub open spec fn is_clean_char(c: char) -> bool {
    c != ',' && !is_separator(c)
}

/// The cleaned form of a text holds no comma, space, full stop or hyphen.
pub proof fn lemma_clean_holds_clean_chars(src: Seq<char>)
    ensures
        forall|i: int| 0 <= i < clean(src).len() ==> is_clean_char(#[trigger] clean(src)[i]),
{
    let keep = |c: char| c != ',';
    assert forall|i: int| 0 <= i < clean(src).len() implies is_clean_char(
        #[trigger] clean(src)[i],
    ) by {
        src.lemma_filter_pred(keep, i);
    }
}

/// The cleaned form of a text is no longer than the text.
pub proof fn lemma_clean_is_no_longer(src: Seq<char>)
    ensures
        clean(src).len() <= src.len(),
{
    src.lemma_filter_len(|c: char| c != ',');
}

/// Cleaning leaves a text of clean characters as it is.
pub proof fn lemma_clean_keeps_clean_text(text: Seq<char>)
    requires
        forall|i: int| 0 <= i < text.len() ==> is_clean_char(#[trigger] text[i]),
    ensures
        clean(text) == text,
    decreases text.len(),
{
    if text.len() == 0 {
        reveal(Seq::filter);
    } else {
        let front = text.drop_last();
        lemma_clean_keeps_clean_text(front);
        lemma_clean_push(front, text.last());
        assert(front.push(text.last()) =~= text);
    }
}

/// Cleaning a cleaned text changes nothing.
pub proof fn lemma_clean_is_idempotent(src: Seq<char>)
    ensures
        clean(clean(src)) == clean(src),
{
    lemma_clean_holds_clean_chars(src);
    lemma_clean_keeps_clean_text(clean(src));
}

/// Cleaning does not keep texts apart: two texts that differ in one
/// separator have the same cleaned form.
pub proof fn lemma_clean_confuses_separators(text: Seq<char>, one: char, other: char)
    requires
        is_separator(one),
        is_separator(other),
    ensures
        clean(text.push(one)) == clean(text.push(other)),
        one != other ==> text.push(one) != text.push(other),
{
    lemma_clean_push(text, one);
    lemma_clean_push(text, other);
    if one != other {
        assert(text.push(one)[text.len() as int] != text.push(other)[text.len() as int]);
    }
}

/// The cleaned form of `src`, for use as the label of a node.
pub fn clean_string(src: &str) -> (cleaned: String)
    ensures
        cleaned@ == clean(src@),
{
    let length = src.unicode_len();
    let mut cleaned = String::new();
    let mut i: usize = 0;
    proof {
        reveal(Seq::filter);
    }
    while i < length
        invariant
            i <= length,
            length == src@.len(),
            cleaned@ == clean(src@.take(i as int)),
        decreases length - i,
    {
        let c = src.get_char(i);
        proof {
            assert(src@.take(i + 1) =~= src@.take(i as int).push(c));
            lemma_clean_push(src@.take(i as int), c);
        }
        if c == ',' {
        } else if c == ' ' || c == '.' || c == '-' {
            proof {
                reveal_strlit("_");
            }
            cleaned.append("_");
        } else {
            cleaned.append(src.substring_char(i, i + 1));
        }
        i = i + 1;
    }
    proof {
        assert(src@.take(length as int) =~= src@);
    }
    cleaned
}

/// The term for the person whom the profile describes.
pub open spec fn me() -> Term {
    uri_term(ME@)
}

/// The term for the document that holds the profile.
pub open spec fn document() -> Term {
    uri_term(DOCUMENT@)
}

/// The statement that gives `subject` the class `class`.
pub open spec fn is_a(subject: Term, class: Seq<char>) -> Statement {
    statement(subject, uri_term(RDF_TYPE@), uri_term(class))
}

/// The statement about the person whom the profile describes, with the given
/// property and value.
pub open spec fn about_me(property: Seq<char>, value: Term) -> Statement {
    statement(me(), uri_term(property), value)
}

/// The statements of an empty profile card: the document is a personal
/// profile document, made by and about the person, who is a person to both
/// vocabularies.
pub open spec fn boilerplate() -> Seq<Statement> {
    seq![
        is_a(document(), FOAF_PERSONAL_PROFILE_DOCUMENT@),
        statement(document(), uri_term(FOAF_MAKER@), me()),
        statement(document(), uri_term(FOAF_PRIMARY_TOPIC@), me()),
        is_a(me(), SCHEMA_PERSON@),
        is_a(me(), FOAF_PERSON@),
    ]
}

/// The six prefix bindings of a profile card.
pub open spec fn standard_namespaces() -> Namespaces {
    Namespaces::empty().insert(DEFAULT_PREFIX@, DEFAULT_NAMESPACE@).insert(
        PROFILE_PREFIX@,
        PROFILE_NAMESPACE@,
    ).insert(SCHEMA_PREFIX@, SCHEMA_NAMESPACE@).insert(FOAF_PREFIX@, FOAF_NAMESPACE@).insert(
        VCARD_PREFIX@,
        VCARD_NAMESPACE@,
    ).insert(RESOURCE_PREFIX@, RESOURCE_NAMESPACE@)
}

/// The six prefixes differ, so that a profile card has six bindings.
pub proof fn lemma_standard_namespaces_are_six()
    ensures
        standard_namespaces().dom().finite(),
        standard_namespaces().dom().len() == 6,
{
    reveal_strlit("");
    reveal_strlit("profile");
    reveal_strlit("schema");
    reveal_strlit("foaf");
    reveal_strlit("vcard");
    reveal_strlit("resource");
    assert(PROFILE_PREFIX@.len() == 7);
    assert(SCHEMA_PREFIX@.len() == 6);
    assert(FOAF_PREFIX@.len() == 4);
    assert(VCARD_PREFIX@.len() == 5);
    assert(RESOURCE_PREFIX@.len() == 8);
}

/// Under the six prefixes of a profile card, a URI that is a namespace of
/// the card and a plain local name has one short form, and a text that shows
/// the URI holds it: the prefix, a colon and the local name.
pub proof fn lemma_standard_short_form(text: Seq<char>, prefix: Seq<char>, local: Seq<char>)
    requires
        standard_namespaces().dom().contains(prefix),
        shows(text, uri_term(standard_namespaces()[prefix] + local), standard_namespaces()),
        !occurs_in(standard_namespaces()[prefix], local),
        !local.contains('/'),
    ensures
        occurs_in(prefix + ":"@ + local, text),
{
    reveal_strlit("");
    reveal_strlit("profile");
    reveal_strlit("schema");
    reveal_strlit("foaf");
    reveal_strlit("vcard");
    reveal_strlit("resource");
    reveal_strlit("#");
    reveal_strlit("./");
    reveal_strlit("http://schema.org/");
    reveal_strlit("http://xmlns.com/foaf/0.1/");
    reveal_strlit("http://www.w3.org/2006/vcard/ns");
    reveal_strlit("http://dbpedia.org/resource/");
    let bindings = standard_namespaces();
    let namespace = bindings[prefix];
    let uri = namespace + local;
    assert(namespace.is_prefix_of(uri)) by {
        assert(uri.subrange(0, namespace.len() as int) =~= namespace);
    }
    assert(local_name(uri, namespace) =~= local);
    assert(is_abbreviated(uri, bindings));
    let shown = choose|shown: Seq<char>| shows_short(text, uri, shown, bindings);
    assert(shown == prefix) by {
        let other = bindings[shown];
        assert(other.is_prefix_of(uri));
        assert(other =~= uri.subrange(0, other.len() as int));
        assert(other.len() > 0);
        assert(other[0] == uri[0]);
        assert(namespace[0] == uri[0]);
        if other.len() > 7 && namespace.len() > 7 {
            assert(other[7] == uri[7]);
            assert(namespace[7] == uri[7]);
        }
    }
}

/// Under the six prefixes of a profile card, a text that shows the person
/// whom the profile describes holds `:me`.
pub proof fn lemma_person_is_shown_short(text: Seq<char>)
    requires
        shows(text, me(), standard_namespaces()),
    ensures
        occurs_in(":me"@, text),
{
    reveal_strlit("");
    reveal_strlit("profile");
    reveal_strlit("schema");
    reveal_strlit("foaf");
    reveal_strlit("vcard");
    reveal_strlit("resource");
    reveal_strlit("#");
    reveal_strlit("me");
    reveal_strlit("#me");
    reveal_strlit(":");
    reveal_strlit(":me");
    let local = DEFAULT_HOLDER@;
    assert(PROFILE_PREFIX@.len() == 7);
    assert(SCHEMA_PREFIX@.len() == 6);
    assert(FOAF_PREFIX@.len() == 4);
    assert(VCARD_PREFIX@.len() == 5);
    assert(RESOURCE_PREFIX@.len() == 8);
    assert(standard_namespaces()[DEFAULT_PREFIX@] == DEFAULT_NAMESPACE@);
    assert(DEFAULT_NAMESPACE@ + local =~= ME@);
    assert(!occurs_in(DEFAULT_NAMESPACE@, local)) by {
        assert forall|start: int| 0 <= start && start + 1 <= local.len() implies #[trigger] local.subrange(
            start,
            start + 1,
        ) != DEFAULT_NAMESPACE@ by {
            assert(local.subrange(start, start + 1)[0] == local[start]);
        }
    }
    lemma_standard_short_form(text, DEFAULT_PREFIX@, local);
    assert(DEFAULT_PREFIX@ + ":"@ + local =~= ":me"@);
}

/// What setting the full name states.
pub open spec fn name_statements(name: Seq<char>) -> Seq<Statement> {
    seq![about_me(FOAF_NAME@, plain_literal(name)), about_me(SCHEMA_NAME@, plain_literal(name))]
}

/// What setting the last name states.
pub open spec fn last_name_statements(last_name: Seq<char>) -> Seq<Statement> {
    seq![
        about_me(FOAF_LAST_NAME@, plain_literal(last_name)),
        about_me(FOAF_FAMILY_NAME@, plain_literal(last_name)),
        about_me(SCHEMA_FAMILY_NAME@, plain_literal(last_name)),
    ]
}

/// What setting the first name states.
pub open spec fn first_name_statements(first_name: Seq<char>) -> Seq<Statement> {
    seq![
        about_me(FOAF_FIRST_NAME@, plain_literal(first_name)),
        about_me(FOAF_GIVEN_NAME@, plain_literal(first_name)),
        about_me(SCHEMA_GIVEN_NAME@, plain_literal(first_name)),
    ]
}

/// What setting the gender states.
pub open spec fn gender_statements(gender: Seq<char>) -> Seq<Statement> {
    seq![
        about_me(FOAF_GENDER@, plain_literal(gender)),
        about_me(SCHEMA_GENDER@, plain_literal(gender)),
    ]
}

/// The day of the year of a birthday: month, hyphen, day, unpadded.
pub open spec fn birthday_text(month: nat, day: nat) -> Seq<char> {
    decimal(month) + DATE_SEPARATOR@ + decimal(day)
}

/// The date of birth: year, month and day, unpadded, with hyphens between.
pub open spec fn birth_date_text(month: nat, day: nat, year: int) -> Seq<char> {
    signed_decimal(year) + DATE_SEPARATOR@ + decimal(month) + DATE_SEPARATOR@ + decimal(day)
}

/// What setting the birthday states.
pub open spec fn birthday_statements(month: nat, day: nat, year: int) -> Seq<Statement> {
    seq![
        about_me(FOAF_BIRTHDAY@, plain_literal(birthday_text(month, day))),
        about_me(SCHEMA_BIRTH_DATE@, plain_literal(birth_date_text(month, day, year))),
    ]
}

/// What adding a phone number states.
pub open spec fn phone_statements(number: Seq<char>) -> Seq<Statement> {
    seq![
        about_me(FOAF_PHONE@, uri_term(TEL_SCHEME@ + number)),
        about_me(SCHEMA_TELEPHONE@, uri_term(TEL_SCHEME@ + number)),
    ]
}

/// What adding an email address states.
pub open spec fn email_statements(email: Seq<char>) -> Seq<Statement> {
    seq![
        about_me(FOAF_MBOX@, uri_term(MAILTO_SCHEME@ + email)),
        about_me(SCHEMA_EMAIL@, uri_term(MAILTO_SCHEME@ + email)),
    ]
}

/// What naming a place states: a blank node labelled with the cleaned name
/// is a place with that address, and the person has it under `property`.
pub open spec fn place_statements(place: Seq<char>, property: Seq<char>) -> Seq<Statement> {
    seq![
        is_a(blank_term(clean(place)), SCHEMA_PLACE@),
        statement(blank_term(clean(place)), uri_term(SCHEMA_ADDRESS@), plain_literal(place)),
        about_me(property, blank_term(clean(place))),
    ]
}

/// What adding the place of birth states.
pub open spec fn birth_place_statements(place: Seq<char>) -> Seq<Statement> {
    place_statements(place, SCHEMA_BIRTH_PLACE@)
}

/// What adding the home location states.
pub open spec fn home_location_statements(place: Seq<char>) -> Seq<Statement> {
    place_statements(place, SCHEMA_HOME_LOCATION@)
}

/// What adding a school that the person graduated from states.
pub open spec fn alumni_statements(school: Seq<char>) -> Seq<Statement> {
    seq![
        is_a(blank_term(clean(school)), SCHEMA_EDUCATIONAL_ORGANIZATION@),
        statement(blank_term(clean(school)), uri_term(SCHEMA_NAME@), plain_literal(school)),
        about_me(SCHEMA_ALUMNI_OF@, blank_term(clean(school))),
    ]
}

/// The anchor of an account holder: the fragment of the given identifier, or
/// of the person whom the profile describes where none is given.
pub open spec fn holder_anchor(holder: Option<Seq<char>>) -> Seq<char> {
    match holder {
        Some(id) => FRAGMENT@ + id,
        None => FRAGMENT@ + DEFAULT_HOLDER@,
    }
}

/// What adding an account states.
pub open spec fn account_statements(username: Seq<char>, holder: Option<Seq<char>>) -> Seq<
    Statement,
> {
    seq![
        statement(
            uri_term(holder_anchor(holder)),
            uri_term(FOAF_ACCOUNT@),
            plain_literal(username),
        ),
    ]
}

/// The term for a friend: the anchor of the cleaned name.
pub open spec fn friend_term(name: Seq<char>) -> Term {
    uri_term(FRAGMENT@ + clean(name))
}

/// What adding a friend states: the friend is a person with that name, holds
/// the account at `target`, and is known to the person of the profile.
pub open spec fn friend_statements(name: Seq<char>, target: Seq<char>) -> Seq<Statement> {
    seq![
        is_a(friend_term(name), FOAF_PERSON@),
        statement(friend_term(name), uri_term(FOAF_NAME@), plain_literal(name)),
        statement(friend_term(name), uri_term(FOAF_ACCOUNT@), plain_literal(target)),
        about_me(FOAF_KNOWS@, friend_term(name)),
    ]
}

/// A sequence of writable statements stays so when writable ones follow.
pub proof fn lemma_writable_extends(before: Seq<Statement>, added: Seq<Statement>)
    requires
        all_writable(before),
        all_writable(added),
    ensures
        all_writable(before + added),
{
    assert forall|i: int| 0 <= i < (before + added).len() implies writable(
        #[trigger] (before + added)[i],
    ) by {}
}

/// A profile that extends another holds all that the other holds, in the
/// same places, and then what was added.
pub proof fn lemma_extension_keeps_statements(
    before: Profile,
    after: Profile,
    added: Seq<Statement>,
)
    requires
        after.extends(&before, added),
    ensures
        after.statements().len() == before.statements().len() + added.len(),
        before.statements().is_prefix_of(after.statements()),
        forall|i: int|
            0 <= i < added.len() ==> after.statements()[before.statements().len() + i]
                == #[trigger] added[i],
{
}

/// An account without a holder is an account of the person whom the profile
/// describes.
pub proof fn lemma_default_holder_is_me()
    ensures
        holder_anchor(None) == ME@,
{
    reveal_strlit("#");
    reveal_strlit("me");
    reveal_strlit("#me");
}

/// What adding a friend states holds what adding the friend's account states,
/// with the cleaned name as the holder.
pub proof fn lemma_friend_holds_account(name: Seq<char>, target: Seq<char>)
    ensures
        friend_statements(name, target).subrange(2, 3) == account_statements(
            target,
            Some(clean(name)),
        ),
{
}

/// The genders that the statements give for the person.
pub open spec fn genders(statements: Seq<Statement>) -> Seq<Term> {
    objects_of(statements, me(), uri_term(FOAF_GENDER@))
}

/// Setting the gender adds one gender to those already stated.
pub proof fn lemma_gender_is_added(before: Seq<Statement>, gender: Seq<char>)
    ensures
        genders(before + gender_statements(gender)) == genders(before).push(
            plain_literal(gender),
        ),
{
    let asked = |s: Statement| s.subject == me() && s.predicate == uri_term(FOAF_GENDER@);
    let foaf = about_me(FOAF_GENDER@, plain_literal(gender));
    let schema = about_me(SCHEMA_GENDER@, plain_literal(gender));
    let none = Seq::<Statement>::empty();
    reveal_strlit("http://xmlns.com/foaf/0.1/gender");
    reveal_strlit("http://schema.org/gender");
    assert(FOAF_GENDER@.len() != SCHEMA_GENDER@.len());
    assert(none.filter(asked) =~= none) by {
        reveal(Seq::filter);
    }
    none.lemma_filter_push(foaf, asked);
    none.push(foaf).lemma_filter_push(schema, asked);
    assert(gender_statements(gender) =~= none.push(foaf).push(schema));
    lemma_objects_of_concat(before, gender_statements(gender), me(), uri_term(FOAF_GENDER@));
}

/// Setting the gender a second time replaces nothing: the profile then gives
/// both genders, the first before the second, after those it gave before.
pub proof fn lemma_gender_set_twice(
    start: Profile,
    between: Profile,
    end: Profile,
    first: Seq<char>,
    second: Seq<char>,
)
    requires
        between.extends(&start, gender_statements(first)),
        end.extends(&between, gender_statements(second)),
    ensures
        end.statements() == start.statements() + gender_statements(first) + gender_statements(
            second,
        ),
        genders(end.statements()) == genders(start.statements()).push(plain_literal(first)).push(
            plain_literal(second),
        ),
{
    lemma_gender_is_added(start.statements(), first);
    lemma_gender_is_added(between.statements(), second);
}

/// The identifier of an account holder as contracts see it.
pub open spec fn holder_view(holder: Option<&str>) -> Option<Seq<char>> {
    match holder {
        Some(id) => Some(id@),
        None => None,
    }
}

/// Why a profile could not be rendered.
#[derive(Debug)]
pub enum RenderError {
    /// Some statement of the graph has a literal as its subject, something
    /// other than a URI as its predicate, or a literal with both a data type
    /// and a language tag as its object. The cause is the error of the
    /// writer, which holds its message.
    InvalidGraph { cause: rdf::error::Error },
}

/// A profile card under construction.
pub struct Profile {
    pub graph: rdf::graph::Graph,
}

impl Profile {
    /// The statements of the profile, in the order in which they were made.
    pub open spec fn statements(&self) -> Seq<Statement> {
        graph_statements(self.graph)
    }

    /// The prefix bindings of the profile.
    pub open spec fn namespaces(&self) -> Namespaces {
        graph_namespaces(self.graph)
    }

    /// Whether the profile can be rendered: each of its statements is
    /// writable.
    pub open spec fn renderable(&self) -> bool {
        all_writable(self.statements())
    }

    /// Whether this profile is `before` with `added` appended to its
    /// statements, and the same prefix bindings.
    pub open spec fn extends(&self, before: &Profile, added: Seq<Statement>) -> bool {
        &&& self.statements() == before.statements() + added
        &&& self.namespaces() == before.namespaces()
    }

    /// Appends one statement with a URI as its predicate.
    fn state(&mut self, subject: &Node, property: &str, object: &Node)
        ensures
            final(self).statements() == old(self).statements().push(
                statement(subject@, uri_term(property@), object@),
            ),
            final(self).namespaces() == old(self).namespaces(),
    {
        let predicate = Node::uri(property);
        graph_add_triple(&mut self.graph, subject, &predicate, object);
    }

    /// An empty profile card: the six prefix bindings and the five
    /// statements that say what the document is.
    pub fn new() -> (profile: Profile)
        ensures
            profile.statements() == boilerplate(),
            profile.namespaces() == standard_namespaces(),
            profile.renderable(),
    {
        let mut profile = Profile { graph: graph_new() };
        graph_add_namespace(&mut profile.graph, DEFAULT_PREFIX, DEFAULT_NAMESPACE);
        graph_add_namespace(&mut profile.graph, PROFILE_PREFIX, PROFILE_NAMESPACE);
        graph_add_namespace(&mut profile.graph, SCHEMA_PREFIX, SCHEMA_NAMESPACE);
        graph_add_namespace(&mut profile.graph, FOAF_PREFIX, FOAF_NAMESPACE);
        graph_add_namespace(&mut profile.graph, VCARD_PREFIX, VCARD_NAMESPACE);
        graph_add_namespace(&mut profile.graph, RESOURCE_PREFIX, RESOURCE_NAMESPACE);
        let card = Node::uri(DOCUMENT);
        let me = Node::uri(ME);
        profile.state(&card, RDF_TYPE, &Node::uri(FOAF_PERSONAL_PROFILE_DOCUMENT));
        profile.state(&card, FOAF_MAKER, &me);
        profile.state(&card, FOAF_PRIMARY_TOPIC, &me);
        profile.state(&me, RDF_TYPE, &Node::uri(SCHEMA_PERSON));
        profile.state(&me, RDF_TYPE, &Node::uri(FOAF_PERSON));
        profile
    }

    /// States the full name of the person. A second call adds to what the
    /// first stated and replaces nothing.
    pub fn set_name(&mut self, name: &str)
        ensures
            final(self).extends(old(self), name_statements(name@)),
            old(self).renderable() ==> final(self).renderable(),
    {
        let me = Node::uri(ME);
        let value = Node::literal(name);
        self.state(&me, FOAF_NAME, &value);
        self.state(&me, SCHEMA_NAME, &value);
        proof {
            assert(self.statements() =~= old(self).statements() + name_statements(name@));
            if old(self).renderable() {
                lemma_writable_extends(old(self).statements(), name_statements(name@));
            }
        }
    }

    /// States the last name of the person. A second call adds to what the
    /// first stated and replaces nothing.
    pub fn set_last_name(&mut self, lastname: &str)
        ensures
            final(self).extends(old(self), last_name_statements(lastname@)),
            old(self).renderable() ==> final(self).renderable(),
    {
        let me = Node::uri(ME);
        let value = Node::literal(lastname);
        self.state(&me, FOAF_LAST_NAME, &value);
        self.state(&me, FOAF_FAMILY_NAME, &value);
        self.state(&me, SCHEMA_FAMILY_NAME, &value);
        proof {
            assert(self.statements() =~= old(self).statements() + last_name_statements(
                lastname@,
            ));
            if old(self).renderable() {
                lemma_writable_extends(old(self).statements(), last_name_statements(lastname@));
            }
        }
    }

    /// States the first name of the person. A second call adds to what the
    /// first stated and replaces nothing.
    pub fn set_first_name(&mut self, firstname: &str)
        ensures
            final(self).extends(old(self), first_name_statements(firstname@)),
            old(self).renderable() ==> final(self).renderable(),
    {
        let me = Node::uri(ME);
        let value = Node::literal(firstname);
        self.state(&me, FOAF_FIRST_NAME, &value);
        self.state(&me, FOAF_GIVEN_NAME, &value);
        self.state(&me, SCHEMA_GIVEN_NAME, &value);
        proof {
            assert(self.statements() =~= old(self).statements() + first_name_statements(
                firstname@,
            ));
            if old(self).renderable() {
                lemma_writable_extends(old(self).statements(), first_name_statements(firstname@));
            }
        }
    }

    /// States the gender of the person. A second call adds to what the first
    /// stated and replaces nothing.
    pub fn set_gender(&mut self, gender: &str)
        ensures
            final(self).extends(old(self), gender_statements(gender@)),
            old(self).renderable() ==> final(self).renderable(),
    {
        let me = Node::uri(ME);
        let value = Node::literal(gender);
        self.state(&me, FOAF_GENDER, &value);
        self.state(&me, SCHEMA_GENDER, &value);
        proof {
            assert(self.statements() =~= old(self).statements() + gender_statements(gender@));
            if old(self).renderable() {
                lemma_writable_extends(old(self).statements(), gender_statements(gender@));
            }
        }
    }

    /// States the birthday and the date of birth of the person, in unpadded
    /// decimal. A second call adds to what the first stated and replaces
    /// nothing.
    pub fn set_birthday_and_age(&mut self, month: u32, day: u32, year: i32)
        ensures
            final(self).extends(
                old(self),
                birthday_statements(month as nat, day as nat, year as int),
            ),
            old(self).renderable() ==> final(self).renderable(),
    {
        let month_text = u32_to_decimal(month);
        let day_text = u32_to_decimal(day);
        let mut birthday = u32_to_decimal(month);
        birthday.append(DATE_SEPARATOR);
        birthday.append(day_text.as_str());
        let mut birth_date = i32_to_decimal(year);
        birth_date.append(DATE_SEPARATOR);
        birth_date.append(month_text.as_str());
        birth_date.append(DATE_SEPARATOR);
        birth_date.append(day_text.as_str());
        let me = Node::uri(ME);
        self.state(&me, FOAF_BIRTHDAY, &Node::Literal(birthday));
        self.state(&me, SCHEMA_BIRTH_DATE, &Node::Literal(birth_date));
        proof {
            let added = birthday_statements(month as nat, day as nat, year as int);
            assert(self.statements() =~= old(self).statements() + added);
            if old(self).renderable() {
                lemma_writable_extends(old(self).statements(), added);
            }
        }
    }

    /// States a phone number of the person, as a telephone URI.
    pub fn add_phone_number(&mut self, phonenum: &str)
        ensures
            final(self).extends(old(self), phone_statements(phonenum@)),
            old(self).renderable() ==> final(self).renderable(),
    {
        let mut target = String::from_str(TEL_SCHEME);
        target.append(phonenum);
        let me = Node::uri(ME);
        let value = Node::Uri(target);
        self.state(&me, FOAF_PHONE, &value);
        self.state(&me, SCHEMA_TELEPHONE, &value);
        proof {
            assert(self.statements() =~= old(self).statements() + phone_statements(phonenum@));
            if old(self).renderable() {
                lemma_writable_extends(old(self).statements(), phone_statements(phonenum@));
            }
        }
    }

    /// States `place` as a place, under a blank node, and `property` of the
    /// person as that node.
    fn add_place(&mut self, place: &str, property: &str)
        ensures
            final(self).extends(old(self), place_statements(place@, property@)),
            old(self).renderable() ==> final(self).renderable(),
    {
        let node = Node::Blank(clean_string(place));
        self.state(&node, RDF_TYPE, &Node::uri(SCHEMA_PLACE));
        self.state(&node, SCHEMA_ADDRESS, &Node::literal(place));
        self.state(&Node::uri(ME), property, &node);
        proof {
            let added = place_statements(place@, property@);
            assert(self.statements() =~= old(self).statements() + added);
            if old(self).renderable() {
                lemma_writable_extends(old(self).statements(), added);
            }
        }
    }

    /// States where the person was born.
    pub fn add_birth_place(&mut self, birth_place: &str)
        ensures
            final(self).extends(old(self), birth_place_statements(birth_place@)),
            old(self).renderable() ==> final(self).renderable(),
    {
        self.add_place(birth_place, SCHEMA_BIRTH_PLACE);
    }

    /// States where the person lives.
    pub fn add_home_location(&mut self, home_location: &str)
        ensures
            final(self).extends(old(self), home_location_statements(home_location@)),
            old(self).renderable() ==> final(self).renderable(),
    {
        self.add_place(home_location, SCHEMA_HOME_LOCATION);
    }

    /// States an email address of the person, as a mailbox URI.
    pub fn add_email(&mut self, email: &str)
        ensures
            final(self).extends(old(self), email_statements(email@)),
            old(self).renderable() ==> final(self).renderable(),
    {
        let mut target = String::from_str(MAILTO_SCHEME);
        target.append(email);
        let me = Node::uri(ME);
        let value = Node::Uri(target);
        self.state(&me, FOAF_MBOX, &value);
        self.state(&me, SCHEMA_EMAIL, &value);
        proof {
            assert(self.statements() =~= old(self).statements() + email_statements(email@));
            if old(self).renderable() {
                lemma_writable_extends(old(self).statements(), email_statements(email@));
            }
        }
    }

    /// States a school that the person graduated from, under a blank node.
    pub fn add_alumni_relationship(&mut self, school_name: &str)
        ensures
            final(self).extends(old(self), alumni_statements(school_name@)),
            old(self).renderable() ==> final(self).renderable(),
    {
        let school = Node::Blank(clean_string(school_name));
        self.state(&school, RDF_TYPE, &Node::uri(SCHEMA_EDUCATIONAL_ORGANIZATION));
        self.state(&school, SCHEMA_NAME, &Node::literal(school_name));
        self.state(&Node::uri(ME), SCHEMA_ALUMNI_OF, &school);
        proof {
            let added = alumni_statements(school_name@);
            assert(self.statements() =~= old(self).statements() + added);
            if old(self).renderable() {
                lemma_writable_extends(old(self).statements(), added);
            }
        }
    }

    /// States an account: of the holder with the given identifier, or of the
    /// person whom the profile describes where none is given.
    pub fn add_account(&mut self, username: &str, account_holder_id_override: Option<&str>)
        ensures
            final(self).extends(
                old(self),
                account_statements(username@, holder_view(account_holder_id_override)),
            ),
            old(self).renderable() ==> final(self).renderable(),
    {
        let account_holder_id = match account_holder_id_override {
            Some(id) => id,
            None => DEFAULT_HOLDER,
        };
        let mut anchor = String::from_str(FRAGMENT);
        anchor.append(account_holder_id);
        self.state(&Node::Uri(anchor), FOAF_ACCOUNT, &Node::literal(username));
        proof {
            let added = account_statements(username@, holder_view(account_holder_id_override));
            assert(self.statements() =~= old(self).statements() + added);
            if old(self).renderable() {
                lemma_writable_extends(old(self).statements(), added);
            }
        }
    }

    /// States a friend: a person under the anchor of the cleaned name, with
    /// that name and the account at `fb_profile_url`, whom the person knows.
    pub fn add_facebook_friend(&mut self, name: &str, fb_profile_url: &str)
        ensures
            final(self).extends(old(self), friend_statements(name@, fb_profile_url@)),
            old(self).renderable() ==> final(self).renderable(),
    {
        let label = clean_string(name);
        let mut anchor = String::from_str(FRAGMENT);
        anchor.append(label.as_str());
        let friend = Node::Uri(anchor);
        self.state(&friend, RDF_TYPE, &Node::uri(FOAF_PERSON));
        self.state(&friend, FOAF_NAME, &Node::literal(name));
        self.add_account(fb_profile_url, Some(label.as_str()));
        self.state(&Node::uri(ME), FOAF_KNOWS, &friend);
        proof {
            let added = friend_statements(name@, fb_profile_url@);
            assert(self.statements() =~= old(self).statements() + added);
            if old(self).renderable() {
                lemma_writable_extends(old(self).statements(), added);
            }
        }
    }

    /// Renders the profile as Turtle. This fails exactly when the profile is
    /// not renderable, and leaves the profile as it is. The text presents
    /// the profile: it declares each prefix and shows each node.
    pub fn write_to_string(&mut self) -> (text: Result<String, RenderError>)
        ensures
            text is Ok <==> old(self).renderable(),
            text matches Ok(written) ==> presents(
                written@,
                old(self).statements(),
                old(self).namespaces(),
            ),
            *final(self) == *old(self),
    {
        report(graph_to_turtle(&self.graph))
    }
}

/// What the library reports for an outcome of the Turtle writer: the text
/// that the writer gave, or that the graph was invalid, with the writer's
/// error as the cause.
pub fn report(outcome: Result<String, rdf::error::Error>) -> (text: Result<String, RenderError>)
    ensures
        outcome matches Ok(written) ==> (text matches Ok(reported) && reported == written),
        outcome matches Err(error) ==> (text matches Err(RenderError::InvalidGraph { cause })
            && cause == error),
{
    match outcome {
        Ok(written) => Ok(written),
        Err(error) => Err(RenderError::InvalidGraph { cause: error }),
    }
}

} // verus!
