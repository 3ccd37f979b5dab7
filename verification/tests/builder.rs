use hatchling::profile_builder::{clean_string, Profile, RenderError};
use rdf::node::Node;
use rdf::triple::Triple;
use rdf::uri::Uri;

fn shown(node: &Node) -> String {
    match node {
        Node::UriNode { uri } => format!("<{}>", uri.to_string()),
        Node::LiteralNode { literal, data_type, language } => {
            assert!(data_type.is_none());
            assert!(language.is_none());
            format!("\"{}\"", literal)
        }
        Node::BlankNode { id } => format!("_:{}", id),
    }
}

fn listed(profile: &Profile) -> Vec<(String, String, String)> {
    profile
        .graph
        .triples_iter()
        .map(|t| (shown(t.subject()), shown(t.predicate()), shown(t.object())))
        .collect()
}

fn row(subject: &str, predicate: &str, object: &str) -> (String, String, String) {
    (subject.to_string(), predicate.to_string(), object.to_string())
}

fn boilerplate_rows() -> Vec<(String, String, String)> {
    vec![
        row("<>", "<http://www.w3.org/1999/02/22-rdf-syntax-ns#type>", "<http://xmlns.com/foaf/0.1/PersonalProfileDocument>"),
        row("<>", "<http://xmlns.com/foaf/0.1/maker>", "<#me>"),
        row("<>", "<http://xmlns.com/foaf/0.1/primaryTopic>", "<#me>"),
        row("<#me>", "<http://www.w3.org/1999/02/22-rdf-syntax-ns#type>", "<http://schema.org/Person>"),
        row("<#me>", "<http://www.w3.org/1999/02/22-rdf-syntax-ns#type>", "<http://xmlns.com/foaf/0.1/Person>"),
    ]
}

fn added(profile: &Profile) -> Vec<(String, String, String)> {
    let all = listed(profile);
    assert_eq!(all[..5].to_vec(), boilerplate_rows());
    all[5..].to_vec()
}

#[test]
fn new_profile_holds_the_boilerplate() {
    let profile = Profile::new();
    assert_eq!(listed(&profile), boilerplate_rows());
    assert_eq!(profile.graph.count(), 5);
}

#[test]
fn new_profile_binds_six_prefixes() {
    let profile = Profile::new();
    let namespaces = profile.graph.namespaces();
    assert_eq!(namespaces.len(), 6);
    let bound = |prefix: &str| namespaces.get(prefix).map(|uri| uri.to_string().clone());
    assert_eq!(bound(""), Some("#".to_string()));
    assert_eq!(bound("profile"), Some("./".to_string()));
    assert_eq!(bound("schema"), Some("http://schema.org/".to_string()));
    assert_eq!(bound("foaf"), Some("http://xmlns.com/foaf/0.1/".to_string()));
    assert_eq!(bound("vcard"), Some("http://www.w3.org/2006/vcard/ns".to_string()));
    assert_eq!(bound("resource"), Some("http://dbpedia.org/resource/".to_string()));
}

#[test]
fn operations_leave_the_prefixes_alone() {
    let mut profile = Profile::new();
    profile.set_name("Ada Lovelace");
    profile.add_facebook_friend("Jane Doe", "https://facebook.com/jane");
    profile.add_birth_place("London");
    assert_eq!(profile.graph.namespaces().len(), 6);
}

#[test]
fn set_name_states_two_names() {
    let mut profile = Profile::new();
    profile.set_name("Ada Lovelace");
    assert_eq!(
        added(&profile),
        vec![
            row("<#me>", "<http://xmlns.com/foaf/0.1/name>", "\"Ada Lovelace\""),
            row("<#me>", "<http://schema.org/name>", "\"Ada Lovelace\""),
        ]
    );
}

#[test]
fn set_last_name_states_three_names() {
    let mut profile = Profile::new();
    profile.set_last_name("Lovelace");
    assert_eq!(
        added(&profile),
        vec![
            row("<#me>", "<http://xmlns.com/foaf/0.1/lastName>", "\"Lovelace\""),
            row("<#me>", "<http://xmlns.com/foaf/0.1/familyName>", "\"Lovelace\""),
            row("<#me>", "<http://schema.org/familyName>", "\"Lovelace\""),
        ]
    );
}

#[test]
fn set_first_name_states_three_names() {
    let mut profile = Profile::new();
    profile.set_first_name("Ada");
    assert_eq!(
        added(&profile),
        vec![
            row("<#me>", "<http://xmlns.com/foaf/0.1/firstName>", "\"Ada\""),
            row("<#me>", "<http://xmlns.com/foaf/0.1/givenName>", "\"Ada\""),
            row("<#me>", "<http://schema.org/givenName>", "\"Ada\""),
        ]
    );
}

#[test]
fn set_gender_states_two_genders() {
    let mut profile = Profile::new();
    profile.set_gender("female");
    assert_eq!(
        added(&profile),
        vec![
            row("<#me>", "<http://xmlns.com/foaf/0.1/gender>", "\"female\""),
            row("<#me>", "<http://schema.org/gender>", "\"female\""),
        ]
    );
}

#[test]
fn set_gender_twice_keeps_both() {
    let mut profile = Profile::new();
    profile.set_gender("female");
    profile.set_gender("non-binary");
    assert_eq!(
        added(&profile),
        vec![
            row("<#me>", "<http://xmlns.com/foaf/0.1/gender>", "\"female\""),
            row("<#me>", "<http://schema.org/gender>", "\"female\""),
            row("<#me>", "<http://xmlns.com/foaf/0.1/gender>", "\"non-binary\""),
            row("<#me>", "<http://schema.org/gender>", "\"non-binary\""),
        ]
    );
    let me = Node::UriNode { uri: Uri::new("#me".to_string()) };
    let gender = Node::UriNode { uri: Uri::new("http://xmlns.com/foaf/0.1/gender".to_string()) };
    let stated = profile.graph.get_triples_with_subject_and_predicate(&me, &gender);
    assert_eq!(stated.len(), 2);
    assert_eq!(shown(stated[0].object()), "\"female\"");
    assert_eq!(shown(stated[1].object()), "\"non-binary\"");
}

#[test]
fn set_name_twice_keeps_both() {
    let mut profile = Profile::new();
    profile.set_name("Ada");
    profile.set_name("Ada");
    assert_eq!(added(&profile).len(), 4);
}

#[test]
fn set_birthday_is_not_padded() {
    let mut profile = Profile::new();
    profile.set_birthday_and_age(4, 10, 1990);
    assert_eq!(
        added(&profile),
        vec![
            row("<#me>", "<http://xmlns.com/foaf/0.1/birthday>", "\"4-10\""),
            row("<#me>", "<http://schema.org/birthDate>", "\"1990-4-10\""),
        ]
    );
}

#[test]
fn set_birthday_takes_any_numbers() {
    let mut profile = Profile::new();
    profile.set_birthday_and_age(0, 4294967295, -44);
    assert_eq!(
        added(&profile),
        vec![
            row("<#me>", "<http://xmlns.com/foaf/0.1/birthday>", "\"0-4294967295\""),
            row("<#me>", "<http://schema.org/birthDate>", "\"-44-0-4294967295\""),
        ]
    );
}

#[test]
fn add_phone_number_states_a_tel_uri() {
    let mut profile = Profile::new();
    profile.add_phone_number("+1-555-0100");
    assert_eq!(
        added(&profile),
        vec![
            row("<#me>", "<http://xmlns.com/foaf/0.1/phone>", "<tel:+1-555-0100>"),
            row("<#me>", "<http://schema.org/telephone>", "<tel:+1-555-0100>"),
        ]
    );
}

#[test]
fn add_email_states_a_mailto_uri() {
    let mut profile = Profile::new();
    profile.add_email("ada@example.org");
    assert_eq!(
        added(&profile),
        vec![
            row("<#me>", "<http://xmlns.com/foaf/0.1/mbox>", "<mailto:ada@example.org>"),
            row("<#me>", "<http://schema.org/email>", "<mailto:ada@example.org>"),
        ]
    );
}

#[test]
fn add_birth_place_states_a_place() {
    let mut profile = Profile::new();
    profile.add_birth_place("St. Louis, Missouri");
    assert_eq!(
        added(&profile),
        vec![
            row("_:St__Louis_Missouri", "<http://www.w3.org/1999/02/22-rdf-syntax-ns#type>", "<http://schema.org/Place>"),
            row("_:St__Louis_Missouri", "<http://schema.org/address>", "\"St. Louis, Missouri\""),
            row("<#me>", "<http://schema.org/birthPlace>", "_:St__Louis_Missouri"),
        ]
    );
}

#[test]
fn add_home_location_states_a_place() {
    let mut profile = Profile::new();
    profile.add_home_location("Stratford-upon-Avon");
    assert_eq!(
        added(&profile),
        vec![
            row("_:Stratford_upon_Avon", "<http://www.w3.org/1999/02/22-rdf-syntax-ns#type>", "<http://schema.org/Place>"),
            row("_:Stratford_upon_Avon", "<http://schema.org/address>", "\"Stratford-upon-Avon\""),
            row("<#me>", "<http://schema.org/homeLocation>", "_:Stratford_upon_Avon"),
        ]
    );
}

#[test]
fn add_alumni_relationship_states_a_school() {
    let mut profile = Profile::new();
    profile.add_alumni_relationship("University of London");
    assert_eq!(
        added(&profile),
        vec![
            row("_:University_of_London", "<http://www.w3.org/1999/02/22-rdf-syntax-ns#type>", "<http://schema.org/EducationalOrganization>"),
            row("_:University_of_London", "<http://schema.org/name>", "\"University of London\""),
            row("<#me>", "<http://schema.org/alumniOf>", "_:University_of_London"),
        ]
    );
}

#[test]
fn add_account_is_mine_by_default() {
    let mut profile = Profile::new();
    profile.add_account("https://www.facebook.com/ada", None);
    assert_eq!(
        added(&profile),
        vec![row("<#me>", "<http://xmlns.com/foaf/0.1/account>", "\"https://www.facebook.com/ada\"")]
    );
}

#[test]
fn add_account_takes_another_holder() {
    let mut profile = Profile::new();
    profile.add_account("https://www.facebook.com/jane", Some("Jane_Doe"));
    assert_eq!(
        added(&profile),
        vec![row(
            "<#Jane_Doe>",
            "<http://xmlns.com/foaf/0.1/account>",
            "\"https://www.facebook.com/jane\""
        )]
    );
}

#[test]
fn add_facebook_friend_states_a_person() {
    let mut profile = Profile::new();
    profile.add_facebook_friend("Jane Doe", "https://facebook.com/jane");
    assert_eq!(
        added(&profile),
        vec![
            row("<#Jane_Doe>", "<http://www.w3.org/1999/02/22-rdf-syntax-ns#type>", "<http://xmlns.com/foaf/0.1/Person>"),
            row("<#Jane_Doe>", "<http://xmlns.com/foaf/0.1/name>", "\"Jane Doe\""),
            row("<#Jane_Doe>", "<http://xmlns.com/foaf/0.1/account>", "\"https://facebook.com/jane\""),
            row("<#me>", "<http://xmlns.com/foaf/0.1/knows>", "<#Jane_Doe>"),
        ]
    );
}

#[test]
fn friends_with_like_names_share_a_node() {
    let mut profile = Profile::new();
    profile.add_facebook_friend("Jane Doe", "https://facebook.com/jane");
    profile.add_facebook_friend("Jane-Doe", "https://facebook.com/jane2");
    let rows = added(&profile);
    assert_eq!(rows.len(), 8);
    assert_eq!(rows[0].0, rows[4].0);
}

#[test]
fn order_of_operations_does_not_change_the_set() {
    let mut one = Profile::new();
    one.set_name("Ada Lovelace");
    one.add_phone_number("+1-555-0100");
    one.add_birth_place("London");
    let mut other = Profile::new();
    other.add_birth_place("London");
    other.add_phone_number("+1-555-0100");
    other.set_name("Ada Lovelace");
    assert_ne!(listed(&one), listed(&other));
    let mut first: Vec<Triple> = one.graph.triples_iter().cloned().collect();
    let mut second: Vec<Triple> = other.graph.triples_iter().cloned().collect();
    first.sort();
    second.sort();
    assert_eq!(first, second);
}

#[test]
fn clean_string_of_a_name_with_marks() {
    assert_eq!(clean_string("O'Brien, Jr."), "O'Brien_Jr_");
}

#[test]
fn clean_string_replaces_and_drops() {
    assert_eq!(clean_string("a b.c-d,e"), "a_b_c_de");
    assert_eq!(clean_string(""), "");
    assert_eq!(clean_string(",,,"), "");
    assert_eq!(clean_string(" .-"), "___");
    assert_eq!(clean_string("already_clean'"), "already_clean'");
}

#[test]
fn clean_string_keeps_other_scripts() {
    assert_eq!(clean_string("Zoë Müller-Łukasz, 東京"), "Zoë_Müller_Łukasz_東京");
}

#[test]
fn clean_string_twice_is_clean_string_once() {
    let once = clean_string("Dr. Jane-Anne Doe, Jr.");
    assert_eq!(once, "Dr__Jane_Anne_Doe_Jr_");
    assert_eq!(clean_string(&once), once);
}

#[test]
fn new_profile_renders() {
    let mut profile = Profile::new();
    let text = profile.write_to_string().unwrap();
    assert!(text.contains("@prefix : <#> .\n"));
    assert!(text.contains("@prefix profile: <./> .\n"));
    assert!(text.contains("@prefix schema: <http://schema.org/> .\n"));
    assert!(text.contains("@prefix foaf: <http://xmlns.com/foaf/0.1/> .\n"));
    assert!(text.contains("@prefix vcard: <http://www.w3.org/2006/vcard/ns> .\n"));
    assert!(text.contains("@prefix resource: <http://dbpedia.org/resource/> .\n"));
    assert!(text.contains("foaf:PersonalProfileDocument"));
    assert!(text.contains("foaf:maker :me"));
    assert!(text.contains("foaf:primaryTopic :me"));
    assert!(text.contains("schema:Person"));
    assert!(text.contains("foaf:Person"));
    assert!(text.ends_with(" ."));
    assert_eq!(profile.graph.count(), 5);
}

#[test]
fn rendering_shows_what_was_added() {
    let mut profile = Profile::new();
    profile.set_name("Ada Lovelace");
    profile.add_phone_number("+1-555-0100");
    profile.add_birth_place("London");
    let text = profile.write_to_string().unwrap();
    assert!(text.contains("foaf:name \"Ada Lovelace\""));
    assert!(text.contains("schema:name \"Ada Lovelace\""));
    assert!(text.contains("foaf:phone <tel:+1-555-0100>"));
    assert!(text.contains("schema:birthPlace _:London"));
    assert!(text.contains("_:London "));
}

#[test]
fn rendering_fails_on_a_literal_subject() {
    let mut profile = Profile::new();
    let literal = profile.graph.create_literal_node("Ada".to_string());
    let property = profile.graph.create_uri_node(&Uri::new("http://schema.org/name".to_string()));
    profile.graph.add_triple(&Triple::new(&literal, &property, &literal));
    match profile.write_to_string() {
        Err(RenderError::InvalidGraph { cause }) => assert_eq!(
            cause.to_string(),
            "Literals are not allowed as subjects or predicates in Turtle."
        ),
        Ok(_) => panic!("a literal subject was rendered"),
    }
}

#[test]
fn rendering_fails_on_a_blank_predicate() {
    let mut profile = Profile::new();
    let me = profile.graph.create_uri_node(&Uri::new("#me".to_string()));
    let blank = profile.graph.create_blank_node_with_id("b".to_string());
    profile.graph.add_triple(&Triple::new(&me, &blank, &me));
    match profile.write_to_string() {
        Err(RenderError::InvalidGraph { cause }) => {
            assert_eq!(cause.to_string(), "Blank nodes are not allowed as predicates in Turtle.")
        }
        Ok(_) => panic!("a blank predicate was rendered"),
    }
}

#[test]
fn rendering_fails_on_a_literal_with_type_and_language() {
    let mut profile = Profile::new();
    let me = profile.graph.create_uri_node(&Uri::new("#me".to_string()));
    let property = profile.graph.create_uri_node(&Uri::new("http://schema.org/name".to_string()));
    let both = Node::LiteralNode {
        literal: "Ada".to_string(),
        data_type: Some(Uri::new("http://www.w3.org/2001/XMLSchema#string".to_string())),
        language: Some("en".to_string()),
    };
    profile.graph.add_triple(&Triple::new(&me, &property, &both));
    assert!(matches!(profile.write_to_string(), Err(RenderError::InvalidGraph { .. })));
}

#[test]
fn rendering_takes_a_literal_with_a_language() {
    let mut profile = Profile::new();
    let me = profile.graph.create_uri_node(&Uri::new("#me".to_string()));
    let property = profile.graph.create_uri_node(&Uri::new("http://schema.org/name".to_string()));
    let tagged = profile.graph.create_literal_node_with_language("Ada".to_string(), "en".to_string());
    profile.graph.add_triple(&Triple::new(&me, &property, &tagged));
    assert!(profile.write_to_string().is_ok());
}

fn is_shown(text: &str, node: &Node, profile: &Profile) -> bool {
    match node {
        Node::UriNode { uri } => {
            let uri = uri.to_string().as_str();
            let begun: Vec<(&String, &str)> = profile
                .graph
                .namespaces()
                .iter()
                .map(|(prefix, namespace)| (prefix, namespace.to_string().as_str()))
                .filter(|(_, namespace)| uri.starts_with(namespace))
                .collect();
            if begun.is_empty() {
                text.contains(&format!("<{}>", uri))
            } else {
                begun.iter().any(|(prefix, namespace)| {
                    let local = &uri[namespace.len()..];
                    let plainly =
                        !namespace.is_empty() && !local.contains(namespace) && !local.contains('/');
                    !plainly || text.contains(&format!("{}:{}", prefix, local))
                })
            }
        }
        Node::LiteralNode { literal, .. } => text.contains(literal.as_str()),
        Node::BlankNode { id } => text.contains(&format!("_:{}", id)),
    }
}

fn is_presented(text: &str, profile: &Profile) -> bool {
    let declared = profile.graph.namespaces().iter().all(|(prefix, uri)| {
        text.contains(&format!("@prefix {}: <{}> .\n", prefix, uri.to_string()))
    });
    let shown = profile.graph.triples_iter().all(|t| {
        is_shown(text, t.subject(), profile)
            && is_shown(text, t.predicate(), profile)
            && is_shown(text, t.object(), profile)
    });
    declared && shown
}

#[test]
fn rendering_presents_the_profile() {
    let mut profile = Profile::new();
    profile.set_name("Ada Lovelace");
    profile.set_birthday_and_age(12, 10, 1815);
    profile.add_phone_number("+1-555-0100");
    profile.add_email("ada@example.org");
    profile.add_birth_place("Kirkby Mallory");
    profile.add_alumni_relationship("Somerville College");
    profile.add_facebook_friend("Jane Doe", "https://facebook.com/jane");
    let text = profile.write_to_string().unwrap();
    assert!(is_presented(&text, &profile));
    assert!(text.contains("<>"));
    assert!(text.contains("<http://www.w3.org/1999/02/22-rdf-syntax-ns#type>"));
    assert!(text.contains("<tel:+1-555-0100>"));
    assert!(text.contains("<mailto:ada@example.org>"));
    assert!(text.contains("_:Kirkby_Mallory"));
    assert!(text.contains("_:Somerville_College"));
    assert!(text.contains("\"1815-12-10\""));
    assert!(text.contains("\"https://facebook.com/jane\""));
}

#[test]
fn rendering_shows_a_literal_as_it_is() {
    let mut profile = Profile::new();
    profile.set_name("Miles \"Tails\" O'Brien \\ Prower");
    profile.set_gender("true");
    profile.set_first_name("two\nlines");
    let text = profile.write_to_string().unwrap();
    assert!(is_presented(&text, &profile));
    assert!(text.contains("Miles \"Tails\" O'Brien \\ Prower"));
    assert!(text.contains("foaf:gender true"));
    assert!(text.contains("two\nlines"));
}

#[test]
fn rendering_shows_nodes_of_other_graphs() {
    let mut profile = Profile::new();
    let subject = profile.graph.create_blank_node_with_id("somebody".to_string());
    let property = profile.graph.create_uri_node(&Uri::new("urn:example:likes".to_string()));
    let tagged = profile.graph.create_literal_node_with_language("thé".to_string(), "fr".to_string());
    let typed = profile.graph.create_literal_node_with_data_type(
        "42".to_string(),
        &Uri::new("http://www.w3.org/2001/XMLSchema#integer".to_string()),
    );
    profile.graph.add_triple(&Triple::new(&subject, &property, &tagged));
    profile.graph.add_triple(&Triple::new(&subject, &property, &typed));
    let text = profile.write_to_string().unwrap();
    assert!(is_presented(&text, &profile));
    assert!(text.contains("_:somebody <urn:example:likes> "));
    assert!(text.contains("\"thé\"@fr"));
    assert!(text.contains("\"42\"^^<http://www.w3.org/2001/XMLSchema#integer>"));
}

#[test]
fn rendering_shows_short_forms() {
    let mut profile = Profile::new();
    profile.set_name("Ada Lovelace");
    profile.add_facebook_friend("Jane Doe", "https://facebook.com/jane");
    let text = profile.write_to_string().unwrap();
    assert!(is_presented(&text, &profile));
    assert!(text.contains(":me"));
    assert!(text.contains(":Jane_Doe"));
    assert!(text.contains("foaf:name"));
    assert!(text.contains("schema:name"));
    assert!(text.contains("foaf:knows"));
    assert!(text.contains("foaf:Person"));
    assert!(text.contains("<http://www.w3.org/1999/02/22-rdf-syntax-ns#type>"));
}

#[test]
fn rendering_shows_short_forms_of_other_graphs() {
    let mut profile = Profile::new();
    profile.graph.add_namespace(&rdf::namespace::Namespace::new(
        "ex".to_string(),
        Uri::new("http://example.org/".to_string()),
    ));
    profile.graph.add_namespace(&rdf::namespace::Namespace::new(
        "exn".to_string(),
        Uri::new("http://example.org/n".to_string()),
    ));
    let me = profile.graph.create_uri_node(&Uri::new("#me".to_string()));
    let likes = profile.graph.create_uri_node(&Uri::new("http://example.org/likes".to_string()));
    for object in [
        "http://example.org/tea",
        "http://example.org/a/b",
        "http://example.org/http://example.org/x",
        "http://example.org/name",
        "http://example.org/n",
        "http://example.org/",
    ] {
        let node = profile.graph.create_uri_node(&Uri::new(object.to_string()));
        profile.graph.add_triple(&Triple::new(&me, &likes, &node));
    }
    let text = profile.write_to_string().unwrap();
    assert!(is_presented(&text, &profile));
    assert!(text.contains("ex:likes"));
    assert!(text.contains("ex:tea"));
    assert!(text.contains("ex:name") || text.contains("exn:ame"));
}

#[test]
fn report_passes_the_text_on() {
    let text = hatchling::profile_builder::report(Ok("@prefix : <#> .\n".to_string()));
    assert_eq!(text.unwrap(), "@prefix : <#> .\n");
}

#[test]
fn report_keeps_the_cause() {
    let error = rdf::error::Error::new(rdf::error::ErrorType::InvalidWriterOutput, "no good");
    match hatchling::profile_builder::report(Err(error)) {
        Err(RenderError::InvalidGraph { cause }) => {
            assert_eq!(cause.to_string(), "no good");
            assert!(matches!(cause.error_type(), rdf::error::ErrorType::InvalidWriterOutput));
        }
        Ok(_) => panic!("an error was reported as a text"),
    }
}
