//! Builds a FOAF / Schema.org profile card, as an RDF graph, from a personal
//! data export, and renders it as Turtle.

pub mod argument_parser;
pub mod facebook_parser;
pub mod terms;
pub mod store;
pub mod vocabulary;
pub mod number_text;
pub mod profile_builder;
pub mod projection;

use vstd::prelude::*;
use crate::facebook_parser::{EducationExperience, FBFriend, FBProfileInformation, PhoneNumber};
use crate::profile_builder::{Profile, RenderError, boilerplate, standard_namespaces};
use crate::projection::{
    card_statements, contact_statements, email_list_statements, friend_list_statements,
    history_statements, identity_statements, lemma_email_list_push, lemma_friend_list_push,
    lemma_phone_list_push, lemma_school_list_push, phone_list_statements,
    school_list_statements,
};
use crate::terms::{Statement, presents};
use crate::vocabulary::FACEBOOK_HOME;

verus! {

/// The list of friends as contracts see it.
pub open spec fn friends_view(friends: Option<&Vec<FBFriend>>) -> Option<Seq<FBFriend>> {
    match friends {
        Some(list) => Some(list@),
        None => None,
    }
}

/// States the names, the gender and the birthday, each if it is present.
fn add_identity(profile: &mut Profile, person: &facebook_parser::Profile)
    ensures
        final(profile).extends(old(profile), identity_statements(*person)),
        old(profile).renderable() ==> final(profile).renderable(),
{
    let ghost start = profile.statements();
    if !person.name.full_name.as_str().is_empty() {
        profile.set_name(person.name.full_name.as_str());
    }
    if !person.name.last_name.as_str().is_empty() {
        profile.set_last_name(person.name.last_name.as_str());
    }
    if !person.name.first_name.as_str().is_empty() {
        profile.set_first_name(person.name.first_name.as_str());
    }
    if !person.gender.gender_option.as_str().is_empty() {
        profile.set_gender(person.gender.gender_option.as_str());
    }
    if person.birthday.month > 0 && person.birthday.day > 0 && person.birthday.year > 0 {
        profile.set_birthday_and_age(
            person.birthday.month as u32,
            person.birthday.day as u32,
            person.birthday.year as i32,
        );
    }
    assert(profile.statements() =~= start + identity_statements(*person));
}

/// States each phone number of the list.
fn add_phone_numbers(profile: &mut Profile, phones: &Vec<PhoneNumber>)
    ensures
        final(profile).extends(old(profile), phone_list_statements(phones@)),
        old(profile).renderable() ==> final(profile).renderable(),
{
    let ghost start = profile.statements();
    let mut i: usize = 0;
    assert(start =~= start + phone_list_statements(phones@.take(0)));
    while i < phones.len()
        invariant
            i <= phones.len(),
            profile.statements() == start + phone_list_statements(phones@.take(i as int)),
            profile.namespaces() == old(profile).namespaces(),
            old(profile).renderable() ==> profile.renderable(),
        decreases phones.len() - i,
    {
        proof {
            assert(phones@.take(i + 1) =~= phones@.take(i as int).push(phones@[i as int]));
            lemma_phone_list_push(phones@.take(i as int), phones@[i as int]);
        }
        profile.add_phone_number(phones[i].phone_number.as_str());
        assert(profile.statements() =~= start + phone_list_statements(phones@.take(i + 1)));
        i = i + 1;
    }
    assert(phones@.take(i as int) =~= phones@);
}

/// States each email address of the list.
fn add_emails(profile: &mut Profile, emails: &Vec<String>)
    ensures
        final(profile).extends(old(profile), email_list_statements(emails@)),
        old(profile).renderable() ==> final(profile).renderable(),
{
    let ghost start = profile.statements();
    let mut i: usize = 0;
    assert(start =~= start + email_list_statements(emails@.take(0)));
    while i < emails.len()
        invariant
            i <= emails.len(),
            profile.statements() == start + email_list_statements(emails@.take(i as int)),
            profile.namespaces() == old(profile).namespaces(),
            old(profile).renderable() ==> profile.renderable(),
        decreases emails.len() - i,
    {
        proof {
            assert(emails@.take(i + 1) =~= emails@.take(i as int).push(emails@[i as int]));
            lemma_email_list_push(emails@.take(i as int), emails@[i as int]);
        }
        profile.add_email(emails[i].as_str());
        assert(profile.statements() =~= start + email_list_statements(emails@.take(i + 1)));
        i = i + 1;
    }
    assert(emails@.take(i as int) =~= emails@);
}

/// States each school of the list that the person graduated from.
fn add_schools(profile: &mut Profile, schools: &Vec<EducationExperience>)
    ensures
        final(profile).extends(old(profile), school_list_statements(schools@)),
        old(profile).renderable() ==> final(profile).renderable(),
{
    let ghost start = profile.statements();
    let mut i: usize = 0;
    assert(start =~= start + school_list_statements(schools@.take(0)));
    while i < schools.len()
        invariant
            i <= schools.len(),
            profile.statements() == start + school_list_statements(schools@.take(i as int)),
            profile.namespaces() == old(profile).namespaces(),
            old(profile).renderable() ==> profile.renderable(),
        decreases schools.len() - i,
    {
        proof {
            assert(schools@.take(i + 1) =~= schools@.take(i as int).push(schools@[i as int]));
            lemma_school_list_push(schools@.take(i as int), schools@[i as int]);
        }
        match &schools[i] {
            EducationExperience::GraduateSchool { name, graduated, .. } => {
                if *graduated {
                    profile.add_alumni_relationship(name.as_str());
                }
            },
            EducationExperience::College { name, graduated, .. } => {
                if *graduated {
                    profile.add_alumni_relationship(name.as_str());
                }
            },
            EducationExperience::HighSchool { name, graduated, .. } => {
                if *graduated {
                    profile.add_alumni_relationship(name.as_str());
                }
            },
        }
        assert(profile.statements() =~= start + school_list_statements(schools@.take(i + 1)));
        i = i + 1;
    }
    assert(schools@.take(i as int) =~= schools@);
}

/// States each friend of the list.
fn add_friends(profile: &mut Profile, friends: &Vec<FBFriend>)
    ensures
        final(profile).extends(old(profile), friend_list_statements(friends@)),
        old(profile).renderable() ==> final(profile).renderable(),
{
    let ghost start = profile.statements();
    let mut i: usize = 0;
    assert(start =~= start + friend_list_statements(friends@.take(0)));
    while i < friends.len()
        invariant
            i <= friends.len(),
            profile.statements() == start + friend_list_statements(friends@.take(i as int)),
            profile.namespaces() == old(profile).namespaces(),
            old(profile).renderable() ==> profile.renderable(),
        decreases friends.len() - i,
    {
        proof {
            assert(friends@.take(i + 1) =~= friends@.take(i as int).push(friends@[i as int]));
            lemma_friend_list_push(friends@.take(i as int), friends@[i as int]);
        }
        profile.add_facebook_friend(friends[i].name.as_str(), friends[i].target.as_str());
        assert(profile.statements() =~= start + friend_list_statements(friends@.take(i + 1)));
        i = i + 1;
    }
    assert(friends@.take(i as int) =~= friends@);
}

/// States the phone numbers, the Facebook account if there is a user name,
/// and the email addresses.
fn add_contacts(profile: &mut Profile, person: &facebook_parser::Profile)
    ensures
        final(profile).extends(old(profile), contact_statements(*person)),
        old(profile).renderable() ==> final(profile).renderable(),
{
    let ghost start = profile.statements();
    add_phone_numbers(profile, &person.phone_numbers);
    if !person.username.as_str().is_empty() {
        let mut account = String::from_str(FACEBOOK_HOME);
        account.append(person.username.as_str());
        profile.add_account(account.as_str(), None);
    }
    add_emails(profile, &person.emails.emails);
    assert(profile.statements() =~= start + contact_statements(*person));
}

/// States the schools that the person graduated from, then the home
/// location and the place of birth, each if it is present.
fn add_history(profile: &mut Profile, person: &facebook_parser::Profile)
    ensures
        final(profile).extends(old(profile), history_statements(*person)),
        old(profile).renderable() ==> final(profile).renderable(),
{
    let ghost start = profile.statements();
    add_schools(profile, &person.education_experiences);
    if !person.current_city.name.as_str().is_empty() {
        profile.add_home_location(person.current_city.name.as_str());
    }
    if !person.hometown.name.as_str().is_empty() {
        profile.add_birth_place(person.hometown.name.as_str());
    }
    assert(profile.statements() =~= start + history_statements(*person));
}

/// The profile card of an export: an empty card, to which each datum of the
/// profile that is present, and each friend of the list if there is one, adds
/// its statements.
pub fn build_profile(record: &FBProfileInformation, friends: Option<&Vec<FBFriend>>) -> (profile:
    Profile)
    ensures
        profile.statements() == card_statements(*record, friends_view(friends)),
        profile.namespaces() == standard_namespaces(),
        profile.renderable(),
{
    let mut profile = Profile::new();
    add_identity(&mut profile, &record.profile);
    add_contacts(&mut profile, &record.profile);
    add_history(&mut profile, &record.profile);
    proof {
        lemma_regroup(
            boilerplate(),
            identity_statements(record.profile),
            contact_statements(record.profile),
            history_statements(record.profile),
        );
    }
    let ghost personal = profile.statements();
    if let Some(list) = friends {
        add_friends(&mut profile, list);
    } else {
        proof {
            lemma_nothing_added(personal);
        }
    }
    profile
}

/// Three sequences that follow a first one, one after the other, follow it
/// as one sequence.
proof fn lemma_regroup(
    first: Seq<Statement>,
    second: Seq<Statement>,
    third: Seq<Statement>,
    fourth: Seq<Statement>,
)
    ensures
        first + second + third + fourth == first + (second + third + fourth),
{
    assert(first + second + third + fourth =~= first + (second + third + fourth));
}

/// A sequence followed by nothing is that sequence.
proof fn lemma_nothing_added(statements: Seq<Statement>)
    ensures
        statements + Seq::<Statement>::empty() == statements,
{
    assert(statements + Seq::<Statement>::empty() =~= statements);
}

/// Renders the profile card of an export as Turtle. The card that
/// `build_profile` makes can always be rendered, and the text presents it:
/// it declares the six prefixes and shows each node of what the card states
/// for the export.
pub fn convert_facebook_to_solid(
    record: &FBProfileInformation,
    friends: Option<&Vec<FBFriend>>,
) -> (text: Result<String, RenderError>)
    ensures
        text is Ok,
        text matches Ok(written) ==> presents(
            written@,
            card_statements(*record, friends_view(friends)),
            standard_namespaces(),
        ),
{
    let mut profile = build_profile(record, friends);
    profile.write_to_string()
}

} // verus!
