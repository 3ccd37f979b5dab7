//! What a profile card states for the records of an export.

use vstd::prelude::*;
use crate::facebook_parser::{
    Date, EducationExperience, FBFriend, FBProfileInformation, PhoneNumber, Profile,
};
use crate::profile_builder::{
    account_statements, alumni_statements, birth_place_statements, birthday_statements,
    boilerplate, email_statements, first_name_statements, friend_statements, gender_statements,
    home_location_statements, last_name_statements, name_statements, phone_statements,
};
use crate::terms::Statement;
use crate::vocabulary::FACEBOOK_HOME;

verus! {

/// The statements, if the datum that they are about is present.
pub open spec fn if_present(present: bool, statements: Seq<Statement>) -> Seq<Statement> {
    if present {
        statements
    } else {
        Seq::<Statement>::empty()
    }
}

/// Whether the date is given: none of its parts is zero.
pub open spec fn is_given(date: Date) -> bool {
    date.month > 0 && date.day > 0 && date.year > 0
}

/// The name of a school, whatever its kind.
pub open spec fn school_name(school: EducationExperience) -> Seq<char> {
    match school {
        EducationExperience::HighSchool { name, .. } => name@,
        EducationExperience::College { name, .. } => name@,
        EducationExperience::GraduateSchool { name, .. } => name@,
    }
}

/// Whether the person graduated from the school, whatever its kind.
pub open spec fn has_graduated(school: EducationExperience) -> bool {
    match school {
        EducationExperience::HighSchool { graduated, .. } => graduated,
        EducationExperience::College { graduated, .. } => graduated,
        EducationExperience::GraduateSchool { graduated, .. } => graduated,
    }
}

/// What the card states for one school: that the person is an alumnus, if
/// the person graduated, and nothing otherwise.
pub open spec fn school_statements(school: EducationExperience) -> Seq<Statement> {
    if_present(has_graduated(school), alumni_statements(school_name(school)))
}

/// What the card states for the phone numbers, one after the other.
pub open spec fn phone_list_statements(phones: Seq<PhoneNumber>) -> Seq<Statement> {
    phones.flat_map(|phone: PhoneNumber| phone_statements(phone.phone_number@))
}

/// What the card states for the email addresses, one after the other.
pub open spec fn email_list_statements(emails: Seq<String>) -> Seq<Statement> {
    emails.flat_map(|email: String| email_statements(email@))
}

/// What the card states for the schools, one after the other.
pub open spec fn school_list_statements(schools: Seq<EducationExperience>) -> Seq<Statement> {
    schools.flat_map(|school: EducationExperience| school_statements(school))
}

/// What the card states for the friends, one after the other.
pub open spec fn friend_list_statements(friends: Seq<FBFriend>) -> Seq<Statement> {
    friends.flat_map(|friend: FBFriend| friend_statements(friend.name@, friend.target@))
}

/// The address of the person's own Facebook account.
pub open spec fn facebook_account(username: Seq<char>) -> Seq<char> {
    FACEBOOK_HOME@ + username
}

/// What the card states for the names, the gender and the birthday.
pub open spec fn identity_statements(person: Profile) -> Seq<Statement> {
    if_present(person.name.full_name@.len() > 0, name_statements(person.name.full_name@))
        + if_present(
        person.name.last_name@.len() > 0,
        last_name_statements(person.name.last_name@),
    ) + if_present(
        person.name.first_name@.len() > 0,
        first_name_statements(person.name.first_name@),
    ) + if_present(
        person.gender.gender_option@.len() > 0,
        gender_statements(person.gender.gender_option@),
    ) + if_present(
        is_given(person.birthday),
        birthday_statements(
            person.birthday.month as nat,
            person.birthday.day as nat,
            person.birthday.year as int,
        ),
    )
}

/// What the card states for the ways to reach the person: the phone numbers,
/// the Facebook account and the email addresses.
pub open spec fn contact_statements(person: Profile) -> Seq<Statement> {
    phone_list_statements(person.phone_numbers@) + if_present(
        person.username@.len() > 0,
        account_statements(facebook_account(person.username@), None),
    ) + email_list_statements(person.emails.emails@)
}

/// What the card states for the schools and the places of the person.
pub open spec fn history_statements(person: Profile) -> Seq<Statement> {
    school_list_statements(person.education_experiences@) + if_present(
        person.current_city.name@.len() > 0,
        home_location_statements(person.current_city.name@),
    ) + if_present(
        person.hometown.name@.len() > 0,
        birth_place_statements(person.hometown.name@),
    )
}

/// What the card states for the profile of an export: each datum that is
/// present, in a fixed order.
pub open spec fn person_statements(person: Profile) -> Seq<Statement> {
    identity_statements(person) + contact_statements(person) + history_statements(person)
}

/// What the card states for the list of friends, if there is one.
pub open spec fn optional_friend_statements(friends: Option<Seq<FBFriend>>) -> Seq<Statement> {
    match friends {
        Some(list) => friend_list_statements(list),
        None => Seq::<Statement>::empty(),
    }
}

/// All that the card states for an export: what every card states, then the
/// profile, then the friends.
pub open spec fn card_statements(
    record: FBProfileInformation,
    friends: Option<Seq<FBFriend>>,
) -> Seq<Statement> {
    boilerplate() + person_statements(record.profile) + optional_friend_statements(friends)
}

/// Whether the profile holds none of the data that a card states: no name,
/// no gender, no birthday, no phone number, no user name, no email address,
/// no school, no current city and no home town.
pub open spec fn is_blank(person: Profile) -> bool {
    &&& person.name.full_name@.len() == 0
    &&& person.name.last_name@.len() == 0
    &&& person.name.first_name@.len() == 0
    &&& person.gender.gender_option@.len() == 0
    &&& !is_given(person.birthday)
    &&& person.phone_numbers@.len() == 0
    &&& person.username@.len() == 0
    &&& person.emails.emails@.len() == 0
    &&& person.education_experiences@.len() == 0
    &&& person.current_city.name@.len() == 0
    &&& person.hometown.name@.len() == 0
}

/// Whether there is no friend to state: no list, or an empty one.
pub open spec fn no_friends(friends: Option<Seq<FBFriend>>) -> bool {
    match friends {
        Some(list) => list.len() == 0,
        None => true,
    }
}

/// The card of a blank profile without friends states what every card
/// states, and nothing else.
pub proof fn lemma_blank_record_gives_boilerplate(
    record: FBProfileInformation,
    friends: Option<Seq<FBFriend>>,
)
    requires
        is_blank(record.profile),
        no_friends(friends),
    ensures
        card_statements(record, friends) == boilerplate(),
{
}

/// The statements for a list of phone numbers with one more at its end.
pub proof fn lemma_phone_list_push(phones: Seq<PhoneNumber>, phone: PhoneNumber)
    ensures
        phone_list_statements(phones.push(phone)) == phone_list_statements(phones)
            + phone_statements(phone.phone_number@),
{
    let each = |phone: PhoneNumber| phone_statements(phone.phone_number@);
    assert(phones.push(phone).map_values(each) =~= phones.map_values(each).push(each(phone)));
    phones.map_values(each).lemma_flatten_push(each(phone));
}

/// The statements for a list of email addresses with one more at its end.
pub proof fn lemma_email_list_push(emails: Seq<String>, email: String)
    ensures
        email_list_statements(emails.push(email)) == email_list_statements(emails)
            + email_statements(email@),
{
    let each = |email: String| email_statements(email@);
    assert(emails.push(email).map_values(each) =~= emails.map_values(each).push(each(email)));
    emails.map_values(each).lemma_flatten_push(each(email));
}

/// The statements for a list of schools with one more at its end.
pub proof fn lemma_school_list_push(schools: Seq<EducationExperience>, school: EducationExperience)
    ensures
        school_list_statements(schools.push(school)) == school_list_statements(schools)
            + school_statements(school),
{
    let each = |school: EducationExperience| school_statements(school);
    assert(schools.push(school).map_values(each) =~= schools.map_values(each).push(each(school)));
    schools.map_values(each).lemma_flatten_push(each(school));
}

/// The statements for a list of friends with one more at its end.
pub proof fn lemma_friend_list_push(friends: Seq<FBFriend>, friend: FBFriend)
    ensures
        friend_list_statements(friends.push(friend)) == friend_list_statements(friends)
            + friend_statements(friend.name@, friend.target@),
{
    let each = |friend: FBFriend| friend_statements(friend.name@, friend.target@);
    assert(friends.push(friend).map_values(each) =~= friends.map_values(each).push(each(friend)));
    friends.map_values(each).lemma_flatten_push(each(friend));
}

} // verus!
