//! The records of a Facebook data export: the profile information and the
//! list of friends. A field that the export leaves out holds the empty value
//! of its type.

use vstd::prelude::*;

verus! {

/// The list of friends of an export.
#[derive(Debug)]
pub struct FBFriends {
    pub friends: Vec<FBFriend>,
}

/// One friend: the name, and the address of the friend's profile.
#[derive(Debug)]
pub struct FBFriend {
    pub name: String,
    pub target: String,
}

/// The profile of the person who made the export.
#[derive(Debug)]
pub struct Profile {
    pub name: Name,
    pub emails: Emails,
    pub birthday: Date,
    pub gender: Gender,
    pub previous_names: Vec<TimestampedString>,
    pub current_city: TimestampedString,
    pub hometown: TimestampedString,
    pub relationship: Relationship,
    pub family_members: Vec<FamilyMember>,
    pub education_experiences: Vec<EducationExperience>,
    pub work_experiences: Vec<WorkExperience>,
    pub languages: Vec<String>,
    pub political_view: View,
    pub religious_view: View,
    pub professional_skills: Vec<String>,
    pub address: Address,
    pub phone_numbers: Vec<PhoneNumber>,
    pub username: String,
    pub places_lived: Vec<PlaceLived>,
    pub name_pronunciation: String,
    pub profile_uri: String,
    pub intro_bio: String,
}

/// The profile information document of an export.
#[derive(Debug)]
pub struct FBProfileInformation {
    pub profile: Profile,
}

#[derive(Debug)]
pub struct Name {
    pub full_name: String,
    pub first_name: String,
    pub middle_name: String,
    pub last_name: String,
}

#[derive(Debug)]
pub struct Emails {
    pub emails: Vec<String>,
    pub previous_emails: Vec<String>,
    pub pending_emails: Vec<String>,
    pub ad_account_emails: Vec<String>,
}

/// A date; a part that is zero is absent.
#[derive(Debug)]
pub struct Date {
    pub year: u16,
    pub month: u8,
    pub day: u8,
}

#[derive(Debug)]
pub struct Gender {
    pub gender_option: String,
    pub pronoun: String,
}

#[derive(Debug)]
pub struct TimestampedString {
    pub name: String,
    pub timestamp: u64,
}

#[derive(Debug)]
pub struct Relationship {
    pub status: String,
    pub partner: String,
    pub anniversary: Date,
}

#[derive(Debug)]
pub struct FamilyMember {
    pub name: String,
    pub relation: String,
}

/// A school that the person went to, by the kind of school.
#[derive(Debug)]
pub enum EducationExperience {
    HighSchool {
        name: String,
        start_timestamp: u64,
        end_timestamp: u64,
        graduated: bool,
        description: String,
    },
    College {
        name: String,
        start_timestamp: u64,
        end_timestamp: u64,
        graduated: bool,
        description: String,
        concentrations: Vec<String>,
    },
    GraduateSchool {
        name: String,
        start_timestamp: u64,
        end_timestamp: u64,
        graduated: bool,
        description: String,
        concentrations: Vec<String>,
        degree: String,
    },
}

#[derive(Debug)]
pub struct WorkExperience {
    pub employer: String,
    pub title: String,
    pub location: String,
    pub description: String,
    pub start_timestamp: u64,
    pub end_timestamp: u64,
}

/// A political or religious view.
#[derive(Debug)]
pub struct View {
    pub name: String,
    pub description: String,
}

#[derive(Debug)]
pub struct Address {
    pub street: String,
    pub city: String,
    pub zipcode: String,
    pub neighborhood: String,
    pub country: String,
    pub country_code: String,
    pub region: String,
}

#[derive(Debug)]
pub struct PhoneNumber {
    pub phone_type: String,
    pub phone_number: String,
    pub verified: bool,
}

#[derive(Debug)]
pub struct PlaceLived {
    pub place: String,
    pub start_timestamp: u64,
}

} // verus!
