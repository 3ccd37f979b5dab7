//! The fixed strings of a profile card: the anchors, the prefixes with their
//! namespaces, the classes and properties, and the URI schemes.

use vstd::prelude::*;

verus! {

/// The person whom the profile describes: the fragment `me` of the document.
pub const ME: &'static str = "#me";

/// The document itself: the empty relative URI.
pub const DOCUMENT: &'static str = "";

/// The fragment mark that turns an identifier into an anchor of the document.
pub const FRAGMENT: &'static str = "#";

/// The identifier of the person whom the profile describes.
pub const DEFAULT_HOLDER: &'static str = "me";

/// The property that gives a subject its class: `rdf:type`.
pub const RDF_TYPE: &'static str = "http://www.w3.org/1999/02/22-rdf-syntax-ns#type";

pub const DEFAULT_PREFIX: &'static str = "";

pub const DEFAULT_NAMESPACE: &'static str = "#";

pub const PROFILE_PREFIX: &'static str = "profile";

pub const PROFILE_NAMESPACE: &'static str = "./";

pub const SCHEMA_PREFIX: &'static str = "schema";

pub const SCHEMA_NAMESPACE: &'static str = "http://schema.org/";

pub const FOAF_PREFIX: &'static str = "foaf";

pub const FOAF_NAMESPACE: &'static str = "http://xmlns.com/foaf/0.1/";

pub const VCARD_PREFIX: &'static str = "vcard";

pub const VCARD_NAMESPACE: &'static str = "http://www.w3.org/2006/vcard/ns";

pub const RESOURCE_PREFIX: &'static str = "resource";

pub const RESOURCE_NAMESPACE: &'static str = "http://dbpedia.org/resource/";

pub const FOAF_PERSONAL_PROFILE_DOCUMENT: &'static str =
    "http://xmlns.com/foaf/0.1/PersonalProfileDocument";

pub const FOAF_MAKER: &'static str = "http://xmlns.com/foaf/0.1/maker";

pub const FOAF_PRIMARY_TOPIC: &'static str = "http://xmlns.com/foaf/0.1/primaryTopic";

pub const FOAF_PERSON: &'static str = "http://xmlns.com/foaf/0.1/Person";

pub const SCHEMA_PERSON: &'static str = "http://schema.org/Person";

pub const FOAF_NAME: &'static str = "http://xmlns.com/foaf/0.1/name";

pub const SCHEMA_NAME: &'static str = "http://schema.org/name";

pub const FOAF_LAST_NAME: &'static str = "http://xmlns.com/foaf/0.1/lastName";

pub const FOAF_FAMILY_NAME: &'static str = "http://xmlns.com/foaf/0.1/familyName";

pub const SCHEMA_FAMILY_NAME: &'static str = "http://schema.org/familyName";

pub const FOAF_FIRST_NAME: &'static str = "http://xmlns.com/foaf/0.1/firstName";

pub const FOAF_GIVEN_NAME: &'static str = "http://xmlns.com/foaf/0.1/givenName";

pub const SCHEMA_GIVEN_NAME: &'static str = "http://schema.org/givenName";

pub const FOAF_GENDER: &'static str = "http://xmlns.com/foaf/0.1/gender";

pub const SCHEMA_GENDER: &'static str = "http://schema.org/gender";

pub const FOAF_BIRTHDAY: &'static str = "http://xmlns.com/foaf/0.1/birthday";

pub const SCHEMA_BIRTH_DATE: &'static str = "http://schema.org/birthDate";

pub const FOAF_PHONE: &'static str = "http://xmlns.com/foaf/0.1/phone";

pub const SCHEMA_TELEPHONE: &'static str = "http://schema.org/telephone";

pub const FOAF_MBOX: &'static str = "http://xmlns.com/foaf/0.1/mbox";

pub const SCHEMA_EMAIL: &'static str = "http://schema.org/email";

pub const SCHEMA_PLACE: &'static str = "http://schema.org/Place";

pub const SCHEMA_ADDRESS: &'static str = "http://schema.org/address";

pub const SCHEMA_BIRTH_PLACE: &'static str = "http://schema.org/birthPlace";

pub const SCHEMA_HOME_LOCATION: &'static str = "http://schema.org/homeLocation";

pub const SCHEMA_EDUCATIONAL_ORGANIZATION: &'static str =
    "http://schema.org/EducationalOrganization";

pub const SCHEMA_ALUMNI_OF: &'static str = "http://schema.org/alumniOf";

pub const FOAF_ACCOUNT: &'static str = "http://xmlns.com/foaf/0.1/account";

pub const FOAF_KNOWS: &'static str = "http://xmlns.com/foaf/0.1/knows";

/// The scheme of a telephone URI.
pub const TEL_SCHEME: &'static str = "tel:";

/// The scheme of a mailbox URI.
pub const MAILTO_SCHEME: &'static str = "mailto:";

/// The address under which Facebook shows the profile of a user name.
pub const FACEBOOK_HOME: &'static str = "https://www.facebook.com/";

/// The separator between the parts of a date.
pub const DATE_SEPARATOR: &'static str = "-";

} // verus!
