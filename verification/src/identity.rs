//! The bot's own identity: the profile that the platform returns once at
//! startup, and the four records that are kept of it.

use vstd::prelude::*;
use crate::json::{doc, parsed, Document};
use crate::json::parse;
use crate::denormalize::text_member;

verus! {

/// The bot's profile, as a mathematical value.
pub struct ProfileModel {
    pub id: Seq<char>,
    pub username: Seq<char>,
    pub discriminator: Seq<char>,
    pub avatar: Seq<char>,
}

/// The bot's profile.
#[derive(Debug, Clone, PartialEq, Eq)]
pub struct Profile {
    pub id: String,
    pub username: String,
    pub discriminator: String,
    pub avatar: String,
}

impl View for Profile {
    type V = ProfileModel;

    open spec fn view(&self) -> ProfileModel {
        ProfileModel {
            id: self.id@,
            username: self.username@,
            discriminator: self.discriminator@,
            avatar: self.avatar@,
        }
    }
}

/// The profile that a document holds: all four members must be strings.
pub open spec fn profile_of(d: Document) -> Option<ProfileModel> {
    if d.text_field("id"@) is Some && d.text_field("username"@) is Some && d.text_field(
        "discriminator"@,
    ) is Some && d.text_field("avatar"@) is Some {
        Some(
            ProfileModel {
                id: d.text_field("id"@).unwrap(),
                username: d.text_field("username"@).unwrap(),
                discriminator: d.text_field("discriminator"@).unwrap(),
                avatar: d.text_field("avatar"@).unwrap(),
            },
        )
    } else {
        None
    }
}

/// The profile that a parsed response holds.
pub open spec fn decoded_profile(p: Option<Document>) -> Option<ProfileModel> {
    match p {
        Some(d) => profile_of(d),
        None => None,
    }
}

pub open spec fn profile_view(p: Option<Profile>) -> Option<ProfileModel> {
    match p {
        Some(x) => Some(x@),
        None => None,
    }
}

/// Reads the profile out of a JSON document.
pub fn profile_from_document(v: &serde_json::Value) -> (r: Option<Profile>)
    ensures
        profile_view(r) == profile_of(doc(*v)),
{
    let id = text_member(v, "id");
    let username = text_member(v, "username");
    let discriminator = text_member(v, "discriminator");
    let avatar = text_member(v, "avatar");
    match (id, username, discriminator, avatar) {
        (Some(i), Some(u), Some(d), Some(a)) => Some(
            Profile {
                id: i.to_owned(),
                username: u.to_owned(),
                discriminator: d.to_owned(),
                avatar: a.to_owned(),
            },
        ),
        _ => None,
    }
}

/// Reads the profile out of the text of the platform's response.
pub fn decode_profile(text: &str) -> (r: Option<Profile>)
    ensures
        profile_view(r) == decoded_profile(parsed(text@)),
{
    match parse(text) {
        Ok(v) => profile_from_document(&v),
        Err(_) => None,
    }
}

/// One record of the bot's identity: a fixed key and a plain text.
#[derive(Debug, Clone, PartialEq, Eq)]
pub struct IdentityRecord {
    pub key: String,
    pub value: String,
}

/// The four records of a profile, in the order in which they are written.
pub open spec fn identity_of(p: ProfileModel) -> Seq<(Seq<char>, Seq<char>)> {
    seq![
        ("bot:id"@, p.id),
        ("bot:username"@, p.username),
        ("bot:discriminator"@, p.discriminator),
        ("bot:avatar"@, p.avatar),
    ]
}

pub open spec fn records_of(rs: Seq<IdentityRecord>) -> Seq<(Seq<char>, Seq<char>)> {
    rs.map_values(|r: IdentityRecord| (r.key@, r.value@))
}

/// The records that are written of the bot's profile at startup.
pub fn identity_records(profile: &Profile) -> (r: Vec<IdentityRecord>)
    ensures
        records_of(r@) == identity_of(profile@),
{
    let mut out: Vec<IdentityRecord> = Vec::new();
    out.push(IdentityRecord { key: "bot:id".to_owned(), value: profile.id.clone() });
    out.push(IdentityRecord { key: "bot:username".to_owned(), value: profile.username.clone() });
    out.push(
        IdentityRecord { key: "bot:discriminator".to_owned(), value: profile.discriminator.clone() },
    );
    out.push(IdentityRecord { key: "bot:avatar".to_owned(), value: profile.avatar.clone() });
    assert(records_of(out@) =~= identity_of(profile@));
    out
}

} // verus!
