//! The first layout of a stored guild record, kept for the records written in
//! it.

use vstd::prelude::*;

verus! {

/// The log and welcome channels, by id.
#[derive(Debug)]
pub struct ChannelStruct {
    pub logs: String,
    pub welcome: String,
}

/// A moderation case, with its action by name and times as unsigned seconds.
#[derive(Debug)]
pub struct Case {
    pub id: u32,
    pub action: String,
    pub guild_id: String,
    pub staff_id: String,
    pub target_id: String,
    pub date: u64,
    pub reason: String,
    pub expiration: u64,
}

/// How often a user was banned, kicked and muted.
#[derive(Debug)]
pub struct History {
    pub id: String,
    pub ban: u16,
    pub kick: u16,
    pub mute: u16,
}

/// The id MongoDB gives a stored document (`bson::oid::ObjectId`), carried
/// through unread.
#[verifier::external_type_specification]
#[verifier::external_body]
pub struct ExObjectId(bson::oid::ObjectId);

/// A stored guild record in the first layout.
#[derive(Debug)]
pub struct GuildDb {
    pub _id: bson::oid::ObjectId,
    pub gid: String,
    pub cases: Vec<Case>,
    pub cases_number: u32,
    pub history: Vec<History>,
    pub channels: ChannelStruct,
}

} // verus!
