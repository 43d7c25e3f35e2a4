//! Playlist identities.
//!
//! The remote endpoints name playlists by UUID strings. The library keeps
//! an identity as the 128-bit value of that UUID, so that comparing two
//! identities is a plain integer comparison.

use vstd::prelude::*;

verus! {

/// Identity of a playlist: the 128-bit value of its UUID.
#[derive(Clone, Copy, PartialEq, Eq, Structural, Debug, Hash)]
pub struct PlaylistId(pub u128);

/// What `uuid::Uuid::parse_str` yields on a given string, as the UUID's
/// 128-bit value; `None` where the string is not a valid UUID.
pub uninterp spec fn uuid_of(s: Seq<char>) -> Option<u128>;

/// Relies on `uuid::Uuid::parse_str` (and `Uuid::as_u128` to read the
/// parsed value out): the result depends on the characters alone.
#[verifier::external_body]
fn parse_uuid_value(s: &str) -> (r: Option<u128>)
    ensures
        r == uuid_of(s@),
{
    uuid::Uuid::parse_str(s).ok().map(|u| u.as_u128())
}

/// Parses a playlist id from its string form; `None` where the string is
/// not a valid UUID.
pub fn parse_playlist_id(s: &str) -> (r: Option<PlaylistId>)
    ensures
        r == spec_parse_playlist_id(s@),
{
    match parse_uuid_value(s) {
        Some(v) => Some(PlaylistId(v)),
        None => None,
    }
}

/// The playlist id a string stands for, going by its UUID value.
pub open spec fn spec_parse_playlist_id(s: Seq<char>) -> Option<PlaylistId> {
    match uuid_of(s) {
        Some(v) => Some(PlaylistId(v)),
        None => None,
    }
}

/// Parses an optional playlist id the way the schedule endpoints are read:
/// an absent string and a malformed string both yield `None`.
pub fn parse_optional_playlist_id(s: &Option<String>) -> (r: Option<PlaylistId>)
    ensures
        r == spec_parse_optional_playlist_id(*s),
{
    match s {
        Some(text) => parse_playlist_id(text.as_str()),
        None => None,
    }
}

/// The playlist id an optional string stands for.
pub open spec fn spec_parse_optional_playlist_id(s: Option<String>) -> Option<PlaylistId> {
    match s {
        Some(text) => spec_parse_playlist_id(text@),
        None => None,
    }
}

/// Whether a string is a well-formed UUID — a report addressed by a
/// malformed client id is dropped rather than sent.
pub fn is_valid_uuid(s: &str) -> (r: bool)
    ensures
        r == (uuid_of(s@) is Some),
{
    parse_uuid_value(s).is_some()
}

} // verus!
