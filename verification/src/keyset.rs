//! The provider's published key set: reading it out of a discovery reply and
//! choosing a token's signing key from it.
//!
//! The set and its keys are `alcoholic_jwt`'s own types and stay opaque. What
//! the verifier knows of a set is the list of its key ids.

use vstd::prelude::*;
use alcoholic_jwt::{JWK, JWKS};
use crate::claims::text_view;
use crate::error::{Error, KeyLookupFailure};
use crate::transport::HttpReply;

verus! {

#[verifier::external_type_specification]
#[verifier::external_body]
pub struct ExKeySet(JWKS);

#[verifier::external_type_specification]
#[verifier::external_body]
pub struct ExKey(JWK);

/// The key ids of the keys in a set, in the order in which the set holds
/// them; `None` stands for a key that carries no id.
pub uninterp spec fn key_ids(set: JWKS) -> Seq<Option<Seq<char>>>;

/// What `serde_json::from_slice` makes of `body` when asked for a key set:
/// the set it builds, or `None` where it refuses the body.
pub uninterp spec fn parsed_key_set(body: Seq<u8>) -> Option<JWKS>;

/// What `JWKS::find` gives for `key_id`: the key of the set that carries this
/// id, or `None` where the set holds no such key.
pub uninterp spec fn found_key(set: JWKS, key_id: Seq<char>) -> Option<JWK>;

/// The key ids of the set that `body` spells, where it spells one.
pub open spec fn parsed_key_ids(body: Seq<u8>) -> Option<Seq<Option<Seq<char>>>> {
    match parsed_key_set(body) {
        Some(set) => Some(key_ids(set)),
        None => None,
    }
}

/// `serde_json::from_slice` at `alcoholic_jwt::JWKS`. The parser is a
/// function of the bytes alone: what it builds of them, or that it refuses
/// them, is what [`parsed_key_set`] stands for.
#[verifier::external_body]
fn parse_key_set(body: &Vec<u8>) -> (set: Option<JWKS>)
    ensures
        set == parsed_key_set(body@),
{
    serde_json::from_slice::<JWKS>(body.as_slice()).ok()
}

/// `JWKS::find`: a key of the set whose id is `key_id`. The set is searched
/// for a key that carries exactly this id, so a key comes back if and only
/// if the id is among the set's key ids; which key it is, is what
/// [`found_key`] stands for.
#[verifier::external_body]
fn find_key<'a>(set: &'a JWKS, key_id: &str) -> (key: Option<&'a JWK>)
    ensures
        key is Some <==> key_ids(*set).contains(Some(key_id@)),
        match key {
            Some(k) => found_key(*set, key_id@) == Some(*k),
            None => found_key(*set, key_id@) is None,
        },
{
    set.find(key_id)
}

/// The key set that a discovery reply delivers, as key ids: the transport
/// failure where the reply is one, `MalformedKeySet` where the body is not a
/// key set.
pub open spec fn delivered_key_ids(reply: HttpReply) -> Result<Seq<Option<Seq<char>>>, Error> {
    match reply.failure() {
        Some(failure) => Err(Error::Transport(failure)),
        None => match parsed_key_ids(reply.payload()) {
            Some(ids) => Ok(ids),
            None => Err(Error::MalformedKeySet),
        },
    }
}

/// Why no key can be chosen from a set with the ids `ids` for a token whose
/// header names `key_id`, if none can.
pub open spec fn lookup_failure(
    ids: Seq<Option<Seq<char>>>,
    key_id: Option<Seq<char>>,
) -> Option<KeyLookupFailure> {
    match key_id {
        None => Some(KeyLookupFailure::MissingKeyId),
        Some(id) => if ids.contains(Some(id)) {
            None
        } else {
            Some(KeyLookupFailure::NotInKeySet)
        },
    }
}

/// Reads the key set out of the reply to a discovery request.
///
/// Nothing is kept between calls: every verification reads the set from the
/// reply it was handed.
pub fn read_key_set(reply: &HttpReply) -> (r: Result<JWKS, Error>)
    ensures
        match delivered_key_ids(*reply) {
            Ok(ids) => r is Ok && key_ids(r->Ok_0) == ids && parsed_key_set(reply.payload())
                == Some(r->Ok_0),
            Err(e) => r is Err && r->Err_0 == e,
        },
{
    match reply.delivered() {
        Err(e) => Err(e),
        Ok(body) => match parse_key_set(body) {
            Some(set) => Ok(set),
            None => Err(Error::MalformedKeySet),
        },
    }
}

/// Chooses the signing key: the key of the set that carries the id named in
/// the token's header.
///
/// The id has to be there and has to match exactly. No other key is ever
/// tried in its place.
pub fn resolve_key<'a>(set: &'a JWKS, key_id: &Option<String>) -> (r: Result<&'a JWK, Error>)
    ensures
        match lookup_failure(key_ids(*set), text_view(*key_id)) {
            Some(failure) => r is Err && r->Err_0 == Error::UnknownSigningKey(failure),
            None => r is Ok && found_key(*set, key_id->Some_0@) == Some(*r->Ok_0),
        },
{
    match key_id {
        None => Err(Error::UnknownSigningKey(KeyLookupFailure::MissingKeyId)),
        Some(id) => match find_key(set, id.as_str()) {
            Some(key) => Ok(key),
            None => Err(Error::UnknownSigningKey(KeyLookupFailure::NotInKeySet)),
        },
    }
}

} // verus!
