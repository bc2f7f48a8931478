//! The boundary to the backend's client library: turning an address into a
//! client, and a reply into text.

use crate::error::{Error, ErrorKind, Strategy};
use vstd::prelude::*;
use vstd::string::StrSliceExecFns;
use vstd::utf8::{
    decode_utf8, encode_utf8, encode_utf8_decode_utf8, encode_utf8_valid_utf8, valid_utf8,
};

verus! {

/// `redis::Client`, declared so that it can be handed on. A client is a
/// parsed address; the library never looks inside one.
#[verifier::external_type_specification]
#[verifier::external_body]
pub struct ExClient(redis::Client);

/// What the backend answers to a read of one key.
#[derive(Debug, Clone, PartialEq, Eq)]
pub enum Reply {
    /// The key holds nothing.
    Nil,
    /// The bytes stored under the key.
    Bulk(Vec<u8>),
}

impl Reply {
    /// The reply of a backend that holds `text` under the key.
    pub fn holding(text: &str) -> (reply: Reply)
        ensures
            reply.text() == Some(text@),
            reply matches Reply::Bulk(bytes) && bytes@ == encode_utf8(text@),
    {
        proof {
            encode_utf8_valid_utf8(text@);
            encode_utf8_decode_utf8(text@);
        }
        Reply::Bulk(text.as_bytes_vec())
    }

    /// The string that the reply stands for, if it stands for one: its bytes
    /// read as UTF-8.
    pub open spec fn text(self) -> Option<Seq<char>> {
        match self {
            Reply::Nil => None,
            Reply::Bulk(bytes) => if valid_utf8(bytes@) {
                Some(decode_utf8(bytes@))
            } else {
                None
            },
        }
    }
}

/// Whether `redis::Client::open` takes `address` for the address of a
/// backend. It reads the text as a URL and looks at its scheme, host, port,
/// database number, credentials and protocol; it opens no connection and
/// asks nothing of the machine, so the text alone decides. Which texts pass
/// is the client library's to say and is not spelled out here.
pub uninterp spec fn address_accepted(address: Seq<char>) -> bool;

/// Calls `redis::Client::open` on the address. Claimed of it: whether it
/// gives a client depends on the text of the address alone, as
/// [`address_accepted`] names it. Nothing is claimed about the client or
/// the error that comes back.
#[verifier::external_body]
fn redis_client(address: &str) -> (opened: Result<redis::Client, redis::RedisError>)
    ensures
        opened is Ok <==> address_accepted(address@),
{
    redis::Client::open(address)
}

/// Calls `redis::from_redis_value::<String>` on the reply, written as a
/// `redis::Value`: `Nil` for [`Reply::Nil`], `BulkString` for
/// [`Reply::Bulk`]. Claimed of it: a bulk string of valid UTF-8 gives the
/// decoded string; invalid UTF-8 and `Nil` give an error.
#[verifier::external_body]
fn redis_text(reply: &Reply) -> (decoded: Result<String, redis::RedisError>)
    ensures
        match reply.text() {
            Some(text) => decoded matches Ok(s) && s@ == text,
            None => decoded is Err,
        },
{
    let value = match reply {
        Reply::Nil => redis::Value::Nil,
        Reply::Bulk(bytes) => redis::Value::BulkString(bytes.clone()),
    };
    redis::from_redis_value::<String>(&value)
}

/// What a request makes of an attempt to build a client: the client, or the
/// failure to connect as `strategy` reports it.
pub fn client_or_error(
    strategy: Strategy,
    opened: Result<redis::Client, redis::RedisError>,
) -> (outcome: Result<redis::Client, Error>)
    ensures
        match opened {
            Ok(client) => outcome == Ok::<redis::Client, Error>(client),
            Err(cause) => outcome == Err::<redis::Client, Error>(
                Error::spec_client(strategy, cause),
            ),
        },
{
    match opened {
        Ok(client) => Ok(client),
        Err(cause) => Err(Error::client(strategy, cause)),
    }
}

/// Builds the client for a backend address. It succeeds on exactly the
/// addresses that the client library accepts, whichever strategy asks; any
/// other address is a failure to connect, reported as `strategy` reports it.
pub fn open(strategy: Strategy, address: &str) -> (outcome: Result<redis::Client, Error>)
    ensures
        outcome is Ok <==> address_accepted(address@),
        outcome matches Err(error) ==> error.spec_kind() == ErrorKind::Client
            && error.spec_strategy() == strategy,
{
    client_or_error(strategy, redis_client(address))
}

/// What a request makes of a decoded reply: the string, or the failure to read
/// one as `strategy` reports it.
pub fn text_or_error(strategy: Strategy, decoded: Result<String, redis::RedisError>) -> (outcome:
    Result<String, Error>)
    ensures
        match decoded {
            Ok(text) => outcome == Ok::<String, Error>(text),
            Err(cause) => outcome == Err::<String, Error>(Error::spec_wrong_type(strategy, cause)),
        },
{
    match decoded {
        Ok(text) => Ok(text),
        Err(cause) => Err(Error::wrong_type(strategy, cause)),
    }
}

/// Reads the reply as a string. An absent value and bytes that are not UTF-8
/// are failures of kind [`ErrorKind::Type`]; everything else is the string.
pub fn read_text(strategy: Strategy, reply: &Reply) -> (outcome: Result<String, Error>)
    ensures
        match reply.text() {
            Some(text) => outcome matches Ok(s) && s@ == text,
            None => outcome matches Err(error) && error.spec_kind() == ErrorKind::Type
                && error.spec_strategy() == strategy,
        },
{
    text_or_error(strategy, redis_text(reply))
}

} // verus!
