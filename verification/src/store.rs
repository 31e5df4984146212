//! The revocation store, seen from the library: the commands that it is
//! sent and the replies that come back. A refresh token is good for a
//! session only while its record is in the store.

use vstd::prelude::*;

use crate::error::Error;
use crate::ids::{format_uuid, uuid_text};
use crate::models::token::{TokenDetails, TokenDetailsView};

verus! {

/// One command for the key-value backend: `SET key value [EX ttl]`,
/// `GET key` or `DEL key`. The value of a `Put` is the record as JSON.
#[derive(Debug, Clone)]
pub enum StoreCommand {
    Put { key: String, record: TokenDetails, ttl: Option<u64> },
    Get { key: String },
    Delete { key: String },
}

/// What a `StoreCommand` holds.
pub enum StoreCommandView {
    Put { key: Seq<char>, record: TokenDetailsView, ttl: Option<u64> },
    Get { key: Seq<char> },
    Delete { key: Seq<char> },
}

impl View for StoreCommand {
    type V = StoreCommandView;

    open spec fn view(&self) -> StoreCommandView {
        match self {
            StoreCommand::Put { key, record, ttl } => StoreCommandView::Put {
                key: key@,
                record: record@,
                ttl: *ttl,
            },
            StoreCommand::Get { key } => StoreCommandView::Get { key: key@ },
            StoreCommand::Delete { key } => StoreCommandView::Delete { key: key@ },
        }
    }
}

/// The answer to a `Get`.
#[derive(Debug, Clone)]
pub enum StoreReply {
    /// The key holds this record.
    Found(TokenDetails),
    /// The key holds nothing: the session was logged out or has run out.
    Missing,
    /// The key holds something that is no record.
    Unreadable,
    /// The backend could not be asked.
    Failed,
}

/// What a `StoreReply` holds.
pub enum StoreReplyView {
    Found(TokenDetailsView),
    Missing,
    Unreadable,
    Failed,
}

impl View for StoreReply {
    type V = StoreReplyView;

    open spec fn view(&self) -> StoreReplyView {
        match self {
            StoreReply::Found(record) => StoreReplyView::Found(record@),
            StoreReply::Missing => StoreReplyView::Missing,
            StoreReply::Unreadable => StoreReplyView::Unreadable,
            StoreReply::Failed => StoreReplyView::Failed,
        }
    }
}

/// The key of the record of a refresh token.
pub open spec fn refresh_key(token_id: u128) -> Seq<char> {
    "refresh_token:"@ + uuid_text(token_id)
}

/// The lifetime of a record written at `now`: none for a record without
/// expiry, and the seconds that are left for one whose expiry lies ahead.
/// A record whose expiry is reached or passed has no time left, and
/// writing it is refused with `TokenError`.
pub open spec fn record_ttl(expires_in: Option<i64>, now: i64) -> Result<Option<u64>, Error> {
    match expires_in {
        None => Ok(None),
        Some(at) => if at <= now {
            Err(Error::TokenError)
        } else {
            Ok(Some((at - now) as u64))
        },
    }
}

/// The command that writes the record of a refresh token at `now`, or the
/// refusal to write a record that has no time left.
pub open spec fn put_command(details: TokenDetailsView, now: i64) -> Result<
    StoreCommandView,
    Error,
> {
    match record_ttl(details.expires_in, now) {
        Ok(ttl) => Ok(
            StoreCommandView::Put { key: refresh_key(details.token_id), record: details, ttl },
        ),
        Err(err) => Err(err),
    }
}

/// What a result that carries a command holds.
pub open spec fn command_view(result: Result<StoreCommand, Error>) -> Result<
    StoreCommandView,
    Error,
> {
    match result {
        Ok(command) => Ok(command@),
        Err(err) => Err(err),
    }
}

pub fn store_key(token_id: u128) -> (r: String)
    ensures
        r@ == refresh_key(token_id),
{
    let mut key = String::from_str("refresh_token:");
    let id = format_uuid(token_id);
    key.append(id.as_str());
    key
}

pub fn ttl_at(expires_in: Option<i64>, now: i64) -> (r: Result<Option<u64>, Error>)
    ensures
        r == record_ttl(expires_in, now),
{
    match expires_in {
        None => Ok(None),
        Some(at) => {
            if at <= now {
                return Err(Error::TokenError);
            }
            let left: i128 = at as i128 - now as i128;
            Ok(Some(left as u64))
        },
    }
}

/// The command that writes a record, which is handed over.
pub fn put(details: TokenDetails, now: i64) -> (r: Result<StoreCommand, Error>)
    ensures
        command_view(r) == put_command(details@, now),
{
    let ttl = match ttl_at(details.expires_in, now) {
        Ok(ttl) => ttl,
        Err(err) => {
            return Err(err);
        },
    };
    let key = store_key(details.token_id);
    Ok(StoreCommand::Put { key, record: details, ttl })
}

/// The command that reads the record of a refresh token.
pub fn get(token_id: u128) -> (r: StoreCommand)
    ensures
        r@ == (StoreCommandView::Get { key: refresh_key(token_id) }),
{
    StoreCommand::Get { key: store_key(token_id) }
}

/// The command that removes the record of a refresh token. Removing it is
/// the one way to revoke a session.
pub fn delete(token_id: u128) -> (r: StoreCommand)
    ensures
        r@ == (StoreCommandView::Delete { key: refresh_key(token_id) }),
{
    StoreCommand::Delete { key: store_key(token_id) }
}

} // verus!
