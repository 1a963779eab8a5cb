//! Reading a response body: the server's error record first, then the
//! value that was asked for.
use vstd::prelude::*;
use crate::json::{
    Json, JsonV, DecodeError, FromJson, parse_json, json_of_bytes, decode_list, decode_seq,
    decode_items, seq_view,
};
use crate::entities::{ServerError, ServerErrorV};
use crate::errors::{Error, ErrorV, result_view};
use crate::notification::{Notification, NotificationV, RawNotification, normalize};

verus! {

/// What a response whose body is the JSON value `j` means, given the
/// outcome `target` of reading `j` as the value asked for: the server's
/// error where `j` reads as its error record, else that value, else the
/// diagnostic of reading the value.
pub open spec fn answer_of<V>(j: JsonV, target: Result<V, DecodeError>) -> Result<V, ErrorV> {
    match ServerError::decode_spec(j) {
        Ok(e) => Err(ErrorV::Server(e)),
        Err(_) => match target {
            Ok(v) => Ok(v),
            Err(d) => Err(ErrorV::Decode(d)),
        },
    }
}

/// What a response body means when a `T` was asked for.
pub open spec fn response_of<T: FromJson>(body: Option<JsonV>) -> Result<T::V, ErrorV> {
    match body {
        Some(j) => answer_of(j, T::decode_spec(j)),
        None => Err(ErrorV::Decode(DecodeError::Syntax)),
    }
}

/// What a response body means when a sequence of `T` was asked for.
pub open spec fn response_seq_of<T: FromJson>(body: Option<JsonV>) -> Result<Seq<T::V>, ErrorV> {
    match body {
        Some(j) => answer_of(j, decode_seq::<T>(j)),
        None => Err(ErrorV::Decode(DecodeError::Syntax)),
    }
}

/// The model of the outcome of reading a sequence.
pub open spec fn seq_result_view<T: View>(r: Result<Vec<T>, Error>) -> Result<Seq<T::V>, ErrorV> {
    match r {
        Ok(v) => Ok(seq_view(v@)),
        Err(e) => Err(e@),
    }
}

/// Reads a parsed body as a `T`, unless it is the server's error record.
pub fn decode_json<T: FromJson>(j: &Json) -> (r: Result<T, Error>)
    ensures
        result_view(r) == answer_of(j@, T::decode_spec(j@)),
{
    match ServerError::from_json(j) {
        Ok(e) => Err(Error::Server(e)),
        Err(_) => match T::from_json(j) {
            Ok(t) => Ok(t),
            Err(d) => Err(Error::Decode(d)),
        },
    }
}

/// Reads a parsed body as a sequence of `T`, unless it is the server's
/// error record.
pub fn decode_json_seq<T: FromJson>(j: &Json) -> (r: Result<Vec<T>, Error>)
    ensures
        seq_result_view(r) == answer_of(j@, decode_seq::<T>(j@)),
{
    match ServerError::from_json(j) {
        Ok(e) => Err(Error::Server(e)),
        Err(_) => match decode_list::<T>(j) {
            Ok(v) => Ok(v),
            Err(d) => Err(Error::Decode(d)),
        },
    }
}

/// Reads a response body as a `T`: the server's error record wins, then
/// the `T`; where neither fits, the diagnostic of reading the `T`.
pub fn decode_response<T: FromJson>(body: &[u8]) -> (r: Result<T, Error>)
    ensures
        result_view(r) == response_of::<T>(json_of_bytes(body@)),
{
    match parse_json(body) {
        Some(j) => decode_json(&j),
        None => Err(Error::Decode(DecodeError::Syntax)),
    }
}

/// Reads a response body as a sequence of `T`, in the order of the array.
pub fn decode_response_seq<T: FromJson>(body: &[u8]) -> (r: Result<Vec<T>, Error>)
    ensures
        seq_result_view(r) == response_seq_of::<T>(json_of_bytes(body@)),
{
    match parse_json(body) {
        Some(j) => decode_json_seq(&j),
        None => Err(Error::Decode(DecodeError::Syntax)),
    }
}

/// What a response body means when a notification was asked for.
pub open spec fn notification_of(body: Option<JsonV>) -> Result<NotificationV, ErrorV> {
    match response_of::<RawNotification>(body) {
        Ok(rn) => match normalize(rn) {
            Some(n) => Ok(n),
            None => Err(ErrorV::MalformedNotification(rn.id)),
        },
        Err(e) => Err(e),
    }
}

/// Reads a response body as a notification and sorts it into its kind.
pub fn decode_notification(body: &[u8]) -> (r: Result<Notification, Error>)
    ensures
        result_view(r) == notification_of(json_of_bytes(body@)),
{
    match decode_response::<RawNotification>(body) {
        Ok(rn) => Notification::from(rn),
        Err(e) => Err(e),
    }
}

/// Reading the same body twice gives the same outcome.
pub proof fn lemma_decode_idempotent<T: FromJson>(
    body: Seq<u8>,
    first: Result<T, Error>,
    second: Result<T, Error>,
)
    requires
        result_view(first) == response_of::<T>(json_of_bytes(body)),
        result_view(second) == response_of::<T>(json_of_bytes(body)),
    ensures
        result_view(first) == result_view(second),
{
}

/// A body that reads as the server's error record is the server's error,
/// whatever was asked for.
pub proof fn lemma_server_error_first<T: FromJson>(j: JsonV, e: ServerErrorV)
    requires
        ServerError::decode_spec(j) == Ok::<ServerErrorV, DecodeError>(e),
    ensures
        response_of::<T>(Some(j)) == Err::<T::V, ErrorV>(ErrorV::Server(e)),
        response_seq_of::<T>(Some(j)) == Err::<Seq<T::V>, ErrorV>(ErrorV::Server(e)),
{
}

/// A sequence read from an array has one item for each element, in order,
/// each being that element read as a `T`.
pub proof fn lemma_seq_keeps_order<T: FromJson>(items: Seq<JsonV>, vs: Seq<T::V>)
    requires
        decode_seq::<T>(JsonV::Array(items)) == Ok::<Seq<T::V>, DecodeError>(vs),
    ensures
        vs.len() == items.len(),
        forall|i: int| 0 <= i < items.len() ==> T::decode_spec(#[trigger] items[i])
            == Ok::<T::V, DecodeError>(vs[i]),
{
    lemma_items_order::<T>(items, items.len() as int, vs);
}

proof fn lemma_items_order<T: FromJson>(items: Seq<JsonV>, n: int, vs: Seq<T::V>)
    requires
        0 <= n <= items.len(),
        decode_items::<T>(items, n) == Ok::<Seq<T::V>, DecodeError>(vs),
    ensures
        vs.len() == n,
        forall|i: int| 0 <= i < n ==> T::decode_spec(#[trigger] items[i])
            == Ok::<T::V, DecodeError>(vs[i]),
    decreases n,
{
    if n > 0 {
        let prev = decode_items::<T>(items, n - 1)->Ok_0;
        lemma_items_order::<T>(items, n - 1, prev);
        assert(vs == prev.push(T::decode_spec(items[n - 1])->Ok_0));
    }
}

} // verus!
