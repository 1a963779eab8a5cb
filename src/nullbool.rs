//! Booleans that some servers send as `null` where they mean `false`.
use vstd::prelude::*;
use crate::json::{Json, JsonV, DecodeError, view_res, fields_view, lookup, find_field};

verus! {

/// `true` and `false` read as themselves, `null` as `false`; anything else
/// is an error naming the field `k`.
pub open spec fn null_bool(j: JsonV, k: &'static str) -> Result<bool, DecodeError> {
    match j {
        JsonV::Bool(b) => Ok(b),
        JsonV::Null => Ok(false),
        _ => Err(DecodeError::InvalidType(k)),
    }
}

/// A required field read with [`null_bool`].
pub open spec fn field_null_bool(fs: Seq<(Seq<char>, JsonV)>, k: &'static str) -> Result<bool, DecodeError> {
    match lookup(fs, k@) {
        Some(v) => null_bool(v, k),
        None => Err(DecodeError::MissingField(k)),
    }
}

/// Reads a boolean for the field `k`, taking `null` as `false`.
pub fn de(j: &Json, k: &'static str) -> (r: Result<bool, DecodeError>)
    ensures
        r == null_bool(j@, k),
{
    match j {
        Json::Bool(b) => Ok(*b),
        Json::Null => Ok(false),
        _ => Err(DecodeError::InvalidType(k)),
    }
}

/// Reads the required field `k` of an object with [`de`].
pub fn get_null_bool(fields: &Vec<(String, Json)>, k: &'static str) -> (r: Result<bool, DecodeError>)
    ensures
        view_res(r) == field_null_bool(fields_view(fields@), k),
{
    match find_field(fields, k) {
        Some(i) => de(&fields[i].1, k),
        None => Err(DecodeError::MissingField(k)),
    }
}

} // verus!
