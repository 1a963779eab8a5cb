//! The library's own JSON tree, and the one place where bytes become a tree.
use vstd::prelude::*;

verus! {

/// A JSON value as the decoders read it.
///
/// A number is kept as the unsigned integer it denotes, or `None` where it
/// is negative, fractional or too large for a `u64`.
#[derive(Debug, PartialEq, Eq)]
pub enum Json {
    Null,
    Bool(bool),
    Number(Option<u64>),
    Str(String),
    Array(Vec<Json>),
    Object(Vec<(String, Json)>),
}

/// The mathematical model of a [`Json`] value.
pub ghost enum JsonV {
    Null,
    Bool(bool),
    Number(Option<u64>),
    Str(Seq<char>),
    Array(Seq<JsonV>),
    Object(Seq<(Seq<char>, JsonV)>),
}

/// The model of a JSON value: strings as character sequences, arrays
/// and objects as sequences of models.
pub open spec fn json_view(j: Json) -> JsonV
    decreases j,
{
    match j {
        Json::Null => JsonV::Null,
        Json::Bool(b) => JsonV::Bool(b),
        Json::Number(n) => JsonV::Number(n),
        Json::Str(s) => JsonV::Str(s@),
        Json::Array(items) => JsonV::Array(
            Seq::new(items@.len(), |i: int|
                if 0 <= i < items@.len() { json_view(items@[i]) } else { JsonV::Null }),
        ),
        Json::Object(fields) => JsonV::Object(
            Seq::new(fields@.len(), |i: int|
                if 0 <= i < fields@.len() {
                    (fields@[i].0@, json_view(fields@[i].1))
                } else {
                    (Seq::empty(), JsonV::Null)
                }),
        ),
    }
}

/// The model of an object's field list.
pub open spec fn fields_view(fields: Seq<(String, Json)>) -> Seq<(Seq<char>, JsonV)> {
    Seq::new(fields.len(), |i: int| (fields[i].0@, fields[i].1@))
}

/// An object's model is the model of its field list.
pub proof fn lemma_object_view(fields: Vec<(String, Json)>)
    ensures
        Json::Object(fields)@ == JsonV::Object(fields_view(fields@)),
{
    assert(json_view(Json::Object(fields))->Object_0 =~= fields_view(fields@));
}

impl View for Json {
    type V = JsonV;

    open spec fn view(&self) -> JsonV {
        json_view(*self)
    }
}

#[verifier::external_type_specification]
#[verifier::external_body]
pub struct ExValue(serde_json::Value);

/// The tree that a byte buffer spells as one JSON text, if it spells one.
pub uninterp spec fn json_of_bytes(b: Seq<u8>) -> Option<JsonV>;

/// Relies on `serde_json::from_slice` into a `serde_json::Value`: it parses
/// the whole buffer as one JSON text and fails on anything else.
#[verifier::external_body]
pub(crate) fn parse_json(b: &[u8]) -> (r: Option<Json>)
    ensures
        match r {
            Some(j) => json_of_bytes(b@) == Some(j@),
            None => json_of_bytes(b@) is None,
        },
{
    match serde_json::from_slice::<serde_json::Value>(b) {
        Ok(v) => Some(from_value(v)),
        Err(_) => None,
    }
}

/// Moves a `serde_json::Value` into a [`Json`], variant for variant; relies
/// on `serde_json::Number::as_u64` for numbers.
#[verifier::external_body]
fn from_value(v: serde_json::Value) -> Json {
    match v {
        serde_json::Value::Null => Json::Null,
        serde_json::Value::Bool(b) => Json::Bool(b),
        serde_json::Value::Number(n) => Json::Number(n.as_u64()),
        serde_json::Value::String(s) => Json::Str(s),
        serde_json::Value::Array(a) => Json::Array(a.into_iter().map(from_value).collect()),
        serde_json::Value::Object(m) => Json::Object(
            m.into_iter().map(|(k, x)| (k, from_value(x))).collect(),
        ),
    }
}

/// Why a JSON value is not the record that was asked for.
#[derive(Debug, Clone, Copy, PartialEq, Eq)]
pub enum DecodeError {
    /// The bytes are not one JSON text.
    Syntax,
    /// A record was asked for and the value is not an object.
    NotAnObject,
    /// A sequence was asked for and the value is not an array.
    NotAnArray,
    /// The object lacks the named field.
    MissingField(&'static str),
    /// The named field holds a value of the wrong kind.
    InvalidType(&'static str),
    /// The named field holds a string that names no known variant.
    UnknownVariant(&'static str),
}

/// Index of the first field of `fs` named `k`, searching from `i`.
pub open spec fn index_from(fs: Seq<(Seq<char>, JsonV)>, k: Seq<char>, i: int) -> Option<int>
    decreases fs.len() - i,
{
    if i < 0 || i >= fs.len() {
        None
    } else if fs[i].0 == k {
        Some(i)
    } else {
        index_from(fs, k, i + 1)
    }
}

/// The value of the first field of `fs` named `k`.
pub open spec fn lookup(fs: Seq<(Seq<char>, JsonV)>, k: Seq<char>) -> Option<JsonV> {
    match index_from(fs, k, 0) {
        Some(i) => Some(fs[i].1),
        None => None,
    }
}

/// A field found by [`index_from`] lies in range and has the name searched for.
pub proof fn lemma_index_from_bounds(fs: Seq<(Seq<char>, JsonV)>, k: Seq<char>, i: int)
    ensures
        index_from(fs, k, i) matches Some(n) ==> 0 <= i <= n < fs.len() && fs[n].0 == k,
    decreases fs.len() - i,
{
    if 0 <= i < fs.len() && fs[i].0 != k {
        lemma_index_from_bounds(fs, k, i + 1);
    }
}

/// Finds the first field named `k` in an object's field list.
pub fn find_field(fields: &Vec<(String, Json)>, k: &str) -> (r: Option<usize>)
    ensures
        lookup(fields_view(fields@), k@) == match r {
            Some(i) => Some(fields@[i as int].1@),
            None => None::<JsonV>,
        },
        r matches Some(i) ==> i < fields@.len(),
{
    let ghost fs = fields_view(fields@);
    let key = k.to_owned();
    let mut i: usize = 0;
    while i < fields.len()
        invariant
            0 <= i <= fields@.len(),
            fs == fields_view(fields@),
            key@ == k@,
            index_from(fs, k@, 0) == index_from(fs, k@, i as int),
        decreases fields.len() - i,
    {
        if fields[i].0 == key {
            assert(index_from(fs, k@, i as int) == Some(i as int));
            return Some(i);
        }
        i = i + 1;
    }
    None
}

/// The model of a decoding outcome: the value's model, or the error.
pub open spec fn view_res<T: View>(r: Result<T, DecodeError>) -> Result<T::V, DecodeError> {
    match r {
        Ok(t) => Ok(t@),
        Err(e) => Err(e),
    }
}

/// A type that can be read from a [`Json`] value.
pub trait FromJson: Sized + View {
    /// What reading `j` gives: the model of the value, or the first error.
    spec fn decode_spec(j: JsonV) -> Result<Self::V, DecodeError>;

    /// Reads `j`; the outcome is exactly the one that `decode_spec` gives.
    fn from_json(j: &Json) -> (r: Result<Self, DecodeError>)
        ensures
            view_res(r) == Self::decode_spec(j@),
    ;
}

/// A type that can be written as a [`Json`] value.
pub trait ToJson: Sized + View {
    /// The JSON model that the value with model `v` is written as.
    spec fn encode_spec(v: Self::V) -> JsonV;

    /// Writes the value as the tree that `encode_spec` gives.
    fn to_json(&self) -> (j: Json)
        ensures
            j@ == Self::encode_spec(self@),
    ;
}

/// A required string field.
pub open spec fn field_str(fs: Seq<(Seq<char>, JsonV)>, k: &'static str) -> Result<Seq<char>, DecodeError> {
    match lookup(fs, k@) {
        Some(JsonV::Str(s)) => Ok(s),
        Some(_) => Err(DecodeError::InvalidType(k)),
        None => Err(DecodeError::MissingField(k)),
    }
}

/// A required unsigned integer field.
pub open spec fn field_u64(fs: Seq<(Seq<char>, JsonV)>, k: &'static str) -> Result<u64, DecodeError> {
    match lookup(fs, k@) {
        Some(JsonV::Number(Some(n))) => Ok(n),
        Some(_) => Err(DecodeError::InvalidType(k)),
        None => Err(DecodeError::MissingField(k)),
    }
}

/// A required boolean field.
pub open spec fn field_bool(fs: Seq<(Seq<char>, JsonV)>, k: &'static str) -> Result<bool, DecodeError> {
    match lookup(fs, k@) {
        Some(JsonV::Bool(b)) => Ok(b),
        Some(_) => Err(DecodeError::InvalidType(k)),
        None => Err(DecodeError::MissingField(k)),
    }
}

/// An optional field: absent and `null` both read as `None`.
pub open spec fn field_opt(fs: Seq<(Seq<char>, JsonV)>, k: &'static str) -> Option<JsonV> {
    match lookup(fs, k@) {
        Some(JsonV::Null) => None,
        Some(v) => Some(v),
        None => None,
    }
}

/// An optional string field.
pub open spec fn field_opt_str(fs: Seq<(Seq<char>, JsonV)>, k: &'static str) -> Result<Option<Seq<char>>, DecodeError> {
    match field_opt(fs, k) {
        Some(JsonV::Str(s)) => Ok(Some(s)),
        Some(_) => Err(DecodeError::InvalidType(k)),
        None => Ok(None),
    }
}

/// An optional unsigned integer field.
pub open spec fn field_opt_u64(fs: Seq<(Seq<char>, JsonV)>, k: &'static str) -> Result<Option<u64>, DecodeError> {
    match field_opt(fs, k) {
        Some(JsonV::Number(Some(n))) => Ok(Some(n)),
        Some(_) => Err(DecodeError::InvalidType(k)),
        None => Ok(None),
    }
}

/// A required field holding a record.
pub open spec fn field_rec<T: FromJson>(fs: Seq<(Seq<char>, JsonV)>, k: &'static str) -> Result<T::V, DecodeError> {
    match lookup(fs, k@) {
        Some(v) => T::decode_spec(v),
        None => Err(DecodeError::MissingField(k)),
    }
}

/// An optional field holding a record.
pub open spec fn field_opt_rec<T: FromJson>(fs: Seq<(Seq<char>, JsonV)>, k: &'static str) -> Result<Option<T::V>, DecodeError> {
    match field_opt(fs, k) {
        Some(v) => match T::decode_spec(v) {
            Ok(t) => Ok(Some(t)),
            Err(e) => Err(e),
        },
        None => Ok(None),
    }
}

/// The model of an optional string.
pub open spec fn opt_str_view(o: Option<String>) -> Option<Seq<char>> {
    match o {
        Some(s) => Some(s@),
        None => None,
    }
}

/// The model of an optional record.
pub open spec fn opt_view<T: View>(o: Option<T>) -> Option<T::V> {
    match o {
        Some(t) => Some(t@),
        None => None,
    }
}

/// Reads the required string field `k` of an object.
pub fn get_str(fields: &Vec<(String, Json)>, k: &'static str) -> (r: Result<String, DecodeError>)
    ensures
        view_res(r) == field_str(fields_view(fields@), k),
{
    match find_field(fields, k) {
        Some(i) => match &fields[i].1 {
            Json::Str(s) => Ok(s.clone()),
            _ => Err(DecodeError::InvalidType(k)),
        },
        None => Err(DecodeError::MissingField(k)),
    }
}

/// Reads the required unsigned integer field `k` of an object.
pub fn get_u64(fields: &Vec<(String, Json)>, k: &'static str) -> (r: Result<u64, DecodeError>)
    ensures
        view_res(r) == field_u64(fields_view(fields@), k),
{
    match find_field(fields, k) {
        Some(i) => match &fields[i].1 {
            Json::Number(Some(n)) => Ok(*n),
            _ => Err(DecodeError::InvalidType(k)),
        },
        None => Err(DecodeError::MissingField(k)),
    }
}

/// Reads the required boolean field `k` of an object.
pub fn get_bool(fields: &Vec<(String, Json)>, k: &'static str) -> (r: Result<bool, DecodeError>)
    ensures
        view_res(r) == field_bool(fields_view(fields@), k),
{
    match find_field(fields, k) {
        Some(i) => match &fields[i].1 {
            Json::Bool(b) => Ok(*b),
            _ => Err(DecodeError::InvalidType(k)),
        },
        None => Err(DecodeError::MissingField(k)),
    }
}

/// Reads the optional string field `k` of an object.
pub fn get_opt_str(fields: &Vec<(String, Json)>, k: &'static str) -> (r: Result<Option<String>, DecodeError>)
    ensures
        match r {
            Ok(o) => field_opt_str(fields_view(fields@), k) == Ok::<_, DecodeError>(opt_str_view(o)),
            Err(e) => field_opt_str(fields_view(fields@), k) == Err::<Option<Seq<char>>, _>(e),
        },
{
    match find_field(fields, k) {
        Some(i) => match &fields[i].1 {
            Json::Null => Ok(None),
            Json::Str(s) => Ok(Some(s.clone())),
            _ => Err(DecodeError::InvalidType(k)),
        },
        None => Ok(None),
    }
}

/// Reads the optional unsigned integer field `k` of an object.
pub fn get_opt_u64(fields: &Vec<(String, Json)>, k: &'static str) -> (r: Result<Option<u64>, DecodeError>)
    ensures
        view_res(r) == field_opt_u64(fields_view(fields@), k),
{
    match find_field(fields, k) {
        Some(i) => match &fields[i].1 {
            Json::Null => Ok(None),
            Json::Number(Some(n)) => Ok(Some(*n)),
            _ => Err(DecodeError::InvalidType(k)),
        },
        None => Ok(None),
    }
}

/// Reads the required record field `k` of an object.
pub fn get_rec<T: FromJson>(fields: &Vec<(String, Json)>, k: &'static str) -> (r: Result<T, DecodeError>)
    ensures
        view_res(r) == field_rec::<T>(fields_view(fields@), k),
{
    match find_field(fields, k) {
        Some(i) => T::from_json(&fields[i].1),
        None => Err(DecodeError::MissingField(k)),
    }
}

/// Reads the optional record field `k` of an object.
pub fn get_opt_rec<T: FromJson>(fields: &Vec<(String, Json)>, k: &'static str) -> (r: Result<Option<T>, DecodeError>)
    ensures
        match r {
            Ok(o) => field_opt_rec::<T>(fields_view(fields@), k) == Ok::<_, DecodeError>(opt_view(o)),
            Err(e) => field_opt_rec::<T>(fields_view(fields@), k) == Err::<Option<T::V>, _>(e),
        },
{
    match find_field(fields, k) {
        Some(i) => match &fields[i].1 {
            Json::Null => Ok(None),
            v => match T::from_json(v) {
                Ok(t) => Ok(Some(t)),
                Err(e) => Err(e),
            },
        },
        None => Ok(None),
    }
}

/// Reads the first `n` items in order; the first failure is the error.
pub open spec fn decode_items<T: FromJson>(items: Seq<JsonV>, n: int) -> Result<Seq<T::V>, DecodeError>
    decreases n,
{
    if n <= 0 {
        Ok(Seq::empty())
    } else {
        match decode_items::<T>(items, n - 1) {
            Ok(vs) => match T::decode_spec(items[n - 1]) {
                Ok(v) => Ok(vs.push(v)),
                Err(e) => Err(e),
            },
            Err(e) => Err(e),
        }
    }
}

proof fn lemma_decode_items_err<T: FromJson>(items: Seq<JsonV>, n: int, m: int, e: DecodeError)
    requires
        n <= m,
        decode_items::<T>(items, n) == Err::<Seq<T::V>, _>(e),
    ensures
        decode_items::<T>(items, m) == Err::<Seq<T::V>, _>(e),
    decreases m - n,
{
    if n < m {
        lemma_decode_items_err::<T>(items, n, m - 1, e);
    }
}

/// Reads a JSON array as a sequence of `T`, keeping the order.
pub open spec fn decode_seq<T: FromJson>(j: JsonV) -> Result<Seq<T::V>, DecodeError> {
    match j {
        JsonV::Array(items) => decode_items::<T>(items, items.len() as int),
        _ => Err(DecodeError::NotAnArray),
    }
}

/// The model of a vector of records.
pub open spec fn seq_view<T: View>(v: Seq<T>) -> Seq<T::V> {
    v.map_values(|t: T| t@)
}

/// A required field holding an array of records.
pub open spec fn field_list<T: FromJson>(fs: Seq<(Seq<char>, JsonV)>, k: &'static str) -> Result<Seq<T::V>, DecodeError> {
    match lookup(fs, k@) {
        Some(v) => decode_seq::<T>(v),
        None => Err(DecodeError::MissingField(k)),
    }
}

/// Reads a JSON array as a vector of `T`.
pub fn decode_list<T: FromJson>(j: &Json) -> (r: Result<Vec<T>, DecodeError>)
    ensures
        match r {
            Ok(v) => decode_seq::<T>(j@) == Ok::<_, DecodeError>(seq_view(v@)),
            Err(e) => decode_seq::<T>(j@) == Err::<Seq<T::V>, _>(e),
        },
{
    match j {
        Json::Array(items) => {
            let ghost vs = j@->Array_0;
            assert(vs.len() == items@.len());
            let mut out: Vec<T> = Vec::new();
            assert(seq_view(out@) =~= Seq::<T::V>::empty());
            let mut i: usize = 0;
            while i < items.len()
                invariant
                    0 <= i <= items@.len(),
                    j@ == JsonV::Array(vs),
                    vs.len() == items@.len(),
                    forall|n: int| 0 <= n < vs.len() ==> vs[n] == (#[trigger] items@[n])@,
                    decode_items::<T>(vs, i as int) == Ok::<_, DecodeError>(seq_view(out@)),
                decreases items.len() - i,
            {
                match T::from_json(&items[i]) {
                    Ok(t) => {
                        proof {
                            assert(seq_view(out@.push(t)) =~= seq_view(out@).push(t@));
                        }
                        out.push(t);
                    },
                    Err(e) => {
                        proof {
                            assert(vs[i as int] == items@[i as int]@);
                            assert(decode_items::<T>(vs, i as int + 1) == Err::<Seq<T::V>, _>(e));
                            lemma_decode_items_err::<T>(vs, i as int + 1, vs.len() as int, e);
                        }
                        return Err(e);
                    },
                }
                i = i + 1;
            }
            Ok(out)
        },
        _ => Err(DecodeError::NotAnArray),
    }
}

/// Reads the required array field `k` of an object as a vector of `T`.
pub fn get_list<T: FromJson>(fields: &Vec<(String, Json)>, k: &'static str) -> (r: Result<Vec<T>, DecodeError>)
    ensures
        match r {
            Ok(v) => field_list::<T>(fields_view(fields@), k) == Ok::<_, DecodeError>(seq_view(v@)),
            Err(e) => field_list::<T>(fields_view(fields@), k) == Err::<Seq<T::V>, _>(e),
        },
{
    match find_field(fields, k) {
        Some(i) => decode_list::<T>(&fields[i].1),
        None => Err(DecodeError::MissingField(k)),
    }
}

/// A type whose JSON encoding reads back as the value it came from.
pub trait JsonRecord: FromJson + ToJson {
    /// Decoding the encoding of any value gives that value back.
    proof fn lemma_round_trip(v: Self::V)
        ensures
            Self::decode_spec(Self::encode_spec(v)) == Ok::<Self::V, DecodeError>(v),
    ;
}

/// A sequence is written as an array of its items' encodings.
pub open spec fn encode_seq<T: ToJson>(vs: Seq<T::V>) -> JsonV {
    JsonV::Array(vs.map_values(|v: T::V| T::encode_spec(v)))
}

/// Writes a vector of records as a JSON array, keeping the order.
pub fn encode_list<T: ToJson>(v: &Vec<T>) -> (j: Json)
    ensures
        j@ == encode_seq::<T>(seq_view(v@)),
{
    let mut out: Vec<Json> = Vec::new();
    let mut i: usize = 0;
    while i < v.len()
        invariant
            0 <= i <= v@.len(),
            out@.len() == i,
            forall|n: int| 0 <= n < i ==> (#[trigger] out@[n])@ == T::encode_spec(v@[n]@),
        decreases v.len() - i,
    {
        out.push(v[i].to_json());
        i = i + 1;
    }
    let j = Json::Array(out);
    assert(j@->Array_0 =~= seq_view(v@).map_values(|x: T::V| T::encode_spec(x)));
    j
}

/// Decoding the encoding of a sequence of records gives the sequence back.
pub proof fn lemma_list_round_trip<T: JsonRecord>(vs: Seq<T::V>)
    ensures
        decode_seq::<T>(encode_seq::<T>(vs)) == Ok::<_, DecodeError>(vs),
{
    let items = vs.map_values(|v: T::V| T::encode_spec(v));
    assert forall|n: int| 0 <= n <= vs.len() implies decode_items::<T>(items, n)
        == Ok::<_, DecodeError>(vs.subrange(0, n)) by {
        lemma_items_round_trip::<T>(vs, n);
    }
    assert(vs.subrange(0, vs.len() as int) =~= vs);
}

proof fn lemma_items_round_trip<T: JsonRecord>(vs: Seq<T::V>, n: int)
    requires
        0 <= n <= vs.len(),
    ensures
        decode_items::<T>(vs.map_values(|v: T::V| T::encode_spec(v)), n)
            == Ok::<_, DecodeError>(vs.subrange(0, n)),
    decreases n,
{
    if n > 0 {
        lemma_items_round_trip::<T>(vs, n - 1);
        T::lemma_round_trip(vs[n - 1]);
        assert(vs.subrange(0, n - 1).push(vs[n - 1]) =~= vs.subrange(0, n));
    } else {
        assert(vs.subrange(0, 0) =~= Seq::<T::V>::empty());
    }
}

/// A type whose values can be copied with a proof that the copy has the
/// same model.
pub trait DeepCopy: Sized + View {
    fn deep_copy(&self) -> (r: Self)
        ensures
            r@ == self@,
    ;
}

/// Copies a vector of records item by item.
pub fn copy_list<T: DeepCopy>(v: &Vec<T>) -> (r: Vec<T>)
    ensures
        seq_view(r@) == seq_view(v@),
{
    let mut out: Vec<T> = Vec::new();
    let mut i: usize = 0;
    while i < v.len()
        invariant
            0 <= i <= v@.len(),
            out@.len() == i,
            forall|n: int| 0 <= n < i ==> (#[trigger] out@[n])@ == v@[n]@,
        decreases v.len() - i,
    {
        out.push(v[i].deep_copy());
        i = i + 1;
    }
    assert(seq_view(out@) =~= seq_view(v@));
    out
}

/// Pairs a field name with its value.
pub fn entry(k: &str, j: Json) -> (r: (String, Json))
    ensures
        r.0@ == k@,
        r.1 == j,
{
    (k.to_owned(), j)
}

/// An optional integer is written as the number, or as `null`.
pub open spec fn opt_u64_json_spec(o: Option<u64>) -> JsonV {
    match o {
        Some(n) => JsonV::Number(Some(n)),
        None => JsonV::Null,
    }
}

/// Writes an optional integer.
pub fn opt_u64_json(o: Option<u64>) -> (r: Json)
    ensures
        r@ == opt_u64_json_spec(o),
{
    match o {
        Some(n) => Json::Number(Some(n)),
        None => Json::Null,
    }
}

/// An optional record is written as its encoding, or as `null`.
pub open spec fn opt_rec_json<T: ToJson>(o: Option<T::V>) -> JsonV {
    match o {
        Some(v) => T::encode_spec(v),
        None => JsonV::Null,
    }
}

} // verus!
