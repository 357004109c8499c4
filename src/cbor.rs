use vstd::prelude::*;

use crate::error::SmpError;
use crate::frame::slice_to_vec;

verus! {

/// A CBOR data item as far as the management records read it.
#[derive(Debug, PartialEq)]
pub enum CborValue {
    Null,
    Bool(bool),
    Integer(i128),
    Bytes(Vec<u8>),
    Text(String),
    Array(Vec<CborValue>),
    Dict(Vec<(CborValue, CborValue)>),
    /// A floating-point number or another item that no record reads.
    Other,
}

/// A map entry with text key `k` and value `v`.
pub open spec fn entry_is(e: (CborValue, CborValue), k: Seq<char>, v: CborValue) -> bool {
    &&& e.0 matches CborValue::Text(s) && s@ == k
    &&& e.1 == v
}

/// Whether `k` is the text key `name`.
pub open spec fn is_key(k: CborValue, name: Seq<char>) -> bool {
    k matches CborValue::Text(s) && s@ == name
}

/// The value of the first entry of `entries` whose key is the text `name`.
pub open spec fn map_lookup(entries: Seq<(CborValue, CborValue)>, name: Seq<char>) -> Option<
    CborValue,
>
    decreases entries.len(),
{
    if entries.len() == 0 {
        None
    } else if is_key(entries[0].0, name) {
        Some(entries[0].1)
    } else {
        map_lookup(entries.subrange(1, entries.len() as int), name)
    }
}

/// The value under text key `name` when `v` is a map.
pub open spec fn field(v: CborValue, name: Seq<char>) -> Option<CborValue> {
    match v {
        CborValue::Dict(entries) => map_lookup(entries@, name),
        _ => None,
    }
}

/// The return code of a response body: an integer under key `"rc"`, if there is one.
pub open spec fn rc_of(v: CborValue) -> Option<i128> {
    match field(v, "rc"@) {
        Some(CborValue::Integer(rc)) => Some(rc),
        _ => None,
    }
}

/// The outcome of the return-code check: a non-zero `"rc"` is a device error.
pub open spec fn rc_outcome(v: CborValue) -> Result<(), SmpError> {
    match rc_of(v) {
        Some(rc) => if rc != 0 {
            Err(SmpError::DeviceError(rc))
        } else {
            Ok(())
        },
        None => Ok(()),
    }
}

/// Whether `s` is the text `name`.
pub fn text_is(s: &String, name: &str) -> (r: bool)
    ensures
        r == (s@ == name@),
{
    let n = name.to_owned();
    *s == n
}

/// The value of the first entry whose key is the text `name`.
pub fn lookup<'a>(entries: &'a Vec<(CborValue, CborValue)>, name: &str) -> (r: Option<&'a CborValue>)
    ensures
        match r {
            Some(v) => map_lookup(entries@, name@) == Some(*v),
            None => map_lookup(entries@, name@) is None,
        },
{
    let mut i: usize = 0;
    assert(entries@.subrange(0, entries@.len() as int) =~= entries@);
    while i < entries.len()
        invariant
            i <= entries@.len(),
            map_lookup(entries@, name@) == map_lookup(
                entries@.subrange(i as int, entries@.len() as int),
                name@,
            ),
        decreases entries@.len() - i,
    {
        let ghost rest = entries@.subrange(i as int, entries@.len() as int);
        assert(rest.subrange(1, rest.len() as int) =~= entries@.subrange(
            i + 1,
            entries@.len() as int,
        ));
        let (k, v) = &entries[i];
        let hit = match k {
            CborValue::Text(s) => text_is(s, name),
            _ => false,
        };
        if hit {
            return Some(v);
        }
        i += 1;
    }
    None
}

/// The value under text key `name` when `v` is a map.
pub fn get_field<'a>(v: &'a CborValue, name: &str) -> (r: Option<&'a CborValue>)
    ensures
        match r {
            Some(x) => field(*v, name@) == Some(*x),
            None => field(*v, name@) is None,
        },
{
    match v {
        CborValue::Dict(entries) => lookup(entries, name),
        _ => None,
    }
}

/// The return code of a response body, if it carries one.
pub fn get_rc(response_body: &CborValue) -> (r: Option<i128>)
    ensures
        r == rc_of(*response_body),
{
    proof {
        reveal_strlit("rc");
    }
    match get_field(response_body, "rc") {
        Some(CborValue::Integer(rc)) => Some(*rc),
        _ => None,
    }
}

/// `Ok` unless the body carries a non-zero return code, which is a device error.
pub fn check_rc(response_body: &CborValue) -> (r: Result<(), SmpError>)
    ensures
        r == rc_outcome(*response_body),
{
    match get_rc(response_body) {
        Some(rc) => if rc != 0 {
            Err(SmpError::DeviceError(rc))
        } else {
            Ok(())
        },
        None => Ok(()),
    }
}

/// A text value holding `s`.
pub fn text(s: &str) -> (r: CborValue)
    ensures
        r matches CborValue::Text(t) && t@ == s@,
{
    CborValue::Text(s.to_owned())
}

/// A byte-string value holding `b`.
pub fn bytes(b: &[u8]) -> (r: CborValue)
    ensures
        r matches CborValue::Bytes(v) && v@ == b@,
{
    CborValue::Bytes(slice_to_vec(b, 0, b.len()))
}

/// A map entry with text key `k`.
pub fn entry(k: &str, v: CborValue) -> (r: (CborValue, CborValue))
    ensures
        entry_is(r, k@, v),
{
    (text(k), v)
}

/// An empty map, the body of requests that carry no fields.
pub fn empty_map() -> (r: CborValue)
    ensures
        r matches CborValue::Dict(e) && e@.len() == 0,
{
    CborValue::Dict(Vec::new())
}

/// A `u32` read from an integer value.
pub open spec fn as_u32(v: CborValue) -> Option<u32> {
    match v {
        CborValue::Integer(i) => if 0 <= i <= u32::MAX {
            Some(i as u32)
        } else {
            None
        },
        _ => None,
    }
}

/// An `i32` read from an integer value.
pub open spec fn as_i32(v: CborValue) -> Option<i32> {
    match v {
        CborValue::Integer(i) => if i32::MIN <= i <= i32::MAX {
            Some(i as i32)
        } else {
            None
        },
        _ => None,
    }
}

/// An `i64` read from an integer value.
pub open spec fn as_i64(v: CborValue) -> Option<i64> {
    match v {
        CborValue::Integer(i) => if i64::MIN <= i <= i64::MAX {
            Some(i as i64)
        } else {
            None
        },
        _ => None,
    }
}

/// A `u64` read from an integer value.
pub open spec fn as_u64(v: CborValue) -> Option<u64> {
    match v {
        CborValue::Integer(i) => if 0 <= i <= u64::MAX {
            Some(i as u64)
        } else {
            None
        },
        _ => None,
    }
}

pub fn read_u32(v: &CborValue) -> (r: Result<u32, SmpError>)
    ensures
        match as_u32(*v) {
            Some(x) => r == Ok::<u32, SmpError>(x),
            None => r == Err::<u32, SmpError>(SmpError::DecodeError),
        },
{
    match v {
        CborValue::Integer(i) => if 0 <= *i && *i <= 0xffff_ffff {
            Ok(*i as u32)
        } else {
            Err(SmpError::DecodeError)
        },
        _ => Err(SmpError::DecodeError),
    }
}

pub fn read_i32(v: &CborValue) -> (r: Result<i32, SmpError>)
    ensures
        match as_i32(*v) {
            Some(x) => r == Ok::<i32, SmpError>(x),
            None => r == Err::<i32, SmpError>(SmpError::DecodeError),
        },
{
    match v {
        CborValue::Integer(i) => if -0x8000_0000 <= *i && *i <= 0x7fff_ffff {
            Ok(*i as i32)
        } else {
            Err(SmpError::DecodeError)
        },
        _ => Err(SmpError::DecodeError),
    }
}

pub fn read_i64(v: &CborValue) -> (r: Result<i64, SmpError>)
    ensures
        match as_i64(*v) {
            Some(x) => r == Ok::<i64, SmpError>(x),
            None => r == Err::<i64, SmpError>(SmpError::DecodeError),
        },
{
    match v {
        CborValue::Integer(i) => if -0x8000_0000_0000_0000 <= *i && *i <= 0x7fff_ffff_ffff_ffff {
            Ok(*i as i64)
        } else {
            Err(SmpError::DecodeError)
        },
        _ => Err(SmpError::DecodeError),
    }
}

pub fn read_u64(v: &CborValue) -> (r: Result<u64, SmpError>)
    ensures
        match as_u64(*v) {
            Some(x) => r == Ok::<u64, SmpError>(x),
            None => r == Err::<u64, SmpError>(SmpError::DecodeError),
        },
{
    match v {
        CborValue::Integer(i) => if 0 <= *i && *i <= 0xffff_ffff_ffff_ffff {
            Ok(*i as u64)
        } else {
            Err(SmpError::DecodeError)
        },
        _ => Err(SmpError::DecodeError),
    }
}

pub fn read_text(v: &CborValue) -> (r: Result<String, SmpError>)
    ensures
        match *v {
            CborValue::Text(s) => r matches Ok(t) && t@ == s@,
            _ => r == Err::<String, SmpError>(SmpError::DecodeError),
        },
{
    match v {
        CborValue::Text(s) => Ok(s.clone()),
        _ => Err(SmpError::DecodeError),
    }
}

pub fn read_bytes(v: &CborValue) -> (r: Result<Vec<u8>, SmpError>)
    ensures
        match *v {
            CborValue::Bytes(b) => r matches Ok(t) && t@ == b@,
            _ => r == Err::<Vec<u8>, SmpError>(SmpError::DecodeError),
        },
{
    match v {
        CborValue::Bytes(b) => Ok(slice_to_vec(b.as_slice(), 0, b.len())),
        _ => Err(SmpError::DecodeError),
    }
}

pub fn read_bool(v: &CborValue) -> (r: Result<bool, SmpError>)
    ensures
        match *v {
            CborValue::Bool(b) => r == Ok::<bool, SmpError>(b),
            _ => r == Err::<bool, SmpError>(SmpError::DecodeError),
        },
{
    match v {
        CborValue::Bool(b) => Ok(*b),
        _ => Err(SmpError::DecodeError),
    }
}

/// A body with return code `rc` is answered with a device error carrying `rc`
/// exactly when `rc` is not zero.
pub proof fn lemma_nonzero_rc_is_device_error(v: CborValue, rc: i128)
    requires
        rc_of(v) == Some(rc),
        rc != 0,
    ensures
        rc_outcome(v) == Err::<(), SmpError>(SmpError::DeviceError(rc)),
{
}

/// A required `u32` field: `None` when it is missing or not such an integer.
pub open spec fn req_u32(v: CborValue, k: Seq<char>) -> Option<u32> {
    match field(v, k) {
        Some(x) => as_u32(x),
        None => None,
    }
}

/// An optional `u32` field: `Some(None)` when missing or null, `None` when ill-typed.
pub open spec fn opt_u32(v: CborValue, k: Seq<char>) -> Option<Option<u32>> {
    match field(v, k) {
        None => Some(None),
        Some(CborValue::Null) => Some(None),
        Some(x) => match as_u32(x) {
            Some(n) => Some(Some(n)),
            None => None,
        },
    }
}

/// An `i32` field that defaults to zero when missing.
pub open spec fn def_i32(v: CborValue, k: Seq<char>) -> Option<i32> {
    match field(v, k) {
        None => Some(0i32),
        Some(x) => as_i32(x),
    }
}

/// An optional `i32` field: `Some(None)` when missing or null, `None` when ill-typed.
pub open spec fn opt_i32(v: CborValue, k: Seq<char>) -> Option<Option<i32>> {
    match field(v, k) {
        None => Some(None),
        Some(CborValue::Null) => Some(None),
        Some(x) => match as_i32(x) {
            Some(n) => Some(Some(n)),
            None => None,
        },
    }
}

/// A `u64` field that defaults to zero when missing.
pub open spec fn def_u64(v: CborValue, k: Seq<char>) -> Option<u64> {
    match field(v, k) {
        None => Some(0u64),
        Some(x) => as_u64(x),
    }
}

/// A required text field.
pub open spec fn req_text(v: CborValue, k: Seq<char>) -> Option<Seq<char>> {
    match field(v, k) {
        Some(CborValue::Text(s)) => Some(s@),
        _ => None,
    }
}

/// A text field that defaults to the empty text when missing.
pub open spec fn def_text(v: CborValue, k: Seq<char>) -> Option<Seq<char>> {
    match field(v, k) {
        None => Some(Seq::empty()),
        Some(CborValue::Text(s)) => Some(s@),
        _ => None,
    }
}

/// An optional boolean field: `Some(None)` when missing or null, `None` when ill-typed.
pub open spec fn opt_bool(v: CborValue, k: Seq<char>) -> Option<Option<bool>> {
    match field(v, k) {
        None => Some(None),
        Some(CborValue::Null) => Some(None),
        Some(CborValue::Bool(b)) => Some(Some(b)),
        _ => None,
    }
}

/// A required byte-string field.
pub open spec fn req_bytes(v: CborValue, k: Seq<char>) -> Option<Seq<u8>> {
    match field(v, k) {
        Some(CborValue::Bytes(b)) => Some(b@),
        _ => None,
    }
}

/// A byte-string field that defaults to no bytes when missing.
pub open spec fn def_bytes(v: CborValue, k: Seq<char>) -> Option<Seq<u8>> {
    match field(v, k) {
        None => Some(Seq::empty()),
        Some(CborValue::Bytes(b)) => Some(b@),
        _ => None,
    }
}

pub fn get_req_u32(v: &CborValue, k: &str) -> (r: Result<u32, SmpError>)
    ensures
        match req_u32(*v, k@) {
            Some(x) => r == Ok::<u32, SmpError>(x),
            None => r == Err::<u32, SmpError>(SmpError::DecodeError),
        },
{
    match get_field(v, k) {
        Some(x) => read_u32(x),
        None => Err(SmpError::DecodeError),
    }
}

pub fn get_opt_u32(v: &CborValue, k: &str) -> (r: Result<Option<u32>, SmpError>)
    ensures
        match opt_u32(*v, k@) {
            Some(x) => r == Ok::<Option<u32>, SmpError>(x),
            None => r == Err::<Option<u32>, SmpError>(SmpError::DecodeError),
        },
{
    match get_field(v, k) {
        None => Ok(None),
        Some(CborValue::Null) => Ok(None),
        Some(x) => match read_u32(x) {
            Ok(n) => Ok(Some(n)),
            Err(e) => Err(e),
        },
    }
}

pub fn get_def_i32(v: &CborValue, k: &str) -> (r: Result<i32, SmpError>)
    ensures
        match def_i32(*v, k@) {
            Some(x) => r == Ok::<i32, SmpError>(x),
            None => r == Err::<i32, SmpError>(SmpError::DecodeError),
        },
{
    match get_field(v, k) {
        None => Ok(0),
        Some(x) => read_i32(x),
    }
}

pub fn get_opt_i32(v: &CborValue, k: &str) -> (r: Result<Option<i32>, SmpError>)
    ensures
        match opt_i32(*v, k@) {
            Some(x) => r == Ok::<Option<i32>, SmpError>(x),
            None => r == Err::<Option<i32>, SmpError>(SmpError::DecodeError),
        },
{
    match get_field(v, k) {
        None => Ok(None),
        Some(CborValue::Null) => Ok(None),
        Some(x) => match read_i32(x) {
            Ok(n) => Ok(Some(n)),
            Err(e) => Err(e),
        },
    }
}

pub fn get_def_u64(v: &CborValue, k: &str) -> (r: Result<u64, SmpError>)
    ensures
        match def_u64(*v, k@) {
            Some(x) => r == Ok::<u64, SmpError>(x),
            None => r == Err::<u64, SmpError>(SmpError::DecodeError),
        },
{
    match get_field(v, k) {
        None => Ok(0),
        Some(x) => read_u64(x),
    }
}

pub fn get_req_text(v: &CborValue, k: &str) -> (r: Result<String, SmpError>)
    ensures
        match req_text(*v, k@) {
            Some(s) => r matches Ok(t) && t@ == s,
            None => r == Err::<String, SmpError>(SmpError::DecodeError),
        },
{
    match get_field(v, k) {
        Some(x) => read_text(x),
        None => Err(SmpError::DecodeError),
    }
}

pub fn get_def_text(v: &CborValue, k: &str) -> (r: Result<String, SmpError>)
    ensures
        match def_text(*v, k@) {
            Some(s) => r matches Ok(t) && t@ == s,
            None => r == Err::<String, SmpError>(SmpError::DecodeError),
        },
{
    match get_field(v, k) {
        None => Ok(String::new()),
        Some(x) => read_text(x),
    }
}

pub fn get_opt_bool(v: &CborValue, k: &str) -> (r: Result<Option<bool>, SmpError>)
    ensures
        match opt_bool(*v, k@) {
            Some(x) => r == Ok::<Option<bool>, SmpError>(x),
            None => r == Err::<Option<bool>, SmpError>(SmpError::DecodeError),
        },
{
    match get_field(v, k) {
        None => Ok(None),
        Some(CborValue::Null) => Ok(None),
        Some(x) => match read_bool(x) {
            Ok(b) => Ok(Some(b)),
            Err(e) => Err(e),
        },
    }
}

pub fn get_req_bytes(v: &CborValue, k: &str) -> (r: Result<Vec<u8>, SmpError>)
    ensures
        match req_bytes(*v, k@) {
            Some(b) => r matches Ok(t) && t@ == b,
            None => r == Err::<Vec<u8>, SmpError>(SmpError::DecodeError),
        },
{
    match get_field(v, k) {
        Some(x) => read_bytes(x),
        None => Err(SmpError::DecodeError),
    }
}

pub fn get_def_bytes(v: &CborValue, k: &str) -> (r: Result<Vec<u8>, SmpError>)
    ensures
        match def_bytes(*v, k@) {
            Some(b) => r matches Ok(t) && t@ == b,
            None => r == Err::<Vec<u8>, SmpError>(SmpError::DecodeError),
        },
{
    match get_field(v, k) {
        None => Ok(Vec::new()),
        Some(x) => read_bytes(x),
    }
}

/// A boolean field that defaults to `false` when missing.
pub open spec fn def_bool(v: CborValue, k: Seq<char>) -> Option<bool> {
    match field(v, k) {
        None => Some(false),
        Some(CborValue::Bool(b)) => Some(b),
        _ => None,
    }
}

pub fn get_def_bool(v: &CborValue, k: &str) -> (r: Result<bool, SmpError>)
    ensures
        match def_bool(*v, k@) {
            Some(x) => r == Ok::<bool, SmpError>(x),
            None => r == Err::<bool, SmpError>(SmpError::DecodeError),
        },
{
    match get_field(v, k) {
        None => Ok(false),
        Some(x) => read_bool(x),
    }
}

/// A `u32` field that defaults to zero when missing.
pub open spec fn def_u32_or_zero(v: CborValue, k: Seq<char>) -> Option<u32> {
    match field(v, k) {
        None => Some(0u32),
        Some(x) => as_u32(x),
    }
}

pub fn get_def_u32(v: &CborValue, k: &str) -> (r: Result<u32, SmpError>)
    ensures
        match def_u32_or_zero(*v, k@) {
            Some(x) => r == Ok::<u32, SmpError>(x),
            None => r == Err::<u32, SmpError>(SmpError::DecodeError),
        },
{
    match get_field(v, k) {
        None => Ok(0),
        Some(x) => read_u32(x),
    }
}

/// The shape of one request field on the wire.
pub enum Wire {
    Text(Seq<char>),
    Bytes(Seq<u8>),
    Uint(int),
    Bool(bool),
    TextList(Seq<Seq<char>>),
}

/// Whether value `v` carries the field shape `w`.
pub open spec fn wire_matches(v: CborValue, w: Wire) -> bool {
    match w {
        Wire::Text(s) => v matches CborValue::Text(t) && t@ == s,
        Wire::Bytes(b) => v matches CborValue::Bytes(x) && x@ == b,
        Wire::Uint(n) => v == CborValue::Integer(n as i128),
        Wire::Bool(b) => v == CborValue::Bool(b),
        Wire::TextList(l) => v matches CborValue::Array(a) && a@.len() == l.len() && forall|i: int|
            0 <= i < l.len() ==> (#[trigger] a@[i] matches CborValue::Text(t) && t@ == l[i]),
    }
}

/// Whether map entries `e` are, in order, the text-keyed fields `f`.
pub open spec fn entries_encode(e: Seq<(CborValue, CborValue)>, f: Seq<(Seq<char>, Wire)>) -> bool {
    &&& e.len() == f.len()
    &&& forall|i: int|
        0 <= i < f.len() ==> is_key(#[trigger] e[i].0, f[i].0) && wire_matches(e[i].1, f[i].1)
}

/// Whether `v` is the map of the text-keyed fields `f`, in order.
pub open spec fn encodes(v: CborValue, f: Seq<(Seq<char>, Wire)>) -> bool {
    v matches CborValue::Dict(e) && entries_encode(e@, f)
}

proof fn lemma_entries_push(
    e: Seq<(CborValue, CborValue)>,
    f: Seq<(Seq<char>, Wire)>,
    x: (CborValue, CborValue),
    k: Seq<char>,
    w: Wire,
)
    requires
        entries_encode(e, f),
        is_key(x.0, k),
        wire_matches(x.1, w),
    ensures
        entries_encode(e.push(x), f.push((k, w))),
{
    assert forall|i: int| 0 <= i < f.push((k, w)).len() implies is_key(
        #[trigger] e.push(x)[i].0,
        f.push((k, w))[i].0,
    ) && wire_matches(e.push(x)[i].1, f.push((k, w))[i].1) by {
        if i < f.len() {
            assert(e.push(x)[i] == e[i]);
        }
    }
}

/// Appends a text field.
pub fn push_text_entry(
    e: &mut Vec<(CborValue, CborValue)>,
    k: &str,
    s: &str,
    Ghost(f): Ghost<Seq<(Seq<char>, Wire)>>,
)
    requires
        entries_encode(old(e)@, f),
    ensures
        entries_encode(final(e)@, f.push((k@, Wire::Text(s@)))),
{
    let x = (text(k), text(s));
    proof {
        lemma_entries_push(e@, f, x, k@, Wire::Text(s@));
    }
    e.push(x);
}

/// Appends a byte-string field.
pub fn push_bytes_entry(
    e: &mut Vec<(CborValue, CborValue)>,
    k: &str,
    b: &[u8],
    Ghost(f): Ghost<Seq<(Seq<char>, Wire)>>,
)
    requires
        entries_encode(old(e)@, f),
    ensures
        entries_encode(final(e)@, f.push((k@, Wire::Bytes(b@)))),
{
    let x = (text(k), bytes(b));
    proof {
        lemma_entries_push(e@, f, x, k@, Wire::Bytes(b@));
    }
    e.push(x);
}

/// Appends an unsigned integer field.
pub fn push_uint_entry(
    e: &mut Vec<(CborValue, CborValue)>,
    k: &str,
    n: u32,
    Ghost(f): Ghost<Seq<(Seq<char>, Wire)>>,
)
    requires
        entries_encode(old(e)@, f),
    ensures
        entries_encode(final(e)@, f.push((k@, Wire::Uint(n as int)))),
{
    let x = (text(k), CborValue::Integer(n as i128));
    proof {
        lemma_entries_push(e@, f, x, k@, Wire::Uint(n as int));
    }
    e.push(x);
}

/// Appends a boolean field.
pub fn push_bool_entry(
    e: &mut Vec<(CborValue, CborValue)>,
    k: &str,
    b: bool,
    Ghost(f): Ghost<Seq<(Seq<char>, Wire)>>,
)
    requires
        entries_encode(old(e)@, f),
    ensures
        entries_encode(final(e)@, f.push((k@, Wire::Bool(b)))),
{
    let x = (text(k), CborValue::Bool(b));
    proof {
        lemma_entries_push(e@, f, x, k@, Wire::Bool(b));
    }
    e.push(x);
}

/// The views of a list of strings.
pub open spec fn text_views(l: Seq<String>) -> Seq<Seq<char>> {
    l.map_values(|s: String| s@)
}

/// Appends a field holding an array of texts.
pub fn push_text_list_entry(
    e: &mut Vec<(CborValue, CborValue)>,
    k: &str,
    l: &Vec<String>,
    Ghost(f): Ghost<Seq<(Seq<char>, Wire)>>,
)
    requires
        entries_encode(old(e)@, f),
    ensures
        entries_encode(final(e)@, f.push((k@, Wire::TextList(text_views(l@))))),
{
    let mut items: Vec<CborValue> = Vec::new();
    let mut i: usize = 0;
    while i < l.len()
        invariant
            i <= l@.len(),
            items@.len() == i,
            forall|j: int|
                0 <= j < i ==> (#[trigger] items@[j] matches CborValue::Text(t) && t@ == l@[j]@),
        decreases l@.len() - i,
    {
        items.push(text(l[i].as_str()));
        i += 1;
    }
    let x = (text(k), CborValue::Array(items));
    proof {
        lemma_entries_push(e@, f, x, k@, Wire::TextList(text_views(l@)));
    }
    e.push(x);
}

} // verus!
