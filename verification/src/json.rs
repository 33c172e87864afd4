//! A small JSON reader.
//!
//! Requests and configuration arrive as JSON text. The reader turns the
//! bytes into a tree of values; numbers are kept as fixed-point integers in
//! millionths, truncated toward zero, so the tree stays within integer
//! arithmetic. Escapes other than the single-character ones, and exponent
//! notation, are not accepted. The reader is the defining description of
//! the accepted texts; the functions that lower a tree into typed values
//! carry the exact contracts.
use vstd::prelude::*;

use crate::Error;

verus! {

broadcast use vstd::std_specs::vec::axiom_vec_decreases_to_view;

/// One JSON value. Strings hold their decoded bytes; numbers hold their
/// value in millionths, truncated toward zero.
#[derive(Debug)]
pub enum JsonValue {
    /// The null literal.
    Null,
    /// A boolean literal.
    Bool(bool),
    /// A number, in millionths.
    Num(i64),
    /// A string, as its decoded bytes.
    Str(Vec<u8>),
    /// An array of values.
    Arr(Vec<JsonValue>),
    /// An object: its members in text order.
    Obj(Vec<(Vec<u8>, JsonValue)>),
}

/// The spec-level shape of one JSON value.
pub enum JsonModel {
    /// The null literal.
    Null,
    /// A boolean literal.
    Bool(bool),
    /// A number, in millionths.
    Num(i64),
    /// A string, as its decoded bytes.
    Str(Seq<u8>),
    /// An array of values.
    Arr(Seq<JsonModel>),
    /// An object: its members in text order.
    Obj(Seq<(Seq<u8>, JsonModel)>),
}

/// The model of one value.
pub open spec fn json_model(v: JsonValue) -> JsonModel
    decreases v,
{
    match v {
        JsonValue::Null => JsonModel::Null,
        JsonValue::Bool(b) => JsonModel::Bool(b),
        JsonValue::Num(n) => JsonModel::Num(n),
        JsonValue::Str(s) => JsonModel::Str(s@),
        JsonValue::Arr(items) => JsonModel::Arr(
            Seq::new(
                items@.len(),
                |i: int|
                    if 0 <= i < items@.len() {
                        json_model(items@[i])
                    } else {
                        JsonModel::Null
                    },
            ),
        ),
        JsonValue::Obj(members) => JsonModel::Obj(
            Seq::new(
                members@.len(),
                |i: int|
                    if 0 <= i < members@.len() {
                        (members@[i].0@, json_model(members@[i].1))
                    } else {
                        (Seq::empty(), JsonModel::Null)
                    },
            ),
        ),
    }
}

/// The element-wise models of a run of values.
pub open spec fn json_models(items: Seq<JsonValue>) -> Seq<JsonModel> {
    Seq::new(
        items.len(),
        |i: int|
            if 0 <= i < items.len() {
                json_model(items[i])
            } else {
                JsonModel::Null
            },
    )
}

/// The member-wise models of a run of key-value members.
pub open spec fn member_models(ms: Seq<(Vec<u8>, JsonValue)>) -> Seq<(Seq<u8>, JsonModel)> {
    Seq::new(
        ms.len(),
        |i: int|
            if 0 <= i < ms.len() {
                (ms[i].0@, json_model(ms[i].1))
            } else {
                (Seq::empty(), JsonModel::Null)
            },
    )
}

/// The first value a key names among an object's members.
pub open spec fn spec_member_lookup(members: Seq<(Vec<u8>, JsonValue)>, key: Seq<u8>) -> Option<
    JsonValue,
>
    decreases members.len(),
{
    if members.len() == 0 {
        None
    } else if members[0].0@ == key {
        Some(members[0].1)
    } else {
        spec_member_lookup(members.drop_first(), key)
    }
}

impl JsonValue {
    /// The value `key` names in this object, or nothing when this is not
    /// an object or has no such member.
    pub open spec fn spec_get(self, key: Seq<u8>) -> Option<JsonValue> {
        match self {
            JsonValue::Obj(members) => spec_member_lookup(members@, key),
            _ => None,
        }
    }
}

/// Powers of ten up to one million, for fixed-point digit bounds.
pub open spec fn spec_p10(n: int) -> int {
    if n <= 0 {
        1
    } else if n == 1 {
        10
    } else if n == 2 {
        100
    } else if n == 3 {
        1000
    } else if n == 4 {
        10000
    } else if n == 5 {
        100000
    } else {
        1000000
    }
}

/// Whether the characters of `s` are the ASCII bytes `k`.
pub open spec fn spec_key_is(k: Seq<u8>, s: Seq<char>) -> bool {
    k == Seq::new(s.len(), |i: int| s[i] as u8)
}

/// Whether `k` holds the bytes of the ASCII string `lit`.
pub fn key_is(k: &Vec<u8>, lit: &str) -> (r: bool)
    requires
        lit.is_ascii(),
    ensures
        r == spec_key_is(k@, lit@),
{
    let n = lit.unicode_len();
    if k.len() != n {
        proof {
            assert(k@ != Seq::new(lit@.len(), |i: int| lit@[i] as u8));
        }
        return false;
    }
    let mut i: usize = 0;
    while i < n
        invariant
            lit.is_ascii(),
            n == lit@.len(),
            k@.len() == n,
            i <= n,
            forall|j: int| 0 <= j < i ==> k@[j] == (lit@[j] as u8),
        decreases n - i,
    {
        if k[i] != lit.get_ascii(i) {
            proof {
                assert(k@[i as int] != (lit@[i as int] as u8));
                assert(k@ != Seq::new(lit@.len(), |j: int| lit@[j] as u8));
            }
            return false;
        }
        i = i + 1;
    }
    proof {
        assert(k@ =~= Seq::new(lit@.len(), |i: int| lit@[i] as u8));
    }
    true
}

/// The value `key` names in the object `v`, by lookup among its members.
pub fn get_member<'a>(v: &'a JsonValue, key: &str) -> (r: Option<&'a JsonValue>)
    requires
        key.is_ascii(),
    ensures
        match r {
            Some(m) => v.spec_get(Seq::new(key@.len(), |i: int| key@[i] as u8)) == Some(*m),
            None => v.spec_get(Seq::new(key@.len(), |i: int| key@[i] as u8)) is None,
        },
{
    match v {
        JsonValue::Obj(members) => {
            let n = members.len();
            let mut i: usize = 0;
            proof {
                assert(members@.skip(0) =~= members@);
            }
            while i < n
                invariant
                    *v == JsonValue::Obj(*members),
                    key.is_ascii(),
                    n == members@.len(),
                    i <= n,
                    spec_member_lookup(
                        members@.skip(i as int),
                        Seq::new(key@.len(), |t: int| key@[t] as u8),
                    ) == spec_member_lookup(
                        members@,
                        Seq::new(key@.len(), |t: int| key@[t] as u8),
                    ),
                    forall|j: int|
                        0 <= j < i ==> (#[trigger] members@[j]).0@ != Seq::new(
                            key@.len(),
                            |t: int| key@[t] as u8,
                        ),
                decreases n - i,
            {
                proof {
                    assert(members@.skip(i as int)[0] == members@[i as int]);
                    assert(members@.skip(i as int).drop_first() =~= members@.skip(i + 1));
                }
                if key_is(&members[i].0, key) {
                    proof {
                        assert(spec_member_lookup(
                            members@.skip(i as int),
                            Seq::new(key@.len(), |t: int| key@[t] as u8),
                        ) == Some(members@[i as int].1));
                    }
                    return Some(&members[i].1);
                }
                i = i + 1;
            }
            proof {
                assert(members@.skip(n as int) =~= Seq::<(Vec<u8>, JsonValue)>::empty());
            }
            None
        },
        _ => None,
    }
}

/// The first value a key names among an object model's members.
pub open spec fn spec_model_lookup(ms: Seq<(Seq<u8>, JsonModel)>, key: Seq<u8>) -> Option<
    JsonModel,
>
    decreases ms.len(),
{
    if ms.len() == 0 {
        None
    } else if ms[0].0 == key {
        Some(ms[0].1)
    } else {
        spec_model_lookup(ms.drop_first(), key)
    }
}

/// The value a key names in an object model.
pub open spec fn spec_model_get(m: JsonModel, key: Seq<u8>) -> Option<JsonModel> {
    match m {
        JsonModel::Obj(ms) => spec_model_lookup(ms, key),
        _ => None,
    }
}

/// Member lookup commutes with taking models.
proof fn lemma_member_lookup_model(ms: Seq<(Vec<u8>, JsonValue)>, key: Seq<u8>)
    ensures
        match spec_member_lookup(ms, key) {
            Some(m) => spec_model_lookup(member_models(ms), key) == Some(json_model(m)),
            None => spec_model_lookup(member_models(ms), key) is None,
        },
    decreases ms.len(),
{
    if ms.len() > 0 && ms[0].0@ != key {
        lemma_member_lookup_model(ms.drop_first(), key);
        assert(member_models(ms).drop_first() =~= member_models(ms.drop_first()));
    }
}

/// Key lookup commutes with taking the model: what `spec_get` finds in a
/// value, `spec_model_get` finds in its model, as the found value's model.
pub proof fn lemma_get_model(v: JsonValue, key: Seq<u8>)
    ensures
        match v.spec_get(key) {
            Some(m) => spec_model_get(json_model(v), key) == Some(json_model(m)),
            None => spec_model_get(json_model(v), key) is None,
        },
{
    match v {
        JsonValue::Obj(members) => {
            assert(json_model(v)->Obj_0 =~= member_models(members@));
            lemma_member_lookup_model(members@, key);
        },
        _ => {
        },
    }
}

/// Whether a byte is blank space.
pub open spec fn spec_blank(c: u8) -> bool {
    c == 32 || c == 9 || c == 10 || c == 13
}

/// The position of the first byte at or after `pos` that is not blank
/// space.
pub open spec fn spec_blank_end(s: Seq<u8>, pos: int) -> int
    decreases s.len() - pos
        when 0 <= pos <= s.len()
{
    if pos < s.len() && spec_blank(s[pos]) {
        spec_blank_end(s, pos + 1)
    } else {
        pos
    }
}

/// The byte a string escape denotes, for the accepted single-character
/// escapes.
pub open spec fn spec_escape(e: u8) -> Option<u8> {
    if e == 34 {
        Some(34u8)
    } else if e == 92 {
        Some(92u8)
    } else if e == 47 {
        Some(47u8)
    } else if e == 110 {
        Some(10u8)
    } else if e == 116 {
        Some(9u8)
    } else if e == 114 {
        Some(13u8)
    } else if e == 98 {
        Some(8u8)
    } else if e == 102 {
        Some(12u8)
    } else {
        None
    }
}

/// The decoded bytes and end of a string body, starting just after the
/// opening quote.
pub open spec fn spec_string_body(s: Seq<u8>, pos: int) -> Option<(Seq<u8>, int)>
    decreases s.len() - pos
        when 0 <= pos <= s.len()
{
    if pos >= s.len() {
        None
    } else if s[pos] == 34 {
        Some((Seq::empty(), pos + 1))
    } else if s[pos] == 92 {
        if pos + 2 > s.len() {
            None
        } else {
            match spec_escape(s[pos + 1]) {
                None => None,
                Some(d) => match spec_string_body(s, pos + 2) {
                    None => None,
                    Some((rest, end)) => Some((seq![d] + rest, end)),
                },
            }
        }
    } else if s[pos] < 32 {
        None
    } else {
        match spec_string_body(s, pos + 1) {
            None => None,
            Some((rest, end)) => Some((seq![s[pos]] + rest, end)),
        }
    }
}

/// The decoded bytes and end of the string at `pos`, which must hold
/// its opening quote.
pub open spec fn spec_string_parse(s: Seq<u8>, pos: int) -> Option<(Seq<u8>, int)> {
    if 0 <= pos < s.len() && s[pos] == 34 {
        spec_string_body(s, pos + 1)
    } else {
        None
    }
}

/// The position of the first byte at or after `pos` that is not a
/// decimal digit.
pub open spec fn spec_digit_end(s: Seq<u8>, pos: int) -> int
    decreases s.len() - pos
        when 0 <= pos <= s.len()
{
    if pos < s.len() && 48 <= s[pos] <= 57 {
        spec_digit_end(s, pos + 1)
    } else {
        pos
    }
}

/// The value of the run of decimal digits in `[lo, hi)`.
pub open spec fn spec_digits_val(s: Seq<u8>, lo: int, hi: int) -> int
    decreases hi - lo,
{
    if hi <= lo {
        0
    } else {
        spec_digits_val(s, lo, hi - 1) * 10 + (s[hi - 1] - 48)
    }
}

/// The largest value `n` decimal digits can hold.
pub open spec fn spec_dec_max(n: int) -> int {
    if n <= 0 {
        0
    } else if n == 1 {
        9
    } else if n == 2 {
        99
    } else if n == 3 {
        999
    } else if n == 4 {
        9999
    } else if n == 5 {
        99999
    } else if n == 6 {
        999999
    } else if n == 7 {
        9999999
    } else if n == 8 {
        99999999
    } else if n == 9 {
        999999999
    } else if n == 10 {
        9999999999
    } else if n == 11 {
        99999999999
    } else {
        999999999999
    }
}

/// The value in millionths and the end of the number at `pos`: an
/// optional sign, at most twelve integer digits, an optional fraction of
/// which the first six digits count, and no exponent.
pub open spec fn spec_number_parse(s: Seq<u8>, pos: int) -> Option<(i64, int)> {
    let negative = 0 <= pos < s.len() && s[pos] == 45;
    let d0 = if negative {
        pos + 1
    } else {
        pos
    };
    if !(0 <= d0 < s.len() && 48 <= s[d0] <= 57) {
        None
    } else {
        let dend = spec_digit_end(s, d0);
        if dend - d0 > 12 {
            None
        } else {
            let ipart = spec_digits_val(s, d0, dend);
            let has_frac = dend < s.len() && s[dend] == 46;
            if has_frac && !(dend + 1 < s.len() && 48 <= s[dend + 1] <= 57) {
                None
            } else {
                let fend = if has_frac {
                    spec_digit_end(s, dend + 1)
                } else {
                    dend
                };
                let used = if has_frac {
                    if fend - (dend + 1) > 6 {
                        6
                    } else {
                        fend - (dend + 1)
                    }
                } else {
                    0
                };
                let micro = spec_digits_val(s, dend + 1, dend + 1 + used) * spec_p10(6 - used);
                if fend < s.len() && (s[fend] == 101 || s[fend] == 69) {
                    None
                } else {
                    let mag = ipart * 1000000 + micro;
                    if negative {
                        Some(((-mag) as i64, fend))
                    } else {
                        Some((mag as i64, fend))
                    }
                }
            }
        }
    }
}

/// The model and end of the value at `pos`. The bound guards on the
/// sub-parse positions can never fire — every sub-parse moves forward —
/// and only serve the recursion's measure.
pub open spec fn spec_value_parse(s: Seq<u8>, pos: int) -> Option<(JsonModel, int)>
    decreases s.len() - pos, 0int
        when 0 <= pos <= s.len()
{
    if pos >= s.len() {
        None
    } else if s[pos] == 123 {
        let p = spec_blank_end(s, pos + 1);
        if !(pos + 1 <= p <= s.len()) {
            None
        } else if p < s.len() && s[p] == 125 {
            Some((JsonModel::Obj(Seq::empty()), p + 1))
        } else {
            match spec_members_parse(s, p) {
                None => None,
                Some((ms, end)) => Some((JsonModel::Obj(ms), end)),
            }
        }
    } else if s[pos] == 91 {
        let p = spec_blank_end(s, pos + 1);
        if !(pos + 1 <= p <= s.len()) {
            None
        } else if p < s.len() && s[p] == 93 {
            Some((JsonModel::Arr(Seq::empty()), p + 1))
        } else {
            match spec_items_parse(s, p) {
                None => None,
                Some((vs, end)) => Some((JsonModel::Arr(vs), end)),
            }
        }
    } else if s[pos] == 34 {
        match spec_string_parse(s, pos) {
            None => None,
            Some((bytes, end)) => Some((JsonModel::Str(bytes), end)),
        }
    } else if s[pos] == 116 {
        if pos + 4 <= s.len() && s[pos + 1] == 114 && s[pos + 2] == 117 && s[pos + 3] == 101 {
            Some((JsonModel::Bool(true), pos + 4))
        } else {
            None
        }
    } else if s[pos] == 102 {
        if pos + 5 <= s.len() && s[pos + 1] == 97 && s[pos + 2] == 108 && s[pos + 3] == 115 && s[pos
            + 4] == 101 {
            Some((JsonModel::Bool(false), pos + 5))
        } else {
            None
        }
    } else if s[pos] == 110 {
        if pos + 4 <= s.len() && s[pos + 1] == 117 && s[pos + 2] == 108 && s[pos + 3] == 108 {
            Some((JsonModel::Null, pos + 4))
        } else {
            None
        }
    } else if s[pos] == 45 || (48 <= s[pos] && s[pos] <= 57) {
        match spec_number_parse(s, pos) {
            None => None,
            Some((n, end)) => Some((JsonModel::Num(n), end)),
        }
    } else {
        None
    }
}

/// The models and end of the comma-separated values from `pos` up to and
/// including the closing bracket.
pub open spec fn spec_items_parse(s: Seq<u8>, pos: int) -> Option<(Seq<JsonModel>, int)>
    decreases s.len() - pos, 1int
        when 0 <= pos <= s.len()
{
    match spec_value_parse(s, pos) {
        None => None,
        Some((v, q)) => if !(pos < q <= s.len()) {
            None
        } else {
            let q2 = spec_blank_end(s, q);
            if !(q <= q2 <= s.len()) {
                None
            } else if q2 < s.len() && s[q2] == 93 {
                Some((seq![v], q2 + 1))
            } else if q2 < s.len() && s[q2] == 44 {
                let nxt = spec_blank_end(s, q2 + 1);
                if !(pos < nxt <= s.len()) {
                    None
                } else {
                    match spec_items_parse(s, nxt) {
                        None => None,
                        Some((rest, end)) => Some((seq![v] + rest, end)),
                    }
                }
            } else {
                None
            }
        },
    }
}

/// The key-value models and end of the comma-separated members from
/// `pos` up to and including the closing brace.
pub open spec fn spec_members_parse(s: Seq<u8>, pos: int) -> Option<
    (Seq<(Seq<u8>, JsonModel)>, int),
>
    decreases s.len() - pos, 1int
        when 0 <= pos <= s.len()
{
    match spec_string_parse(s, pos) {
        None => None,
        Some((key, kend)) => if !(pos < kend <= s.len()) {
            None
        } else {
            let colon = spec_blank_end(s, kend);
            if !(kend <= colon <= s.len()) {
                None
            } else if !(colon < s.len() && s[colon] == 58) {
                None
            } else {
                let vstart = spec_blank_end(s, colon + 1);
                if !(pos < vstart <= s.len()) {
                    None
                } else {
                    match spec_value_parse(s, vstart) {
                        None => None,
                        Some((v, q)) => if !(vstart < q <= s.len()) {
                            None
                        } else {
                            let q2 = spec_blank_end(s, q);
                            if !(q <= q2 <= s.len()) {
                                None
                            } else if q2 < s.len() && s[q2] == 125 {
                                Some((seq![(key, v)], q2 + 1))
                            } else if q2 < s.len() && s[q2] == 44 {
                                let nxt = spec_blank_end(s, q2 + 1);
                                if !(pos < nxt <= s.len()) {
                                    None
                                } else {
                                    match spec_members_parse(s, nxt) {
                                        None => None,
                                        Some((rest, end)) => Some((seq![(key, v)] + rest, end)),
                                    }
                                }
                            } else {
                                None
                            }
                        },
                    }
                }
            }
        },
    }
}

/// The model of a whole document: blank space, one value, blank space to
/// the exact end. Empty or blank text is no document.
pub open spec fn spec_json_parse(s: Seq<u8>) -> Option<JsonModel> {
    let start = spec_blank_end(s, 0);
    if !(0 <= start < s.len()) {
        None
    } else {
        match spec_value_parse(s, start) {
            None => None,
            Some((m, end)) => if 0 <= end <= s.len() && spec_blank_end(s, end) == s.len() {
                Some(m)
            } else {
                None
            },
        }
    }
}

/// An array value models the element-wise model of its items.
pub proof fn lemma_arr_deep(items: Vec<JsonValue>)
    ensures
        json_model(JsonValue::Arr(items)) == JsonModel::Arr(json_models(items@)),
{
    assert(json_model(JsonValue::Arr(items))->Arr_0 =~= json_models(items@));
}

/// An object value models the member-wise model of its members.
pub proof fn lemma_obj_deep(members: Vec<(Vec<u8>, JsonValue)>)
    ensures
        json_model(JsonValue::Obj(members)) == JsonModel::Obj(member_models(members@)),
{
    assert(json_model(JsonValue::Obj(members))->Obj_0 =~= member_models(members@));
}

/// Reads a JSON document: one value with nothing but blank space around
/// it. Succeeds exactly on the texts the document grammar accepts, and
/// then yields the value the grammar gives them.
pub fn parse_json(b: &Vec<u8>) -> (r: Result<JsonValue, Error>)
    ensures
        r is Ok <==> spec_json_parse(b@) is Some,
        r is Ok ==> json_model(r->Ok_0) == spec_json_parse(b@)->0,
{
    let start = skip_blank(b, 0);
    if start >= b.len() {
        return Err(Error::ParseError);
    }
    let (v, after) = match parse_value(b, start) {
        Ok(t) => t,
        Err(e) => {
            return Err(e);
        },
    };
    let end = skip_blank(b, after);
    if end != b.len() {
        return Err(Error::ParseError);
    }
    Ok(v)
}

/// The position of the first byte at or after `pos` that is not blank
/// space.
fn skip_blank(b: &Vec<u8>, pos: usize) -> (r: usize)
    requires
        pos <= b@.len(),
    ensures
        r == spec_blank_end(b@, pos as int),
        pos <= r <= b@.len(),
{
    let len = b.len();
    let mut p = pos;
    while p < len && (b[p] == 32 || b[p] == 9 || b[p] == 10 || b[p] == 13)
        invariant
            len == b@.len(),
            pos <= p <= len,
            spec_blank_end(b@, pos as int) == spec_blank_end(b@, p as int),
        decreases len - p,
    {
        p = p + 1;
    }
    p
}

/// Reads one value at `pos`; yields the value and the position after it.
fn parse_value(b: &Vec<u8>, pos: usize) -> (r: Result<(JsonValue, usize), Error>)
    requires
        pos <= b@.len(),
    ensures
        match r {
            Ok(t) => {
                &&& spec_value_parse(b@, pos as int) == Some((json_model(t.0), t.1 as int))
                &&& pos < t.1 <= b@.len()
            },
            Err(e) => spec_value_parse(b@, pos as int) is None && e == Error::ParseError,
        },
    decreases b@.len() - pos, 2int,
{
    let len = b.len();
    if pos >= len {
        return Err(Error::ParseError);
    }
    let c = b[pos];
    if c == 123 {  // left brace
        parse_object(b, pos)
    } else if c == 91 {  // left bracket
        parse_array(b, pos)
    } else if c == 34 {  // quote
        match parse_string(b, pos) {
            Ok((s, p)) => Ok((JsonValue::Str(s), p)),
            Err(e) => Err(e),
        }
    } else if c == 116 {  // t
        if len - pos >= 4 && b[pos + 1] == 114 && b[pos + 2] == 117 && b[pos + 3] == 101 {
            Ok((JsonValue::Bool(true), pos + 4))
        } else {
            Err(Error::ParseError)
        }
    } else if c == 102 {  // f
        if len - pos >= 5 && b[pos + 1] == 97 && b[pos + 2] == 108 && b[pos + 3] == 115 && b[pos
            + 4] == 101 {
            Ok((JsonValue::Bool(false), pos + 5))
        } else {
            Err(Error::ParseError)
        }
    } else if c == 110 {  // n
        if len - pos >= 4 && b[pos + 1] == 117 && b[pos + 2] == 108 && b[pos + 3] == 108 {
            Ok((JsonValue::Null, pos + 4))
        } else {
            Err(Error::ParseError)
        }
    } else if c == 45 || (48 <= c && c <= 57) {  // minus or digit
        match parse_number(b, pos) {
            Ok((n, p)) => Ok((JsonValue::Num(n), p)),
            Err(e) => Err(e),
        }
    } else {
        Err(Error::ParseError)
    }
}

/// Reads one string at `pos`, which must hold its opening quote; yields
/// the decoded bytes and the position after the closing quote.
fn parse_string(b: &Vec<u8>, pos: usize) -> (r: Result<(Vec<u8>, usize), Error>)
    requires
        pos < b@.len(),
    ensures
        match r {
            Ok(t) => {
                &&& spec_string_parse(b@, pos as int) == Some((t.0@, t.1 as int))
                &&& pos < t.1 <= b@.len()
            },
            Err(e) => spec_string_parse(b@, pos as int) is None && e == Error::ParseError,
        },
{
    let len = b.len();
    if b[pos] != 34 {
        return Err(Error::ParseError);
    }
    let mut out: Vec<u8> = Vec::new();
    let mut p = pos + 1;
    while p < len
        invariant
            len == b@.len(),
            pos < p <= len,
            b@[pos as int] == 34,
            match spec_string_body(b@, p as int) {
                None => spec_string_parse(b@, pos as int) is None,
                Some((rest, end)) => spec_string_parse(b@, pos as int) == Some(
                    (out@ + rest, end),
                ),
            },
        decreases len - p,
    {
        let c = b[p];
        if c == 34 {
            proof {
                assert(out@ + Seq::<u8>::empty() =~= out@);
            }
            return Ok((out, p + 1));
        }
        if c == 92 {  // backslash
            if len - p < 2 {
                return Err(Error::ParseError);
            }
            let e = b[p + 1];
            let decoded: u8 = if e == 34 {
                34
            } else if e == 92 {
                92
            } else if e == 47 {
                47
            } else if e == 110 {
                10
            } else if e == 116 {
                9
            } else if e == 114 {
                13
            } else if e == 98 {
                8
            } else if e == 102 {
                12
            } else {
                return Err(Error::ParseError);
            };
            let ghost pre = out@;
            out.push(decoded);
            p = p + 2;
            proof {
                if spec_string_body(b@, p as int) is Some {
                    assert(pre + (seq![decoded] + (spec_string_body(b@, p as int)->0).0) =~= out@
                        + (spec_string_body(b@, p as int)->0).0);
                }
            }
        } else if c < 32 {
            return Err(Error::ParseError);
        } else {
            let ghost pre = out@;
            out.push(c);
            p = p + 1;
            proof {
                if spec_string_body(b@, p as int) is Some {
                    assert(pre + (seq![c] + (spec_string_body(b@, p as int)->0).0) =~= out@
                        + (spec_string_body(b@, p as int)->0).0);
                }
            }
        }
    }
    Err(Error::ParseError)
}

/// The position of the first byte at or after `pos` that is not a
/// decimal digit.
fn digit_end(b: &Vec<u8>, pos: usize) -> (r: usize)
    requires
        pos <= b@.len(),
    ensures
        r == spec_digit_end(b@, pos as int),
        pos <= r <= b@.len(),
{
    let len = b.len();
    let mut p = pos;
    while p < len && 48 <= b[p] && b[p] <= 57
        invariant
            len == b@.len(),
            pos <= p <= len,
            spec_digit_end(b@, pos as int) == spec_digit_end(b@, p as int),
        decreases len - p,
    {
        p = p + 1;
    }
    p
}

/// Reads the value of the digit run `[lo, hi)`, at most twelve digits.
fn digits_value(b: &Vec<u8>, lo: usize, hi: usize) -> (r: u64)
    requires
        lo <= hi <= b@.len(),
        hi - lo <= 12,
        forall|i: int| lo <= i < hi ==> 48 <= #[trigger] b@[i] <= 57,
    ensures
        r == spec_digits_val(b@, lo as int, hi as int),
        r <= spec_dec_max(hi - lo),
{
    let blen: usize = b.len();
    let mut val: u64 = 0;
    let mut k = lo;
    while k < hi
        invariant
            lo <= k <= hi <= b@.len(),
            blen == b@.len(),
            hi - lo <= 12,
            forall|i: int| lo <= i < hi ==> 48 <= #[trigger] b@[i] <= 57,
            val == spec_digits_val(b@, lo as int, k as int),
            val <= spec_dec_max(k - lo),
        decreases hi - k,
    {
        val = val * 10 + (b[k] - 48) as u64;
        k = k + 1;
    }
    val
}

/// Reads one number at `pos`; yields its value in millionths, truncated
/// toward zero, and the position after it. Exponent notation, more than
/// twelve integer digits, and values past the fixed-point range are
/// rejected.
fn parse_number(b: &Vec<u8>, pos: usize) -> (r: Result<(i64, usize), Error>)
    requires
        pos < b@.len(),
    ensures
        match r {
            Ok(t) => {
                &&& spec_number_parse(b@, pos as int) == Some((t.0, t.1 as int))
                &&& pos < t.1 <= b@.len()
            },
            Err(e) => spec_number_parse(b@, pos as int) is None && e == Error::ParseError,
        },
{
    let len = b.len();
    let negative = b[pos] == 45;
    let d0 = if negative {
        pos + 1
    } else {
        pos
    };
    if d0 >= len || b[d0] < 48 || b[d0] > 57 {
        return Err(Error::ParseError);
    }
    let dend = digit_end(b, d0);
    if dend - d0 > 12 {
        return Err(Error::ParseError);
    }
    proof {
        lemma_digit_run(b@, d0 as int);
        lemma_digit_run(b@, d0 + 1 as int);
        assert(spec_digit_end(b@, d0 as int) == spec_digit_end(b@, d0 + 1));
    }
    let ipart = digits_value(b, d0, dend);
    let mut micro: u64 = 0;
    let mut end = dend;
    if dend < len && b[dend] == 46 {  // decimal point
        let f0 = dend + 1;
        if f0 >= len || b[f0] < 48 || b[f0] > 57 {
            return Err(Error::ParseError);
        }
        let fend = digit_end(b, f0);
        proof {
            lemma_digit_run(b@, f0 as int);
        }
        let used = if fend - f0 > 6 {
            6
        } else {
            fend - f0
        };
        let mv = digits_value(b, f0, f0 + used);
        micro = if used == 0 {
            0
        } else if used == 1 {
            mv * 100000
        } else if used == 2 {
            mv * 10000
        } else if used == 3 {
            mv * 1000
        } else if used == 4 {
            mv * 100
        } else if used == 5 {
            mv * 10
        } else {
            mv
        };
        end = fend;
    }
    if end < len && (b[end] == 101 || b[end] == 69) {  // exponent marker
        return Err(Error::ParseError);
    }
    let mag: u64 = ipart * 1000000 + micro;
    let value: i64 = if negative {
        -(mag as i64)
    } else {
        mag as i64
    };
    Ok((value, end))
}

/// Every byte from `pos` to its digit end is a digit.
proof fn lemma_digit_run(s: Seq<u8>, pos: int)
    requires
        0 <= pos <= s.len(),
    ensures
        pos <= spec_digit_end(s, pos) <= s.len(),
        forall|i: int| pos <= i < spec_digit_end(s, pos) ==> 48 <= #[trigger] s[i] <= 57,
    decreases s.len() - pos,
{
    if pos < s.len() && 48 <= s[pos] <= 57 {
        lemma_digit_run(s, pos + 1);
    }
}

/// Reads one array at `pos`, which must hold its opening bracket.
fn parse_array(b: &Vec<u8>, pos: usize) -> (r: Result<(JsonValue, usize), Error>)
    requires
        pos < b@.len(),
        b@[pos as int] == 91,
    ensures
        match r {
            Ok(t) => {
                &&& spec_value_parse(b@, pos as int) == Some((json_model(t.0), t.1 as int))
                &&& pos < t.1 <= b@.len()
            },
            Err(e) => spec_value_parse(b@, pos as int) is None && e == Error::ParseError,
        },
    decreases b@.len() - pos, 1int,
{
    let len = b.len();
    let mut items: Vec<JsonValue> = Vec::new();
    let mut p = skip_blank(b, pos + 1);
    if p < len && b[p] == 93 {  // right bracket
        proof {
            lemma_arr_deep(items);
            assert(json_models(items@) =~= Seq::<JsonModel>::empty());
        }
        return Ok((JsonValue::Arr(items), p + 1));
    }
    loop
        invariant
            len == b@.len(),
            pos < p <= len,
            spec_items_parse(b@, p as int) is None ==> spec_value_parse(b@, pos as int)
                is None,
            spec_items_parse(b@, p as int) is Some ==> spec_value_parse(b@, pos as int)
                == Some(
                (
                    JsonModel::Arr(json_models(items@) + (spec_items_parse(b@, p as int)->0).0),
                    (spec_items_parse(b@, p as int)->0).1,
                ),
            ),
        decreases len - p,
    {
        let (v, after) = match parse_value(b, p) {
            Ok(t) => t,
            Err(e) => {
                return Err(e);
            },
        };
        let ghost pre = json_models(items@);
        items.push(v);
        proof {
            assert(json_models(items@) =~= pre.push(json_model(v)));
        }
        let q = skip_blank(b, after);
        if q < len && b[q] == 93 {
            proof {
                assert(spec_items_parse(b@, p as int) == Some(
                    (seq![json_model(v)], q + 1 as int),
                ));
                assert(pre + seq![json_model(v)] =~= json_models(items@));
                lemma_arr_deep(items);
            }
            return Ok((JsonValue::Arr(items), q + 1));
        }
        if q < len && b[q] == 44 {  // comma
            let next = skip_blank(b, q + 1);
            proof {
                if spec_items_parse(b@, next as int) is Some {
                    let rest = spec_items_parse(b@, next as int)->0;
                    assert(spec_items_parse(b@, p as int) == Some(
                        (seq![json_model(v)] + rest.0, rest.1),
                    ));
                    assert(pre + (seq![json_model(v)] + rest.0) =~= json_models(items@) + rest.0);
                }
            }
            p = next;
        } else {
            proof {
                assert(spec_items_parse(b@, p as int) is None);
            }
            return Err(Error::ParseError);
        }
    }
}

/// Reads one object at `pos`, which must hold its opening brace.
fn parse_object(b: &Vec<u8>, pos: usize) -> (r: Result<(JsonValue, usize), Error>)
    requires
        pos < b@.len(),
        b@[pos as int] == 123,
    ensures
        match r {
            Ok(t) => {
                &&& spec_value_parse(b@, pos as int) == Some((json_model(t.0), t.1 as int))
                &&& pos < t.1 <= b@.len()
            },
            Err(e) => spec_value_parse(b@, pos as int) is None && e == Error::ParseError,
        },
    decreases b@.len() - pos, 1int,
{
    let len = b.len();
    let mut members: Vec<(Vec<u8>, JsonValue)> = Vec::new();
    let mut p = skip_blank(b, pos + 1);
    if p < len && b[p] == 125 {  // right brace
        proof {
            lemma_obj_deep(members);
            assert(member_models(members@) =~= Seq::<(Seq<u8>, JsonModel)>::empty());
        }
        return Ok((JsonValue::Obj(members), p + 1));
    }
    loop
        invariant
            len == b@.len(),
            pos < p <= len,
            spec_members_parse(b@, p as int) is None ==> spec_value_parse(b@, pos as int)
                is None,
            spec_members_parse(b@, p as int) is Some ==> spec_value_parse(b@, pos as int)
                == Some(
                (
                    JsonModel::Obj(member_models(members@) + (spec_members_parse(b@, p as int)->0).0),
                    (spec_members_parse(b@, p as int)->0).1,
                ),
            ),
        decreases len - p,
    {
        if p >= len {
            return Err(Error::ParseError);
        }
        let (key, after_key) = match parse_string(b, p) {
            Ok(t) => t,
            Err(e) => {
                return Err(e);
            },
        };
        let colon = skip_blank(b, after_key);
        if !(colon < len && b[colon] == 58) {  // colon
            return Err(Error::ParseError);
        }
        let vstart = skip_blank(b, colon + 1);
        let (v, after) = match parse_value(b, vstart) {
            Ok(t) => t,
            Err(e) => {
                return Err(e);
            },
        };
        let ghost pre = member_models(members@);
        let ghost keyseq = key@;
        members.push((key, v));
        proof {
            assert(member_models(members@) =~= pre.push((keyseq, json_model(v))));
        }
        let q = skip_blank(b, after);
        if q < len && b[q] == 125 {
            proof {
                assert(spec_members_parse(b@, p as int) == Some(
                    (seq![(keyseq, json_model(v))], q + 1 as int),
                ));
                assert(pre + seq![(keyseq, json_model(v))] =~= member_models(members@));
                lemma_obj_deep(members);
            }
            return Ok((JsonValue::Obj(members), q + 1));
        }
        if q < len && b[q] == 44 {
            let next = skip_blank(b, q + 1);
            proof {
                if spec_members_parse(b@, next as int) is Some {
                    let rest = spec_members_parse(b@, next as int)->0;
                    assert(spec_members_parse(b@, p as int) == Some(
                        (seq![(keyseq, json_model(v))] + rest.0, rest.1),
                    ));
                    assert(pre + (seq![(keyseq, json_model(v))] + rest.0) =~= member_models(
                        members@,
                    ) + rest.0);
                }
            }
            p = next;
        } else {
            proof {
                assert(spec_members_parse(b@, p as int) is None);
            }
            return Err(Error::ParseError);
        }
    }
}

} // verus!
