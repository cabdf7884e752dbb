//! A small JSON reader for the wire protocol's response bodies.
//!
//! The reader accepts objects, arrays, strings without escape sequences,
//! unsigned integers that fit `u64`, `true`, `false` and `null`, with
//! arbitrary whitespace between tokens. That covers every body the order
//! service produces; anything else is malformed and reads as `None`.
//!
//! What the reader accepts and returns is stated exactly: [`spec_parse_json`]
//! is the mathematical parser over the character sequence, [`JsonS`] its
//! value tree, and [`parse_json`] is proved to return exactly what the
//! mathematical parser says, via the deep view [`Json::deep`]. The
//! field-lookup functions below carry the same exactness, so response
//! classification is forced all the way from the raw body text.

use vstd::prelude::*;

use crate::strings::{chars_to_string, str_chars, str_eq};

verus! {

/// One JSON value.
pub enum Json {
    Null,
    Bool(bool),
    UInt(u64),
    Text(String),
    Arr(Vec<Json>),
    Obj(Vec<(String, Json)>),
}

/// One JSON value, mathematically: strings as character sequences, arrays
/// and objects as sequences.
#[verifier::ext_equal]
pub ghost enum JsonS {
    Null,
    Bool(bool),
    UInt(u64),
    Text(Seq<char>),
    Arr(Seq<JsonS>),
    Obj(Seq<(Seq<char>, JsonS)>),
}

impl Json {
    /// The mathematical image of this value.
    pub open spec fn deep(self) -> JsonS
        decreases self,
    {
        match self {
            Json::Null => JsonS::Null,
            Json::Bool(b) => JsonS::Bool(b),
            Json::UInt(n) => JsonS::UInt(n),
            Json::Text(s) => JsonS::Text(s@),
            Json::Arr(v) => JsonS::Arr(deep_seq(v@)),
            Json::Obj(f) => JsonS::Obj(deep_fields(f@)),
        }
    }
}

/// The mathematical images of a sequence of values.
pub open spec fn deep_seq(s: Seq<Json>) -> Seq<JsonS>
    decreases s,
{
    Seq::new(
        s.len(),
        |i: int|
            if 0 <= i < s.len() {
                s[i].deep()
            } else {
                JsonS::Null
            },
    )
}

/// The mathematical images of an object's field list.
pub open spec fn deep_fields(f: Seq<(String, Json)>) -> Seq<(Seq<char>, JsonS)>
    decreases f,
{
    Seq::new(
        f.len(),
        |i: int|
            if 0 <= i < f.len() {
                (f[i].0@, f[i].1.deep())
            } else {
                (Seq::empty(), JsonS::Null)
            },
    )
}

/// Whitespace accepted between tokens.
pub open spec fn is_ws(c: char) -> bool {
    c == ' ' || c == '\t' || c == '\n' || c == '\r'
}

/// A decimal digit.
pub open spec fn is_digit(c: char) -> bool {
    '0' <= c && c <= '9'
}

/// The first position at or after `i` holding a non-whitespace character.
pub open spec fn spec_skip_ws(v: Seq<char>, i: int) -> int
    decreases v.len() - i,
{
    if 0 <= i < v.len() && is_ws(v[i]) {
        spec_skip_ws(v, i + 1)
    } else {
        i
    }
}

/// Reads digits from `j` on, continuing the number `n` read so far (`j` is
/// past at least one digit when `some_digits` holds); a value beyond `u64`
/// reads as `None`.
pub open spec fn spec_parse_uint_rest(v: Seq<char>, j: int, n: u64, some_digits: bool) -> Option<
    (u64, int),
>
    decreases v.len() - j,
{
    if 0 <= j < v.len() && is_digit(v[j]) {
        let d = v[j] as int - 48;
        if n > (u64::MAX - d) / 10 {
            None
        } else {
            spec_parse_uint_rest(v, j + 1, (10 * n + d) as u64, true)
        }
    } else {
        if some_digits {
            Some((n, j))
        } else {
            None
        }
    }
}

/// Reads an unsigned integer starting at `i`.
pub open spec fn spec_parse_uint(v: Seq<char>, i: int) -> Option<(u64, int)> {
    spec_parse_uint_rest(v, i, 0, false)
}

/// Reads a string body from `j` on (the opening quote already consumed,
/// `acc` read so far) up to its closing quote; escape sequences read as
/// `None`.
pub open spec fn spec_parse_text_rest(v: Seq<char>, j: int, acc: Seq<char>) -> Option<
    (Seq<char>, int),
>
    decreases v.len() - j,
{
    if 0 <= j < v.len() {
        if v[j] == '"' {
            Some((acc, j + 1))
        } else if v[j] == '\\' {
            None
        } else {
            spec_parse_text_rest(v, j + 1, acc.push(v[j]))
        }
    } else {
        None
    }
}

/// Reads a string body starting at `i` (after the opening quote).
pub open spec fn spec_parse_text(v: Seq<char>, i: int) -> Option<(Seq<char>, int)> {
    spec_parse_text_rest(v, i, Seq::empty())
}

/// Reads one JSON value starting at `i` (no leading whitespace).
///
/// The `pos < next` guards in the array and object readers state the
/// progress every sub-read makes; they can never fail, but they make the
/// recursion visibly well founded.
pub open spec fn spec_parse_value(v: Seq<char>, i: int) -> Option<(JsonS, int)>
    decreases v.len() - i, 1int,
{
    if !(0 <= i < v.len()) {
        None
    } else {
        let c = v[i];
        if c == '{' {
            spec_parse_obj(v, i + 1)
        } else if c == '[' {
            spec_parse_arr(v, i + 1)
        } else if c == '"' {
            match spec_parse_text(v, i + 1) {
                Some((s, j)) => Some((JsonS::Text(s), j)),
                None => None,
            }
        } else if is_digit(c) {
            match spec_parse_uint(v, i) {
                Some((n, j)) => Some((JsonS::UInt(n), j)),
                None => None,
            }
        } else if c == 't' {
            if v.len() - i >= 4 && v[i + 1] == 'r' && v[i + 2] == 'u' && v[i + 3] == 'e' {
                Some((JsonS::Bool(true), i + 4))
            } else {
                None
            }
        } else if c == 'f' {
            if v.len() - i >= 5 && v[i + 1] == 'a' && v[i + 2] == 'l' && v[i + 3] == 's' && v[i + 4]
                == 'e' {
                Some((JsonS::Bool(false), i + 5))
            } else {
                None
            }
        } else if c == 'n' {
            if v.len() - i >= 4 && v[i + 1] == 'u' && v[i + 2] == 'l' && v[i + 3] == 'l' {
                Some((JsonS::Null, i + 4))
            } else {
                None
            }
        } else {
            None
        }
    }
}

/// Reads an array's elements and closing bracket (after the opening one).
pub open spec fn spec_parse_arr(v: Seq<char>, i: int) -> Option<(JsonS, int)>
    decreases v.len() - i, 3int,
{
    let pos = spec_skip_ws(v, i);
    if !(i <= pos <= v.len()) {
        None
    } else if pos < v.len() && v[pos] == ']' {
        Some((JsonS::Arr(Seq::empty()), pos + 1))
    } else {
        spec_parse_arr_rest(v, pos, Seq::empty())
    }
}

/// Reads the remaining elements of an array from `pos` on, `acc` read so
/// far.
pub open spec fn spec_parse_arr_rest(v: Seq<char>, pos: int, acc: Seq<JsonS>) -> Option<
    (JsonS, int),
>
    decreases v.len() - pos, 2int,
{
    match spec_parse_value(v, pos) {
        None => None,
        Some((value, next)) => {
            if !(pos < next <= v.len()) {
                None
            } else {
                let after = spec_skip_ws(v, next);
                if after < v.len() && v[after] == ']' {
                    Some((JsonS::Arr(acc.push(value)), after + 1))
                } else if after < v.len() && v[after] == ',' {
                    let p2 = spec_skip_ws(v, after + 1);
                    if !(pos < p2 <= v.len()) {
                        None
                    } else {
                        spec_parse_arr_rest(v, p2, acc.push(value))
                    }
                } else {
                    None
                }
            }
        },
    }
}

/// Reads an object's members and closing brace (after the opening one).
pub open spec fn spec_parse_obj(v: Seq<char>, i: int) -> Option<(JsonS, int)>
    decreases v.len() - i, 3int,
{
    let pos = spec_skip_ws(v, i);
    if !(i <= pos <= v.len()) {
        None
    } else if pos < v.len() && v[pos] == '}' {
        Some((JsonS::Obj(Seq::empty()), pos + 1))
    } else {
        spec_parse_obj_rest(v, pos, Seq::empty())
    }
}

/// Reads the remaining members of an object from `pos` on, `acc` read so
/// far.
pub open spec fn spec_parse_obj_rest(
    v: Seq<char>,
    pos: int,
    acc: Seq<(Seq<char>, JsonS)>,
) -> Option<(JsonS, int)>
    decreases v.len() - pos, 2int,
{
    if !(0 <= pos < v.len() && v[pos] == '"') {
        None
    } else {
        match spec_parse_text(v, pos + 1) {
            None => None,
            Some((key, after_key)) => {
                let colon = spec_skip_ws(v, after_key);
                if !(colon < v.len() && v[colon] == ':') {
                    None
                } else {
                    let vstart = spec_skip_ws(v, colon + 1);
                    if !(pos <= vstart <= v.len()) {
                        None
                    } else {
                        match spec_parse_value(v, vstart) {
                            None => None,
                            Some((value, next)) => {
                                if !(pos < next <= v.len()) {
                                    None
                                } else {
                                    let after = spec_skip_ws(v, next);
                                    if after < v.len() && v[after] == '}' {
                                        Some((JsonS::Obj(acc.push((key, value))), after + 1))
                                    } else if after < v.len() && v[after] == ',' {
                                        let p2 = spec_skip_ws(v, after + 1);
                                        if !(pos < p2 <= v.len()) {
                                            None
                                        } else {
                                            spec_parse_obj_rest(v, p2, acc.push((key, value)))
                                        }
                                    } else {
                                        None
                                    }
                                }
                            },
                        }
                    }
                }
            },
        }
    }
}

/// Reads a whole document: one value, surrounded by whitespace only.
pub open spec fn spec_parse_json(s: Seq<char>) -> Option<JsonS> {
    let start = spec_skip_ws(s, 0);
    match spec_parse_value(s, start) {
        Some((value, next)) => {
            if spec_skip_ws(s, next) == s.len() {
                Some(value)
            } else {
                None
            }
        },
        None => None,
    }
}

/// The first position at or after `i` holding a non-whitespace character.
fn skip_ws(v: &Vec<char>, i: usize) -> (r: usize)
    requires
        i <= v@.len(),
    ensures
        i <= r <= v@.len(),
        r as int == spec_skip_ws(v@, i as int),
    decreases v@.len() - i,
{
    if i < v.len() && (v[i] == ' ' || v[i] == '\t' || v[i] == '\n' || v[i] == '\r') {
        skip_ws(v, i + 1)
    } else {
        i
    }
}

/// Reads an unsigned integer starting at `i`.
fn parse_uint(v: &Vec<char>, i: usize) -> (r: Option<(u64, usize)>)
    requires
        i <= v@.len(),
    ensures
        r matches Some(p) ==> i < p.1 <= v@.len() && spec_parse_uint(v@, i as int) == Some(
            (p.0, p.1 as int),
        ),
        r is None ==> spec_parse_uint(v@, i as int) is None,
{
    let mut n: u64 = 0;
    let mut j: usize = i;
    while j < v.len() && v[j] >= '0' && v[j] <= '9'
        invariant
            i <= j <= v@.len(),
            spec_parse_uint(v@, i as int) == spec_parse_uint_rest(v@, j as int, n, j > i),
            j > i || n == 0,
        decreases v@.len() - j,
    {
        let d = (v[j] as u32) as u64 - 48;
        if n > (u64::MAX - d) / 10 {
            return None;
        }
        n = 10 * n + d;
        j += 1;
    }
    if j == i {
        None
    } else {
        Some((n, j))
    }
}

/// Reads a string body (after the opening quote) up to its closing quote;
/// escape sequences are not accepted.
fn parse_text(v: &Vec<char>, i: usize) -> (r: Option<(String, usize)>)
    requires
        i <= v@.len(),
    ensures
        r matches Some(p) ==> i < p.1 <= v@.len() && spec_parse_text(v@, i as int) == Some(
            (p.0@, p.1 as int),
        ),
        r is None ==> spec_parse_text(v@, i as int) is None,
{
    let mut out: Vec<char> = Vec::new();
    let mut j: usize = i;
    while j < v.len() && v[j] != '"' && v[j] != '\\'
        invariant
            i <= j <= v@.len(),
            spec_parse_text(v@, i as int) == spec_parse_text_rest(v@, j as int, out@),
        decreases v@.len() - j,
    {
        out.push(v[j]);
        j += 1;
    }
    if j < v.len() && v[j] == '"' {
        Some((chars_to_string(&out), j + 1))
    } else {
        None
    }
}

/// Reads one JSON value starting at `i` (no leading whitespace).
fn parse_value(v: &Vec<char>, i: usize) -> (r: Option<(Json, usize)>)
    requires
        i <= v@.len(),
    ensures
        r matches Some(p) ==> i < p.1 <= v@.len() && spec_parse_value(v@, i as int) == Some(
            (p.0.deep(), p.1 as int),
        ),
        r is None ==> spec_parse_value(v@, i as int) is None,
    decreases v@.len() - i, 0int,
{
    if i >= v.len() {
        return None;
    }
    let c = v[i];
    if c == '{' {
        parse_obj(v, i + 1)
    } else if c == '[' {
        parse_arr(v, i + 1)
    } else if c == '"' {
        match parse_text(v, i + 1) {
            Some((s, j)) => Some((Json::Text(s), j)),
            None => None,
        }
    } else if c >= '0' && c <= '9' {
        match parse_uint(v, i) {
            Some((n, j)) => Some((Json::UInt(n), j)),
            None => None,
        }
    } else if c == 't' {
        if v.len() - i >= 4 && v[i + 1] == 'r' && v[i + 2] == 'u' && v[i + 3] == 'e' {
            Some((Json::Bool(true), i + 4))
        } else {
            None
        }
    } else if c == 'f' {
        if v.len() - i >= 5 && v[i + 1] == 'a' && v[i + 2] == 'l' && v[i + 3] == 's' && v[i + 4]
            == 'e' {
            Some((Json::Bool(false), i + 5))
        } else {
            None
        }
    } else if c == 'n' {
        if v.len() - i >= 4 && v[i + 1] == 'u' && v[i + 2] == 'l' && v[i + 3] == 'l' {
            Some((Json::Null, i + 4))
        } else {
            None
        }
    } else {
        None
    }
}

/// Reads an array's elements and closing bracket (after the opening one).
fn parse_arr(v: &Vec<char>, i: usize) -> (r: Option<(Json, usize)>)
    requires
        i <= v@.len(),
    ensures
        r matches Some(p) ==> i < p.1 <= v@.len() && spec_parse_arr(v@, i as int) == Some(
            (p.0.deep(), p.1 as int),
        ),
        r is None ==> spec_parse_arr(v@, i as int) is None,
    decreases v@.len() - i, 2int,
{
    let mut elems: Vec<Json> = Vec::new();
    proof {
        assert(deep_seq(elems@) =~= Seq::<JsonS>::empty());
    }
    let mut pos = skip_ws(v, i);
    if pos < v.len() && v[pos] == ']' {
        proof {
            assert(Json::Arr(elems).deep() =~= JsonS::Arr(Seq::<JsonS>::empty()));
        }
        return Some((Json::Arr(elems), pos + 1));
    }
    loop
        invariant
            i <= pos <= v@.len(),
            spec_parse_arr(v@, i as int) == spec_parse_arr_rest(v@, pos as int, deep_seq(elems@)),
        decreases v@.len() - pos,
    {
        let ghost entry_elems = elems@;
        let (value, next) = match parse_value(v, pos) {
            Some(p) => p,
            None => {
                return None;
            },
        };
        elems.push(value);
        proof {
            assert(deep_seq(elems@) =~= deep_seq(entry_elems).push(value.deep()));
        }
        pos = skip_ws(v, next);
        if pos < v.len() && v[pos] == ']' {
            proof {
                assert(Json::Arr(elems).deep() =~= JsonS::Arr(deep_seq(elems@)));
            }
            return Some((Json::Arr(elems), pos + 1));
        }
        if pos < v.len() && v[pos] == ',' {
            pos = skip_ws(v, pos + 1);
        } else {
            return None;
        }
    }
}

/// Reads an object's members and closing brace (after the opening one).
fn parse_obj(v: &Vec<char>, i: usize) -> (r: Option<(Json, usize)>)
    requires
        i <= v@.len(),
    ensures
        r matches Some(p) ==> i < p.1 <= v@.len() && spec_parse_obj(v@, i as int) == Some(
            (p.0.deep(), p.1 as int),
        ),
        r is None ==> spec_parse_obj(v@, i as int) is None,
    decreases v@.len() - i, 2int,
{
    let mut fields: Vec<(String, Json)> = Vec::new();
    proof {
        assert(deep_fields(fields@) =~= Seq::<(Seq<char>, JsonS)>::empty());
    }
    let mut pos = skip_ws(v, i);
    if pos < v.len() && v[pos] == '}' {
        proof {
            assert(Json::Obj(fields).deep() =~= JsonS::Obj(Seq::<(Seq<char>, JsonS)>::empty()));
        }
        return Some((Json::Obj(fields), pos + 1));
    }
    loop
        invariant
            i <= pos <= v@.len(),
            spec_parse_obj(v@, i as int) == spec_parse_obj_rest(
                v@,
                pos as int,
                deep_fields(fields@),
            ),
        decreases v@.len() - pos,
    {
        let ghost entry_fields = fields@;
        if !(pos < v.len() && v[pos] == '"') {
            return None;
        }
        let (key, after_key) = match parse_text(v, pos + 1) {
            Some(p) => p,
            None => {
                return None;
            },
        };
        let colon = skip_ws(v, after_key);
        if !(colon < v.len() && v[colon] == ':') {
            return None;
        }
        let vstart = skip_ws(v, colon + 1);
        let (value, next) = match parse_value(v, vstart) {
            Some(p) => p,
            None => {
                return None;
            },
        };
        fields.push((key, value));
        proof {
            assert(deep_fields(fields@) =~= deep_fields(entry_fields).push(
                (fields@.last().0@, fields@.last().1.deep()),
            ));
        }
        pos = skip_ws(v, next);
        if pos < v.len() && v[pos] == '}' {
            proof {
                assert(Json::Obj(fields).deep() =~= JsonS::Obj(deep_fields(fields@)));
            }
            return Some((Json::Obj(fields), pos + 1));
        }
        if pos < v.len() && v[pos] == ',' {
            pos = skip_ws(v, pos + 1);
        } else {
            return None;
        }
    }
}

/// Reads a whole document: one value, surrounded by whitespace only.
/// Returns exactly what [`spec_parse_json`] reads out of the text.
pub fn parse_json(s: &str) -> (r: Option<Json>)
    ensures
        r matches Some(j) ==> spec_parse_json(s@) == Some(j.deep()),
        r is None ==> spec_parse_json(s@) is None,
{
    let v = str_chars(s);
    let start = skip_ws(&v, 0);
    match parse_value(&v, start) {
        Some((value, next)) => {
            let end = skip_ws(&v, next);
            if end == v.len() {
                Some(value)
            } else {
                None
            }
        },
        None => None,
    }
}

/// The value of the first member named `k`, if any.
pub open spec fn obj_get(fields: Seq<(Seq<char>, JsonS)>, k: Seq<char>) -> Option<JsonS>
    decreases fields.len(),
{
    if fields.len() == 0 {
        None
    } else if fields[0].0 == k {
        Some(fields[0].1)
    } else {
        obj_get(fields.drop_first(), k)
    }
}

/// The member named `k` of an object's field list.
pub fn get_field<'a>(fields: &'a Vec<(String, Json)>, k: &str) -> (r: Option<&'a Json>)
    ensures
        r matches Some(j) ==> obj_get(deep_fields(fields@), k@) == Some(j.deep()),
        r matches None ==> obj_get(deep_fields(fields@), k@) is None,
{
    let mut idx: usize = 0;
    proof {
        assert(deep_fields(fields@).skip(0) =~= deep_fields(fields@));
    }
    while idx < fields.len()
        invariant
            idx <= fields@.len(),
            obj_get(deep_fields(fields@), k@) == obj_get(
                deep_fields(fields@).skip(idx as int),
                k@,
            ),
        decreases fields@.len() - idx,
    {
        proof {
            assert(deep_fields(fields@).skip(idx as int)[0] == deep_fields(fields@)[idx as int]);
        }
        if str_eq(fields[idx].0.as_str(), k) {
            return Some(&fields[idx].1);
        }
        proof {
            assert(deep_fields(fields@).skip(idx as int).drop_first() =~= deep_fields(
                fields@,
            ).skip(idx as int + 1));
        }
        idx += 1;
    }
    proof {
        assert(deep_fields(fields@).skip(idx as int).len() == 0);
    }
    None
}

/// The `u32` a member holds: it must be an integer in `u32` range.
pub open spec fn spec_json_u32(o: Option<JsonS>) -> Option<u32> {
    match o {
        Some(JsonS::UInt(n)) => if n <= u32::MAX {
            Some(n as u32)
        } else {
            None
        },
        _ => None,
    }
}

/// The text a member holds: it must be a string.
pub open spec fn spec_json_text(o: Option<JsonS>) -> Option<Seq<char>> {
    match o {
        Some(JsonS::Text(s)) => Some(s),
        _ => None,
    }
}

/// The `u32` member named `k` of an object's field list.
pub fn get_u32_field(fields: &Vec<(String, Json)>, k: &str) -> (r: Option<u32>)
    ensures
        r == spec_json_u32(obj_get(deep_fields(fields@), k@)),
{
    match get_field(fields, k) {
        Some(Json::UInt(n)) => {
            let n = *n;
            if n <= 0xffffffff {
                Some(n as u32)
            } else {
                None
            }
        },
        _ => None,
    }
}

/// The string member named `k` of an object's field list.
pub fn get_text_field(fields: &Vec<(String, Json)>, k: &str) -> (r: Option<String>)
    ensures
        r matches Some(s) ==> spec_json_text(obj_get(deep_fields(fields@), k@)) == Some(s@),
        r matches None ==> spec_json_text(obj_get(deep_fields(fields@), k@)) is None,
{
    match get_field(fields, k) {
        Some(Json::Text(s)) => Some(s.clone()),
        _ => None,
    }
}

} // verus!
