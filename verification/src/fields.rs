//! The per-field extraction policy.
//!
//! Every resource mapper walks an object's entries through these
//! helpers, so that required, optional and defaulted fields behave the
//! same way in every mapper:
//! - a *required* field that is missing or of the wrong shape fails the
//!   whole operation with [`ApiError::Schema`];
//! - an *optional* field that is missing, `null` or of the wrong shape
//!   becomes `None`, never a default;
//! - a *defaulted* field that is missing or of the wrong shape becomes
//!   its stated default.

use vstd::prelude::*;

use crate::error::{res_view, ApiError, ApiErrorV, JsonKind};
use crate::json::{lookup, lookup_from, Json, JsonNum, JsonNumV};

verus! {

/// Relies on `<str as PartialEq>::eq`: two string slices are equal
/// exactly when their characters are.
#[verifier::external_body]
pub(crate) fn str_eq(a: &str, b: &str) -> (r: bool)
    ensures
        r == (a@ == b@),
{
    a == b
}

/// Look a field up among an object's entries.
pub fn get<'a>(entries: &'a Vec<(String, Json)>, name: &str) -> (r: Option<&'a Json>)
    ensures
        match r {
            Some(j) => lookup(entries@, name@) == Some(*j),
            None => lookup(entries@, name@) is None,
        },
{
    let n = entries.len();
    for i in 0..n
        invariant
            n == entries@.len(),
            lookup(entries@, name@) == lookup_from(entries@, name@, i as int),
    {
        if str_eq(entries[i].0.as_str(), name) {
            return Some(&entries[i].1);
        }
    }
    None
}

/// `v` reduced to 32 bits, as the `as` cast does it.
pub open spec fn to_i32(v: i64) -> i32 {
    v as i32
}

/// Reduce an `i64` to 32 bits.
pub fn cast_i32(v: i64) -> (r: i32)
    ensures
        r == to_i32(v),
{
    #[verifier::truncate] (v as i32)
}

/// Required string field.
pub open spec fn v_req_str(o: Seq<(String, Json)>, name: Seq<char>) -> Result<
    Seq<char>,
    ApiErrorV,
> {
    match lookup(o, name) {
        Some(Json::Str(s)) => Ok(s@),
        _ => Err(ApiErrorV::Schema { field: name, expected: JsonKind::Str }),
    }
}

pub fn req_str(o: &Vec<(String, Json)>, name: &str) -> (r: Result<String, ApiError>)
    ensures
        res_view(r) == v_req_str(o@, name@),
{
    match get(o, name) {
        Some(Json::Str(s)) => Ok(s.clone()),
        _ => Err(ApiError::Schema { field: name.to_owned(), expected: JsonKind::Str }),
    }
}

/// Required integer field; only a number within `i64` range counts.
pub open spec fn v_req_i64(o: Seq<(String, Json)>, name: Seq<char>) -> Result<i64, ApiErrorV> {
    match lookup(o, name) {
        Some(Json::Int(v)) => Ok(v),
        _ => Err(ApiErrorV::Schema { field: name, expected: JsonKind::Int }),
    }
}

pub fn req_i64(o: &Vec<(String, Json)>, name: &str) -> (r: Result<i64, ApiError>)
    ensures
        res_view(r) == v_req_i64(o@, name@),
{
    match get(o, name) {
        Some(Json::Int(v)) => Ok(*v),
        _ => Err(ApiError::Schema { field: name.to_owned(), expected: JsonKind::Int }),
    }
}

/// Required integer field carried in a 32-bit record slot.
pub open spec fn v_req_i32(o: Seq<(String, Json)>, name: Seq<char>) -> Result<i32, ApiErrorV> {
    match v_req_i64(o, name) {
        Ok(v) => Ok(to_i32(v)),
        Err(e) => Err(e),
    }
}

pub fn req_i32(o: &Vec<(String, Json)>, name: &str) -> (r: Result<i32, ApiError>)
    ensures
        res_view(r) == v_req_i32(o@, name@),
{
    match req_i64(o, name) {
        Ok(v) => Ok(cast_i32(v)),
        Err(e) => Err(e),
    }
}

/// Required boolean field.
pub open spec fn v_req_bool(o: Seq<(String, Json)>, name: Seq<char>) -> Result<bool, ApiErrorV> {
    match lookup(o, name) {
        Some(Json::Bool(b)) => Ok(b),
        _ => Err(ApiErrorV::Schema { field: name, expected: JsonKind::Bool }),
    }
}

pub fn req_bool(o: &Vec<(String, Json)>, name: &str) -> (r: Result<bool, ApiError>)
    ensures
        res_view(r) == v_req_bool(o@, name@),
{
    match get(o, name) {
        Some(Json::Bool(b)) => Ok(*b),
        _ => Err(ApiError::Schema { field: name.to_owned(), expected: JsonKind::Bool }),
    }
}

/// Required numeric field of either shape: exact integer or decimal
/// text.
pub open spec fn v_req_num(o: Seq<(String, Json)>, name: Seq<char>) -> Result<
    JsonNumV,
    ApiErrorV,
> {
    match lookup(o, name) {
        Some(Json::Int(v)) => Ok(JsonNumV::Int(v)),
        Some(Json::Num(s)) => Ok(JsonNumV::Dec(s@)),
        _ => Err(ApiErrorV::Schema { field: name, expected: JsonKind::Num }),
    }
}

pub fn req_num(o: &Vec<(String, Json)>, name: &str) -> (r: Result<JsonNum, ApiError>)
    ensures
        res_view(r) == v_req_num(o@, name@),
{
    match get(o, name) {
        Some(Json::Int(v)) => Ok(JsonNum::Int(*v)),
        Some(Json::Num(s)) => Ok(JsonNum::Dec(s.clone())),
        _ => Err(ApiError::Schema { field: name.to_owned(), expected: JsonKind::Num }),
    }
}

/// An optional value abstracted to its view.
pub open spec fn opt_view<T: View>(o: Option<T>) -> Option<T::V> {
    match o {
        Some(t) => Some(t@),
        None => None,
    }
}

/// Optional string field: absent, `null` or non-string becomes `None`.
pub open spec fn v_opt_str(o: Seq<(String, Json)>, name: Seq<char>) -> Option<Seq<char>> {
    match lookup(o, name) {
        Some(Json::Str(s)) => Some(s@),
        _ => None,
    }
}

pub fn opt_str(o: &Vec<(String, Json)>, name: &str) -> (r: Option<String>)
    ensures
        opt_view(r) == v_opt_str(o@, name@),
{
    match get(o, name) {
        Some(Json::Str(s)) => Some(s.clone()),
        _ => None,
    }
}

/// Optional integer field carried in a 32-bit record slot.
pub open spec fn v_opt_i32(o: Seq<(String, Json)>, name: Seq<char>) -> Option<i32> {
    match lookup(o, name) {
        Some(Json::Int(v)) => Some(to_i32(v)),
        _ => None,
    }
}

pub fn opt_i32(o: &Vec<(String, Json)>, name: &str) -> (r: Option<i32>)
    ensures
        r == v_opt_i32(o@, name@),
{
    match get(o, name) {
        Some(Json::Int(v)) => Some(cast_i32(*v)),
        _ => None,
    }
}

/// Defaulted boolean field: absent or non-boolean becomes `false`.
pub open spec fn v_def_bool(o: Seq<(String, Json)>, name: Seq<char>) -> bool {
    match lookup(o, name) {
        Some(Json::Bool(b)) => b,
        _ => false,
    }
}

pub fn def_bool(o: &Vec<(String, Json)>, name: &str) -> (r: bool)
    ensures
        r == v_def_bool(o@, name@),
{
    match get(o, name) {
        Some(Json::Bool(b)) => *b,
        _ => false,
    }
}

/// Defaulted integer field: absent or non-integer becomes `d`.
pub open spec fn v_def_i32(o: Seq<(String, Json)>, name: Seq<char>, d: i32) -> i32 {
    match lookup(o, name) {
        Some(Json::Int(v)) => to_i32(v),
        _ => d,
    }
}

pub fn def_i32(o: &Vec<(String, Json)>, name: &str, d: i32) -> (r: i32)
    ensures
        r == v_def_i32(o@, name@, d),
{
    match get(o, name) {
        Some(Json::Int(v)) => cast_i32(*v),
        _ => d,
    }
}

/// Defaulted 64-bit integer field: absent or non-integer becomes `0`.
pub open spec fn v_def_i64(o: Seq<(String, Json)>, name: Seq<char>) -> i64 {
    match lookup(o, name) {
        Some(Json::Int(v)) => v,
        _ => 0,
    }
}

pub fn def_i64(o: &Vec<(String, Json)>, name: &str) -> (r: i64)
    ensures
        r == v_def_i64(o@, name@),
{
    match get(o, name) {
        Some(Json::Int(v)) => *v,
        _ => 0,
    }
}

/// Defaulted string field: absent or non-string becomes the empty
/// string.
pub open spec fn v_def_str(o: Seq<(String, Json)>, name: Seq<char>) -> Seq<char> {
    match lookup(o, name) {
        Some(Json::Str(s)) => s@,
        _ => Seq::empty(),
    }
}

pub fn def_str(o: &Vec<(String, Json)>, name: &str) -> (r: String)
    ensures
        r@ == v_def_str(o@, name@),
{
    match get(o, name) {
        Some(Json::Str(s)) => s.clone(),
        _ => String::new(),
    }
}

/// Numeric-as-string field: read as a string, `"0"` where the value is
/// absent or not a string.  The caller then parses the text, and a
/// non-numeric text is a hard error, not a default.
pub open spec fn v_str_or_zero(o: Seq<(String, Json)>, name: Seq<char>) -> Seq<char> {
    match lookup(o, name) {
        Some(Json::Str(s)) => s@,
        _ => "0"@,
    }
}

pub fn str_or_zero(o: &Vec<(String, Json)>, name: &str) -> (r: String)
    ensures
        r@ == v_str_or_zero(o@, name@),
{
    match get(o, name) {
        Some(Json::Str(s)) => s.clone(),
        _ => String::from_str("0"),
    }
}

/// Required object-valued field.
pub open spec fn v_req_obj(o: Seq<(String, Json)>, name: Seq<char>) -> Result<
    Seq<(String, Json)>,
    ApiErrorV,
> {
    match lookup(o, name) {
        Some(Json::Obj(entries)) => Ok(entries@),
        _ => Err(ApiErrorV::MissingNested { field: name }),
    }
}

pub fn req_obj<'a>(o: &'a Vec<(String, Json)>, name: &str) -> (r: Result<
    &'a Vec<(String, Json)>,
    ApiError,
>)
    ensures
        match r {
            Ok(entries) => v_req_obj(o@, name@) == Ok::<_, ApiErrorV>(entries@),
            Err(e) => v_req_obj(o@, name@) == Err::<Seq<(String, Json)>, _>(e@),
        },
{
    match get(o, name) {
        Some(Json::Obj(entries)) => Ok(entries),
        _ => Err(ApiError::MissingNested { field: name.to_owned() }),
    }
}

/// Optional object-valued field: absent, `null` or non-object becomes
/// `None`, and a nested record mapped from it is then absent too.
pub open spec fn v_opt_obj(o: Seq<(String, Json)>, name: Seq<char>) -> Option<
    Seq<(String, Json)>,
> {
    match lookup(o, name) {
        Some(Json::Obj(entries)) => Some(entries@),
        _ => None,
    }
}

pub fn opt_obj<'a>(o: &'a Vec<(String, Json)>, name: &str) -> (r: Option<&'a Vec<(String, Json)>>)
    ensures
        match r {
            Some(entries) => v_opt_obj(o@, name@) == Some(entries@),
            None => v_opt_obj(o@, name@) is None,
        },
{
    match get(o, name) {
        Some(Json::Obj(entries)) => Some(entries),
        _ => None,
    }
}

/// Required array-valued field.
pub open spec fn v_req_arr(o: Seq<(String, Json)>, name: Seq<char>) -> Result<
    Seq<Json>,
    ApiErrorV,
> {
    match lookup(o, name) {
        Some(Json::Arr(items)) => Ok(items@),
        _ => Err(ApiErrorV::MissingNested { field: name }),
    }
}

pub fn req_arr<'a>(o: &'a Vec<(String, Json)>, name: &str) -> (r: Result<&'a Vec<Json>, ApiError>)
    ensures
        match r {
            Ok(items) => v_req_arr(o@, name@) == Ok::<_, ApiErrorV>(items@),
            Err(e) => v_req_arr(o@, name@) == Err::<Seq<Json>, _>(e@),
        },
{
    match get(o, name) {
        Some(Json::Arr(items)) => Ok(items),
        _ => Err(ApiError::MissingNested { field: name.to_owned() }),
    }
}

/// The top level of a response that must be an object.  An empty field
/// name denotes the document root.
pub open spec fn v_root_obj(j: Json) -> Result<Seq<(String, Json)>, ApiErrorV> {
    match j {
        Json::Obj(entries) => Ok(entries@),
        _ => Err(ApiErrorV::MissingNested { field: Seq::empty() }),
    }
}

pub fn root_obj(j: &Json) -> (r: Result<&Vec<(String, Json)>, ApiError>)
    ensures
        match r {
            Ok(entries) => v_root_obj(*j) == Ok::<_, ApiErrorV>(entries@),
            Err(e) => v_root_obj(*j) == Err::<Seq<(String, Json)>, _>(e@),
        },
{
    match j {
        Json::Obj(entries) => Ok(entries),
        _ => Err(ApiError::MissingNested { field: String::new() }),
    }
}

/// The top level of a response that must be an array.
pub open spec fn v_root_arr(j: Json) -> Result<Seq<Json>, ApiErrorV> {
    match j {
        Json::Arr(items) => Ok(items@),
        _ => Err(ApiErrorV::MissingNested { field: Seq::empty() }),
    }
}

pub fn root_arr(j: &Json) -> (r: Result<&Vec<Json>, ApiError>)
    ensures
        match r {
            Ok(items) => v_root_arr(*j) == Ok::<_, ApiErrorV>(items@),
            Err(e) => v_root_arr(*j) == Err::<Seq<Json>, _>(e@),
        },
{
    match j {
        Json::Arr(items) => Ok(items),
        _ => Err(ApiError::MissingNested { field: String::new() }),
    }
}

/// Prefix already mapped, combined with the outcome for the rest of a
/// list: the first failing element fails the whole list.
pub open spec fn combine<B>(prefix: Seq<B>, r: Result<Seq<B>, ApiErrorV>) -> Result<
    Seq<B>,
    ApiErrorV,
> {
    match r {
        Ok(rest) => Ok(prefix + rest),
        Err(e) => Err(e),
    }
}

pub proof fn lemma_combine_empty<B>(r: Result<Seq<B>, ApiErrorV>)
    ensures
        combine(Seq::empty(), r) == r,
{
    match r {
        Ok(rest) => {
            assert(Seq::<B>::empty() + rest =~= rest);
        },
        Err(_) => {},
    }
}

pub proof fn lemma_combine_step<B>(prefix: Seq<B>, b: B, r: Result<Seq<B>, ApiErrorV>)
    ensures
        combine(prefix, combine(seq![b], r)) == combine(prefix.push(b), r),
{
    match r {
        Ok(rest) => {
            assert(prefix + (seq![b] + rest) =~= prefix.push(b) + rest);
        },
        Err(_) => {},
    }
}

pub proof fn lemma_combine_concat<B>(prefix: Seq<B>, mid: Seq<B>, r: Result<Seq<B>, ApiErrorV>)
    ensures
        combine(prefix, combine(mid, r)) == combine(prefix + mid, r),
{
    match r {
        Ok(rest) => {
            assert(prefix + (mid + rest) =~= (prefix + mid) + rest);
        },
        Err(_) => {},
    }
}

pub proof fn lemma_combine_fin<B>(prefix: Seq<B>)
    ensures
        combine(prefix, Ok::<Seq<B>, ApiErrorV>(Seq::empty())) == Ok::<Seq<B>, ApiErrorV>(prefix),
{
    assert(prefix + Seq::<B>::empty() =~= prefix);
}

/// Key/value entries with the keys abstracted to their characters.
pub open spec fn pairs_view<T>(s: Seq<(String, T)>) -> Seq<(Seq<char>, T)> {
    s.map_values(|p: (String, T)| (p.0@, p.1))
}

pub proof fn lemma_pairs_view_push<T>(s: Seq<(String, T)>, x: (String, T))
    ensures
        pairs_view(s.push(x)) == pairs_view(s).push((x.0@, x.1)),
{
    assert(pairs_view(s.push(x)) =~= pairs_view(s).push((x.0@, x.1)));
}

/// The keys of an object's entries, in source order.
pub open spec fn keys_view<T>(s: Seq<(String, T)>) -> Seq<Seq<char>> {
    s.map_values(|p: (String, T)| p.0@)
}

/// A list of strings abstracted to their characters.
pub open spec fn strs_view(s: Seq<String>) -> Seq<Seq<char>> {
    s.map_values(|x: String| x@)
}

pub proof fn lemma_strs_view_push(s: Seq<String>, x: String)
    ensures
        strs_view(s.push(x)) == strs_view(s).push(x@),
{
    assert(strs_view(s.push(x)) =~= strs_view(s).push(x@));
}

/// One entry of an integer dictionary: the value must be an integer,
/// and a wrong-shaped value fails under the entry's own key.
pub open spec fn v_int_entry(p: (String, Json)) -> Result<(Seq<char>, i32), ApiErrorV> {
    match p.1 {
        Json::Int(v) => Ok((p.0@, to_i32(v))),
        _ => Err(ApiErrorV::Schema { field: p.0@, expected: JsonKind::Int }),
    }
}

pub open spec fn v_int_dict_from(entries: Seq<(String, Json)>, i: int) -> Result<
    Seq<(Seq<char>, i32)>,
    ApiErrorV,
>
    decreases entries.len() - i,
{
    if i < 0 || i >= entries.len() {
        Ok(Seq::empty())
    } else {
        match v_int_entry(entries[i]) {
            Err(e) => Err(e),
            Ok(kv) => combine(seq![kv], v_int_dict_from(entries, i + 1)),
        }
    }
}

/// Dictionary field of integer counts: every key of the source object
/// becomes an entry, in source order, with no key coercion.
pub open spec fn v_int_dict(entries: Seq<(String, Json)>) -> Result<
    Seq<(Seq<char>, i32)>,
    ApiErrorV,
> {
    v_int_dict_from(entries, 0)
}

pub fn int_dict(entries: &Vec<(String, Json)>) -> (r: Result<Vec<(String, i32)>, ApiError>)
    ensures
        match r {
            Ok(d) => v_int_dict(entries@) == Ok::<_, ApiErrorV>(pairs_view(d@)),
            Err(e) => v_int_dict(entries@) == Err::<Seq<(Seq<char>, i32)>, _>(e@),
        },
{
    let mut acc: Vec<(String, i32)> = Vec::new();
    let n = entries.len();
    proof {
        lemma_combine_empty(v_int_dict_from(entries@, 0));
        assert(pairs_view(acc@) =~= Seq::<(Seq<char>, i32)>::empty());
    }
    for i in 0..n
        invariant
            n == entries@.len(),
            v_int_dict(entries@) == combine(pairs_view(acc@), v_int_dict_from(entries@, i as int)),
    {
        let key = &entries[i].0;
        match &entries[i].1 {
            Json::Int(v) => {
                let kv = (key.clone(), cast_i32(*v));
                proof {
                    lemma_combine_step(
                        pairs_view(acc@),
                        (kv.0@, kv.1),
                        v_int_dict_from(entries@, i + 1),
                    );
                    lemma_pairs_view_push(acc@, kv);
                }
                acc.push(kv);
            },
            _ => {
                return Err(
                    ApiError::Schema { field: key.clone(), expected: JsonKind::Int },
                );
            },
        }
    }
    proof {
        lemma_combine_fin(pairs_view(acc@));
    }
    Ok(acc)
}

/// One element of a list of strings; a wrong-shaped element fails under
/// the list's own field name.
pub open spec fn v_str_item(name: Seq<char>, j: Json) -> Result<Seq<char>, ApiErrorV> {
    match j {
        Json::Str(s) => Ok(s@),
        _ => Err(ApiErrorV::Schema { field: name, expected: JsonKind::Str }),
    }
}

pub open spec fn v_str_list_from(items: Seq<Json>, name: Seq<char>, i: int) -> Result<
    Seq<Seq<char>>,
    ApiErrorV,
>
    decreases items.len() - i,
{
    if i < 0 || i >= items.len() {
        Ok(Seq::empty())
    } else {
        match v_str_item(name, items[i]) {
            Err(e) => Err(e),
            Ok(s) => combine(seq![s], v_str_list_from(items, name, i + 1)),
        }
    }
}

/// List field of strings: every element must be a string, and the first
/// wrong-shaped element fails the whole operation.
pub open spec fn v_str_list(items: Seq<Json>, name: Seq<char>) -> Result<
    Seq<Seq<char>>,
    ApiErrorV,
> {
    v_str_list_from(items, name, 0)
}

pub fn str_list(items: &Vec<Json>, name: &str) -> (r: Result<Vec<String>, ApiError>)
    ensures
        match r {
            Ok(d) => v_str_list(items@, name@) == Ok::<_, ApiErrorV>(strs_view(d@)),
            Err(e) => v_str_list(items@, name@) == Err::<Seq<Seq<char>>, _>(e@),
        },
{
    let mut acc: Vec<String> = Vec::new();
    let n = items.len();
    proof {
        lemma_combine_empty(v_str_list_from(items@, name@, 0));
        assert(strs_view(acc@) =~= Seq::<Seq<char>>::empty());
    }
    for i in 0..n
        invariant
            n == items@.len(),
            v_str_list(items@, name@) == combine(
                strs_view(acc@),
                v_str_list_from(items@, name@, i as int),
            ),
    {
        match &items[i] {
            Json::Str(s) => {
                let x = s.clone();
                proof {
                    lemma_combine_step(strs_view(acc@), x@, v_str_list_from(items@, name@, i + 1));
                    lemma_strs_view_push(acc@, x);
                }
                acc.push(x);
            },
            _ => {
                return Err(
                    ApiError::Schema { field: name.to_owned(), expected: JsonKind::Str },
                );
            },
        }
    }
    proof {
        lemma_combine_fin(strs_view(acc@));
    }
    Ok(acc)
}

pub open spec fn is_digit(c: char) -> bool {
    '0' <= c && c <= '9'
}

pub open spec fn digit_val(c: char) -> int {
    (c as u32) - ('0' as u32)
}

pub open spec fn all_digits(s: Seq<char>) -> bool {
    forall|k: int| 0 <= k < s.len() ==> is_digit(#[trigger] s[k])
}

/// Value of a run of decimal digits, most significant first.
pub open spec fn digits_val(s: Seq<char>) -> int
    decreases s.len(),
{
    if s.len() == 0 {
        0
    } else {
        digits_val(s.drop_last()) * 10 + digit_val(s.last())
    }
}

/// The integer a piece of text denotes: an optional sign, then one or
/// more decimal digits; anything else denotes no integer.
pub open spec fn int_of_text(s: Seq<char>) -> Option<int> {
    if s.len() == 0 {
        None
    } else {
        let digits = if s[0] == '-' || s[0] == '+' {
            s.skip(1)
        } else {
            s
        };
        if digits.len() == 0 || !all_digits(digits) {
            None
        } else if s[0] == '-' {
            Some(-digits_val(digits))
        } else {
            Some(digits_val(digits))
        }
    }
}

/// The 32-bit integer a piece of text denotes, if it denotes one in
/// range.
pub open spec fn v_parse_i32(s: Seq<char>) -> Option<i32> {
    match int_of_text(s) {
        Some(v) => if i32::MIN <= v <= i32::MAX {
            Some(v as i32)
        } else {
            None
        },
        None => None,
    }
}

proof fn lemma_digits_val_nonneg(s: Seq<char>)
    requires
        all_digits(s),
    ensures
        digits_val(s) >= 0,
    decreases s.len(),
{
    if s.len() > 0 {
        assert(all_digits(s.drop_last())) by {
            assert(forall|k: int|
                0 <= k < s.len() - 1 ==> is_digit(#[trigger] s.drop_last()[k]) == is_digit(s[k]));
        }
        lemma_digits_val_nonneg(s.drop_last());
    }
}

/// Parse decimal text, exactly as the standard integer parse does:
/// an optional sign, then one or more digits, and the value in range.
pub fn parse_i32(s: &str) -> (r: Option<i32>)
    ensures
        r == v_parse_i32(s@),
{
    let len = s.unicode_len();
    if len == 0 {
        return None;
    }
    let c0 = s.get_char(0);
    let neg = c0 == '-';
    let start: usize = if c0 == '-' || c0 == '+' {
        1
    } else {
        0
    };
    if start == len {
        return None;
    }
    let ghost digits = s@.skip(start as int);
    proof {
        if start == 0 {
            assert(digits =~= s@);
        }
    }
    let mut val: i64 = 0;
    let mut i: usize = start;
    while i < len
        invariant
            start <= i <= len,
            len == s@.len(),
            start == 0 || start == 1,
            (start == 1) <==> (s@[0] == '-' || s@[0] == '+'),
            digits == s@.skip(start as int),
            start == 0 ==> digits == s@,
            all_digits(s@.subrange(start as int, i as int)),
            0 <= val,
            digits_val(s@.subrange(start as int, i as int)) <= 2147483648 ==> val == digits_val(
                s@.subrange(start as int, i as int),
            ),
            digits_val(s@.subrange(start as int, i as int)) > 2147483648 ==> val > 2147483648,
            val <= 3000000009,
        decreases len - i,
    {
        let c = s.get_char(i);
        if !(c >= '0' && c <= '9') {
            proof {
                assert(!all_digits(digits)) by {
                    assert(digits[i - start] == s@[i as int]);
                }
            }
            return None;
        }
        let d = (c as u32 - '0' as u32) as i64;
        proof {
            let pre = s@.subrange(start as int, i as int);
            let pre1 = s@.subrange(start as int, i + 1);
            assert(pre1.drop_last() =~= pre);
            assert(pre1.last() == s@[i as int]);
            assert(all_digits(pre1)) by {
                assert(forall|k: int| 0 <= k < pre.len() ==> pre1[k] == #[trigger] pre[k]);
            }
            if digits_val(pre) > 2147483648 {
                lemma_digits_val_nonneg(pre1);
            }
        }
        if val > 300000000 {
            val = 3000000000;
        } else {
            val = val * 10 + d;
        }
        i = i + 1;
    }
    proof {
        assert(s@.subrange(start as int, len as int) =~= digits);
        if start == 1 {
            assert(digits.len() > 0);
        }
    }
    if neg {
        if val > 2147483648 {
            return None;
        }
        proof {
            assert(int_of_text(s@) == Some(-digits_val(digits)));
        }
        Some(#[verifier::truncate] ((-val) as i32))
    } else {
        if val > 2147483647 {
            return None;
        }
        Some(val as i32)
    }
}

/// Numeric-as-string field: absent parses as `0`; non-numeric text is a
/// hard error, not a default.
pub open spec fn v_coord(o: Seq<(String, Json)>, name: Seq<char>) -> Result<i32, ApiErrorV> {
    match v_parse_i32(v_str_or_zero(o, name)) {
        Some(v) => Ok(v),
        None => Err(ApiErrorV::Schema { field: name, expected: JsonKind::Int }),
    }
}

pub fn coord(o: &Vec<(String, Json)>, name: &str) -> (r: Result<i32, ApiError>)
    ensures
        res_view(r) == v_coord(o@, name@),
{
    let text = str_or_zero(o, name);
    match parse_i32(text.as_str()) {
        Some(v) => Ok(v),
        None => Err(ApiError::Schema { field: name.to_owned(), expected: JsonKind::Int }),
    }
}

} // verus!
