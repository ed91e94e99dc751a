//! A JSON document model held as plain values, with the lookups the
//! protocol logic uses and a value-redacting summary for error messages.
use vstd::prelude::*;
use crate::text::{chars_of, decimal, is_blank, owned, push_str, str_byte_len, str_eq, str_is_blank, u64_to_decimal, utf8_len};

verus! {

/// A JSON number: an integer that fits `u64` or `i64`, or any other number
/// kept as its decimal text.
#[derive(Debug)]
pub enum JsonNumber {
    PosInt(u64),
    NegInt(i64),
    Float(String),
}

/// A JSON value. Object members keep their order; lookups take the first
/// member with a matching key.
#[derive(Debug)]
pub enum JsonValue {
    Null,
    Bool(bool),
    Number(JsonNumber),
    String(String),
    Array(Vec<JsonValue>),
    Object(Vec<(String, JsonValue)>),
}

/// First member of `fields` whose key is `key`.
pub open spec fn spec_field(fields: Seq<(String, JsonValue)>, key: Seq<char>) -> Option<JsonValue>
    decreases fields.len(),
{
    if fields.len() == 0 {
        None
    } else if fields[0].0@ == key {
        Some(fields[0].1)
    } else {
        spec_field(fields.drop_first(), key)
    }
}

/// `value[key]` for an object, `None` for anything else.
pub open spec fn spec_get(v: JsonValue, key: Seq<char>) -> Option<JsonValue> {
    match v {
        JsonValue::Object(fields) => spec_field(fields@, key),
        _ => None,
    }
}

/// `get` on an optional value.
pub open spec fn spec_get_opt(v: Option<JsonValue>, key: Seq<char>) -> Option<JsonValue> {
    match v {
        Some(x) => spec_get(x, key),
        None => None,
    }
}

/// The text of a string value.
pub open spec fn spec_as_str(v: Option<JsonValue>) -> Option<Seq<char>> {
    match v {
        Some(JsonValue::String(s)) => Some(s@),
        _ => None,
    }
}

/// The value of a boolean.
pub open spec fn spec_as_bool(v: Option<JsonValue>) -> Option<bool> {
    match v {
        Some(JsonValue::Bool(b)) => Some(b),
        _ => None,
    }
}

/// An integer value that fits `i64`.
pub open spec fn spec_as_i64(v: Option<JsonValue>) -> Option<i64> {
    match v {
        Some(JsonValue::Number(JsonNumber::PosInt(n))) => if n <= i64::MAX { Some(n as i64) } else { None },
        Some(JsonValue::Number(JsonNumber::NegInt(n))) => Some(n),
        _ => None,
    }
}

/// A non-negative integer value.
pub open spec fn spec_as_u64(v: Option<JsonValue>) -> Option<u64> {
    match v {
        Some(JsonValue::Number(JsonNumber::PosInt(n))) => Some(n),
        Some(JsonValue::Number(JsonNumber::NegInt(n))) => if n >= 0 { Some(n as u64) } else { None },
        _ => None,
    }
}

/// The value is an object.
pub open spec fn spec_is_object(v: Option<JsonValue>) -> bool {
    v matches Some(JsonValue::Object(_))
}

/// The value is an array.
pub open spec fn spec_is_array(v: Option<JsonValue>) -> bool {
    v matches Some(JsonValue::Array(_))
}

/// The keys of an object's members, in member order.
pub open spec fn spec_keys(fields: Seq<(String, JsonValue)>) -> Seq<Seq<char>> {
    fields.map_values(|f: (String, JsonValue)| f.0@)
}

/// Code-point lexicographic order (the order of `str` and of UTF-8 bytes).
pub open spec fn lex_le(a: Seq<char>, b: Seq<char>) -> bool
    decreases a.len(),
{
    if a.len() == 0 {
        true
    } else if b.len() == 0 {
        false
    } else if a[0] != b[0] {
        (a[0] as u32) < (b[0] as u32)
    } else {
        lex_le(a.drop_first(), b.drop_first())
    }
}

/// Inserts `x` into the sorted sequence `s` after every element `<= x`.
pub open spec fn insert_sorted(s: Seq<Seq<char>>, x: Seq<char>) -> Seq<Seq<char>>
    decreases s.len(),
{
    if s.len() == 0 {
        seq![x]
    } else if lex_le(s[0], x) {
        seq![s[0]] + insert_sorted(s.drop_first(), x)
    } else {
        seq![x] + s
    }
}

/// `s` in ascending code-point order.
pub open spec fn sort_strs(s: Seq<Seq<char>>) -> Seq<Seq<char>>
    decreases s.len(),
{
    if s.len() == 0 {
        s
    } else {
        insert_sorted(sort_strs(s.drop_last()), s.last())
    }
}

/// The elements of `s` separated by `sep`.
pub open spec fn join(s: Seq<Seq<char>>, sep: Seq<char>) -> Seq<char>
    decreases s.len(),
{
    if s.len() == 0 {
        Seq::empty()
    } else if s.len() == 1 {
        s[0]
    } else {
        join(s.drop_last(), sep) + sep + s.last()
    }
}

/// Most keys a payload summary lists.
pub const SUMMARY_MAX_KEYS: usize = 6;

/// Shape of a payload without any of its values: object keys (sorted, at
/// most six), array and string lengths, or the kind of scalar.
pub open spec fn spec_payload_summary(v: JsonValue) -> Seq<char> {
    match v {
        JsonValue::Object(fields) => {
            let keys = sort_strs(spec_keys(fields@));
            let shown = if keys.len() > SUMMARY_MAX_KEYS { keys.take(SUMMARY_MAX_KEYS as int) } else { keys };
            let more = if fields@.len() > SUMMARY_MAX_KEYS { ",..."@ } else { Seq::empty() };
            "object(keys=["@ + join(shown, ","@) + more + "])"@
        },
        JsonValue::Array(items) => "array(len="@ + decimal(items@.len()) + ")"@,
        JsonValue::String(s) => "string(len="@ + decimal(utf8_len(s@)) + ")"@,
        JsonValue::Number(_) => "number"@,
        JsonValue::Bool(_) => "bool"@,
        JsonValue::Null => "null"@,
    }
}

impl JsonValue {
    /// Member `key` of an object.
    pub fn get(&self, key: &str) -> (r: Option<&JsonValue>)
        ensures
            r is Some == spec_get(*self, key@) is Some,
            r is Some ==> *r->0 == spec_get(*self, key@)->0,
    {
        match self {
            JsonValue::Object(fields) => field(fields, key),
            _ => None,
        }
    }

    /// The text of a string value.
    pub fn as_str(&self) -> (r: Option<&str>)
        ensures
            r is Some == spec_as_str(Some(*self)) is Some,
            r is Some ==> r->0@ == spec_as_str(Some(*self))->0,
    {
        match self {
            JsonValue::String(s) => Some(s.as_str()),
            _ => None,
        }
    }

    /// The value of a boolean.
    pub fn as_bool(&self) -> (r: Option<bool>)
        ensures
            r == spec_as_bool(Some(*self)),
    {
        match self {
            JsonValue::Bool(b) => Some(*b),
            _ => None,
        }
    }

    /// An integer value that fits `i64`.
    pub fn as_i64(&self) -> (r: Option<i64>)
        ensures
            r == spec_as_i64(Some(*self)),
    {
        match self {
            JsonValue::Number(JsonNumber::PosInt(n)) => if *n <= (i64::MAX as u64) { Some(*n as i64) } else { None },
            JsonValue::Number(JsonNumber::NegInt(n)) => Some(*n),
            _ => None,
        }
    }

    /// A non-negative integer value.
    pub fn as_u64(&self) -> (r: Option<u64>)
        ensures
            r == spec_as_u64(Some(*self)),
    {
        match self {
            JsonValue::Number(JsonNumber::PosInt(n)) => Some(*n),
            JsonValue::Number(JsonNumber::NegInt(n)) => if *n >= 0 { Some(*n as u64) } else { None },
            _ => None,
        }
    }

    /// True for an object.
    pub fn is_object(&self) -> (r: bool)
        ensures
            r == spec_is_object(Some(*self)),
    {
        match self {
            JsonValue::Object(_) => true,
            _ => false,
        }
    }

    /// True for an array.
    pub fn is_array(&self) -> (r: bool)
        ensures
            r == spec_is_array(Some(*self)),
    {
        match self {
            JsonValue::Array(_) => true,
            _ => false,
        }
    }

    /// True for a string.
    pub fn is_string(&self) -> (r: bool)
        ensures
            r == (*self is String),
    {
        match self {
            JsonValue::String(_) => true,
            _ => false,
        }
    }
}

/// First member of `fields` whose key is `key`.
pub fn field<'a>(fields: &'a Vec<(String, JsonValue)>, key: &str) -> (r: Option<&'a JsonValue>)
    ensures
        r is Some == spec_field(fields@, key@) is Some,
        r is Some ==> *r->0 == spec_field(fields@, key@)->0,
{
    let mut i: usize = 0;
    assert(fields@.skip(0) =~= fields@);
    while i < fields.len()
        invariant
            i <= fields.len(),
            spec_field(fields@, key@) == spec_field(fields@.skip(i as int), key@),
        decreases fields.len() - i,
    {
        assert(fields@.skip(i as int).drop_first() =~= fields@.skip(i + 1 as int));
        if str_eq(fields[i].0.as_str(), key) {
            return Some(&fields[i].1);
        }
        i += 1;
    }
    None
}

/// Member `key` of an optional value.
pub fn get_opt<'a>(v: Option<&'a JsonValue>, key: &str) -> (r: Option<&'a JsonValue>)
    ensures
        r is Some == spec_get_opt(opt_deref(v), key@) is Some,
        r is Some ==> *r->0 == spec_get_opt(opt_deref(v), key@)->0,
{
    match v {
        Some(x) => x.get(key),
        None => None,
    }
}

/// The value behind an optional reference.
pub open spec fn opt_deref(v: Option<&JsonValue>) -> Option<JsonValue> {
    match v {
        Some(x) => Some(*x),
        None => None,
    }
}

/// The text of an optional string value.
pub fn opt_as_str<'a>(v: Option<&'a JsonValue>) -> (r: Option<&'a str>)
    ensures
        r is Some == spec_as_str(opt_deref(v)) is Some,
        r is Some ==> r->0@ == spec_as_str(opt_deref(v))->0,
{
    match v {
        Some(x) => x.as_str(),
        None => None,
    }
}

/// Code-point lexicographic comparison `a <= b`.
pub fn chars_lex_le(a: &Vec<char>, b: &Vec<char>) -> (r: bool)
    ensures
        r == lex_le(a@, b@),
{
    let mut i: usize = 0;
    assert(a@.skip(0) =~= a@);
    assert(b@.skip(0) =~= b@);
    while i < a.len() && i < b.len()
        invariant
            i <= a.len(),
            i <= b.len(),
            lex_le(a@, b@) == lex_le(a@.skip(i as int), b@.skip(i as int)),
        decreases a.len() - i,
    {
        assert(a@.skip(i as int)[0] == a@[i as int]);
        assert(b@.skip(i as int)[0] == b@[i as int]);
        if a[i] != b[i] {
            return (a[i] as u32) < (b[i] as u32);
        }
        assert(a@.skip(i as int).drop_first() =~= a@.skip(i + 1 as int));
        assert(b@.skip(i as int).drop_first() =~= b@.skip(i + 1 as int));
        i += 1;
    }
    i == a.len()
}

/// Views of a vector of strings.
pub open spec fn str_views(v: Seq<String>) -> Seq<Seq<char>> {
    v.map_values(|x: String| x@)
}

/// The index at which `insert_sorted` places `x`.
pub open spec fn insert_pos(s: Seq<Seq<char>>, x: Seq<char>) -> nat
    decreases s.len(),
{
    if s.len() == 0 {
        0
    } else if lex_le(s[0], x) {
        1 + insert_pos(s.drop_first(), x)
    } else {
        0
    }
}

/// `insert_sorted` is an insertion at `insert_pos`.
pub proof fn lemma_insert_sorted_is_insert(s: Seq<Seq<char>>, x: Seq<char>)
    ensures
        insert_pos(s, x) <= s.len(),
        insert_sorted(s, x) == s.insert(insert_pos(s, x) as int, x),
    decreases s.len(),
{
    if s.len() == 0 {
        assert(s.insert(0, x) =~= seq![x]);
    } else if lex_le(s[0], x) {
        lemma_insert_sorted_is_insert(s.drop_first(), x);
        assert(seq![s[0]] + s.drop_first().insert(insert_pos(s.drop_first(), x) as int, x)
            =~= s.insert(insert_pos(s, x) as int, x));
    } else {
        assert(seq![x] + s =~= s.insert(0, x));
    }
}

/// Inserts `x` into the sorted vector `v` after every element `<= x`.
pub fn insert_sorted_exec(v: &mut Vec<String>, x: String)
    ensures
        str_views(final(v)@) == insert_sorted(str_views(old(v)@), x@),
{
    let ghost vs = str_views(v@);
    let xc = chars_of(x.as_str());
    let mut i: usize = 0;
    assert(vs.skip(0) =~= vs);
    while i < v.len() && chars_lex_le(&chars_of(v[i].as_str()), &xc)
        invariant
            i <= v.len(),
            xc@ == x@,
            vs == str_views(v@),
            insert_pos(vs, x@) == i + insert_pos(vs.skip(i as int), x@),
        decreases v.len() - i,
    {
        assert(vs.skip(i as int)[0] == vs[i as int]);
        assert(vs.skip(i as int).drop_first() =~= vs.skip(i + 1 as int));
        i += 1;
    }
    proof {
        if i < v.len() {
            assert(vs.skip(i as int)[0] == vs[i as int]);
        }
        lemma_insert_sorted_is_insert(vs, x@);
    }
    v.insert(i, x);
    assert(str_views(v@) =~= vs.insert(i as int, x@));
}

/// `keys` in ascending code-point order.
pub fn sort_strings(keys: &Vec<String>) -> (r: Vec<String>)
    ensures
        str_views(r@) == sort_strs(str_views(keys@)),
{
    let mut out: Vec<String> = Vec::new();
    let ghost ks = str_views(keys@);
    let mut i: usize = 0;
    assert(str_views(out@) =~= sort_strs(ks.take(0)));
    while i < keys.len()
        invariant
            ks == str_views(keys@),
            i <= keys.len(),
            str_views(out@) == sort_strs(ks.take(i as int)),
        decreases keys.len() - i,
    {
        let k = keys[i].clone();
        assert(ks.take(i + 1 as int).drop_last() =~= ks.take(i as int));
        insert_sorted_exec(&mut out, k);
        i += 1;
    }
    assert(ks.take(keys.len() as int) =~= ks);
    out
}

/// Sorting keeps the number of elements.
pub proof fn lemma_sort_strs_len(s: Seq<Seq<char>>)
    ensures
        sort_strs(s).len() == s.len(),
    decreases s.len(),
{
    if s.len() > 0 {
        lemma_sort_strs_len(s.drop_last());
        lemma_insert_sorted_is_insert(sort_strs(s.drop_last()), s.last());
    }
}

/// `s[..n]` joined with `,`.
pub fn join_commas(s: &Vec<String>, n: usize) -> (r: String)
    requires
        n <= s.len(),
    ensures
        r@ == join(str_views(s@).take(n as int), ","@),
{
    let ghost v = str_views(s@);
    let mut out = String::new();
    let mut i: usize = 0;
    assert(join(v.take(0), ","@) =~= Seq::<char>::empty());
    while i < n
        invariant
            n <= s.len(),
            v == str_views(s@),
            i <= n,
            out@ == join(v.take(i as int), ","@),
        decreases n - i,
    {
        let ghost before = v.take(i as int);
        assert(v.take(i + 1 as int).drop_last() =~= before);
        assert(v.take(i + 1 as int).last() == s@[i as int]@);
        if i > 0 {
            push_str(&mut out, ",");
        } else {
            assert(v.take(1) =~= seq![s@[0]@]);
        }
        push_str(&mut out, s[i].as_str());
        i += 1;
    }
    out
}

/// Shape of a payload without any of its values (see `spec_payload_summary`).
pub fn payload_summary(payload: &JsonValue) -> (r: String)
    ensures
        r@ == spec_payload_summary(*payload),
{
    match payload {
        JsonValue::Object(fields) => {
            let mut keys: Vec<String> = Vec::new();
            let mut i: usize = 0;
            while i < fields.len()
                invariant
                    i <= fields.len(),
                    str_views(keys@) == spec_keys(fields@.take(i as int)),
                decreases fields.len() - i,
            {
                keys.push(fields[i].0.clone());
                assert(spec_keys(fields@.take(i + 1 as int)) =~= spec_keys(fields@.take(i as int)).push(fields@[i as int].0@));
                assert(str_views(keys@) =~= spec_keys(fields@.take(i as int)).push(fields@[i as int].0@));
                i += 1;
            }
            assert(fields@.take(fields.len() as int) =~= fields@);
            let sorted = sort_strings(&keys);
            proof { lemma_sort_strs_len(str_views(keys@)); }
            let shown = if sorted.len() > SUMMARY_MAX_KEYS { SUMMARY_MAX_KEYS } else { sorted.len() };
            let ghost all = sort_strs(spec_keys(fields@));
            assert(all.len() == fields@.len());
            assert(str_views(sorted@).take(shown as int)
                == (if all.len() > SUMMARY_MAX_KEYS { all.take(SUMMARY_MAX_KEYS as int) } else { all })) by {
                if all.len() <= SUMMARY_MAX_KEYS {
                    assert(all.take(shown as int) =~= all);
                }
            }
            let mut out = String::new();
            push_str(&mut out, "object(keys=[");
            let joined = join_commas(&sorted, shown);
            push_str(&mut out, joined.as_str());
            if fields.len() > SUMMARY_MAX_KEYS {
                push_str(&mut out, ",...");
            } else {
                assert(out@ + Seq::<char>::empty() =~= out@);
            }
            push_str(&mut out, "])");
            out
        },
        JsonValue::Array(items) => {
            let mut out = String::new();
            push_str(&mut out, "array(len=");
            let n = u64_to_decimal(items.len() as u64);
            push_str(&mut out, n.as_str());
            push_str(&mut out, ")");
            out
        },
        JsonValue::String(text) => {
            let mut out = String::new();
            push_str(&mut out, "string(len=");
            let n = u64_to_decimal(str_byte_len(text.as_str()) as u64);
            push_str(&mut out, n.as_str());
            push_str(&mut out, ")");
            out
        },
        JsonValue::Number(_) => owned("number"),
        JsonValue::Bool(_) => owned("bool"),
        JsonValue::Null => owned("null"),
    }
}

/// A string value that is not blank.
pub open spec fn spec_non_blank_str(v: Option<JsonValue>) -> bool {
    spec_as_str(v) matches Some(s) && !is_blank(s)
}

/// Member `key` is the boolean `true` (absent or other values read as false).
pub open spec fn spec_get_bool(v: JsonValue, key: Seq<char>) -> bool {
    spec_as_bool(spec_get(v, key)) == Some(true)
}

/// True when `v` is a string value holding more than whitespace.
pub fn non_blank_str(v: Option<&JsonValue>) -> (r: bool)
    ensures
        r == spec_non_blank_str(opt_deref(v)),
{
    match opt_as_str(v) {
        Some(s) => !str_is_blank(s),
        None => false,
    }
}

/// Member `key` of `v` is the boolean `true`.
pub fn get_bool(v: &JsonValue, key: &str) -> (r: bool)
    ensures
        r == spec_get_bool(*v, key@),
{
    match v.get(key) {
        Some(x) => match x.as_bool() {
            Some(b) => b,
            None => false,
        },
        None => false,
    }
}

/// A string value holding a copy of `s`.
pub fn json_string(s: &str) -> (r: JsonValue)
    ensures
        r matches JsonValue::String(t) && t@ == s@,
{
    JsonValue::String(owned(s))
}

/// The text of an optional owned string.
pub open spec fn opt_str_view(r: Option<String>) -> Option<Seq<char>> {
    match r {
        Some(s) => Some(s@),
        None => None,
    }
}

/// An owned copy of the text of an optional string value.
pub fn opt_string(v: Option<&JsonValue>) -> (r: Option<String>)
    ensures
        opt_str_view(r) == spec_as_str(opt_deref(v)),
{
    match opt_as_str(v) {
        Some(s) => Some(owned(s)),
        None => None,
    }
}

/// Appends the member `key: value` to an object's members.
pub fn push_member(fields: &mut Vec<(String, JsonValue)>, key: &str, value: JsonValue)
    ensures
        final(fields)@.len() == old(fields)@.len() + 1,
        final(fields)@.drop_last() == old(fields)@,
        final(fields)@.last().0@ == key@,
        final(fields)@.last().1 == value,
{
    let ghost before = fields@;
    fields.push((owned(key), value));
    assert(fields@.drop_last() =~= before);
}

/// Member `i` of `f` is `key` with the string value `val`.
pub open spec fn str_member(f: Seq<(String, JsonValue)>, i: int, key: Seq<char>, val: Seq<char>) -> bool {
    f[i].0@ == key && spec_as_str(Some(f[i].1)) == Some(val)
}

/// Appends the member `key` with the string value `val`.
pub fn push_str_member(fields: &mut Vec<(String, JsonValue)>, key: &str, val: &str)
    ensures
        final(fields)@.len() == old(fields)@.len() + 1,
        final(fields)@.drop_last() == old(fields)@,
        str_member(final(fields)@, old(fields)@.len() as int, key@, val@),
{
    push_member(fields, key, json_string(val));
}

/// `a` and `b` are the same JSON document: equal scalars, and arrays and
/// objects whose members are pairwise the same (keys by their text).
pub open spec fn json_same(a: JsonValue, b: JsonValue) -> bool
    decreases a, 1nat,
{
    match a {
        JsonValue::Array(x) => match b {
            JsonValue::Array(y) => {
                proof {
                    assert(decreases_to!(a => a->Array_0));
                    assert(decreases_to!(a->Array_0 => a->Array_0@));
                }
                x@.len() == y@.len() && items_same(x@, y@, x@.len() as int)
            },
            _ => false,
        },
        JsonValue::Object(x) => match b {
            JsonValue::Object(y) => {
                proof {
                    assert(decreases_to!(a => a->Object_0));
                    assert(decreases_to!(a->Object_0 => a->Object_0@));
                }
                x@.len() == y@.len() && members_same(x@, y@, x@.len() as int)
            },
            _ => false,
        },
        _ => a == b,
    }
}

/// The first `n` items of `x` and `y` are pairwise the same.
pub open spec fn items_same(x: Seq<JsonValue>, y: Seq<JsonValue>, n: int) -> bool
    decreases x, 0nat, n,
{
    if n <= 0 || n > x.len() || n > y.len() {
        n <= 0
    } else {
        json_same(x[n - 1], y[n - 1]) && items_same(x, y, n - 1)
    }
}

/// The first `n` members of `x` and `y` have the same keys and values.
pub open spec fn members_same(x: Seq<(String, JsonValue)>, y: Seq<(String, JsonValue)>, n: int) -> bool
    decreases x, 0nat, n,
{
    if n <= 0 || n > x.len() || n > y.len() {
        n <= 0
    } else {
        proof {
            assert(decreases_to!(x => x[n - 1]));
            assert(decreases_to!(x[n - 1] => x[n - 1].1));
        }
        x[n - 1].0@ == y[n - 1].0@ && json_same(x[n - 1].1, y[n - 1].1) && members_same(x, y, n - 1)
    }
}

/// Extending the first sequence keeps the first `n` items the same.
proof fn lemma_items_same_push(x: Seq<JsonValue>, y: Seq<JsonValue>, n: int, e: JsonValue)
    requires
        n <= x.len(),
    ensures
        items_same(x.push(e), y, n) == items_same(x, y, n),
    decreases n,
{
    if n > 0 && n <= y.len() {
        assert(x.push(e)[n - 1] == x[n - 1]);
        lemma_items_same_push(x, y, n - 1, e);
    }
}

/// Extending the first sequence keeps the first `n` members the same.
proof fn lemma_members_same_push(x: Seq<(String, JsonValue)>, y: Seq<(String, JsonValue)>, n: int, e: (String, JsonValue))
    requires
        n <= x.len(),
    ensures
        members_same(x.push(e), y, n) == members_same(x, y, n),
    decreases n,
{
    if n > 0 && n <= y.len() {
        assert(x.push(e)[n - 1] == x[n - 1]);
        lemma_members_same_push(x, y, n - 1, e);
    }
}

/// A deep copy of a JSON value.
pub fn clone_json(v: &JsonValue) -> (r: JsonValue)
    ensures
        json_same(r, *v),
    decreases *v,
{
    match v {
        JsonValue::Null => JsonValue::Null,
        JsonValue::Bool(b) => JsonValue::Bool(*b),
        JsonValue::Number(n) => {
            let c = match n {
                JsonNumber::PosInt(x) => JsonNumber::PosInt(*x),
                JsonNumber::NegInt(x) => JsonNumber::NegInt(*x),
                JsonNumber::Float(t) => JsonNumber::Float(t.clone()),
            };
            JsonValue::Number(c)
        },
        JsonValue::String(t) => JsonValue::String(t.clone()),
        JsonValue::Array(items) => {
            let mut out: Vec<JsonValue> = Vec::new();
            let mut i: usize = 0;
            while i < items.len()
                invariant
                    i <= items.len(),
                    *v == JsonValue::Array(*items),
                    out@.len() == i,
                    items_same(out@, items@, i as int),
                decreases items.len() - i,
            {
                assert(decreases_to!(*v => v->Array_0));
                assert(decreases_to!(v->Array_0 => v->Array_0@));
                assert(decreases_to!(v->Array_0@ => v->Array_0@[i as int]));
                let c = clone_json(&items[i]);
                let ghost before = out@;
                out.push(c);
                proof {
                    lemma_items_same_push(before, items@, i as int, c);
                }
                i += 1;
            }
            JsonValue::Array(out)
        },
        JsonValue::Object(fields) => {
            let mut out: Vec<(String, JsonValue)> = Vec::new();
            let mut i: usize = 0;
            while i < fields.len()
                invariant
                    i <= fields.len(),
                    *v == JsonValue::Object(*fields),
                    out@.len() == i,
                    members_same(out@, fields@, i as int),
                decreases fields.len() - i,
            {
                assert(decreases_to!(*v => v->Object_0));
                assert(decreases_to!(v->Object_0 => v->Object_0@));
                assert(decreases_to!(v->Object_0@ => v->Object_0@[i as int]));
                assert(decreases_to!(v->Object_0@[i as int] => v->Object_0@[i as int].1));
                let k = fields[i].0.clone();
                let c = clone_json(&fields[i].1);
                let ghost before = out@;
                out.push((k, c));
                proof {
                    lemma_members_same_push(before, fields@, i as int, (k, c));
                }
                i += 1;
            }
            JsonValue::Object(out)
        },
    }
}

} // verus!
