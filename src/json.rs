use vstd::prelude::*;

verus! {

/// A JSON value as the library reads and writes it on the wire.
#[derive(Debug, PartialEq)]
pub enum Json {
    Null,
    Bool(bool),
    Int(i64),
    /// A number outside `i64`, kept as its decimal text.
    Number(String),
    Text(String),
    Array(Vec<Json>),
    Object(Vec<(String, Json)>),
}

/// The value of the first entry named `key`, if any.
pub open spec fn lookup(entries: Seq<(String, Json)>, key: Seq<char>) -> Option<Json>
    decreases entries.len(),
{
    if entries.len() == 0 {
        None
    } else if entries[0].0@ == key {
        Some(entries[0].1)
    } else {
        lookup(entries.drop_first(), key)
    }
}

/// What a field of a record may hold on the wire.
#[derive(Clone, Copy, PartialEq, Eq, Structural)]
pub enum Shape {
    /// A string, required.
    Text,
    /// A string, `null`, or absent.
    OptText,
    /// An integer, required.
    Int,
    /// An integer that fits in `i32`, required.
    Int32,
    /// An integer, `null`, or absent.
    OptInt,
    /// A boolean, required.
    Bool,
    /// An array of strings, required.
    TextList,
    /// An array of strings, `null`, or absent.
    OptTextList,
    /// An array of any values, `null`, or absent.
    OptArray,
    /// An object, `null`, or absent.
    OptObject,
}

pub open spec fn all_text(items: Seq<Json>) -> bool {
    forall|i: int| 0 <= i < items.len() ==> (#[trigger] items[i]) is Text
}

pub open spec fn absent_or_null(v: Option<Json>) -> bool {
    v is None || v == Some(Json::Null)
}

/// Whether the value found for a field has the given shape.
pub open spec fn shape_ok(v: Option<Json>, shape: Shape) -> bool {
    match shape {
        Shape::Text => v matches Some(Json::Text(_)),
        Shape::OptText => absent_or_null(v) || v matches Some(Json::Text(_)),
        Shape::Int => v matches Some(Json::Int(_)),
        Shape::Int32 => v matches Some(Json::Int(n)) && i32::MIN <= n <= i32::MAX,
        Shape::OptInt => absent_or_null(v) || v matches Some(Json::Int(_)),
        Shape::Bool => v matches Some(Json::Bool(_)),
        Shape::TextList => v matches Some(Json::Array(items)) && all_text(items@),
        Shape::OptTextList => absent_or_null(v) || (v matches Some(Json::Array(items)) && all_text(
            items@,
        )),
        Shape::OptArray => absent_or_null(v) || v matches Some(Json::Array(_)),
        Shape::OptObject => absent_or_null(v) || v matches Some(Json::Object(_)),
    }
}

pub open spec fn text_of(v: Option<Json>) -> String {
    v->Some_0->Text_0
}

pub open spec fn opt_text_of(v: Option<Json>) -> Option<String> {
    match v {
        Some(Json::Text(s)) => Some(s),
        _ => None,
    }
}

pub open spec fn opt_int_of(v: Option<Json>) -> Option<i64> {
    match v {
        Some(Json::Int(n)) => Some(n),
        _ => None,
    }
}

pub open spec fn texts_of(items: Seq<Json>) -> Seq<String> {
    items.map_values(|j: Json| j->Text_0)
}

pub open spec fn opt_array_of(v: Option<Json>) -> Option<Vec<Json>> {
    match v {
        Some(Json::Array(items)) => Some(items),
        _ => None,
    }
}

pub open spec fn opt_object_of(v: Option<Json>) -> Option<Vec<(String, Json)>> {
    match v {
        Some(Json::Object(entries)) => Some(entries),
        _ => None,
    }
}

/// The wire form of an optional string: the string, or `null`.
pub open spec fn opt_text_json(o: Option<String>) -> Json {
    match o {
        Some(s) => Json::Text(s),
        None => Json::Null,
    }
}

/// Whether `j` is the wire form of a list of strings.
pub open spec fn is_text_list(j: Json, texts: Seq<String>) -> bool {
    j matches Json::Array(items) && items@ == texts.map_values(|s: String| Json::Text(s))
}

/// Whether `j` is the wire form of an optional list of strings.
pub open spec fn is_opt_text_list(j: Json, texts: Option<Vec<String>>) -> bool {
    match texts {
        Some(t) => is_text_list(j, t@),
        None => j == Json::Null,
    }
}

pub proof fn lemma_lookup_first(s: Seq<(String, Json)>, key: Seq<char>, i: int)
    requires
        0 <= i < s.len(),
        s[i].0@ == key,
        forall|j: int| 0 <= j < i ==> (#[trigger] s[j]).0@ != key,
    ensures
        lookup(s, key) == Some(s[i].1),
    decreases i,
{
    if i > 0 {
        assert(s[0].0@ != key);
        lemma_lookup_first(s.drop_first(), key, i - 1);
    }
}

pub proof fn lemma_lookup_missing(s: Seq<(String, Json)>, key: Seq<char>)
    requires
        forall|j: int| 0 <= j < s.len() ==> (#[trigger] s[j]).0@ != key,
    ensures
        lookup(s, key) is None,
    decreases s.len(),
{
    if s.len() > 0 {
        assert(s[0].0@ != key);
        lemma_lookup_missing(s.drop_first(), key);
    }
}

/// Removing an entry under another name leaves the lookup of `key` as it was.
pub proof fn lemma_lookup_remove(s: Seq<(String, Json)>, i: int, key: Seq<char>)
    requires
        0 <= i < s.len(),
        s[i].0@ != key,
    ensures
        lookup(s.remove(i), key) == lookup(s, key),
    decreases i,
{
    if i > 0 {
        assert(s.remove(i).drop_first() =~= s.drop_first().remove(i - 1));
        lemma_lookup_remove(s.drop_first(), i - 1, key);
    } else {
        assert(s.remove(0) =~= s.drop_first());
    }
}

/// Whether two strings are equal.
pub fn same_text(a: &String, b: &str) -> (r: bool)
    ensures
        r == (a@ == b@),
{
    let b = String::from_str(b);
    *a == b
}

/// The position of the first entry named `key`.
pub fn find(entries: &Vec<(String, Json)>, key: &str) -> (r: Option<usize>)
    ensures
        match r {
            Some(i) => i < entries@.len() && entries@[i as int].0@ == key@ && lookup(entries@, key@)
                == Some(entries@[i as int].1),
            None => lookup(entries@, key@) is None,
        },
{
    let mut i: usize = 0;
    while i < entries.len()
        invariant
            i <= entries@.len(),
            forall|j: int| 0 <= j < i ==> (#[trigger] entries@[j]).0@ != key@,
        decreases entries@.len() - i,
    {
        if same_text(&entries[i].0, key) {
            proof {
                lemma_lookup_first(entries@, key@, i as int);
            }
            return Some(i);
        }
        i = i + 1;
    }
    proof {
        lemma_lookup_missing(entries@, key@);
    }
    None
}

/// Removes the first entry named `key` and hands back its value; the other names
/// look up as before.
pub fn take(entries: &mut Vec<(String, Json)>, key: &str) -> (r: Option<Json>)
    ensures
        r == lookup(old(entries)@, key@),
        forall|k: Seq<char>|
            k != key@ ==> #[trigger] lookup(final(entries)@, k) == lookup(old(entries)@, k),
{
    match find(entries, key) {
        Some(i) => {
            let ghost before = entries@;
            let (_, v) = entries.remove(i);
            proof {
                assert forall|k: Seq<char>| k != key@ implies #[trigger] lookup(entries@, k)
                    == lookup(before, k) by {
                    lemma_lookup_remove(before, i as int, k);
                }
            }
            Some(v)
        },
        None => None,
    }
}

fn all_text_exec(items: &Vec<Json>) -> (r: bool)
    ensures
        r == all_text(items@),
{
    let mut i: usize = 0;
    while i < items.len()
        invariant
            i <= items@.len(),
            forall|j: int| 0 <= j < i ==> (#[trigger] items@[j]) is Text,
        decreases items@.len() - i,
    {
        match &items[i] {
            Json::Text(_) => {},
            _ => {
                return false;
            },
        }
        i = i + 1;
    }
    true
}

/// Whether the field `key` of `entries` has the given shape.
pub fn field_ok(entries: &Vec<(String, Json)>, key: &str, shape: Shape) -> (r: bool)
    ensures
        r == shape_ok(lookup(entries@, key@), shape),
{
    match find(entries, key) {
        None => match shape {
            Shape::Text | Shape::Int | Shape::Int32 | Shape::Bool | Shape::TextList => false,
            _ => true,
        },
        Some(i) => {
            let v = &entries[i].1;
            match shape {
                Shape::Text => matches!(v, Json::Text(_)),
                Shape::OptText => matches!(v, Json::Null | Json::Text(_)),
                Shape::Int => matches!(v, Json::Int(_)),
                Shape::Int32 => match v {
                    Json::Int(n) => i32::MIN as i64 <= *n && *n <= i32::MAX as i64,
                    _ => false,
                },
                Shape::OptInt => matches!(v, Json::Null | Json::Int(_)),
                Shape::Bool => matches!(v, Json::Bool(_)),
                Shape::TextList => match v {
                    Json::Array(items) => all_text_exec(items),
                    _ => false,
                },
                Shape::OptTextList => match v {
                    Json::Null => true,
                    Json::Array(items) => all_text_exec(items),
                    _ => false,
                },
                Shape::OptArray => matches!(v, Json::Null | Json::Array(_)),
                Shape::OptObject => matches!(v, Json::Null | Json::Object(_)),
            }
        },
    }
}

/// The string in field `key`, which must hold one.
pub fn read_text(entries: &Vec<(String, Json)>, key: &str) -> (r: String)
    requires
        shape_ok(lookup(entries@, key@), Shape::Text),
    ensures
        r == text_of(lookup(entries@, key@)),
{
    match find(entries, key) {
        Some(i) => match &entries[i].1 {
            Json::Text(s) => s.clone(),
            _ => String::new(),
        },
        None => String::new(),
    }
}

/// The string in field `key`, if it holds one.
pub fn read_opt_text(entries: &Vec<(String, Json)>, key: &str) -> (r: Option<String>)
    ensures
        r == opt_text_of(lookup(entries@, key@)),
{
    match find(entries, key) {
        Some(i) => match &entries[i].1 {
            Json::Text(s) => Some(s.clone()),
            _ => None,
        },
        None => None,
    }
}

/// The integer in field `key`, which must hold one.
pub fn read_int(entries: &Vec<(String, Json)>, key: &str) -> (r: i64)
    requires
        shape_ok(lookup(entries@, key@), Shape::Int),
    ensures
        r == lookup(entries@, key@)->Some_0->Int_0,
{
    match find(entries, key) {
        Some(i) => match &entries[i].1 {
            Json::Int(n) => *n,
            _ => 0,
        },
        None => 0,
    }
}

/// The integer in field `key`, which must hold one that fits in `i32`.
pub fn read_i32(entries: &Vec<(String, Json)>, key: &str) -> (r: i32)
    requires
        shape_ok(lookup(entries@, key@), Shape::Int32),
    ensures
        r as int == lookup(entries@, key@)->Some_0->Int_0 as int,
{
    match find(entries, key) {
        Some(i) => match &entries[i].1 {
            Json::Int(n) => *n as i32,
            _ => 0,
        },
        None => 0,
    }
}

/// The integer in field `key`, if it holds one.
pub fn read_opt_int(entries: &Vec<(String, Json)>, key: &str) -> (r: Option<i64>)
    ensures
        r == opt_int_of(lookup(entries@, key@)),
{
    match find(entries, key) {
        Some(i) => match &entries[i].1 {
            Json::Int(n) => Some(*n),
            _ => None,
        },
        None => None,
    }
}

/// The boolean in field `key`, which must hold one.
pub fn read_bool(entries: &Vec<(String, Json)>, key: &str) -> (r: bool)
    requires
        shape_ok(lookup(entries@, key@), Shape::Bool),
    ensures
        r == lookup(entries@, key@)->Some_0->Bool_0,
{
    match find(entries, key) {
        Some(i) => match &entries[i].1 {
            Json::Bool(b) => *b,
            _ => false,
        },
        None => false,
    }
}

fn texts_from(items: &Vec<Json>) -> (r: Vec<String>)
    requires
        all_text(items@),
    ensures
        r@ == texts_of(items@),
{
    let mut r: Vec<String> = Vec::new();
    let mut i: usize = 0;
    while i < items.len()
        invariant
            i <= items@.len(),
            all_text(items@),
            r@ == texts_of(items@.subrange(0, i as int)),
        decreases items@.len() - i,
    {
        match &items[i] {
            Json::Text(s) => {
                r.push(s.clone());
            },
            _ => {},
        }
        proof {
            assert(items@.subrange(0, i + 1) =~= items@.subrange(0, i as int).push(items@[i as int]));
        }
        i = i + 1;
    }
    assert(items@.subrange(0, i as int) =~= items@);
    r
}

/// The strings in field `key`, which must hold an array of strings.
pub fn read_texts(entries: &Vec<(String, Json)>, key: &str) -> (r: Vec<String>)
    requires
        shape_ok(lookup(entries@, key@), Shape::TextList),
    ensures
        r@ == texts_of(lookup(entries@, key@)->Some_0->Array_0@),
{
    match find(entries, key) {
        Some(i) => match &entries[i].1 {
            Json::Array(items) => texts_from(items),
            _ => Vec::new(),
        },
        None => Vec::new(),
    }
}

/// The strings in field `key`, if it holds an array, which must be of strings.
pub fn read_opt_texts(entries: &Vec<(String, Json)>, key: &str) -> (r: Option<Vec<String>>)
    requires
        shape_ok(lookup(entries@, key@), Shape::OptTextList),
    ensures
        match lookup(entries@, key@) {
            Some(Json::Array(items)) => r is Some && r->Some_0@ == texts_of(items@),
            _ => r is None,
        },
{
    match find(entries, key) {
        Some(i) => match &entries[i].1 {
            Json::Array(items) => Some(texts_from(items)),
            _ => None,
        },
        None => None,
    }
}

pub fn into_opt_array(v: Option<Json>) -> (r: Option<Vec<Json>>)
    ensures
        r == opt_array_of(v),
{
    match v {
        Some(Json::Array(items)) => Some(items),
        _ => None,
    }
}

pub fn into_opt_object(v: Option<Json>) -> (r: Option<Vec<(String, Json)>>)
    ensures
        r == opt_object_of(v),
{
    match v {
        Some(Json::Object(entries)) => Some(entries),
        _ => None,
    }
}

pub fn opt_text_to_json(o: Option<String>) -> (r: Json)
    ensures
        r == opt_text_json(o),
{
    match o {
        Some(s) => Json::Text(s),
        None => Json::Null,
    }
}

pub fn texts_to_json(texts: &Vec<String>) -> (r: Json)
    ensures
        is_text_list(r, texts@),
{
    let mut items: Vec<Json> = Vec::new();
    let mut i: usize = 0;
    while i < texts.len()
        invariant
            i <= texts@.len(),
            items@ == texts@.subrange(0, i as int).map_values(|s: String| Json::Text(s)),
        decreases texts@.len() - i,
    {
        items.push(Json::Text(texts[i].clone()));
        proof {
            assert(texts@.subrange(0, i + 1) =~= texts@.subrange(0, i as int).push(texts@[i as int]));
            assert(items@ =~= texts@.subrange(0, i + 1).map_values(|s: String| Json::Text(s)));
        }
        i = i + 1;
    }
    assert(texts@.subrange(0, i as int) =~= texts@);
    Json::Array(items)
}

pub fn opt_texts_to_json(texts: Option<Vec<String>>) -> (r: Json)
    ensures
        is_opt_text_list(r, texts),
{
    match texts {
        Some(t) => texts_to_json(&t),
        None => Json::Null,
    }
}

} // verus!
