//! A model of JSON values as the wire protocol reads and writes them.
//!
//! Turning text into a `Json` and back is left to a JSON library at the edge
//! of the program; everything the protocol decides about a record is decided
//! on this model.
use vstd::prelude::*;

verus! {

/// A JSON number, kept exactly as it was read: a non-negative integer, a
/// negative integer, or a double given by its IEEE-754 bit pattern.
#[derive(Clone, Copy, Debug, PartialEq, Eq, Structural)]
pub enum Number {
    PosInt(u64),
    NegInt(i64),
    Float(u64),
}

/// A JSON value. Object members keep the order in which they were read.
#[derive(Debug)]
pub enum Json {
    Null,
    Bool(bool),
    Num(Number),
    Str(String),
    Array(Vec<Json>),
    Object(Vec<(String, Json)>),
}

/// Whether `j` is an object whose members are named `keys`, in that order,
/// and no others.
pub open spec fn has_members(j: Json, keys: Seq<Seq<char>>) -> bool {
    &&& j is Object
    &&& j->Object_0@.len() == keys.len()
    &&& forall|i: int| 0 <= i < keys.len() ==> (#[trigger] j->Object_0@[i]).0@ == keys[i]
}

/// The value of the `i`-th member of an object.
pub open spec fn field(j: Json, i: int) -> Json {
    j->Object_0@[i].1
}

/// Whether `j` is the string `s`.
pub open spec fn text_is(j: Json, s: Seq<char>) -> bool {
    j matches Json::Str(t) && t@ == s
}

/// Whether `j` is the string `s` when there is one, and null otherwise.
pub open spec fn opt_text_is(j: Json, s: Option<Seq<char>>) -> bool {
    match s {
        Some(t) => text_is(j, t),
        None => j is Null,
    }
}

/// Whether `j` is the number `n` when there is one, and null otherwise.
pub open spec fn opt_num_is(j: Json, n: Option<Number>) -> bool {
    match n {
        Some(m) => j == Json::Num(m),
        None => j is Null,
    }
}

/// Whether `j` is the count `n`, as a non-negative integer.
pub open spec fn count_is(j: Json, n: usize) -> bool {
    j == Json::Num(Number::PosInt(n as u64))
}

/// Whether `j` is the two-element array of the numbers of `p`.
pub open spec fn pair_is(j: Json, p: (Number, Number)) -> bool {
    j matches Json::Array(items) && items@ == seq![Json::Num(p.0), Json::Num(p.1)]
}

/// Whether `j` is the pair `p` when there is one, and null otherwise.
pub open spec fn opt_pair_is(j: Json, p: Option<(Number, Number)>) -> bool {
    match p {
        Some(q) => pair_is(j, q),
        None => j is Null,
    }
}

/// Whether `j` is the array of the numbers `ns`, in order.
pub open spec fn numbers_is(j: Json, ns: Seq<Number>) -> bool {
    j matches Json::Array(items) && items@.len() == ns.len() && forall|i: int|
        0 <= i < ns.len() ==> #[trigger] items@[i] == Json::Num(ns[i])
}

/// The value of the first member named `key`, if any.
pub open spec fn lookup(members: Seq<(String, Json)>, key: Seq<char>) -> Option<Json>
    decreases members.len(),
{
    if members.len() == 0 {
        None
    } else if members[0].0@ == key {
        Some(members[0].1)
    } else {
        lookup(members.drop_first(), key)
    }
}

proof fn lemma_lookup_skip(members: Seq<(String, Json)>, i: int, key: Seq<char>)
    requires
        0 <= i < members.len(),
        members[i].0@ != key,
    ensures
        lookup(members.subrange(i, members.len() as int), key) == lookup(
            members.subrange(i + 1, members.len() as int),
            key,
        ),
{
    let s = members.subrange(i, members.len() as int);
    assert(s.drop_first() =~= members.subrange(i + 1, members.len() as int));
}

/// Finds the first member of an object named `key`.
pub fn get_member<'a>(members: &'a Vec<(String, Json)>, key: &str) -> (r: Option<&'a Json>)
    ensures
        match r {
            Some(v) => lookup(members@, key@) == Some(*v),
            None => lookup(members@, key@) is None,
        },
{
    let mut i: usize = 0;
    proof {
        assert(members@.subrange(0, members@.len() as int) =~= members@);
    }
    while i < members.len()
        invariant
            i <= members@.len(),
            lookup(members@, key@) == lookup(members@.subrange(i as int, members@.len() as int), key@),
        decreases members.len() - i,
    {
        let name = members[i].0.as_str();
        if str_eq(name, key) {
            proof {
                let s = members@.subrange(i as int, members@.len() as int);
                assert(s[0] == members@[i as int]);
            }
            return Some(&members[i].1);
        }
        proof {
            lemma_lookup_skip(members@, i as int, key@);
        }
        i = i + 1;
    }
    None
}

/// Character-wise equality of two strings.
pub fn str_eq(a: &str, b: &str) -> (r: bool)
    ensures
        r == (a@ == b@),
{
    let n = a.unicode_len();
    if n != b.unicode_len() {
        return false;
    }
    let mut i: usize = 0;
    while i < n
        invariant
            n == a@.len(),
            n == b@.len(),
            i <= n,
            forall|j: int| 0 <= j < i ==> a@[j] == b@[j],
        decreases n - i,
    {
        if a.get_char(i) != b.get_char(i) {
            return false;
        }
        i = i + 1;
    }
    assert(a@ =~= b@);
    true
}

/// A string holding the characters of `s`.
pub fn text(s: &str) -> (r: String)
    ensures
        r@ == s@,
{
    s.to_owned()
}


/// The member `key: value` of an object.
pub fn member(key: &str, value: Json) -> (r: (String, Json))
    ensures
        r.0@ == key@,
        r.1 == value,
{
    (text(key), value)
}

/// The text of a string as a JSON string.
pub fn string(s: &String) -> (r: Json)
    ensures
        r matches Json::Str(t) && t@ == s@,
        text_is(r, s@),
{
    Json::Str(s.clone())
}

/// The members of `v` when it is an object, and none otherwise.
pub open spec fn members_of(v: Option<Json>) -> Seq<(String, Json)> {
    match v {
        Some(Json::Object(ms)) => ms@,
        _ => Seq::empty(),
    }
}

pub open spec fn is_object(v: Option<Json>) -> bool {
    v matches Some(Json::Object(_))
}

/// The characters of a string, seen through an `Option`.
pub open spec fn opt_text(o: Option<String>) -> Option<Seq<char>> {
    match o {
        Some(s) => Some(s@),
        None => None,
    }
}

/// Member `key` read as a required string.
pub open spec fn str_at(ms: Seq<(String, Json)>, key: Seq<char>) -> Option<Seq<char>> {
    match lookup(ms, key) {
        Some(Json::Str(s)) => Some(s@),
        _ => None,
    }
}

/// Member `key` read as an optional string: absent or null is `Some(None)`,
/// anything but a string is `None`.
pub open spec fn opt_str_at(ms: Seq<(String, Json)>, key: Seq<char>) -> Option<Option<Seq<char>>> {
    match lookup(ms, key) {
        None => Some(None),
        Some(Json::Null) => Some(None),
        Some(Json::Str(s)) => Some(Some(s@)),
        _ => None,
    }
}

/// Member `key` read as a required number.
pub open spec fn num_at(ms: Seq<(String, Json)>, key: Seq<char>) -> Option<Number> {
    match lookup(ms, key) {
        Some(Json::Num(n)) => Some(n),
        _ => None,
    }
}

/// Member `key` read as an optional number.
pub open spec fn opt_num_at(ms: Seq<(String, Json)>, key: Seq<char>) -> Option<Option<Number>> {
    match lookup(ms, key) {
        None => Some(None),
        Some(Json::Null) => Some(None),
        Some(Json::Num(n)) => Some(Some(n)),
        _ => None,
    }
}

/// Member `key` read as a boolean.
pub open spec fn bool_at(ms: Seq<(String, Json)>, key: Seq<char>) -> Option<bool> {
    match lookup(ms, key) {
        Some(Json::Bool(b)) => Some(b),
        _ => None,
    }
}

/// Member `key` read as a count: a non-negative integer that fits a `usize`.
pub open spec fn count_at(ms: Seq<(String, Json)>, key: Seq<char>) -> Option<usize> {
    match lookup(ms, key) {
        Some(Json::Num(Number::PosInt(n))) => if n <= usize::MAX {
            Some(n as usize)
        } else {
            None
        },
        _ => None,
    }
}

/// A two-element array of numbers.
pub open spec fn pair_of(v: Json) -> Option<(Number, Number)> {
    match v {
        Json::Array(items) => if items@.len() == 2 && items@[0] is Num && items@[1] is Num {
            Some((items@[0]->Num_0, items@[1]->Num_0))
        } else {
            None
        },
        _ => None,
    }
}

/// Member `key` read as an optional pair of numbers.
pub open spec fn opt_pair_at(ms: Seq<(String, Json)>, key: Seq<char>) -> Option<Option<(Number, Number)>> {
    match lookup(ms, key) {
        None => Some(None),
        Some(Json::Null) => Some(None),
        Some(v) => match pair_of(v) {
            Some(p) => Some(Some(p)),
            None => None,
        },
    }
}

/// An array whose items are all numbers.
pub open spec fn numbers_of(v: Json) -> Option<Seq<Number>> {
    match v {
        Json::Array(items) => if forall|i: int| 0 <= i < items@.len() ==> (#[trigger] items@[i]) is Num {
            Some(items@.map_values(|x: Json| x->Num_0))
        } else {
            None
        },
        _ => None,
    }
}

/// Member `key` read as an array of numbers.
pub open spec fn numbers_at(ms: Seq<(String, Json)>, key: Seq<char>) -> Option<Seq<Number>> {
    match lookup(ms, key) {
        Some(v) => numbers_of(v),
        None => None,
    }
}

/// Reads member `key` as a required string.
pub fn get_str(ms: &Vec<(String, Json)>, key: &str) -> (r: Option<String>)
    ensures
        opt_text(r) == str_at(ms@, key@),
{
    match get_member(ms, key) {
        Some(Json::Str(s)) => Some(s.clone()),
        _ => None,
    }
}

/// Reads member `key` as an optional string; `None` when it is neither
/// absent, null nor a string.
pub fn get_opt_str(ms: &Vec<(String, Json)>, key: &str) -> (r: Option<Option<String>>)
    ensures
        match r {
            Some(o) => opt_str_at(ms@, key@) == Some(opt_text(o)),
            None => opt_str_at(ms@, key@) is None,
        },
{
    match get_member(ms, key) {
        None => Some(None),
        Some(Json::Null) => Some(None),
        Some(Json::Str(s)) => Some(Some(s.clone())),
        _ => None,
    }
}

/// Reads member `key` as a required number.
pub fn get_num(ms: &Vec<(String, Json)>, key: &str) -> (r: Option<Number>)
    ensures
        r == num_at(ms@, key@),
{
    match get_member(ms, key) {
        Some(Json::Num(n)) => Some(*n),
        _ => None,
    }
}

/// Reads member `key` as an optional number.
pub fn get_opt_num(ms: &Vec<(String, Json)>, key: &str) -> (r: Option<Option<Number>>)
    ensures
        r == opt_num_at(ms@, key@),
{
    match get_member(ms, key) {
        None => Some(None),
        Some(Json::Null) => Some(None),
        Some(Json::Num(n)) => Some(Some(*n)),
        _ => None,
    }
}

/// Reads member `key` as a boolean.
pub fn get_bool(ms: &Vec<(String, Json)>, key: &str) -> (r: Option<bool>)
    ensures
        r == bool_at(ms@, key@),
{
    match get_member(ms, key) {
        Some(Json::Bool(b)) => Some(*b),
        _ => None,
    }
}

/// Reads member `key` as a count.
pub fn get_count(ms: &Vec<(String, Json)>, key: &str) -> (r: Option<usize>)
    ensures
        r == count_at(ms@, key@),
{
    match get_member(ms, key) {
        Some(Json::Num(Number::PosInt(n))) => if *n <= usize::MAX as u64 {
            Some(*n as usize)
        } else {
            None
        },
        _ => None,
    }
}

/// Reads a two-element array of numbers.
pub fn read_pair(v: &Json) -> (r: Option<(Number, Number)>)
    ensures
        r == pair_of(*v),
{
    match v {
        Json::Array(items) => {
            if items.len() == 2 {
                match (&items[0], &items[1]) {
                    (Json::Num(a), Json::Num(b)) => Some((*a, *b)),
                    _ => None,
                }
            } else {
                None
            }
        },
        _ => None,
    }
}

/// Reads member `key` as an optional pair of numbers.
pub fn get_opt_pair(ms: &Vec<(String, Json)>, key: &str) -> (r: Option<Option<(Number, Number)>>)
    ensures
        r == opt_pair_at(ms@, key@),
{
    match get_member(ms, key) {
        None => Some(None),
        Some(Json::Null) => Some(None),
        Some(v) => match read_pair(v) {
            Some(p) => Some(Some(p)),
            None => None,
        },
    }
}

/// Reads an array of numbers.
pub fn read_numbers(v: &Json) -> (r: Option<Vec<Number>>)
    ensures
        match r {
            Some(ns) => numbers_of(*v) == Some(ns@),
            None => numbers_of(*v) is None,
        },
{
    match v {
        Json::Array(items) => {
            let mut out: Vec<Number> = Vec::new();
            let mut i: usize = 0;
            while i < items.len()
                invariant
                    *v == Json::Array(*items),
                    i <= items@.len(),
                    out@.len() == i,
                    forall|j: int| 0 <= j < i ==> (#[trigger] items@[j]) is Num && out@[j] == items@[j]->Num_0,
                decreases items.len() - i,
            {
                match &items[i] {
                    Json::Num(n) => out.push(*n),
                    _ => {
                        assert(!(items@[i as int] is Num));
                        assert(!(forall|k: int| 0 <= k < items@.len() ==> (#[trigger] items@[k]) is Num));
                        assert(numbers_of(*v) is None);
                        return None;
                    },
                }
                i = i + 1;
            }
            assert(out@ =~= items@.map_values(|x: Json| x->Num_0));
            Some(out)
        },
        _ => None,
    }
}

/// Reads member `key` as an array of numbers.
pub fn get_numbers(ms: &Vec<(String, Json)>, key: &str) -> (r: Option<Vec<Number>>)
    ensures
        match r {
            Some(ns) => numbers_at(ms@, key@) == Some(ns@),
            None => numbers_at(ms@, key@) is None,
        },
{
    match get_member(ms, key) {
        Some(v) => read_numbers(v),
        None => None,
    }
}

/// An array of numbers as a JSON value.
pub fn write_numbers(ns: &Vec<Number>) -> (r: Json)
    ensures
        numbers_of(r) == Some(ns@),
        numbers_is(r, ns@),
{
    let mut out: Vec<Json> = Vec::new();
    let mut i: usize = 0;
    while i < ns.len()
        invariant
            i <= ns@.len(),
            out@.len() == i,
            forall|j: int| 0 <= j < i ==> (#[trigger] out@[j]) == Json::Num(ns@[j]),
        decreases ns.len() - i,
    {
        out.push(Json::Num(ns[i]));
        i = i + 1;
    }
    let r = Json::Array(out);
    assert(forall|j: int| 0 <= j < out@.len() ==> (#[trigger] out@[j]) is Num);
    assert(out@.map_values(|x: Json| x->Num_0) =~= ns@);
    r
}

/// A pair of numbers as a two-element array.
pub fn write_pair(p: (Number, Number)) -> (r: Json)
    ensures
        pair_of(r) == Some(p),
        pair_is(r, p),
{
    let r = Json::Array(vec![Json::Num(p.0), Json::Num(p.1)]);
    assert(r->Array_0@ =~= seq![Json::Num(p.0), Json::Num(p.1)]);
    r
}

/// An optional pair of numbers: the pair, or null.
pub fn write_opt_pair(p: Option<(Number, Number)>) -> (r: Json)
    ensures
        p is None ==> r is Null,
        p matches Some(q) ==> r !is Null && pair_of(r) == Some(q),
        opt_pair_is(r, p),
{
    match p {
        Some(q) => write_pair(q),
        None => Json::Null,
    }
}

/// An optional number: the number, or null.
pub fn write_opt_num(n: Option<Number>) -> (r: Json)
    ensures
        n is None ==> r is Null,
        n matches Some(m) ==> r == Json::Num(m),
        opt_num_is(r, n),
{
    match n {
        Some(m) => Json::Num(m),
        None => Json::Null,
    }
}

/// An optional string: the string, or null.
pub fn write_opt_str(s: &Option<String>) -> (r: Json)
    ensures
        s is None ==> r is Null,
        s matches Some(t) ==> r matches Json::Str(u) && u@ == t@,
        opt_text_is(r, opt_text(*s)),
{
    match s {
        Some(t) => Json::Str(t.clone()),
        None => Json::Null,
    }
}

} // verus!
