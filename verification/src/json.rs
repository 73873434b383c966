//! A JSON value model: what the decoding logic reads of a server response.

use vstd::prelude::*;

use crate::text::str_eq;

verus! {

broadcast use vstd::std_specs::vec::group_vec_axioms;

/// A JSON value as received from the AudD API.
///
/// Integral numbers that fit in `i64` are held as [`JsonValue::Int`]; every
/// other number is kept as its JSON text in [`JsonValue::Number`].
#[derive(Debug)]
pub enum JsonValue {
    Null,
    Bool(bool),
    Int(i64),
    Number(String),
    Str(String),
    Array(Vec<JsonValue>),
    Object(Vec<(String, JsonValue)>),
}

impl Default for JsonValue {
    /// `null`, as for `serde_json::Value`.
    fn default() -> (r: Self)
        ensures
            r is Null,
    {
        JsonValue::Null
    }
}

/// The mathematical model of a [`JsonValue`].
pub enum Json {
    Null,
    Bool(bool),
    Int(int),
    Number(Seq<char>),
    Str(Seq<char>),
    Array(Seq<Json>),
    Object(Seq<(Seq<char>, Json)>),
}

pub open spec fn json_seq_view(s: Seq<JsonValue>) -> Seq<Json>
    decreases s,
{
    if s.len() == 0 {
        Seq::empty()
    } else {
        json_seq_view(s.drop_last()).push(json_view(s.last()))
    }
}

pub open spec fn json_entries_view(s: Seq<(String, JsonValue)>) -> Seq<(Seq<char>, Json)>
    decreases s,
{
    if s.len() == 0 {
        Seq::empty()
    } else {
        json_entries_view(s.drop_last()).push((s.last().0@, json_view(s.last().1)))
    }
}

pub open spec fn json_view(v: JsonValue) -> Json
    decreases v,
{
    match v {
        JsonValue::Null => Json::Null,
        JsonValue::Bool(b) => Json::Bool(b),
        JsonValue::Int(i) => Json::Int(i as int),
        JsonValue::Number(t) => Json::Number(t@),
        JsonValue::Str(s) => Json::Str(s@),
        JsonValue::Array(items) => Json::Array(json_seq_view(items@)),
        JsonValue::Object(entries) => Json::Object(json_entries_view(entries@)),
    }
}

impl View for JsonValue {
    type V = Json;

    open spec fn view(&self) -> Json {
        json_view(*self)
    }
}


/// Index-wise reading of [`json_seq_view`].
pub proof fn lemma_seq_view(s: Seq<JsonValue>)
    ensures
        json_seq_view(s).len() == s.len(),
        forall|i: int| 0 <= i < s.len() ==> #[trigger] json_seq_view(s)[i] == json_view(s[i]),
    decreases s.len(),
{
    if s.len() > 0 {
        lemma_seq_view(s.drop_last());
    }
}

/// Index-wise reading of [`json_entries_view`].
pub proof fn lemma_entries_view(s: Seq<(String, JsonValue)>)
    ensures
        json_entries_view(s).len() == s.len(),
        forall|i: int|
            0 <= i < s.len() ==> #[trigger] json_entries_view(s)[i] == (s[i].0@, json_view(s[i].1)),
    decreases s.len(),
{
    if s.len() > 0 {
        lemma_entries_view(s.drop_last());
    }
}

/// The value of the first entry named `key`.
pub open spec fn lookup(e: Seq<(Seq<char>, Json)>, key: Seq<char>) -> Option<Json>
    decreases e.len(),
{
    if e.len() == 0 {
        None
    } else if e[0].0 == key {
        Some(e[0].1)
    } else {
        lookup(e.drop_first(), key)
    }
}

/// Skipping entries that are not named `key` does not change [`lookup`].
pub proof fn lemma_lookup_skip(e: Seq<(Seq<char>, Json)>, key: Seq<char>, i: int)
    requires
        0 <= i <= e.len(),
        forall|j: int| 0 <= j < i ==> e[j].0 != key,
    ensures
        lookup(e, key) == lookup(e.skip(i), key),
    decreases i,
{
    if i > 0 {
        lemma_lookup_skip(e.drop_first(), key, i - 1);
        assert(e.skip(i) =~= e.drop_first().skip(i - 1));
    } else {
        assert(e.skip(0) =~= e);
    }
}

/// The entries of `e` whose name is not `key`, in order.
pub open spec fn without_key(e: Seq<(Seq<char>, Json)>, key: Seq<char>) -> Seq<(Seq<char>, Json)>
    decreases e.len(),
{
    if e.len() == 0 {
        e
    } else if e.last().0 == key {
        without_key(e.drop_last(), key)
    } else {
        without_key(e.drop_last(), key).push(e.last())
    }
}

/// No entry of `without_key(e, key)` is named `key`.
pub proof fn lemma_without_key_lacks(e: Seq<(Seq<char>, Json)>, key: Seq<char>)
    ensures
        forall|j: int| 0 <= j < without_key(e, key).len() ==> #[trigger] without_key(e, key)[j].0 != key,
    decreases e.len(),
{
    if e.len() > 0 {
        let d = e.drop_last();
        lemma_without_key_lacks(d, key);
        let w = without_key(d, key);
        if e.last().0 != key {
            assert forall|j: int| 0 <= j < without_key(e, key).len() implies #[trigger] without_key(
                e,
                key,
            )[j].0 != key by {
                if j < w.len() {
                    assert(without_key(e, key)[j] == w[j]);
                }
            }
        }
    }
}

/// Every entry of `without_key(e, key)` is an entry of `e`.
pub proof fn lemma_without_key_subset(e: Seq<(Seq<char>, Json)>, key: Seq<char>, j: int)
    requires
        0 <= j < without_key(e, key).len(),
    ensures
        exists|i: int| 0 <= i < e.len() && #[trigger] e[i] == without_key(e, key)[j],
    decreases e.len(),
{
    if e.len() > 0 {
        let d = e.drop_last();
        let w = without_key(d, key);
        if e.last().0 == key || j < w.len() {
            lemma_without_key_subset(d, key, j);
            let i = choose|i: int| 0 <= i < d.len() && #[trigger] d[i] == w[j];
            assert(e[i] == d[i]);
        } else {
            assert(e[e.len() - 1] == without_key(e, key)[j]);
        }
    }
}

/// Removing `key` from two lists of entries joined is joining them with
/// `key` removed from each.
pub proof fn lemma_without_key_append(a: Seq<(Seq<char>, Json)>, b: Seq<(Seq<char>, Json)>, key: Seq<char>)
    ensures
        without_key(a + b, key) == without_key(a, key) + without_key(b, key),
    decreases b.len(),
{
    if b.len() == 0 {
        assert(a + b =~= a);
        assert(without_key(a, key) + without_key(b, key) =~= without_key(a, key));
    } else {
        lemma_without_key_append(a, b.drop_last(), key);
        assert((a + b).drop_last() =~= a + b.drop_last());
        assert((a + b).last() == b.last());
        if b.last().0 == key {
        } else {
            assert(without_key(a, key) + without_key(b, key) =~= (without_key(a, key)
                + without_key(b.drop_last(), key)).push(b.last()));
        }
    }
}

/// Removing a key no entry has changes nothing.
pub proof fn lemma_without_key_absent(e: Seq<(Seq<char>, Json)>, key: Seq<char>)
    requires
        forall|j: int| 0 <= j < e.len() ==> #[trigger] e[j].0 != key,
    ensures
        without_key(e, key) == e,
    decreases e.len(),
{
    if e.len() > 0 {
        lemma_without_key_absent(e.drop_last(), key);
        assert(e.drop_last().push(e.last()) =~= e);
    }
}

/// The first entry named `key` is what [`lookup`] finds.
pub proof fn lemma_lookup_at(e: Seq<(Seq<char>, Json)>, key: Seq<char>, i: int)
    requires
        0 <= i < e.len(),
        e[i].0 == key,
        forall|j: int| 0 <= j < i ==> #[trigger] e[j].0 != key,
    ensures
        lookup(e, key) == Some(e[i].1),
{
    lemma_lookup_skip(e, key, i);
    assert(e.skip(i)[0] == e[i]);
}

/// The model of two entry lists joined is the join of their models.
pub proof fn lemma_entries_view_append(a: Seq<(String, JsonValue)>, b: Seq<(String, JsonValue)>)
    ensures
        json_entries_view(a + b) == json_entries_view(a) + json_entries_view(b),
{
    lemma_entries_view(a);
    lemma_entries_view(b);
    lemma_entries_view(a + b);
    assert(json_entries_view(a + b) =~= json_entries_view(a) + json_entries_view(b));
}

/// Removing a key keeps the remaining names distinct.
pub proof fn lemma_without_key_distinct(e: Seq<(Seq<char>, Json)>, key: Seq<char>)
    requires
        keys_distinct(e),
    ensures
        keys_distinct(without_key(e, key)),
    decreases e.len(),
{
    if e.len() > 0 {
        let d = e.drop_last();
        assert(keys_distinct(d)) by {
            assert forall|i: int, j: int| 0 <= i < j < d.len() implies #[trigger] d[i].0 != #[trigger] d[j].0 by {
                assert(d[i] == e[i] && d[j] == e[j]);
            }
        }
        lemma_without_key_distinct(d, key);
        let w = without_key(d, key);
        if e.last().0 != key {
            let r = w.push(e.last());
            assert forall|i: int, j: int| 0 <= i < j < r.len() implies #[trigger] r[i].0 != #[trigger] r[j].0 by {
                if j == w.len() {
                    lemma_without_key_subset(d, key, i);
                    let k = choose|k: int| 0 <= k < d.len() && #[trigger] d[k] == w[i];
                    assert(e[k] == d[k]);
                    assert(e[k].0 != e[e.len() - 1].0);
                } else {
                    assert(r[i] == w[i] && r[j] == w[j]);
                }
            }
            assert(without_key(e, key) == r);
        }
    }
}

/// An entry list with no entry named `key` has nothing under `key`.
pub proof fn lemma_lookup_absent(e: Seq<(Seq<char>, Json)>, key: Seq<char>)
    requires
        forall|j: int| 0 <= j < e.len() ==> #[trigger] e[j].0 != key,
    ensures
        lookup(e, key) is None,
{
    lemma_lookup_skip(e, key, e.len() as int);
    assert(e.skip(e.len() as int).len() == 0);
}

impl Json {
    /// The value under `key` when this is an object (the first such entry).
    pub open spec fn field(self, key: Seq<char>) -> Option<Json> {
        match self {
            Json::Object(e) => lookup(e, key),
            _ => None,
        }
    }

    /// Whether this is an object holding an entry named `key`.
    pub open spec fn has_field(self, key: Seq<char>) -> bool {
        self.field(key) is Some
    }

    pub open spec fn as_str(self) -> Option<Seq<char>> {
        match self {
            Json::Str(s) => Some(s),
            _ => None,
        }
    }

    pub open spec fn as_int(self) -> Option<int> {
        match self {
            Json::Int(i) => Some(i),
            _ => None,
        }
    }

    pub open spec fn as_array(self) -> Option<Seq<Json>> {
        match self {
            Json::Array(a) => Some(a),
            _ => None,
        }
    }

    pub open spec fn is_null(self) -> bool {
        self is Null
    }

    pub open spec fn is_object(self) -> bool {
        self is Object
    }
}

/// The value of the first entry named `key` in a list of object entries.
#[verifier::loop_isolation(false)]
pub fn entry_get<'a>(entries: &'a [(String, JsonValue)], key: &str) -> (r: Option<&'a JsonValue>)
    ensures
        opt_view(r) == lookup(json_entries_view(entries@), key@),
{
    let ghost ev = json_entries_view(entries@);
    proof {
        lemma_entries_view(entries@);
    }
    let mut i: usize = 0;
    while i < entries.len()
        invariant
            i <= entries@.len(),
            forall|j: int| 0 <= j < i ==> ev[j].0 != key@,
        decreases entries.len() - i,
    {
        if str_eq(entries[i].0.as_str(), key) {
            proof {
                lemma_lookup_skip(ev, key@, i as int);
                assert(ev.skip(i as int)[0] == ev[i as int]);
                assert(ev.skip(i as int).len() > 0);
            }
            return Some(&entries[i].1);
        }
        i = i + 1;
    }
    proof {
        lemma_lookup_skip(ev, key@, i as int);
    }
    None
}

/// The model of an optional borrowed value.
pub open spec fn opt_view(o: Option<&JsonValue>) -> Option<Json> {
    match o {
        Some(v) => Some(v@),
        None => None,
    }
}

/// The model of an optional owned value.
pub open spec fn opt_value_view(o: Option<JsonValue>) -> Option<Json> {
    match o {
        Some(v) => Some(v@),
        None => None,
    }
}

/// The model of optional text.
pub open spec fn opt_str_view(o: Option<&str>) -> Option<Seq<char>> {
    match o {
        Some(s) => Some(s@),
        None => None,
    }
}

/// The model of an optional string.
pub open spec fn opt_string_view(o: Option<String>) -> Option<Seq<char>> {
    match o {
        Some(s) => Some(s@),
        None => None,
    }
}

impl JsonValue {
    /// The value under `key` when this is an object (`serde_json::Value::get`).
    pub fn get(&self, key: &str) -> (r: Option<&JsonValue>)
        ensures
            opt_view(r) == self@.field(key@),
    {
        match self {
            JsonValue::Object(entries) => entry_get(entries.as_slice(), key),
            _ => None,
        }
    }

    /// Whether this is an object holding an entry named `key`.
    pub fn contains_key(&self, key: &str) -> (r: bool)
        ensures
            r == self@.has_field(key@),
    {
        self.get(key).is_some()
    }

    /// The text when this is a JSON string.
    pub fn as_str(&self) -> (r: Option<&str>)
        ensures
            opt_str_view(r) == self@.as_str(),
    {
        match self {
            JsonValue::Str(s) => Some(s.as_str()),
            _ => None,
        }
    }

    /// The number when this is an integer that fits in `i64`.
    pub fn as_i64(&self) -> (r: Option<i64>)
        ensures
            match r {
                Some(n) => self@.as_int() == Some(n as int),
                None => self@.as_int() is None,
            },
    {
        match self {
            JsonValue::Int(n) => Some(*n),
            _ => None,
        }
    }

    /// The items when this is an array.
    pub fn as_array(&self) -> (r: Option<&Vec<JsonValue>>)
        ensures
            match r {
                Some(items) => self@.as_array() == Some(json_seq_view(items@)),
                None => self@.as_array() is None,
            },
    {
        match self {
            JsonValue::Array(items) => Some(items),
            _ => None,
        }
    }

    /// Whether this is `null`.
    pub fn is_null(&self) -> (r: bool)
        ensures
            r == self@.is_null(),
    {
        match self {
            JsonValue::Null => true,
            _ => false,
        }
    }

    /// Whether this is an object.
    pub fn is_object(&self) -> (r: bool)
        ensures
            r == self@.is_object(),
    {
        match self {
            JsonValue::Object(_) => true,
            _ => false,
        }
    }

    /// A deep copy of this value.
    #[verifier::loop_isolation(false)]
    pub fn duplicate(&self) -> (r: JsonValue)
        ensures
            r@ == self@,
            json_keys_distinct(self@) ==> json_keys_distinct(r@),
        decreases self,
    {
        match self {
            JsonValue::Null => JsonValue::Null,
            JsonValue::Bool(b) => JsonValue::Bool(*b),
            JsonValue::Int(n) => JsonValue::Int(*n),
            JsonValue::Number(t) => JsonValue::Number(t.clone()),
            JsonValue::Str(s) => JsonValue::Str(s.clone()),
            JsonValue::Array(items) => {
                let mut out: Vec<JsonValue> = Vec::new();
                let mut i: usize = 0;
                while i < items.len()
                    invariant
                        i <= items@.len(),
                        out@.len() == i,
                        forall|j: int| 0 <= j < i ==> json_view(#[trigger] out@[j]) == json_view(items@[j]),
                    decreases items.len() - i,
                {
                    proof {
                        assert(decreases_to!(*items => items[i as int]));
                    }
                    let c = items[i].duplicate();
                    out.push(c);
                    i = i + 1;
                }
                proof {
                    lemma_seq_view(out@);
                    lemma_seq_view(items@);
                    assert(json_seq_view(out@) =~= json_seq_view(items@));
                }
                JsonValue::Array(out)
            },
            JsonValue::Object(entries) => {
                let mut out: Vec<(String, JsonValue)> = Vec::new();
                let mut i: usize = 0;
                while i < entries.len()
                    invariant
                        i <= entries@.len(),
                        out@.len() == i,
                        forall|j: int|
                            0 <= j < i ==> (#[trigger] out@[j]).0@ == entries@[j].0@ && json_view(
                                out@[j].1,
                            ) == json_view(entries@[j].1),
                    decreases entries.len() - i,
                {
                    proof {
                        assert(decreases_to!(*entries => entries[i as int]));
                        assert(decreases_to!(entries[i as int] => entries[i as int].1));
                    }
                    let v = entries[i].1.duplicate();
                    out.push((entries[i].0.clone(), v));
                    i = i + 1;
                }
                proof {
                    lemma_entries_view(out@);
                    lemma_entries_view(entries@);
                    assert(json_entries_view(out@) =~= json_entries_view(entries@));
                }
                JsonValue::Object(out)
            },
        }
    }
}

/// The entries of an object without those named `key` (consumes the entries).
pub fn remove_key(entries: Vec<(String, JsonValue)>, key: &str) -> (r: Vec<(String, JsonValue)>)
    ensures
        json_entries_view(r@) == without_key(json_entries_view(entries@), key@),
        keys_distinct(json_entries_view(entries@)) ==> keys_distinct(json_entries_view(r@)),
{
    broadcast use vstd::std_specs::vec::group_vec_axioms;

    let ghost all = entries@;
    let mut out: Vec<(String, JsonValue)> = Vec::new();
    proof {
        lemma_entries_view(all);
        assert(all.take(0) =~= Seq::<(String, JsonValue)>::empty());
    }
    for entry in iter: entries.into_iter()
        invariant
            iter.seq() == all,
            json_entries_view(out@) == without_key(json_entries_view(all.take(iter.index() as int)), key@),
    {
        let ghost k = iter.index() as int;
        assert(entry == all[k]);
        proof {
            let prev = json_entries_view(all.take(k));
            let x = (entry.0@, json_view(entry.1));
            assert(all.take(k + 1).drop_last() =~= all.take(k));
            assert(json_entries_view(all.take(k + 1)) == prev.push(x));
            assert(prev.push(x).drop_last() =~= prev);
        }
        let ghost out_before = out@;
        if !str_eq(entry.0.as_str(), key) {
            out.push(entry);
            assert(out@.drop_last() =~= out_before);
        } else {
            assert(out@ == out_before);
        }
    }
    proof {
        assert(all.take(all.len() as int) =~= all);
        if keys_distinct(json_entries_view(all)) {
            lemma_without_key_distinct(json_entries_view(all), key@);
        }
    }
    out
}

/// `serde_json`'s value type, carried through the parsing wrappers only.
#[verifier::external_type_specification]
#[verifier::external_body]
pub struct ExSerdeValue(serde_json::Value);

/// The JSON value `serde_json::from_str` reads from a text, as this model
/// holds it; `None` when the text is not JSON. Named, not spelled out.
pub uninterp spec fn json_of_text(t: Seq<char>) -> Option<Json>;

/// The JSON value `serde_json::from_slice` reads from bytes, as this model
/// holds it, or the text of its error. Named, not spelled out.
pub uninterp spec fn json_of_bytes(b: Seq<u8>) -> Result<Json, Seq<char>>;

/// Whether no two entries of an object share a name.
pub open spec fn keys_distinct(e: Seq<(Seq<char>, Json)>) -> bool {
    forall|i: int, j: int| 0 <= i < j < e.len() ==> #[trigger] e[i].0 != #[trigger] e[j].0
}

/// Whether a value, when it is an object, has distinct member names.
pub open spec fn json_keys_distinct(j: Json) -> bool {
    match j {
        Json::Object(e) => keys_distinct(e),
        _ => true,
    }
}

/// The compact text `serde_json` writes for a value of this model
/// (`Value::to_string`). Named, not spelled out.
pub uninterp spec fn json_text(j: Json) -> Seq<char>;

/// This model as a `serde_json` value: each variant to its counterpart,
/// a number's text to the number it writes, an object's entries into a map.
#[verifier::external_body]
fn json_to_serde(v: &JsonValue) -> serde_json::Value {
    match v {
        JsonValue::Null => serde_json::Value::Null,
        JsonValue::Bool(b) => serde_json::Value::Bool(*b),
        JsonValue::Int(i) => serde_json::Value::from(*i),
        JsonValue::Number(t) => t.parse::<serde_json::Number>().map_or(serde_json::Value::Null, serde_json::Value::Number),
        JsonValue::Str(s) => serde_json::Value::String(s.clone()),
        JsonValue::Array(a) => serde_json::Value::Array(a.iter().map(json_to_serde).collect()),
        JsonValue::Object(e) => serde_json::Value::Object(e.iter().map(|(k, v)| (k.clone(), json_to_serde(v))).collect()),
    }
}

impl JsonValue {
    /// The compact JSON text of this value, written by `serde_json`
    /// (`Value::to_string`); the text is left to the name [`json_text`].
    #[verifier::external_body]
    pub(crate) fn to_text(&self) -> (r: String)
        ensures
            r@ == json_text(self@),
    {
        json_to_serde(self).to_string()
    }
}

/// A `serde_json` value in this model: each variant to its counterpart, an
/// integral number that fits in `i64` to `Int`, any other number to its text.
#[verifier::external_body]
fn json_from_serde(v: serde_json::Value) -> JsonValue {
    match v {
        serde_json::Value::Null => JsonValue::Null,
        serde_json::Value::Bool(b) => JsonValue::Bool(b),
        serde_json::Value::Number(n) => match n.as_i64() {
            Some(i) => JsonValue::Int(i),
            None => JsonValue::Number(n.to_string()),
        },
        serde_json::Value::String(s) => JsonValue::Str(s),
        serde_json::Value::Array(a) => JsonValue::Array(a.into_iter().map(json_from_serde).collect()),
        serde_json::Value::Object(m) => JsonValue::Object(
            m.into_iter().map(|(k, v)| (k, json_from_serde(v))).collect(),
        ),
    }
}

/// Parses a text with `serde_json::from_str`, read into this model; `None`
/// when the text is not JSON. `serde_json`'s objects are maps, so an object
/// read has distinct member names. What is read is left to the name
/// [`json_of_text`].
#[verifier::external_body]
pub(crate) fn parse_json_text(t: &str) -> (r: Option<JsonValue>)
    ensures
        opt_value_view(r) == json_of_text(t@),
        r matches Some(v) ==> json_keys_distinct(v@),
{
    serde_json::from_str::<serde_json::Value>(t).ok().map(json_from_serde)
}

/// Parses bytes with `serde_json::from_slice`, read into this model, or the
/// text of the parse error. An object read has distinct member names. What is
/// read, and the error text, are left to the name [`json_of_bytes`].
#[verifier::external_body]
pub(crate) fn parse_json_bytes(b: &[u8]) -> (r: Result<JsonValue, String>)
    ensures
        match r {
            Ok(v) => json_of_bytes(b@) == Ok::<Json, Seq<char>>(v@) && json_keys_distinct(v@),
            Err(m) => json_of_bytes(b@) == Err::<Json, Seq<char>>(m@),
        },
{
    match serde_json::from_slice::<serde_json::Value>(b) {
        Ok(v) => Ok(json_from_serde(v)),
        Err(e) => Err(e.to_string()),
    }
}

} // verus!
