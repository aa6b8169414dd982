//! A self-contained model of JSON-like values: what the control plane
//! reads from and writes into request and reply bodies. Numbers are
//! integers; the daemon's wire protocol carries counts and sizes as
//! strings, so nothing here needs a wider numeric model.
use vstd::prelude::*;

verus! {

/// The mathematical model of a JSON value.
pub enum JsonV {
    Null,
    Bool(bool),
    Int(int),
    Str(Seq<char>),
    Arr(Seq<JsonV>),
    Obj(Seq<(Seq<char>, JsonV)>),
}

/// An executable JSON-like value.
#[derive(Debug)]
pub enum JsonValue {
    Null,
    Bool(bool),
    Int(i64),
    Str(String),
    Arr(Vec<JsonValue>),
    Obj(Vec<(String, JsonValue)>),
}

/// The model of an executable JSON value.
pub open spec fn json_view(v: JsonValue) -> JsonV
    decreases v,
{
    match v {
        JsonValue::Null => JsonV::Null,
        JsonValue::Bool(b) => JsonV::Bool(b),
        JsonValue::Int(n) => JsonV::Int(n as int),
        JsonValue::Str(s) => JsonV::Str(s@),
        JsonValue::Arr(items) => {
            proof {
                assert(decreases_to!(v => items));
                assert(decreases_to!(items => items@));
            }
            JsonV::Arr(json_view_seq(items@))
        },
        JsonValue::Obj(entries) => {
            proof {
                assert(decreases_to!(v => entries));
                assert(decreases_to!(entries => entries@));
            }
            JsonV::Obj(json_view_entries(entries@))
        },
    }
}

/// The model of a list of executable JSON values, element by element.
pub open spec fn json_view_seq(s: Seq<JsonValue>) -> Seq<JsonV>
    decreases s,
{
    if s.len() == 0 {
        Seq::empty()
    } else {
        proof {
            assert(decreases_to!(s => s[s.len() - 1]));
            assert(s.drop_last() == s.subrange(0, s.len() - 1));
            assert(decreases_to!(s => s.subrange(0, s.len() - 1)));
        }
        json_view_seq(s.drop_last()).push(json_view(s.last()))
    }
}

/// The model of a list of key/value entries, entry by entry.
pub open spec fn json_view_entries(s: Seq<(String, JsonValue)>) -> Seq<(Seq<char>, JsonV)>
    decreases s,
{
    if s.len() == 0 {
        Seq::empty()
    } else {
        proof {
            assert(decreases_to!(s => s[s.len() - 1]));
            assert(decreases_to!(s[s.len() - 1] => s[s.len() - 1].1));
            assert(s.drop_last() == s.subrange(0, s.len() - 1));
            assert(decreases_to!(s => s.subrange(0, s.len() - 1)));
        }
        json_view_entries(s.drop_last()).push((s.last().0@, json_view(s.last().1)))
    }
}

impl View for JsonValue {
    type V = JsonV;

    open spec fn view(&self) -> JsonV {
        json_view(*self)
    }
}

/// The model of a list of values is the list of the models, element by element.
pub broadcast proof fn lemma_json_view_seq(s: Seq<JsonValue>)
    ensures
        #[trigger] json_view_seq(s).len() == s.len(),
        forall|i: int| 0 <= i < s.len() ==> json_view_seq(s)[i] == json_view(s[i]),
    decreases s.len(),
{
    if s.len() > 0 {
        lemma_json_view_seq(s.drop_last());
    }
}

/// The model of an entry list is the list of the entries' models, entry by entry.
pub broadcast proof fn lemma_json_view_entries(s: Seq<(String, JsonValue)>)
    ensures
        #[trigger] json_view_entries(s).len() == s.len(),
        forall|i: int| 0 <= i < s.len() ==> json_view_entries(s)[i]
            == (s[i].0@, json_view(s[i].1)),
    decreases s.len(),
{
    if s.len() > 0 {
        lemma_json_view_entries(s.drop_last());
    }
}

/// Looks a key up in an entry list; the first entry with that key wins.
pub open spec fn obj_get_entries(es: Seq<(Seq<char>, JsonV)>, key: Seq<char>) -> Option<JsonV>
    decreases es.len(),
{
    if es.len() == 0 {
        None
    } else if es[0].0 == key {
        Some(es[0].1)
    } else {
        obj_get_entries(es.drop_first(), key)
    }
}

/// Looks a key up in a value: `None` unless the value is an object with that key.
pub open spec fn jv_get(v: JsonV, key: Seq<char>) -> Option<JsonV> {
    match v {
        JsonV::Obj(es) => obj_get_entries(es, key),
        _ => None,
    }
}

proof fn lemma_obj_get_entries_step(es: Seq<(Seq<char>, JsonV)>, key: Seq<char>, i: int)
    requires
        0 <= i < es.len(),
        es[i].0 != key,
    ensures
        obj_get_entries(es.skip(i), key) == obj_get_entries(es.skip(i + 1), key),
{
    assert(es.skip(i).len() > 0);
    assert(es.skip(i)[0] == es[i]);
    assert(es.skip(i).drop_first() =~= es.skip(i + 1));
}

/// Looking up the key of entry `i` finds that entry, provided no earlier
/// entry shares its key.
pub proof fn lemma_obj_get_at(es: Seq<(Seq<char>, JsonV)>, i: int)
    requires
        0 <= i < es.len(),
        forall|j: int| 0 <= j < i ==> (#[trigger] es[j]).0 != es[i].0,
    ensures
        obj_get_entries(es, es[i].0) == Some(es[i].1),
    decreases i,
{
    if i > 0 {
        assert(forall|j: int| 0 <= j < i - 1 ==> (#[trigger] es.drop_first()[j]).0 != es.drop_first()[
            i - 1].0);
        lemma_obj_get_at(es.drop_first(), i - 1);
    }
}

/// A key held by no entry is not found.
pub proof fn lemma_obj_get_none(es: Seq<(Seq<char>, JsonV)>, key: Seq<char>)
    requires
        forall|j: int| 0 <= j < es.len() ==> (#[trigger] es[j]).0 != key,
    ensures
        obj_get_entries(es, key) is None,
    decreases es.len(),
{
    if es.len() > 0 {
        lemma_obj_get_none(es.drop_first(), key);
    }
}

/// The entry list after storing `val` under `key`: the first entry with
/// that key is replaced in place, or a new entry is appended.
pub open spec fn obj_set_entries(
    es: Seq<(Seq<char>, JsonV)>,
    key: Seq<char>,
    val: JsonV,
) -> Seq<(Seq<char>, JsonV)>
    decreases es.len(),
{
    if es.len() == 0 {
        seq![(key, val)]
    } else if es[0].0 == key {
        seq![(key, val)] + es.drop_first()
    } else {
        seq![es[0]] + obj_set_entries(es.drop_first(), key, val)
    }
}

/// After storing under `key`, that key holds `val`.
pub proof fn lemma_obj_set_get_same(es: Seq<(Seq<char>, JsonV)>, key: Seq<char>, val: JsonV)
    ensures
        obj_get_entries(obj_set_entries(es, key, val), key) == Some(val),
    decreases es.len(),
{
    if es.len() == 0 {
    } else if es[0].0 == key {
        assert(obj_set_entries(es, key, val)[0] == (key, val));
    } else {
        lemma_obj_set_get_same(es.drop_first(), key, val);
        assert(obj_set_entries(es, key, val)[0] == es[0]);
        assert(obj_set_entries(es, key, val).drop_first() =~= obj_set_entries(
            es.drop_first(),
            key,
            val,
        ));
    }
}

/// Storing under `key` leaves every other key as it was.
pub proof fn lemma_obj_set_get_other(
    es: Seq<(Seq<char>, JsonV)>,
    key: Seq<char>,
    val: JsonV,
    k: Seq<char>,
)
    requires
        k != key,
    ensures
        obj_get_entries(obj_set_entries(es, key, val), k) == obj_get_entries(es, k),
    decreases es.len(),
{
    reveal_with_fuel(obj_get_entries, 3);
    if es.len() == 0 {
        assert(obj_set_entries(es, key, val)[0] == (key, val));
        assert(obj_set_entries(es, key, val).drop_first() =~= Seq::<(Seq<char>, JsonV)>::empty());
    } else if es[0].0 == key {
        assert(obj_set_entries(es, key, val)[0] == (key, val));
        assert(obj_set_entries(es, key, val).drop_first() =~= es.drop_first());
    } else {
        lemma_obj_set_get_other(es.drop_first(), key, val, k);
        assert(obj_set_entries(es, key, val) == seq![es[0]] + obj_set_entries(
            es.drop_first(),
            key,
            val,
        ));
        assert(obj_set_entries(es, key, val).len() > 0);
        assert(obj_set_entries(es, key, val)[0] == es[0]);
        assert(obj_set_entries(es, key, val).drop_first() =~= obj_set_entries(
            es.drop_first(),
            key,
            val,
        ));
        if es[0].0 == k {
            assert(obj_get_entries(obj_set_entries(es, key, val), k) == Some(es[0].1));
        }
    }
}

proof fn lemma_obj_set_found(es: Seq<(Seq<char>, JsonV)>, key: Seq<char>, val: JsonV, i: int)
    requires
        0 <= i < es.len(),
        es[i].0 == key,
        forall|j: int| 0 <= j < i ==> (#[trigger] es[j]).0 != key,
    ensures
        obj_set_entries(es, key, val) =~= es.update(i, (key, val)),
    decreases i,
{
    if i == 0 {
        assert(obj_set_entries(es, key, val) =~= seq![(key, val)] + es.drop_first());
    } else {
        assert(forall|j: int| 0 <= j < i - 1 ==> (#[trigger] es.drop_first()[j]).0 != key);
        lemma_obj_set_found(es.drop_first(), key, val, i - 1);
        assert(obj_set_entries(es, key, val) =~= seq![es[0]] + obj_set_entries(
            es.drop_first(),
            key,
            val,
        ));
        assert(seq![es[0]] + es.drop_first().update(i - 1, (key, val)) =~= es.update(
            i,
            (key, val),
        ));
    }
}

proof fn lemma_obj_set_absent(es: Seq<(Seq<char>, JsonV)>, key: Seq<char>, val: JsonV)
    requires
        forall|j: int| 0 <= j < es.len() ==> (#[trigger] es[j]).0 != key,
    ensures
        obj_set_entries(es, key, val) =~= es.push((key, val)),
    decreases es.len(),
{
    if es.len() > 0 {
        lemma_obj_set_absent(es.drop_first(), key, val);
        assert(seq![es[0]] + es.drop_first().push((key, val)) =~= es.push((key, val)));
    }
}

impl JsonValue {
    /// A string value copied from a string slice.
    pub fn of_str(s: &str) -> (r: JsonValue)
        ensures
            r@ == JsonV::Str(s@),
    {
        JsonValue::Str(s.to_owned())
    }

    /// True when the value is an object holding `key`.
    pub fn has_key(&self, key: &str) -> (r: bool)
        ensures
            r == (jv_get(self@, key@) is Some),
    {
        self.get(key).is_some()
    }

    /// The value stored under `key`, when this value is an object that holds it.
    pub fn get<'a>(&'a self, key: &str) -> (r: Option<&'a JsonValue>)
        ensures
            match r {
                Some(v) => jv_get(self@, key@) == Some(v@),
                None => jv_get(self@, key@) is None,
            },
    {
        match self {
            JsonValue::Obj(entries) => {
                let ghost es = json_view_entries(entries@);
                proof {
                    lemma_json_view_entries(entries@);
                    assert(es.skip(0) =~= es);
                }
                let n = entries.len();
                let mut i: usize = 0;
                while i < n
                    invariant
                        n == entries@.len(),
                        i <= n,
                        es == json_view_entries(entries@),
                        es.len() == n,
                        forall|j: int| 0 <= j < n ==> es[j] == (entries@[j].0@, json_view(
                            entries@[j].1,
                        )),
                        jv_get(json_view(*self), key@) == obj_get_entries(es.skip(i as int), key@),
                    decreases n - i,
                {
                    if crate::strutil::str_eq(entries[i].0.as_str(), key) {
                        assert(es.skip(i as int)[0] == es[i as int]);
                        return Some(&entries[i].1);
                    }
                    proof {
                        lemma_obj_get_entries_step(es, key@, i as int);
                    }
                    i += 1;
                }
                assert(es.skip(n as int) =~= Seq::<(Seq<char>, JsonV)>::empty());
                None
            },
            _ => None,
        }
    }

    /// The content of a string value.
    pub fn as_str<'a>(&'a self) -> (r: Option<&'a str>)
        ensures
            match r {
                Some(s) => self@ == JsonV::Str(s@),
                None => !(self@ is Str),
            },
    {
        match self {
            JsonValue::Str(s) => Some(s.as_str()),
            _ => None,
        }
    }

    /// The content of a non-negative integer value.
    pub fn as_u64(&self) -> (r: Option<u64>)
        ensures
            match r {
                Some(n) => self@ == JsonV::Int(n as int),
                None => match self@ {
                    JsonV::Int(n) => n < 0,
                    _ => true,
                },
            },
    {
        match self {
            JsonValue::Int(n) => {
                if *n >= 0 {
                    Some(*n as u64)
                } else {
                    None
                }
            },
            _ => None,
        }
    }

    /// The content of a boolean value.
    pub fn as_bool(&self) -> (r: Option<bool>)
        ensures
            match r {
                Some(b) => self@ == JsonV::Bool(b),
                None => !(self@ is Bool),
            },
    {
        match self {
            JsonValue::Bool(b) => Some(*b),
            _ => None,
        }
    }

    /// The elements of an array value.
    pub fn as_array<'a>(&'a self) -> (r: Option<&'a Vec<JsonValue>>)
        ensures
            match r {
                Some(items) => self@ == JsonV::Arr(json_view_seq(items@)),
                None => !(self@ is Arr),
            },
    {
        match self {
            JsonValue::Arr(items) => Some(items),
            _ => None,
        }
    }

    /// True when the value is a string equal to `s`.
    pub fn is_str(&self, s: &str) -> (r: bool)
        ensures
            r == (self@ == JsonV::Str(s@)),
    {
        match self.as_str() {
            Some(mine) => crate::strutil::str_eq(mine, s),
            None => false,
        }
    }

    /// Stores `val` under `key` in an object value: the first entry with
    /// that key is replaced, or a new entry is appended.
    #[verifier::loop_isolation(false)]
    pub fn set_key(&mut self, key: &str, val: JsonValue)
        requires
            old(self)@ is Obj,
        ensures
            final(self)@ == JsonV::Obj(
                obj_set_entries(old(self)@->Obj_0, key@, val@),
            ),
    {
        let ghost old_entries = old(self)@->Obj_0;
        match self {
            JsonValue::Obj(entries) => {
                let ghost pre = entries@;
                proof {
                    lemma_json_view_entries(pre);
                }
                let n = entries.len();
                let mut i: usize = 0;
                while i < n
                    invariant
                        n == entries@.len(),
                        i <= n,
                        entries@ == pre,
                        forall|j: int| 0 <= j < i ==> (#[trigger] old_entries[j]).0 != key@,
                    decreases n - i,
                {
                    if crate::strutil::str_eq(entries[i].0.as_str(), key) {
                        assert(old_entries[i as int].0 == key@);
                        let owned_key = String::from_str(key);
                        entries.remove(i);
                        entries.insert(i, (owned_key, val));
                        proof {
                            assert(entries@ =~= pre.update(i as int, (owned_key, val)));
                            lemma_json_view_entries(entries@);
                            lemma_obj_set_found(old_entries, key@, val@, i as int);
                            assert(json_view_entries(entries@) =~= old_entries.update(
                                i as int,
                                (key@, val@),
                            ));
                        }
                        return;
                    }
                    assert(old_entries[i as int].0 != key@);
                    i += 1;
                }
                let owned_key = String::from_str(key);
                entries.push((owned_key, val));
                proof {
                    assert(entries@ =~= pre.push((owned_key, val)));
                    lemma_json_view_entries(entries@);
                    lemma_obj_set_absent(old_entries, key@, val@);
                    assert(json_view_entries(entries@) =~= old_entries.push((key@, val@)));
                }
            },
            _ => {
                proof {
                    assert(false);
                }
            },
        }
    }

    /// An exact copy of the value.
    #[verifier::loop_isolation(false)]
    pub fn deep_copy(&self) -> (r: JsonValue)
        ensures
            r@ == self@,
        decreases self,
    {
        match self {
            JsonValue::Null => JsonValue::Null,
            JsonValue::Bool(b) => JsonValue::Bool(*b),
            JsonValue::Int(n) => JsonValue::Int(*n),
            JsonValue::Str(s) => JsonValue::Str(s.clone()),
            JsonValue::Arr(items) => {
                let n = items.len();
                let mut out: Vec<JsonValue> = Vec::new();
                let mut i: usize = 0;
                while i < n
                    invariant
                        n == items@.len(),
                        i <= n,
                        out@.len() == i,
                        forall|j: int| 0 <= j < i ==> json_view(out@[j]) == json_view(items@[j]),
                    decreases n - i,
                {
                    proof {
                        assert(decreases_to!(*self => *items));
                        assert(decreases_to!(*items => items@));
                        assert(decreases_to!(items@ => items@[i as int]));
                    }
                    out.push(items[i].deep_copy());
                    i += 1;
                }
                proof {
                    lemma_json_view_seq(out@);
                    lemma_json_view_seq(items@);
                    assert(json_view_seq(out@) =~= json_view_seq(items@));
                }
                JsonValue::Arr(out)
            },
            JsonValue::Obj(entries) => {
                let n = entries.len();
                let mut out: Vec<(String, JsonValue)> = Vec::new();
                let mut i: usize = 0;
                while i < n
                    invariant
                        n == entries@.len(),
                        i <= n,
                        out@.len() == i,
                        forall|j: int| 0 <= j < i ==> out@[j].0@ == entries@[j].0@
                            && json_view(out@[j].1) == json_view(entries@[j].1),
                    decreases n - i,
                {
                    proof {
                        assert(decreases_to!(*self => *entries));
                        assert(decreases_to!(*entries => entries@));
                        assert(decreases_to!(entries@ => entries@[i as int]));
                        assert(decreases_to!(entries@[i as int] => entries@[i as int].1));
                    }
                    let key = entries[i].0.clone();
                    let val = entries[i].1.deep_copy();
                    out.push((key, val));
                    i += 1;
                }
                proof {
                    lemma_json_view_entries(out@);
                    lemma_json_view_entries(entries@);
                    assert(json_view_entries(out@) =~= json_view_entries(entries@));
                }
                JsonValue::Obj(out)
            },
        }
    }
}

} // verus!
