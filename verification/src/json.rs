use vstd::prelude::*;

verus! {

/// A JSON value as the library reads it. Numbers keep their text, so that no
/// floating-point value is held.
#[derive(Debug)]
pub enum Json {
    Null,
    Bool(bool),
    Number(String),
    Str(String),
    Array(Vec<Json>),
    Object(Vec<(String, Json)>),
}

/// The mathematical value a `Json` stands for.
pub ghost enum JsonV {
    Null,
    Bool(bool),
    Number(Seq<char>),
    Str(Seq<char>),
    Array(Seq<JsonV>),
    Object(Seq<(Seq<char>, JsonV)>),
}

/// The value under `key` among the entries of an object (the first, should a key repeat).
pub open spec fn entries_get(es: Seq<(Seq<char>, JsonV)>, key: Seq<char>) -> Option<JsonV>
    decreases es.len(),
{
    if es.len() == 0 {
        None
    } else if es[0].0 == key {
        Some(es[0].1)
    } else {
        entries_get(es.drop_first(), key)
    }
}

impl JsonV {
    /// `Value::get` with a string key.
    pub open spec fn field(self, key: Seq<char>) -> Option<JsonV> {
        match self {
            JsonV::Object(es) => entries_get(es, key),
            _ => None,
        }
    }

    /// `Value::as_str`.
    pub open spec fn text(self) -> Option<Seq<char>> {
        match self {
            JsonV::Str(s) => Some(s),
            _ => None,
        }
    }

    /// `Value::get(key).and_then(Value::as_str)`.
    pub open spec fn str_field(self, key: Seq<char>) -> Option<Seq<char>> {
        match self.field(key) {
            Some(v) => v.text(),
            None => None,
        }
    }
}

impl Json {
    pub open spec fn view(self) -> JsonV
        decreases self,
    {
        match self {
            Json::Null => JsonV::Null,
            Json::Bool(b) => JsonV::Bool(b),
            Json::Number(n) => JsonV::Number(n@),
            Json::Str(s) => JsonV::Str(s@),
            Json::Array(items) => JsonV::Array(
                Seq::new(items@.len(), |i: int| if 0 <= i < items@.len() { items@[i].view() } else { JsonV::Null }),
            ),
            Json::Object(es) => JsonV::Object(
                Seq::new(
                    es@.len(),
                    |i: int|
                        if 0 <= i < es@.len() {
                            (es@[i].0@, es@[i].1.view())
                        } else {
                            (Seq::empty(), JsonV::Null)
                        },
                ),
            ),
        }
    }

    pub fn get(&self, key: &str) -> (r: Option<&Json>)
        ensures
            match self@.field(key@) {
                Some(v) => r is Some && r.unwrap()@ == v,
                None => r is None,
            },
    {
        match self {
            Json::Object(es) => {
                let k = String::from_str(key);
                let n = es.len();
                let mut i: usize = 0;
                let ghost ev = match self@ {
                    JsonV::Object(e) => e,
                    _ => Seq::empty(),
                };
                assert(ev.skip(0) == ev);
                while i < n
                    invariant
                        n == es@.len(),
                        ev.len() == n,
                        forall|j: int| 0 <= j < n ==> ev[j] == (es@[j].0@, es@[j].1@),
                        i <= n,
                        k@ == key@,
                        self@.field(key@) == entries_get(ev, key@),
                        entries_get(ev, key@) == entries_get(ev.skip(i as int), key@),
                    decreases n - i,
                {
                    if es[i].0 == k {
                        assert(ev.skip(i as int)[0] == ev[i as int]);
                        return Some(&es[i].1);
                    }
                    assert(ev.skip(i as int).drop_first() == ev.skip(i + 1));
                    i = i + 1;
                }
                None
            },
            _ => None,
        }
    }

    pub fn as_str(&self) -> (r: Option<&String>)
        ensures
            match self@.text() {
                Some(t) => r is Some && r.unwrap()@ == t,
                None => r is None,
            },
    {
        match self {
            Json::Str(s) => Some(s),
            _ => None,
        }
    }

    /// A copy of this value.
    pub fn copied(&self) -> (r: Json)
        ensures
            r@ == self@,
        decreases self,
    {
        match self {
            Json::Null => Json::Null,
            Json::Bool(b) => Json::Bool(*b),
            Json::Number(n) => Json::Number(n.clone()),
            Json::Str(s) => Json::Str(s.clone()),
            Json::Array(items) => {
                let mut out: Vec<Json> = Vec::new();
                let n = items.len();
                for i in 0..n
                    invariant
                        n == items@.len(),
                        out@.len() == i,
                        forall|k: int| 0 <= k < i ==> out@[k]@ == items@[k]@,
                        forall|k: int| 0 <= k < n ==> decreases_to!(*self => items@[k]),
                {
                    let c = items[i].copied();
                    out.push(c);
                }
                assert(items@.take(n as int) == items@);
                let r = Json::Array(out);
                proof {
                    let a = match r@ {
                        JsonV::Array(x) => x,
                        _ => Seq::empty(),
                    };
                    let b = match self@ {
                        JsonV::Array(x) => x,
                        _ => Seq::empty(),
                    };
                    assert(a =~= b);
                }
                r
            },
            Json::Object(es) => {
                let mut out: Vec<(String, Json)> = Vec::new();
                let n = es.len();
                for i in 0..n
                    invariant
                        n == es@.len(),
                        out@.len() == i,
                        forall|k: int| 0 <= k < i ==> out@[k].0@ == es@[k].0@ && out@[k].1@ == es@[k].1@,
                        forall|k: int| 0 <= k < n ==> decreases_to!(*self => es@[k].1),
                {
                    let c = es[i].1.copied();
                    let key = es[i].0.clone();
                    out.push((key, c));
                }
                assert(es@.take(n as int) == es@);
                let r = Json::Object(out);
                proof {
                    let a = match r@ {
                        JsonV::Object(x) => x,
                        _ => Seq::empty(),
                    };
                    let b = match self@ {
                        JsonV::Object(x) => x,
                        _ => Seq::empty(),
                    };
                    assert(a =~= b);
                }
                r
            },
        }
    }

    /// The string under `key`, if the value there is a string.
    pub fn get_str(&self, key: &str) -> (r: Option<&String>)
        ensures
            match self@.str_field(key@) {
                Some(t) => r is Some && r.unwrap()@ == t,
                None => r is None,
            },
    {
        match self.get(key) {
            Some(v) => v.as_str(),
            None => None,
        }
    }
}

/// A JSON string value.
pub fn jstr(s: &str) -> (r: Json)
    ensures
        r matches Json::Str(t) && t@ == s@,
{
    Json::Str(String::from_str(s))
}

/// A JSON object entry `key: value`.
pub fn entry(key: &str, value: Json) -> (r: (String, Json))
    ensures
        r.0@ == key@,
        r.1@ == value@,
{
    (String::from_str(key), value)
}

} // verus!
