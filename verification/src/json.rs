//! A JSON document model that the library's rules read: answers, answer keys and
//! attachment lists. Numbers are kept by kind only; the rules that compare
//! numbers as floating point are not part of the library.
use vstd::prelude::*;
use crate::text::str_eq;

verus! {

pub enum JsonNumber {
    PosInt(u64),
    NegInt(i64),
    Float,
}

pub enum JsonValue {
    Null,
    Bool(bool),
    Number(JsonNumber),
    Str(String),
    Array(Vec<JsonValue>),
    Object(Vec<(String, JsonValue)>),
}

/// The value of the first member named `key`, if any.
pub open spec fn member(entries: Seq<(String, JsonValue)>, key: Seq<char>) -> Option<JsonValue>
    decreases entries.len(),
{
    if entries.len() == 0 {
        None
    } else if entries[0].0@ == key {
        Some(entries[0].1)
    } else {
        member(entries.drop_first(), key)
    }
}

/// The texts of the string items of an array, in order; other items are skipped
/// (`filter_map(Value::as_str)`).
pub open spec fn string_items(items: Seq<JsonValue>) -> Seq<Seq<char>>
    decreases items.len(),
{
    if items.len() == 0 {
        Seq::empty()
    } else {
        string_items(items.drop_last()) + match items.last() {
            JsonValue::Str(s) => seq![s@],
            _ => Seq::empty(),
        }
    }
}

impl JsonValue {
    /// `Value::get` with a key: the member of an object, `None` otherwise.
    pub open spec fn field(self, key: Seq<char>) -> Option<JsonValue> {
        match self {
            JsonValue::Object(m) => member(m@, key),
            _ => None,
        }
    }

    pub open spec fn text(self) -> Option<Seq<char>> {
        match self {
            JsonValue::Str(s) => Some(s@),
            _ => None,
        }
    }

    pub open spec fn boolean(self) -> Option<bool> {
        match self {
            JsonValue::Bool(b) => Some(b),
            _ => None,
        }
    }

    pub open spec fn items(self) -> Option<Seq<JsonValue>> {
        match self {
            JsonValue::Array(a) => Some(a@),
            _ => None,
        }
    }

    /// `v.get(key)?.as_str()`.
    pub open spec fn text_field(self, key: Seq<char>) -> Option<Seq<char>> {
        match self.field(key) {
            Some(v) => v.text(),
            None => None,
        }
    }

    /// `v.get(key)?.as_bool()`.
    pub open spec fn bool_field(self, key: Seq<char>) -> Option<bool> {
        match self.field(key) {
            Some(v) => v.boolean(),
            None => None,
        }
    }

    /// `v.get(key)?.as_array()?` followed by `filter_map(as_str)`.
    pub open spec fn text_list_field(self, key: Seq<char>) -> Option<Seq<Seq<char>>> {
        match self.field(key) {
            Some(v) => match v.items() {
                Some(a) => Some(string_items(a)),
                None => None,
            },
            None => None,
        }
    }

    /// `v.as_array().map(|a| !a.is_empty()).unwrap_or(false)`.
    pub open spec fn is_nonempty_array(self) -> bool {
        match self {
            JsonValue::Array(a) => a@.len() > 0,
            _ => false,
        }
    }

    /// `Value::get` on an object member.
    pub fn get(&self, key: &str) -> (r: Option<&JsonValue>)
        ensures
            match r {
                Some(v) => self.field(key@) == Some(*v),
                None => self.field(key@) is None,
            },
    {
        match self {
            JsonValue::Object(m) => {
                let mut i: usize = 0;
                assert(m@.skip(0) =~= m@);
                while i < m.len()
                    invariant
                        i <= m@.len(),
                        self.field(key@) == member(m@, key@),
                        member(m@, key@) == member(m@.skip(i as int), key@),
                    decreases m.len() - i,
                {
                    assert(m@.skip(i as int).drop_first() =~= m@.skip(i + 1));
                    assert(m@.skip(i as int)[0] == m@[i as int]);
                    if str_eq(m[i].0.as_str(), key) {
                        return Some(&m[i].1);
                    }
                    i = i + 1;
                }
                None
            },
            _ => None,
        }
    }

    pub fn as_str(&self) -> (r: Option<&String>)
        ensures
            match r {
                Some(s) => self.text() == Some(s@),
                None => self.text() is None,
            },
    {
        match self {
            JsonValue::Str(s) => Some(s),
            _ => None,
        }
    }

    pub fn as_bool(&self) -> (r: Option<bool>)
        ensures
            r == self.boolean(),
    {
        match self {
            JsonValue::Bool(b) => Some(*b),
            _ => None,
        }
    }

    pub fn as_array(&self) -> (r: Option<&Vec<JsonValue>>)
        ensures
            match r {
                Some(a) => self.items() == Some(a@),
                None => self.items() is None,
            },
    {
        match self {
            JsonValue::Array(a) => Some(a),
            _ => None,
        }
    }

    /// Whether the value is an array with at least one item.
    pub fn has_items(&self) -> (r: bool)
        ensures
            r == self.is_nonempty_array(),
    {
        match self {
            JsonValue::Array(a) => a.len() > 0,
            _ => false,
        }
    }

    pub fn text_field_of(&self, key: &str) -> (r: Option<&String>)
        ensures
            match r {
                Some(s) => self.text_field(key@) == Some(s@),
                None => self.text_field(key@) is None,
            },
    {
        match self.get(key) {
            Some(v) => v.as_str(),
            None => None,
        }
    }

    pub fn bool_field_of(&self, key: &str) -> (r: Option<bool>)
        ensures
            r == self.bool_field(key@),
    {
        match self.get(key) {
            Some(v) => v.as_bool(),
            None => None,
        }
    }

    pub fn text_list_field_of(&self, key: &str) -> (r: Option<Vec<String>>)
        ensures
            match r {
                Some(l) => self.text_list_field(key@) == Some(views(l@)),
                None => self.text_list_field(key@) is None,
            },
    {
        match self.get(key) {
            Some(v) => match v.as_array() {
                Some(a) => Some(string_items_of(a)),
                None => None,
            },
            None => None,
        }
    }
}

/// The texts held by a sequence of strings.
pub open spec fn views(v: Seq<String>) -> Seq<Seq<char>> {
    v.map_values(|s: String| s@)
}

/// The string items of an array, in order.
pub fn string_items_of(a: &Vec<JsonValue>) -> (r: Vec<String>)
    ensures
        views(r@) == string_items(a@),
{
    let mut out: Vec<String> = Vec::new();
    let mut i: usize = 0;
    while i < a.len()
        invariant
            i <= a@.len(),
            views(out@) == string_items(a@.take(i as int)),
        decreases a.len() - i,
    {
        let ghost prev = out@;
        assert(a@.take(i + 1).drop_last() =~= a@.take(i as int));
        match &a[i] {
            JsonValue::Str(s) => {
                out.push(s.clone());
                assert(views(out@) =~= views(prev) + seq![s@]);
            },
            _ => {
                assert(views(out@) =~= views(prev) + Seq::<Seq<char>>::empty());
            },
        }
        i = i + 1;
    }
    assert(a@.take(a@.len() as int) =~= a@);
    out
}

} // verus!
