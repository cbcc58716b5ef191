use vstd::prelude::*;

verus! {

/// A JSON document as the command layer receives it. Numbers are kept in
/// their textual form; an object keeps its members in order.
pub enum JsonValue {
    Null,
    Bool(bool),
    Number(String),
    Str(String),
    Array(Vec<JsonValue>),
    Object(Vec<(String, JsonValue)>),
}

/// The value of the first member of `entries` named `key`.
pub open spec fn lookup(entries: Seq<(String, JsonValue)>, key: Seq<char>) -> Option<JsonValue>
    decreases entries.len(),
{
    if entries.len() == 0 {
        None
    } else {
        let earlier = lookup(entries.drop_last(), key);
        if earlier.is_some() {
            earlier
        } else if entries.last().0@ == key {
            Some(entries.last().1)
        } else {
            None
        }
    }
}

/// The texts of the string items of `items`, in order; other items are passed over.
pub open spec fn strings_of(items: Seq<JsonValue>) -> Seq<Seq<char>>
    decreases items.len(),
{
    if items.len() == 0 {
        Seq::empty()
    } else {
        let earlier = strings_of(items.drop_last());
        match items.last() {
            JsonValue::Str(s) => earlier.push(s@),
            _ => earlier,
        }
    }
}

/// The views of a sequence of strings.
pub open spec fn texts(v: Seq<String>) -> Seq<Seq<char>> {
    v.map_values(|s: String| s@)
}

/// Copies an optional reference out as a value.
pub open spec fn deref_opt(o: Option<&JsonValue>) -> Option<JsonValue> {
    match o {
        Some(v) => Some(*v),
        None => None,
    }
}

impl JsonValue {
    /// The value of member `key` when this is an object that has one.
    pub open spec fn member_spec(self, key: Seq<char>) -> Option<JsonValue> {
        match self {
            JsonValue::Object(entries) => lookup(entries@, key),
            _ => None,
        }
    }

    /// The text of a string value.
    pub open spec fn text_spec(self) -> Option<Seq<char>> {
        match self {
            JsonValue::Str(s) => Some(s@),
            _ => None,
        }
    }

    /// The items of an array value.
    pub open spec fn items_spec(self) -> Option<Seq<JsonValue>> {
        match self {
            JsonValue::Array(items) => Some(items@),
            _ => None,
        }
    }

    /// The text of member `key` when it is a string.
    pub open spec fn text_member_spec(self, key: Seq<char>) -> Option<Seq<char>> {
        match self.member_spec(key) {
            Some(v) => v.text_spec(),
            None => None,
        }
    }

    /// The items of member `key` when it is an array.
    pub open spec fn items_member_spec(self, key: Seq<char>) -> Option<Seq<JsonValue>> {
        match self.member_spec(key) {
            Some(v) => v.items_spec(),
            None => None,
        }
    }

    /// The text of member `key` when it is a string.
    pub fn text_member(&self, key: &str) -> (r: Option<&String>)
        ensures
            match r {
                Some(s) => self.text_member_spec(key@) == Some(s@),
                None => self.text_member_spec(key@).is_none(),
            },
    {
        match self.member(key) {
            Some(v) => v.as_text(),
            None => None,
        }
    }

    /// The items of member `key` when it is an array.
    pub fn items_member(&self, key: &str) -> (r: Option<&Vec<JsonValue>>)
        ensures
            match r {
                Some(v) => self.items_member_spec(key@) == Some(v@),
                None => self.items_member_spec(key@).is_none(),
            },
    {
        match self.member(key) {
            Some(v) => v.as_items(),
            None => None,
        }
    }

    /// The value of member `key`; `None` for a value that is no object, or
    /// an object without such a member.
    pub fn member<'a>(&'a self, key: &str) -> (r: Option<&'a JsonValue>)
        ensures
            deref_opt(r) == self.member_spec(key@),
    {
        match self {
            JsonValue::Object(entries) => {
                let mut found: Option<&'a JsonValue> = None;
                let mut i: usize = 0;
                while i < entries.len()
                    invariant
                        i <= entries@.len(),
                        deref_opt(found) == lookup(entries@.take(i as int), key@),
                    decreases entries@.len() - i,
                {
                    proof {
                        assert(entries@.take(i + 1).drop_last() =~= entries@.take(i as int));
                    }
                    if found.is_none() && text_eq(entries[i].0.as_str(), key) {
                        found = Some(&entries[i].1);
                    }
                    i = i + 1;
                }
                proof {
                    assert(entries@.take(i as int) =~= entries@);
                }
                found
            },
            _ => None,
        }
    }

    /// The text of a string value.
    pub fn as_text(&self) -> (r: Option<&String>)
        ensures
            match r {
                Some(s) => self.text_spec() == Some(s@),
                None => self.text_spec().is_none(),
            },
    {
        match self {
            JsonValue::Str(s) => Some(s),
            _ => None,
        }
    }

    /// The items of an array value.
    pub fn as_items(&self) -> (r: Option<&Vec<JsonValue>>)
        ensures
            match r {
                Some(v) => self.items_spec() == Some(v@),
                None => self.items_spec().is_none(),
            },
    {
        match self {
            JsonValue::Array(items) => Some(items),
            _ => None,
        }
    }
}

/// Whether two texts are equal, character by character.
pub fn text_eq(a: &str, b: &str) -> (r: bool)
    ensures
        r == (a@ == b@),
{
    let n = a.unicode_len();
    if n != b.unicode_len() {
        return false;
    }
    let mut i: usize = 0;
    while i < n
        invariant
            n == a@.len(),
            n == b@.len(),
            i <= n,
            forall|j: int| 0 <= j < i ==> a@[j] == b@[j],
        decreases n - i,
    {
        if a.get_char(i) != b.get_char(i) {
            return false;
        }
        i = i + 1;
    }
    assert(a@ =~= b@);
    true
}

/// The texts of the string items of `items`, in order.
pub fn strings_in(items: &Vec<JsonValue>) -> (r: Vec<String>)
    ensures
        texts(r@) == strings_of(items@),
{
    let mut out: Vec<String> = Vec::new();
    let mut i: usize = 0;
    while i < items.len()
        invariant
            i <= items@.len(),
            texts(out@) == strings_of(items@.take(i as int)),
        decreases items@.len() - i,
    {
        proof {
            assert(items@.take(i + 1).drop_last() =~= items@.take(i as int));
        }
        match &items[i] {
            JsonValue::Str(s) => {
                let ghost before = out@;
                out.push(s.clone());
                proof {
                    assert(texts(out@) =~= texts(before).push(s@));
                }
            },
            _ => {},
        }
        i = i + 1;
    }
    proof {
        assert(items@.take(i as int) =~= items@);
    }
    out
}

} // verus!
