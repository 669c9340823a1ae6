//! JSON values, as the metadata of chunks and sessions carries them.

use vstd::prelude::*;

verus! {

/// A JSON value.
#[derive(Debug)]
pub enum Json {
    /// `null`.
    Null,
    /// `true` or `false`.
    Bool(bool),
    /// A whole number that is not negative.
    PosInt(u64),
    /// A negative whole number.
    NegInt(i64),
    /// Any other number, as the bit pattern of a double-precision number.
    Float(u64),
    /// A string.
    Text(String),
    /// An array.
    Array(Vec<Json>),
    /// An object. Where a key repeats, its last value counts.
    Object(Vec<(String, Json)>),
}

/// What a [`Json`] value stands for.
pub enum JsonView {
    /// `null`.
    Null,
    /// `true` or `false`.
    Bool(bool),
    /// A whole number that is not negative.
    PosInt(u64),
    /// A negative whole number.
    NegInt(i64),
    /// Any other number, as a bit pattern.
    Float(u64),
    /// A string.
    Text(Seq<char>),
    /// An array.
    Array(Seq<JsonView>),
    /// An object.
    Object(Seq<(Seq<char>, JsonView)>),
}

/// The value behind `j`.
pub open spec fn json_view(j: Json) -> JsonView
    decreases j,
{
    match j {
        Json::Null => JsonView::Null,
        Json::Bool(b) => JsonView::Bool(b),
        Json::PosInt(n) => JsonView::PosInt(n),
        Json::NegInt(n) => JsonView::NegInt(n),
        Json::Float(n) => JsonView::Float(n),
        Json::Text(s) => JsonView::Text(s@),
        Json::Array(items) => JsonView::Array(
            Seq::new(
                items@.len(),
                |i: int|
                    if 0 <= i < items@.len() {
                        json_view(items@[i])
                    } else {
                        JsonView::Null
                    },
            ),
        ),
        Json::Object(members) => JsonView::Object(
            Seq::new(
                members@.len(),
                |i: int|
                    if 0 <= i < members@.len() {
                        (members@[i].0@, json_view(members@[i].1))
                    } else {
                        (Seq::empty(), JsonView::Null)
                    },
            ),
        ),
    }
}

impl View for Json {
    type V = JsonView;

    open spec fn view(&self) -> JsonView {
        json_view(*self)
    }
}

/// The value of a key among the members of an object.
pub open spec fn member(members: Seq<(Seq<char>, JsonView)>, key: Seq<char>) -> Option<JsonView>
    decreases members.len(),
{
    if members.len() == 0 {
        None
    } else if members.last().0 == key {
        Some(members.last().1)
    } else {
        member(members.drop_last(), key)
    }
}

/// The string that an object holds under a key, if it holds one there.
pub open spec fn text_at(j: JsonView, key: Seq<char>) -> Option<Seq<char>> {
    match j {
        JsonView::Object(members) => match member(members, key) {
            Some(JsonView::Text(s)) => Some(s),
            _ => None,
        },
        _ => None,
    }
}

impl Json {
    /// The string that an object holds under `key`; nothing for a missing key,
    /// a member of another type or a value that is no object.
    pub fn get_text(&self, key: &str) -> (r: Option<&String>)
        ensures
            match r {
                Some(s) => text_at(self@, key@) == Some(s@),
                None => text_at(self@, key@) is None,
            },
    {
        match self {
            Json::Object(members) => {
                let wanted: String = key.to_owned();
                let ghost all = self@->Object_0;
                let mut n: usize = members.len();
                assert(all.take(n as int) =~= all);
                while n > 0
                    invariant
                        0 <= n <= members@.len(),
                        *self matches Json::Object(m) && m == *members,
                        self@ == JsonView::Object(all),
                        all.len() == members@.len(),
                        wanted@ == key@,
                        member(all, key@) == member(all.take(n as int), key@),
                    decreases n,
                {
                    n = n - 1;
                    assert(all.take(n + 1).drop_last() =~= all.take(n as int));
                    assert(all[n as int] == (members@[n as int].0@, json_view(members@[n as int].1)));
                    let m = &members[n];
                    if m.0 == wanted {
                        return match &m.1 {
                            Json::Text(s) => Some(s),
                            _ => None,
                        };
                    }
                }
                None
            },
            _ => None,
        }
    }
}

impl Clone for Json {
    fn clone(&self) -> (r: Json)
        ensures
            r@ == self@,
        decreases self,
    {
        match self {
            Json::Null => Json::Null,
            Json::Bool(b) => Json::Bool(*b),
            Json::PosInt(n) => Json::PosInt(*n),
            Json::NegInt(n) => Json::NegInt(*n),
            Json::Float(n) => Json::Float(*n),
            Json::Text(s) => Json::Text(s.clone()),
            Json::Array(items) => {
                let mut copy: Vec<Json> = Vec::new();
                let mut i: usize = 0;
                while i < items.len()
                    invariant
                        0 <= i <= items@.len(),
                        copy@.len() == i,
                        *self == Json::Array(*items),
                        forall|k: int|
                            0 <= k < i ==> json_view(#[trigger] copy@[k]) == json_view(items@[k]),
                    decreases items@.len() - i,
                {
                    let item: &Json = &items[i];
                    assert(decreases_to!(*self => self->Array_0));
                    assert(decreases_to!(*items => items@));
                    assert(decreases_to!(items@ => items@[i as int]));
                    copy.push(item.clone());
                    i = i + 1;
                }
                let r = Json::Array(copy);
                assert(r@->Array_0 =~= self@->Array_0);
                r
            },
            Json::Object(members) => {
                let mut copy: Vec<(String, Json)> = Vec::new();
                let mut i: usize = 0;
                while i < members.len()
                    invariant
                        0 <= i <= members@.len(),
                        copy@.len() == i,
                        *self == Json::Object(*members),
                        forall|k: int|
                            0 <= k < i ==> (#[trigger] copy@[k]).0@ == members@[k].0@ && json_view(
                                copy@[k].1,
                            ) == json_view(members@[k].1),
                    decreases members@.len() - i,
                {
                    let m: &(String, Json) = &members[i];
                    assert(decreases_to!(*self => self->Object_0));
                    assert(decreases_to!(*members => members@));
                    assert(decreases_to!(members@ => members@[i as int]));
                    assert(decreases_to!(members@[i as int] => members@[i as int].1));
                    copy.push((m.0.clone(), m.1.clone()));
                    i = i + 1;
                }
                let r = Json::Object(copy);
                assert(r@->Object_0 =~= self@->Object_0);
                r
            },
        }
    }
}

} // verus!
