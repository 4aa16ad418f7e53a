//! JSON values, as far as the library reads them.

use vstd::prelude::*;

verus! {

/// A JSON value.
///
/// An object made from a JSON document has no two members of one name.
/// Where a value has several, the first one is the one that is found.
#[derive(Debug, PartialEq, Eq)]
pub enum Json {
    /// `null`.
    Null,
    /// `true` or `false`.
    Bool(bool),
    /// A number, by its text.
    Number(String),
    /// A string.
    Text(String),
    /// An array, by its elements.
    Array(Vec<Json>),
    /// An object, by its members in their order: each a name and a value.
    Object(Vec<(String, Json)>),
}

/// The mathematical value of a [`Json`].
pub ghost enum JsonView {
    Null,
    Bool(bool),
    Number(Seq<char>),
    Text(Seq<char>),
    Array(Seq<JsonView>),
    Object(Seq<(Seq<char>, JsonView)>),
}

impl Json {
    /// The mathematical value: that of each part, in the same shape.
    pub open spec fn model(&self) -> JsonView
        decreases self,
    {
        match self {
            Json::Null => JsonView::Null,
            Json::Bool(flag) => JsonView::Bool(*flag),
            Json::Number(text) => JsonView::Number(text@),
            Json::Text(text) => JsonView::Text(text@),
            Json::Array(elements) => JsonView::Array(
                Seq::new(
                    elements@.len(),
                    |i: int|
                        if 0 <= i < elements@.len() {
                            elements@[i].model()
                        } else {
                            JsonView::Null
                        },
                ),
            ),
            Json::Object(members) => JsonView::Object(
                Seq::new(
                    members@.len(),
                    |i: int|
                        if 0 <= i < members@.len() {
                            (members@[i].0@, members@[i].1.model())
                        } else {
                            (Seq::empty(), JsonView::Null)
                        },
                ),
            ),
        }
    }
}

impl View for Json {
    type V = JsonView;

    open spec fn view(&self) -> JsonView {
        self.model()
    }
}

/// The value of the first of the members that has the given name, or none
/// where no member has it.
pub open spec fn first_named(members: Seq<(Seq<char>, JsonView)>, name: Seq<char>) -> Option<
    JsonView,
>
    decreases members.len(),
{
    if members.len() == 0 {
        None
    } else if members[0].0 == name {
        Some(members[0].1)
    } else {
        first_named(members.drop_first(), name)
    }
}

impl JsonView {
    /// The value of the member with the given name, where this is an object
    /// that has one. None otherwise.
    pub open spec fn member(self, name: Seq<char>) -> Option<JsonView> {
        match self {
            JsonView::Object(members) => first_named(members, name),
            _ => None,
        }
    }

    /// The element at the given index, where this is an array that is long
    /// enough. None otherwise.
    pub open spec fn element(self, index: int) -> Option<JsonView> {
        match self {
            JsonView::Array(elements) => if 0 <= index < elements.len() {
                Some(elements[index])
            } else {
                None
            },
            _ => None,
        }
    }

    /// The text, where this is a string. None otherwise.
    pub open spec fn text(self) -> Option<Seq<char>> {
        match self {
            JsonView::Text(text) => Some(text),
            _ => None,
        }
    }
}

/// The mathematical value of what a lookup found.
pub open spec fn found_view(found: Option<&Json>) -> Option<JsonView> {
    match found {
        Some(value) => Some(value@),
        None => None,
    }
}

impl Json {
    /// Looks a member up by its name.
    pub fn member(&self, name: &str) -> (result: Option<&Json>)
        ensures
            found_view(result) == self@.member(name@),
    {
        match self {
            Json::Object(members) => {
                let ghost all = self@->Object_0;
                let mut index: usize = 0;
                proof {
                    assert(all.skip(0) =~= all);
                }
                while index < members.len()
                    invariant
                        index <= members.len(),
                        self@ == JsonView::Object(all),
                        all.len() == members.len(),
                        forall|i: int|
                            0 <= i < all.len() ==> all[i] == (
                                members[i].0@,
                                (#[trigger] members[i]).1@,
                            ),
                        first_named(all, name@) == first_named(all.skip(index as int), name@),
                    decreases members.len() - index,
                {
                    proof {
                        assert(all.skip(index as int).drop_first() =~= all.skip(index + 1));
                    }
                    if members[index].0.as_str().eq(name) {
                        return Some(&members[index].1);
                    }
                    index += 1;
                }
                None
            },
            _ => None,
        }
    }

    /// Looks an element up by its index.
    pub fn element(&self, index: usize) -> (result: Option<&Json>)
        ensures
            found_view(result) == self@.element(index as int),
    {
        match self {
            Json::Array(elements) => if index < elements.len() {
                Some(&elements[index])
            } else {
                None
            },
            _ => None,
        }
    }

    /// The text of a string.
    pub fn text(&self) -> (result: Option<&str>)
        ensures
            result.deep_view() == self@.text(),
    {
        match self {
            Json::Text(text) => Some(text.as_str()),
            _ => None,
        }
    }
}

} // verus!
