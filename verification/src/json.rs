//! JSON values, as the persisted format of entities reads and writes them.
use crate::search::{first_index, lemma_first_index_is};
use crate::text::{owned, same_text};
use vstd::prelude::*;

verus! {

/// A JSON value. A number is kept where it is an integer; any other number
/// is `Real`, which the persisted format never accepts.
#[derive(Debug, PartialEq, Eq)]
pub enum JsonValue {
    Null,
    Bool(bool),
    Number(i128),
    Real,
    Text(String),
    Array(Vec<JsonValue>),
    Object(Vec<(String, JsonValue)>),
}

/// What a [`JsonValue`] holds, as mathematical values.
pub enum JsonView {
    Null,
    Bool(bool),
    Number(i128),
    Real,
    Text(Seq<char>),
    Array(Seq<JsonView>),
    Object(Seq<(Seq<char>, JsonView)>),
}

/// A member of a JSON object: its name and its value.
pub type Member = (Seq<char>, JsonView);

/// The views of a sequence of values.
pub open spec fn json_views(items: Seq<JsonValue>) -> Seq<JsonView>
    decreases items,
{
    Seq::new(
        items.len(),
        |i: int|
            if 0 <= i < items.len() {
                items[i].spec_view()
            } else {
                JsonView::Null
            },
    )
}

/// The views of the members of an object.
pub open spec fn member_views(members: Seq<(String, JsonValue)>) -> Seq<Member>
    decreases members,
{
    Seq::new(
        members.len(),
        |i: int|
            if 0 <= i < members.len() {
                (members[i].0@, members[i].1.spec_view())
            } else {
                (Seq::empty(), JsonView::Null)
            },
    )
}

impl JsonValue {
    pub open spec fn spec_view(self) -> JsonView
        decreases self,
    {
        match self {
            JsonValue::Null => JsonView::Null,
            JsonValue::Bool(b) => JsonView::Bool(b),
            JsonValue::Number(n) => JsonView::Number(n),
            JsonValue::Real => JsonView::Real,
            JsonValue::Text(s) => JsonView::Text(s@),
            JsonValue::Array(items) => JsonView::Array(json_views(items@)),
            JsonValue::Object(members) => JsonView::Object(member_views(members@)),
        }
    }
}

impl View for JsonValue {
    type V = JsonView;

    open spec fn view(&self) -> JsonView {
        self.spec_view()
    }
}

/// The index of the first member named `name`, or the number of members
/// where there is none.
pub open spec fn member_position(members: Seq<Member>, name: Seq<char>) -> int {
    first_index(members, named(name))
}

/// The condition of being named `name`.
pub open spec fn named(name: Seq<char>) -> spec_fn(Member) -> bool {
    |m: Member| m.0 == name
}

/// The value of the first member named `name`.
pub open spec fn member(members: Seq<Member>, name: Seq<char>) -> Option<JsonView> {
    let at = member_position(members, name);
    if 0 <= at < members.len() {
        Some(members[at].1)
    } else {
        None
    }
}

/// A member before which no member has its name is found under its name.
pub proof fn lemma_member_at(members: Seq<Member>, i: int)
    requires
        0 <= i < members.len(),
        forall|k: int| 0 <= k < i ==> (#[trigger] members[k]).0 != members[i].0,
    ensures
        member(members, members[i].0) == Some(members[i].1),
{
    let wanted = named(members[i].0);
    assert forall|k: int| 0 <= k < i implies !wanted(#[trigger] members[k]) by {}
    lemma_first_index_is(members, wanted, i);
}

impl JsonView {
    /// The value of the member `name` of an object; `None` for a value
    /// that is no object or has no such member.
    pub open spec fn get(self, name: Seq<char>) -> Option<JsonView> {
        match self {
            JsonView::Object(members) => member(members, name),
            _ => None,
        }
    }

    /// The integer that the value is, if it is one.
    pub open spec fn as_number(self) -> Option<i128> {
        match self {
            JsonView::Number(n) => Some(n),
            _ => None,
        }
    }

    /// The text that the value is, if it is one.
    pub open spec fn as_text(self) -> Option<Seq<char>> {
        match self {
            JsonView::Text(s) => Some(s),
            _ => None,
        }
    }

    /// The items of the array that the value is, if it is one.
    pub open spec fn as_array(self) -> Option<Seq<JsonView>> {
        match self {
            JsonView::Array(items) => Some(items),
            _ => None,
        }
    }
}

impl JsonValue {
    /// The text value with the characters of `s`.
    pub fn text(s: &str) -> (r: JsonValue)
        ensures
            r@ == JsonView::Text(s@),
    {
        JsonValue::Text(owned(s))
    }

    /// The integer value `n`.
    pub fn number(n: i128) -> (r: JsonValue)
        ensures
            r@ == JsonView::Number(n),
    {
        JsonValue::Number(n)
    }

    /// The value of the member `name` of an object; `None` for a value
    /// that is no object or has no such member.
    pub fn get(&self, name: &str) -> (r: Option<&JsonValue>)
        ensures
            r is Some <==> self@.get(name@) is Some,
            r matches Some(value) ==> Some(value@) == self@.get(name@),
            r matches Some(value) ==> decreases_to!(self => value),
    {
        match self {
            JsonValue::Object(members) => {
                let ghost views = member_views(members@);
                let ghost wanted = named(name@);
                let mut i: usize = 0;
                while i < members.len()
                    invariant
                        i <= members.len(),
                        self is Object,
                        self->Object_0 == *members,
                        views == member_views(members@),
                        wanted == named(name@),
                        forall|k: int| 0 <= k < i ==> !wanted(#[trigger] views[k]),
                    decreases members.len() - i,
                {
                    if same_text(members[i].0.as_str(), name) {
                        proof {
                            lemma_first_index_is(views, wanted, i as int);
                            vstd::std_specs::vec::axiom_vec_index_decreases(*members, i as int);
                        }
                        return Some(&members[i].1);
                    }
                    i += 1;
                }
                proof {
                    lemma_first_index_is(views, wanted, i as int);
                }
                None
            },
            _ => None,
        }
    }

    /// Takes the value of the member `name` out of an object; `None` for a
    /// value that is no object or has no such member.
    pub fn take(self, name: &str) -> (r: Option<JsonValue>)
        ensures
            r is Some <==> self@.get(name@) is Some,
            r matches Some(value) ==> Some(value@) == self@.get(name@),
    {
        let ghost whole = self@;
        match self {
            JsonValue::Object(members) => {
                let mut members = members;
                let ghost views = member_views(members@);
                let ghost wanted = named(name@);
                let mut i: usize = 0;
                while i < members.len()
                    invariant
                        i <= members.len(),
                        whole == self@,
                        whole == JsonView::Object(views),
                        views == member_views(members@),
                        wanted == named(name@),
                        forall|k: int| 0 <= k < i ==> !wanted(#[trigger] views[k]),
                    decreases members.len() - i,
                {
                    if same_text(members[i].0.as_str(), name) {
                        proof {
                            lemma_first_index_is(views, wanted, i as int);
                        }
                        let (_, value) = members.swap_remove(i);
                        return Some(value);
                    }
                    i += 1;
                }
                proof {
                    lemma_first_index_is(views, wanted, i as int);
                }
                None
            },
            _ => None,
        }
    }

    /// The integer that the value is, if it is one.
    pub fn as_number(&self) -> (r: Option<i128>)
        ensures
            r == self@.as_number(),
    {
        match self {
            JsonValue::Number(n) => Some(*n),
            _ => None,
        }
    }

    /// The text that the value is, if it is one.
    pub fn as_text(&self) -> (r: Option<&str>)
        ensures
            r is Some <==> self@.as_text() is Some,
            r matches Some(s) ==> Some(s@) == self@.as_text(),
    {
        match self {
            JsonValue::Text(s) => Some(s.as_str()),
            _ => None,
        }
    }

    /// The items of the array that the value is, if it is one.
    pub fn as_array(&self) -> (r: Option<&Vec<JsonValue>>)
        ensures
            r is Some <==> self@.as_array() is Some,
            r matches Some(items) ==> Some(json_views(items@)) == self@.as_array(),
            r matches Some(items) ==> decreases_to!(self => items),
    {
        match self {
            JsonValue::Array(items) => Some(items),
            _ => None,
        }
    }
}

} // verus!
