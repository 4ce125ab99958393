//! JSON values as this layer carries them: payloads are moved through, never
//! interpreted.

use vstd::prelude::*;

verus! {

/// A JSON number. Integers are held as such; any other number keeps the
/// literal text it was written with. The same integer may be held as a
/// `PosInt` or as a `NegInt`: as numbers the two are one.
#[derive(Clone, Debug, PartialEq, Eq)]
pub enum Number {
    PosInt(u64),
    NegInt(i64),
    Literal(String),
}

/// The mathematical value of a [`Number`].
pub enum NumberView {
    Int(int),
    Literal(Seq<char>),
}

impl View for Number {
    type V = NumberView;

    open spec fn view(&self) -> NumberView {
        match *self {
            Number::PosInt(n) => NumberView::Int(n as int),
            Number::NegInt(n) => NumberView::Int(n as int),
            Number::Literal(s) => NumberView::Literal(s@),
        }
    }
}

/// One member of a JSON object.
#[derive(Debug, PartialEq, Eq)]
pub struct Member {
    pub key: String,
    pub value: JsonValue,
}

/// A JSON value. An object keeps its members in the order they were given.
#[derive(Debug, PartialEq, Eq)]
pub enum JsonValue {
    Null,
    Bool(bool),
    Number(Number),
    String(String),
    Array(Vec<JsonValue>),
    Object(Vec<Member>),
}

/// The mathematical value of a [`Member`].
pub struct MemberView {
    pub key: Seq<char>,
    pub value: JsonView,
}

/// The mathematical value of a [`JsonValue`].
pub enum JsonView {
    Null,
    Bool(bool),
    Number(NumberView),
    String(Seq<char>),
    Array(Seq<JsonView>),
    Object(Seq<MemberView>),
}

impl View for JsonValue {
    type V = JsonView;

    /// The value, with the values of what it holds in place of what it
    /// holds. The bounds tests inside the two sequences are there for the
    /// recursion to be seen to end; no index outside them is ever asked for.
    open spec fn view(&self) -> JsonView
        decreases self,
    {
        match self {
            JsonValue::Null => JsonView::Null,
            JsonValue::Bool(b) => JsonView::Bool(*b),
            JsonValue::Number(n) => JsonView::Number(n@),
            JsonValue::String(s) => JsonView::String(s@),
            JsonValue::Array(items) => JsonView::Array(
                Seq::new(
                    items.len() as nat,
                    |i: int|
                        if 0 <= i < items.len() {
                            items[i]@
                        } else {
                            JsonView::Null
                        },
                ),
            ),
            JsonValue::Object(members) => JsonView::Object(
                Seq::new(
                    members.len() as nat,
                    |i: int|
                        if 0 <= i < members.len() {
                            MemberView { key: members[i].key@, value: members[i].value@ }
                        } else {
                            MemberView { key: Seq::empty(), value: JsonView::Null }
                        },
                ),
            ),
        }
    }
}

impl View for Member {
    type V = MemberView;

    open spec fn view(&self) -> MemberView {
        MemberView { key: self.key@, value: self.value@ }
    }
}

/// The values of a sequence of JSON values, element by element.
pub open spec fn values_view(items: Seq<JsonValue>) -> Seq<JsonView> {
    Seq::new(items.len(), |i: int| items[i]@)
}

/// The values of a sequence of object members, member by member.
pub open spec fn members_view(members: Seq<Member>) -> Seq<MemberView> {
    Seq::new(members.len(), |i: int| members[i]@)
}

/// An array's value is the sequence of its items' values.
pub proof fn lemma_array_view(items: Vec<JsonValue>)
    ensures
        JsonValue::Array(items)@ == JsonView::Array(values_view(items@)),
{
    assert(JsonValue::Array(items)@->Array_0 =~= values_view(items@));
}

/// An object's value is the sequence of its members' values.
pub proof fn lemma_object_view(members: Vec<Member>)
    ensures
        JsonValue::Object(members)@ == JsonView::Object(members_view(members@)),
{
    assert(JsonValue::Object(members)@->Object_0 =~= members_view(members@));
}

fn copy_number(n: &Number) -> (copy: Number)
    ensures
        copy@ == n@,
{
    match n {
        Number::PosInt(v) => Number::PosInt(*v),
        Number::NegInt(v) => Number::NegInt(*v),
        Number::Literal(s) => Number::Literal(s.clone()),
    }
}

impl JsonValue {
    /// An independent copy with the same value.
    #[verifier::loop_isolation(false)]
    pub fn deep_copy(&self) -> (copy: JsonValue)
        ensures
            copy@ == self@,
        decreases self,
    {
        match self {
            JsonValue::Null => JsonValue::Null,
            JsonValue::Bool(b) => JsonValue::Bool(*b),
            JsonValue::Number(n) => JsonValue::Number(copy_number(n)),
            JsonValue::String(s) => JsonValue::String(s.clone()),
            JsonValue::Array(items) => {
                let mut out: Vec<JsonValue> = Vec::new();
                let mut i: usize = 0;
                while i < items.len()
                    invariant
                        i <= items.len(),
                        out.len() == i,
                        forall|j: int| 0 <= j < i ==> out[j]@ == items[j]@,
                    decreases items.len() - i,
                {
                    out.push(items[i].deep_copy());
                    i += 1;
                }
                proof {
                    lemma_array_view(out);
                    lemma_array_view(*items);
                    assert(values_view(out@) =~= values_view(items@));
                }
                JsonValue::Array(out)
            },
            JsonValue::Object(members) => {
                let mut out: Vec<Member> = Vec::new();
                let mut i: usize = 0;
                while i < members.len()
                    invariant
                        i <= members.len(),
                        out.len() == i,
                        forall|j: int| 0 <= j < i ==> out[j]@ == members[j]@,
                    decreases members.len() - i,
                {
                    let key = members[i].key.clone();
                    let value = members[i].value.deep_copy();
                    out.push(Member { key, value });
                    i += 1;
                }
                proof {
                    lemma_object_view(out);
                    lemma_object_view(*members);
                    assert(members_view(out@) =~= members_view(members@));
                }
                JsonValue::Object(out)
            },
        }
    }
}

impl Clone for JsonValue {
    fn clone(&self) -> (copy: JsonValue)
        ensures
            copy@ == self@,
    {
        self.deep_copy()
    }
}

impl Clone for Member {
    fn clone(&self) -> (copy: Member)
        ensures
            copy@ == self@,
    {
        Member { key: self.key.clone(), value: self.value.deep_copy() }
    }
}

} // verus!
