//! JSON values as the server reads and builds them.
//!
//! [`Json`] is the executable tree; [`JsonView`] is its mathematical model, in
//! which an object is a map from member names to values and a member written
//! twice keeps its last value.

use vstd::prelude::*;

verus! {

#[verifier::external_type_specification]
#[verifier::external_body]
pub struct ExNumber(serde_json::Number);

/// `serde_json::Number` is plain data and its `clone` is a field-for-field copy.
pub assume_specification[ <serde_json::Number as Clone>::clone ](n: &serde_json::Number) -> (r:
    serde_json::Number)
    ensures
        r == *n,
;

/// A JSON number. Integers are held as integers; every other number is carried
/// unread, in the form the parser gave it.
#[derive(Debug)]
pub enum JsonNumber {
    /// An integer that is zero or more.
    PosInt(u64),
    /// An integer below zero.
    NegInt(i64),
    /// A number with a fraction or an exponent.
    Float(serde_json::Number),
}

impl Clone for JsonNumber {
    fn clone(&self) -> (r: Self)
        ensures
            r == *self,
    {
        match self {
            JsonNumber::PosInt(u) => JsonNumber::PosInt(*u),
            JsonNumber::NegInt(i) => JsonNumber::NegInt(*i),
            JsonNumber::Float(n) => JsonNumber::Float(n.clone()),
        }
    }
}

/// A JSON value.
#[derive(Debug)]
pub enum Json {
    Null,
    Bool(bool),
    Number(JsonNumber),
    String(String),
    Array(Vec<Json>),
    /// The members in the order they were written.
    Object(Vec<(String, Json)>),
}

/// The mathematical model of a [`Json`] value.
#[verifier::ext_equal]
pub enum JsonView {
    Null,
    Bool(bool),
    Number(JsonNumber),
    String(Seq<char>),
    Array(Seq<JsonView>),
    Object(Map<Seq<char>, JsonView>),
}

/// The models of the items of an array, in order.
pub open spec fn items_view(items: Seq<Json>) -> Seq<JsonView>
    decreases items,
{
    Seq::new(
        items.len(),
        |i: int|
            if 0 <= i < items.len() {
                items[i].view()
            } else {
                JsonView::Null
            },
    )
}

/// The map that a list of members stands for: a later member replaces an
/// earlier one of the same name.
pub open spec fn members_view(members: Seq<(String, Json)>) -> Map<Seq<char>, JsonView>
    decreases members,
{
    if members.len() == 0 {
        Map::empty()
    } else {
        members_view(members.drop_last()).insert(members.last().0@, members.last().1.view())
    }
}

impl View for Json {
    type V = JsonView;

    open spec fn view(&self) -> JsonView
        decreases self,
    {
        match self {
            Json::Null => JsonView::Null,
            Json::Bool(b) => JsonView::Bool(*b),
            Json::Number(n) => JsonView::Number(*n),
            Json::String(s) => JsonView::String(s@),
            Json::Array(items) => JsonView::Array(items_view(items@)),
            Json::Object(members) => JsonView::Object(members_view(members@)),
        }
    }
}

impl JsonView {
    /// The value of the member `key`, if this is an object that has one.
    pub open spec fn member(self, key: Seq<char>) -> Option<JsonView> {
        match self {
            JsonView::Object(m) => if m.contains_key(key) {
                Some(m[key])
            } else {
                None
            },
            _ => None,
        }
    }

    /// The text of this value, if it is a string.
    pub open spec fn text(self) -> Option<Seq<char>> {
        match self {
            JsonView::String(s) => Some(s),
            _ => None,
        }
    }

    /// The text of the member `key`, if this is an object in which `key` is a string.
    pub open spec fn member_text(self, key: Seq<char>) -> Option<Seq<char>> {
        match self.member(key) {
            Some(v) => v.text(),
            None => None,
        }
    }

    /// The object without members.
    pub open spec fn empty_object() -> JsonView {
        JsonView::Object(Map::empty())
    }

    /// This object with the member `name` set to `value`; any other value unchanged.
    pub open spec fn with(self, name: Seq<char>, value: JsonView) -> JsonView {
        match self {
            JsonView::Object(m) => JsonView::Object(m.insert(name, value)),
            _ => self,
        }
    }

    /// This object with the member `name` set where there is a value for it.
    pub open spec fn with_opt(self, name: Seq<char>, value: Option<JsonView>) -> JsonView {
        match value {
            Some(v) => self.with(name, v),
            None => self,
        }
    }
}

/// The model of a value that may be absent.
pub open spec fn opt_view(value: Option<Json>) -> Option<JsonView> {
    match value {
        Some(v) => Some(v@),
        None => None,
    }
}

/// A member found at `i`, with no member of that name after it, is the one the
/// object holds under that name.
pub proof fn lemma_member_found(members: Seq<(String, Json)>, i: int, key: Seq<char>)
    requires
        0 <= i < members.len(),
        members[i].0@ == key,
        forall|j: int| i < j < members.len() ==> members[j].0@ != key,
    ensures
        members_view(members).contains_key(key),
        members_view(members)[key] == members[i].1@,
    decreases members.len(),
{
    let rest = members.drop_last();
    assert(members_view(members) == members_view(rest).insert(
        members.last().0@,
        members.last().1@,
    ));
    if i < members.len() - 1 {
        lemma_member_found(rest, i, key);
    }
}

/// A name that no member carries is not in the object.
pub proof fn lemma_member_absent(members: Seq<(String, Json)>, key: Seq<char>)
    requires
        forall|j: int| 0 <= j < members.len() ==> members[j].0@ != key,
    ensures
        !members_view(members).contains_key(key),
    decreases members.len(),
{
    if members.len() > 0 {
        let rest = members.drop_last();
        assert(members_view(members) == members_view(rest).insert(
            members.last().0@,
            members.last().1@,
        ));
        lemma_member_absent(rest, key);
    }
}

impl Json {
    /// A JSON string with the characters of `text`.
    pub fn string(text: &str) -> (r: Json)
        ensures
            r@ == JsonView::String(text@),
    {
        Json::String(String::from_str(text))
    }

    /// A JSON integer.
    pub fn integer(value: i64) -> (r: Json)
        ensures
            r@ == JsonView::Number(int_number(value)),
    {
        if value < 0 {
            Json::Number(JsonNumber::NegInt(value))
        } else {
            Json::Number(JsonNumber::PosInt(value as u64))
        }
    }

    /// A JSON boolean.
    pub fn boolean(value: bool) -> (r: Json)
        ensures
            r@ == JsonView::Bool(value),
    {
        Json::Bool(value)
    }

    /// The array of the strings `names`, in order.
    pub fn strings(names: &[&str]) -> (r: Json)
        ensures
            r@ == JsonView::Array(Seq::new(names@.len(), |i: int| JsonView::String(names@[i]@))),
    {
        let mut items: Vec<Json> = Vec::new();
        let mut i: usize = 0;
        while i < names.len()
            invariant
                i <= names.len(),
                items@.len() == i,
                forall|j: int| 0 <= j < i ==> items@[j]@ == JsonView::String(names@[j]@),
            decreases names.len() - i,
        {
            items.push(Json::string(names[i]));
            i = i + 1;
        }
        proof {
            assert(items_view(items@) =~= Seq::new(
                names@.len(),
                |i: int| JsonView::String(names@[i]@),
            ));
        }
        Json::Array(items)
    }

    /// The object without members.
    pub fn empty_object() -> (r: Json)
        ensures
            r@ == JsonView::empty_object(),
    {
        Json::Object(Vec::new())
    }

    /// This object with the member `name` set to `value`; any other value unchanged.
    pub fn with(self, name: &str, value: Json) -> (r: Json)
        ensures
            r@ == self@.with(name@, value@),
    {
        match self {
            Json::Object(members) => {
                let mut members = members;
                put(&mut members, name, value);
                Json::Object(members)
            },
            other => other,
        }
    }

    /// This object with the member `name` set where there is a value for it.
    pub fn with_opt(self, name: &str, value: Option<Json>) -> (r: Json)
        ensures
            r@ == self@.with_opt(name@, opt_view(value)),
    {
        match value {
            Some(v) => self.with(name, v),
            None => self,
        }
    }

    /// The value of the member `key`, if this is an object that has one.
    pub fn get(&self, key: &str) -> (r: Option<&Json>)
        ensures
            match r {
                Some(v) => self@.member(key@) == Some(v@),
                None => self@.member(key@) is None,
            },
    {
        match self {
            Json::Object(members) => {
                let wanted = String::from_str(key);
                let mut i: usize = members.len();
                while i > 0
                    invariant
                        i <= members.len(),
                        wanted@ == key@,
                        self == Json::Object(*members),
                        forall|j: int| i <= j < members.len() ==> members@[j].0@ != key@,
                    decreases i,
                {
                    i = i - 1;
                    if members[i].0 == wanted {
                        proof {
                            lemma_member_found(members@, i as int, key@);
                            assert(self@ == JsonView::Object(members_view(members@)));
                        }
                        return Some(&members[i].1);
                    }
                }
                proof {
                    lemma_member_absent(members@, key@);
                }
                None
            },
            _ => None,
        }
    }

    /// The text of this value, if it is a string.
    pub fn as_str(&self) -> (r: Option<&str>)
        ensures
            match r {
                Some(s) => self@.text() == Some(s@),
                None => self@.text() is None,
            },
    {
        match self {
            Json::String(s) => Some(s.as_str()),
            _ => None,
        }
    }

    /// The number this value holds, if it is one.
    pub fn as_number(&self) -> (r: Option<&JsonNumber>)
        ensures
            match r {
                Some(n) => self@ == JsonView::Number(*n),
                None => !(self@ is Number),
            },
    {
        match self {
            Json::Number(n) => Some(n),
            _ => None,
        }
    }

    /// The text of the member `key`, if this is an object in which `key` is a string.
    pub fn get_str(&self, key: &str) -> (r: Option<&str>)
        ensures
            match r {
                Some(s) => self@.member_text(key@) == Some(s@),
                None => self@.member_text(key@) is None,
            },
    {
        match self.get(key) {
            Some(v) => v.as_str(),
            None => None,
        }
    }
}

/// The JSON number that stands for the integer `value`.
pub open spec fn int_number(value: i64) -> JsonNumber {
    if value < 0 {
        JsonNumber::NegInt(value)
    } else {
        JsonNumber::PosInt(value as u64)
    }
}

/// Adds the member `name` to a list of members.
pub fn put(members: &mut Vec<(String, Json)>, name: &str, value: Json)
    ensures
        members_view(final(members)@) == members_view(old(members)@).insert(name@, value@),
{
    members.push((String::from_str(name), value));
    proof {
        assert(members@.drop_last() =~= old(members)@);
    }
}

impl Clone for Json {
    fn clone(&self) -> (r: Self)
        ensures
            r@ == self@,
        decreases self,
    {
        match self {
            Json::Null => Json::Null,
            Json::Bool(b) => Json::Bool(*b),
            Json::Number(n) => Json::Number(n.clone()),
            Json::String(s) => Json::String(s.clone()),
            Json::Array(items) => {
                let mut copy: Vec<Json> = Vec::new();
                let mut i: usize = 0;
                while i < items.len()
                    invariant
                        i <= items.len(),
                        self == Json::Array(*items),
                        copy@.len() == i,
                        forall|j: int| 0 <= j < i ==> copy@[j]@ == items@[j]@,
                    decreases items.len() - i,
                {
                    proof {
                        assert(decreases_to!(self => self->Array_0));
                        assert(decreases_to!(*items => items@));
                        assert(decreases_to!(items@ => items@[i as int]));
                    }
                    copy.push(items[i].clone());
                    i = i + 1;
                }
                proof {
                    assert(items_view(copy@) =~= items_view(items@));
                }
                Json::Array(copy)
            },
            Json::Object(members) => {
                let mut copy: Vec<(String, Json)> = Vec::new();
                let mut i: usize = 0;
                while i < members.len()
                    invariant
                        i <= members.len(),
                        self == Json::Object(*members),
                        copy@.len() == i,
                        members_view(copy@) == members_view(members@.take(i as int)),
                    decreases members.len() - i,
                {
                    let name = members[i].0.clone();
                    proof {
                        assert(decreases_to!(self => self->Object_0));
                        assert(decreases_to!(*members => members@));
                        assert(decreases_to!(members@ => members@[i as int]));
                        assert(decreases_to!(members@[i as int] => members@[i as int].1));
                    }
                    let value = members[i].1.clone();
                    proof {
                        assert(members@.take(i + 1).drop_last() =~= members@.take(i as int));
                        assert(copy@.push((name, value)).drop_last() =~= copy@);
                    }
                    copy.push((name, value));
                    i = i + 1;
                }
                proof {
                    assert(members@.take(members@.len() as int) =~= members@);
                }
                Json::Object(copy)
            },
        }
    }
}

} // verus!
