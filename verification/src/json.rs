//! JSON values and the mathematical values that they stand for.

use vstd::prelude::*;

use crate::text::same_text;

verus! {

/// A floating-point number, held as the bit pattern of its IEEE 754 binary64
/// encoding.
#[derive(Clone, Copy, Debug, PartialEq, Eq, Structural)]
pub struct Float64 {
    pub bits: u64,
}

impl Float64 {
    /// Whether this is a number: an encoding whose exponent bits are all ones is
    /// that of an infinity or of no number.
    pub open spec fn is_finite_spec(self) -> bool {
        self.bits / 0x10_0000_0000_0000 % 0x800 != 0x7ff
    }

    /// Whether this is a number.
    pub fn is_finite(&self) -> (finite: bool)
        ensures
            finite == self.is_finite_spec(),
    {
        self.bits / 0x10_0000_0000_0000 % 0x800 != 0x7ff
    }
}

/// The bit pattern of the number one.
pub const FLOAT_ONE_BITS: u64 = 0x3ff0_0000_0000_0000;

/// A JSON number.
#[derive(Clone, Copy, Debug, PartialEq, Eq, Structural)]
pub enum JsonNumber {
    Unsigned(u64),
    Signed(i64),
    Float(Float64),
}

/// A JSON value.
#[derive(Debug, PartialEq, Eq)]
pub enum Json {
    Null,
    Bool(bool),
    Number(JsonNumber),
    String(String),
    Array(Vec<Json>),
    Object(JsonObject),
}

/// The members of a JSON object, as a list of names with values. Where a name
/// stands more than once the last entry holds.
#[derive(Debug, PartialEq, Eq)]
pub struct JsonObject {
    pub entries: Vec<(String, Json)>,
}

/// What a JSON value stands for: integers are one kind of number whatever
/// their representation, and an object is a map.
#[verifier::ext_equal]
pub enum JsonView {
    Null,
    Bool(bool),
    Integer(int),
    Float(Float64),
    String(Seq<char>),
    Array(Seq<JsonView>),
    Object(Map<Seq<char>, JsonView>),
}

/// The map that a list of names with values stands for.
pub open spec fn members_map(entries: Seq<(Seq<char>, JsonView)>) -> Map<Seq<char>, JsonView>
    decreases entries.len(),
{
    if entries.len() == 0 {
        Map::empty()
    } else {
        members_map(entries.drop_last()).insert(entries.last().0, entries.last().1)
    }
}

impl JsonNumber {
    pub open spec fn view(&self) -> JsonView {
        match *self {
            JsonNumber::Unsigned(n) => JsonView::Integer(n as int),
            JsonNumber::Signed(n) => JsonView::Integer(n as int),
            JsonNumber::Float(x) => JsonView::Float(x),
        }
    }
}

impl View for Json {
    type V = JsonView;

    open spec fn view(&self) -> JsonView
        decreases self, 0int,
    {
        match *self {
            Json::Null => JsonView::Null,
            Json::Bool(b) => JsonView::Bool(b),
            Json::Number(n) => n.view(),
            Json::String(s) => JsonView::String(s@),
            Json::Array(items) => JsonView::Array(
                Seq::new(
                    items@.len(),
                    |i: int| if 0 <= i < items@.len() { items@[i].view() } else { JsonView::Null },
                ),
            ),
            Json::Object(object) => JsonView::Object(object.view()),
        }
    }
}

impl View for JsonObject {
    type V = Map<Seq<char>, JsonView>;

    open spec fn view(&self) -> Map<Seq<char>, JsonView>
        decreases self, 1int,
    {
        members_map(self.listed())
    }
}

impl JsonObject {
    /// What the entries stand for, name by name.
    pub open spec fn listed(&self) -> Seq<(Seq<char>, JsonView)>
        decreases self, 0int,
    {
        Seq::new(
            self.entries@.len(),
            |i: int|
                if 0 <= i < self.entries@.len() {
                    (self.entries@[i].0@, self.entries@[i].1.view())
                } else {
                    (Seq::empty(), JsonView::Null)
                },
        )
    }
}

impl JsonView {
    /// The member of an object under a name.
    pub open spec fn member(self, name: Seq<char>) -> Option<JsonView> {
        match self {
            JsonView::Object(members) => if members.contains_key(name) {
                Some(members[name])
            } else {
                None
            },
            _ => None,
        }
    }

    /// The characters of a string.
    pub open spec fn text(self) -> Option<Seq<char>> {
        match self {
            JsonView::String(s) => Some(s),
            _ => None,
        }
    }

    /// The characters of the string that an object holds under a name.
    pub open spec fn member_text(self, name: Seq<char>) -> Option<Seq<char>> {
        match self.member(name) {
            Some(value) => value.text(),
            None => None,
        }
    }
}

/// A floating-point number in JSON, which has none for the infinities and for
/// what is no number: they are `null`.
pub open spec fn float_value(x: Float64) -> JsonView {
    if x.is_finite_spec() {
        JsonView::Float(x)
    } else {
        JsonView::Null
    }
}

/// What the values of a list stand for.
pub open spec fn views(items: Seq<Json>) -> Seq<JsonView> {
    items.map_values(|item: Json| item@)
}

/// An array stands for what its items stand for.
pub proof fn lemma_array_view(items: Vec<Json>)
    ensures
        Json::Array(items).view() == JsonView::Array(views(items@)),
{
    reveal_with_fuel(<Json as View>::view, 2);
    assert(Json::Array(items).view()->Array_0 =~= views(items@));
}

/// An object stands for the map that its entries make up.
pub proof fn lemma_object_view(object: JsonObject)
    ensures
        object.view() == members_map(object.listed()),
        object.listed() == object.entries@.map_values(
            |entry: (String, Json)| (entry.0@, entry.1@),
        ),
{
    reveal_with_fuel(<JsonObject as View>::view, 2);
    reveal_with_fuel(JsonObject::listed, 2);
    assert(object.listed() =~= object.entries@.map_values(
        |entry: (String, Json)| (entry.0@, entry.1@),
    ));
}

/// The last entry under a name is the one that holds.
pub proof fn lemma_last_entry_holds(entries: Seq<(Seq<char>, JsonView)>, at: int)
    requires
        0 <= at < entries.len(),
        forall|j: int| at < j < entries.len() ==> entries[j].0 != entries[at].0,
    ensures
        members_map(entries).contains_key(entries[at].0),
        members_map(entries)[entries[at].0] == entries[at].1,
    decreases entries.len(),
{
    if at < entries.len() - 1 {
        let front = entries.drop_last();
        assert(front[at] == entries[at]);
        assert(entries[entries.len() - 1].0 != entries[at].0);
        lemma_last_entry_holds(front, at);
    }
}

/// A name without an entry is no member.
pub proof fn lemma_no_entry(entries: Seq<(Seq<char>, JsonView)>, name: Seq<char>)
    requires
        forall|j: int| 0 <= j < entries.len() ==> entries[j].0 != name,
    ensures
        !members_map(entries).contains_key(name),
    decreases entries.len(),
{
    if entries.len() > 0 {
        assert(entries[entries.len() - 1].0 != name);
        lemma_no_entry(entries.drop_last(), name);
    }
}

impl JsonObject {
    /// An object without members.
    pub fn new() -> (object: JsonObject)
        ensures
            object@ == Map::<Seq<char>, JsonView>::empty(),
    {
        let object = JsonObject { entries: Vec::new() };
        proof {
            lemma_object_view(object);
        }
        object
    }

    /// Gives a name a value, in place of the one it may have had.
    pub fn insert(&mut self, name: &str, value: Json)
        ensures
            final(self)@ == old(self)@.insert(name@, value@),
    {
        proof {
            lemma_object_view(*self);
        }
        let ghost before = self.listed();
        self.entries.push((name.to_owned(), value));
        proof {
            lemma_object_view(*self);
            assert(self.listed().drop_last() =~= before);
        }
    }

    /// The value under a name.
    pub fn get(&self, name: &str) -> (found: Option<&Json>)
        ensures
            match found {
                Some(value) => self@.contains_key(name@) && self@[name@] == value@,
                None => !self@.contains_key(name@),
            },
    {
        let ghost listed = self.listed();
        proof {
            lemma_object_view(*self);
        }
        let mut i: usize = self.entries.len();
        while i > 0
            invariant
                i <= self.entries.len(),
                listed == self.listed(),
                self@ == members_map(listed),
                forall|j: int| i <= j < listed.len() ==> listed[j].0 != name@,
            decreases i,
        {
            i -= 1;
            if same_text(self.entries[i].0.as_str(), name) {
                proof {
                    assert(listed[i as int].0 == name@);
                    lemma_last_entry_holds(listed, i as int);
                }
                return Some(&self.entries[i].1);
            }
        }
        proof {
            lemma_no_entry(listed, name@);
        }
        None
    }
}

impl Json {
    /// The characters of a string; nothing for any other value.
    pub fn as_str(&self) -> (found: Option<&str>)
        ensures
            match found {
                Some(s) => self@.text() == Some(s@),
                None => self@.text() is None,
            },
    {
        match self {
            Json::String(s) => Some(s.as_str()),
            _ => None,
        }
    }

    /// Whether the value is an array.
    pub fn is_array(&self) -> (is: bool)
        ensures
            is == (self@ is Array),
    {
        match self {
            Json::Array(_) => true,
            _ => false,
        }
    }

    /// The array without items.
    pub fn empty_array() -> (value: Json)
        ensures
            value@ == JsonView::Array(Seq::empty()),
    {
        let items: Vec<Json> = Vec::new();
        proof {
            lemma_array_view(items);
            assert(views(items@) =~= Seq::empty());
        }
        Json::Array(items)
    }

    /// The number; `null` for what JSON has no number for.
    pub fn float(x: Float64) -> (value: Json)
        ensures
            value@ == float_value(x),
    {
        if x.is_finite() {
            Json::Number(JsonNumber::Float(x))
        } else {
            Json::Null
        }
    }

    /// The string that holds the given characters.
    pub fn string(s: &str) -> (value: Json)
        ensures
            value@ == JsonView::String(s@),
    {
        Json::String(s.to_owned())
    }
}

impl Clone for Json {
    fn clone(&self) -> (copy: Json)
        ensures
            copy@ == self@,
        decreases self,
    {
        match self {
            Json::Null => Json::Null,
            Json::Bool(b) => Json::Bool(*b),
            Json::Number(n) => Json::Number(*n),
            Json::String(s) => Json::String(s.clone()),
            Json::Array(items) => {
                let mut copies: Vec<Json> = Vec::new();
                let mut i: usize = 0;
                while i < items.len()
                    invariant
                        i <= items.len(),
                        self is Array,
                        *items == self->Array_0,
                        copies@.len() == i,
                        forall|j: int| 0 <= j < i ==> #[trigger] copies@[j]@ == items@[j]@,
                    decreases items.len() - i,
                {
                    assert(decreases_to!(self => self->Array_0));
                    let copy = items[i].clone();
                    copies.push(copy);
                    i += 1;
                }
                proof {
                    lemma_array_view(*items);
                    lemma_array_view(copies);
                    assert(views(copies@) =~= views(items@));
                }
                Json::Array(copies)
            },
            Json::Object(object) => Json::Object(object.clone()),
        }
    }
}

impl Clone for JsonObject {
    fn clone(&self) -> (copy: JsonObject)
        ensures
            copy@ == self@,
        decreases self,
    {
        let mut copies: Vec<(String, Json)> = Vec::new();
        let mut i: usize = 0;
        while i < self.entries.len()
            invariant
                i <= self.entries.len(),
                copies@.len() == i,
                forall|j: int| 0 <= j < i ==> #[trigger] copies@[j].0@ == self.entries@[j].0@,
                forall|j: int| 0 <= j < i ==> #[trigger] copies@[j].1@ == self.entries@[j].1@,
            decreases self.entries.len() - i,
        {
            let copy = (self.entries[i].0.clone(), self.entries[i].1.clone());
            copies.push(copy);
            i += 1;
        }
        let copy = JsonObject { entries: copies };
        proof {
            lemma_object_view(*self);
            lemma_object_view(copy);
            assert(copy.listed() =~= self.listed());
        }
        copy
    }
}

} // verus!
