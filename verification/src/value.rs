//! The value model: what is matched, and the mathematical view of it that the
//! contracts of this crate speak of.

use vstd::prelude::*;
use vstd::std_specs::cmp::PartialEqSpecImpl;

verus! {

/// The kind of a value: one per variant of [`Value`].
#[derive(Clone, Copy, Debug, PartialEq, Eq, Structural)]
pub enum TypeId {
    Null,
    Bool,
    Number,
    String,
    Array,
    Object,
}

/// The bit pattern of the floating-point zero with the sign bit set.
pub const NEGATIVE_ZERO_BITS: u64 = 0x8000_0000_0000_0000;

/// A number: an integer, or a binary64 floating-point number held as its bit
/// pattern.
///
/// Floating-point numbers are compared as numbers: patterns are equal when
/// they are the same pattern, or when both are a zero. That is the equality
/// of the numbers for every finite pattern, and [`Number::from_f64_bits`]
/// makes no other. A pattern that is no finite number can still be put into
/// `Float` by hand; it then equals itself alone.
#[derive(Clone, Copy, Debug)]
pub enum Number {
    Integer(i128),
    Float(u64),
}

/// What a [`Number`] stands for. Two numbers are equal exactly when their
/// models are: the two floating-point zeros share one model.
pub enum NumberModel {
    Integer(int),
    Float(u64),
}

/// The bit pattern that stands for a floating-point number in its model:
/// negative zero is folded into positive zero, every other pattern is kept.
pub open spec fn canonical_bits(bits: u64) -> u64 {
    if bits == NEGATIVE_ZERO_BITS {
        0
    } else {
        bits
    }
}

/// Whether a bit pattern is a finite binary64 number, that is neither an
/// infinity nor a NaN: its exponent field is not all ones.
pub open spec fn is_finite_bits(bits: u64) -> bool {
    (bits >> 52) & 0x7ff != 0x7ff
}

impl View for Number {
    type V = NumberModel;

    open spec fn view(&self) -> NumberModel {
        match self {
            Number::Integer(n) => NumberModel::Integer(*n as int),
            Number::Float(bits) => NumberModel::Float(canonical_bits(*bits)),
        }
    }
}

impl Number {
    /// The number with the given binary64 bit pattern, if that pattern is a
    /// finite number.
    pub fn from_f64_bits(bits: u64) -> (r: Option<Number>)
        ensures
            r == if is_finite_bits(bits) {
                Some(Number::Float(bits))
            } else {
                None
            },
    {
        if (bits >> 52) & 0x7ff != 0x7ff {
            Some(Number::Float(bits))
        } else {
            None
        }
    }

}

/// Numeric equality: integers by value, floating-point numbers by bit pattern
/// with the two zeros equal, an integer never equal to a floating-point
/// number.
impl PartialEq for Number {
    fn eq(&self, other: &Number) -> (r: bool) {
        match (self, other) {
            (Number::Integer(a), Number::Integer(b)) => *a == *b,
            (Number::Float(a), Number::Float(b)) => {
                *a == *b || ((*a == 0 || *a == NEGATIVE_ZERO_BITS) && (*b == 0 || *b
                    == NEGATIVE_ZERO_BITS))
            },
            _ => false,
        }
    }
}

impl PartialEqSpecImpl for Number {
    open spec fn obeys_eq_spec() -> bool {
        true
    }

    open spec fn eq_spec(&self, other: &Number) -> bool {
        self@ == other@
    }
}

/// A value: null, a boolean, a number, a string, an array of values, or an
/// object that maps keys to values.
#[derive(Debug)]
pub enum Value {
    Null,
    Bool(bool),
    Number(Number),
    String(String),
    Array(Vec<Value>),
    Object(Object),
}

/// The members of an object: at most one value under each key.
#[derive(Debug)]
pub struct Object {
    entries: Vec<(String, Value)>,
}

/// What a [`Value`] stands for: strings as sequences of characters, arrays as
/// sequences, objects as maps from keys to values. Two values are equal
/// exactly when their models are, so arrays are compared in order and objects
/// key by key.
pub enum ValueModel {
    Null,
    Bool(bool),
    Number(NumberModel),
    String(Seq<char>),
    Array(Seq<ValueModel>),
    Object(Map<Seq<char>, ValueModel>),
}

impl ValueModel {
    /// The kind of the value.
    pub open spec fn type_id(self) -> TypeId {
        match self {
            ValueModel::Null => TypeId::Null,
            ValueModel::Bool(_) => TypeId::Bool,
            ValueModel::Number(_) => TypeId::Number,
            ValueModel::String(_) => TypeId::String,
            ValueModel::Array(_) => TypeId::Array,
            ValueModel::Object(_) => TypeId::Object,
        }
    }
}

/// The map that a list of members stands for: under each key, the value of
/// the first member that has it.
spec fn members_model(entries: Seq<(String, Value)>) -> Map<Seq<char>, ValueModel>
    decreases entries,
{
    if entries.len() == 0 {
        Map::empty()
    } else {
        members_model(entries.drop_first()).insert(entries[0].0@, entries[0].1.view())
    }
}

/// The models of the values of a list, place by place.
pub open spec fn items_model(items: Seq<Value>) -> Seq<ValueModel>
    decreases items,
{
    Seq::new(
        items.len(),
        |i: int|
            if 0 <= i < items.len() {
                items[i].view()
            } else {
                ValueModel::Null
            },
    )
}

impl View for Object {
    type V = Map<Seq<char>, ValueModel>;

    closed spec fn view(&self) -> Map<Seq<char>, ValueModel>
        decreases self,
    {
        members_model(self.entries@)
    }
}

impl View for Value {
    type V = ValueModel;

    open spec fn view(&self) -> ValueModel
        decreases self,
    {
        match self {
            Value::Null => ValueModel::Null,
            Value::Bool(b) => ValueModel::Bool(*b),
            Value::Number(n) => ValueModel::Number(n@),
            Value::String(s) => ValueModel::String(s@),
            Value::Array(items) => ValueModel::Array(items_model(items@)),
            Value::Object(members) => ValueModel::Object(members.view()),
        }
    }
}

/// The kind of `value`.
pub fn get_value_type_id(value: &Value) -> (id: TypeId)
    ensures
        id == value@.type_id(),
{
    match value {
        Value::Null => TypeId::Null,
        Value::Bool(_) => TypeId::Bool,
        Value::Number(_) => TypeId::Number,
        Value::String(_) => TypeId::String,
        Value::Array(_) => TypeId::Array,
        Value::Object(_) => TypeId::Object,
    }
}


/// No member of `entries` has the key `key`.
spec fn key_absent(entries: Seq<(String, Value)>, key: Seq<char>) -> bool {
    forall|j: int| 0 <= j < entries.len() ==> (#[trigger] entries[j]).0@ != key
}

/// The member at `index` is the first of `entries` that has the key `key`.
spec fn first_with_key(entries: Seq<(String, Value)>, key: Seq<char>, index: int) -> bool {
    &&& 0 <= index < entries.len()
    &&& entries[index].0@ == key
    &&& key_absent(entries.take(index), key)
}

/// The map of a list with a first member: that of the members behind it,
/// with the first member's value put under its key.
proof fn lemma_members_unfold(entries: Seq<(String, Value)>)
    requires
        entries.len() > 0,
    ensures
        members_model(entries) == members_model(entries.drop_first()).insert(
            entries[0].0@,
            entries[0].1@,
        ),
{
}

/// A key that no member has is not in the map.
proof fn lemma_absent_key(entries: Seq<(String, Value)>, key: Seq<char>)
    requires
        key_absent(entries, key),
    ensures
        !members_model(entries).contains_key(key),
    decreases entries.len(),
{
    if entries.len() > 0 {
        let rest = entries.drop_first();
        assert forall|j: int| 0 <= j < rest.len() implies (#[trigger] rest[j]).0@ != key by {
            assert(rest[j] == entries[j + 1]);
        }
        lemma_absent_key(rest, key);
        lemma_members_unfold(entries);
    }
}

/// Under a key, the map holds the value of the first member that has it.
proof fn lemma_first_member(entries: Seq<(String, Value)>, key: Seq<char>, index: int)
    requires
        first_with_key(entries, key, index),
    ensures
        members_model(entries).contains_key(key),
        members_model(entries)[key] == entries[index].1@,
    decreases entries.len(),
{
    lemma_members_unfold(entries);
    if index > 0 {
        let rest = entries.drop_first();
        assert(entries.take(index)[0] == entries[0]);
        assert(rest[index - 1] == entries[index]);
        assert forall|j: int| 0 <= j < index - 1 implies (#[trigger] rest.take(index - 1)[j]).0@
            != key by {
            assert(rest.take(index - 1)[j] == entries.take(index)[j + 1]);
        }
        lemma_first_member(rest, key, index - 1);
    }
}

/// Every key of the map is the key of some member.
proof fn lemma_key_has_member(entries: Seq<(String, Value)>, key: Seq<char>) -> (index: int)
    requires
        members_model(entries).contains_key(key),
    ensures
        first_with_key(entries, key, index),
    decreases entries.len(),
{
    if entries.len() > 0 {
        lemma_members_unfold(entries);
    }
    if entries[0].0@ == key {
        assert(entries.take(0).len() == 0);
        0
    } else {
        let rest = entries.drop_first();
        let below = lemma_key_has_member(rest, key);
        assert(rest[below] == entries[below + 1]);
        assert forall|j: int| 0 <= j < below + 1 implies (#[trigger] entries.take(below + 1)[j]).0@
            != key by {
            if j > 0 {
                assert(entries.take(below + 1)[j] == rest.take(below)[j - 1]);
            }
        }
        below + 1
    }
}

/// The key of every member is a key of the map.
proof fn lemma_key_of_member(entries: Seq<(String, Value)>, index: int)
    requires
        0 <= index < entries.len(),
    ensures
        members_model(entries).contains_key(entries[index].0@),
    decreases entries.len(),
{
    lemma_members_unfold(entries);
    if index > 0 {
        let rest = entries.drop_first();
        assert(rest[index - 1] == entries[index]);
        lemma_key_of_member(rest, index - 1);
    }
}

/// A member with a new key, put behind the others, adds that key to the map.
proof fn lemma_push_member(entries: Seq<(String, Value)>, member: (String, Value))
    requires
        key_absent(entries, member.0@),
    ensures
        members_model(entries.push(member)) == members_model(entries).insert(
            member.0@,
            member.1@,
        ),
    decreases entries.len(),
{
    let longer = entries.push(member);
    lemma_members_unfold(longer);
    if entries.len() == 0 {
        assert(longer.drop_first() =~= entries);
    } else {
        lemma_members_unfold(entries);
        let rest = entries.drop_first();
        assert(longer.drop_first() =~= rest.push(member));
        assert forall|j: int| 0 <= j < rest.len() implies (#[trigger] rest[j]).0@ != member.0@ by {
            assert(rest[j] == entries[j + 1]);
        }
        lemma_push_member(rest, member);
        assert(entries[0].0@ != member.0@);
        assert(members_model(longer) =~= members_model(entries).insert(member.0@, member.1@));
    }
}

/// A member that takes the place of the first one with its key changes the
/// map under that key alone.
proof fn lemma_replace_member(
    entries: Seq<(String, Value)>,
    index: int,
    member: (String, Value),
)
    requires
        first_with_key(entries, member.0@, index),
    ensures
        members_model(entries.update(index, member)) == members_model(entries).insert(
            member.0@,
            member.1@,
        ),
    decreases entries.len(),
{
    let changed = entries.update(index, member);
    let rest = entries.drop_first();
    lemma_members_unfold(entries);
    lemma_members_unfold(changed);
    if index == 0 {
        assert(changed.drop_first() =~= rest);
        assert(members_model(changed) =~= members_model(entries).insert(member.0@, member.1@));
    } else {
        assert(entries.take(index)[0] == entries[0]);
        assert(rest[index - 1] == entries[index]);
        assert forall|j: int| 0 <= j < index - 1 implies (#[trigger] rest.take(index - 1)[j]).0@
            != member.0@ by {
            assert(rest.take(index - 1)[j] == entries.take(index)[j + 1]);
        }
        lemma_replace_member(rest, index - 1, member);
        assert(changed.drop_first() =~= rest.update(index - 1, member));
        assert(members_model(changed) =~= members_model(entries).insert(member.0@, member.1@));
    }
}

impl Object {
    /// An object without members.
    pub fn new() -> (object: Object)
        ensures
            object@ == Map::<Seq<char>, ValueModel>::empty(),
    {
        Object { entries: Vec::new() }
    }

    /// Where the first member with the key `key` stands, if there is one.
    fn position(&self, key: &String) -> (found: Option<usize>)
        ensures
            match found {
                Some(index) => first_with_key(self.entries@, key@, index as int),
                None => key_absent(self.entries@, key@),
            },
    {
        let mut index: usize = 0;
        while index < self.entries.len()
            invariant
                index <= self.entries.len(),
                key_absent(self.entries@.take(index as int), key@),
            decreases self.entries.len() - index,
        {
            if self.entries[index].0 == *key {
                return Some(index);
            }
            assert forall|j: int| 0 <= j < index + 1 implies (#[trigger] self.entries@.take(
                index + 1,
            )[j]).0@ != key@ by {
                if j < index {
                    assert(self.entries@.take(index + 1)[j] == self.entries@.take(index as int)[j]);
                }
            }
            index += 1;
        }
        assert(self.entries@.take(index as int) =~= self.entries@);
        None
    }

    /// Puts `value` under `key`, in place of the value that was there, if
    /// any.
    pub fn insert(&mut self, key: String, value: Value)
        ensures
            final(self)@ == old(self)@.insert(key@, value@),
    {
        match self.position(&key) {
            Some(index) => {
                proof {
                    lemma_replace_member(self.entries@, index as int, (key, value));
                }
                self.entries.set(index, (key, value));
            },
            None => {
                proof {
                    lemma_push_member(self.entries@, (key, value));
                }
                self.entries.push((key, value));
            },
        }
    }

    /// The value under `key`, if there is one.
    pub fn get(&self, key: &str) -> (found: Option<&Value>)
        ensures
            match found {
                Some(value) => self@.contains_key(key@) && self@[key@] == value@,
                None => !self@.contains_key(key@),
            },
    {
        let owned = key.to_owned();
        match self.position(&owned) {
            Some(index) => {
                proof {
                    lemma_first_member(self.entries@, key@, index as int);
                }
                Some(&self.entries[index].1)
            },
            None => {
                proof {
                    lemma_absent_key(self.entries@, key@);
                }
                None
            },
        }
    }
}

impl Object {
    /// Whether every member of `self` is a member of `other`, under the same
    /// key and with an equal value.
    fn included_in(&self, other: &Object) -> (r: bool)
        ensures
            r == self@.submap_of(other@),
        decreases self, 0nat,
    {
        let mut index: usize = 0;
        while index < self.entries.len()
            invariant
                index <= self.entries.len(),
                forall|j: int|
                    0 <= j < index ==> {
                        let key = (#[trigger] self.entries@[j]).0@;
                        other@.contains_key(key) && self@[key] == other@[key]
                    },
            decreases self.entries.len() - index,
        {
            let key = &self.entries[index].0;
            let same = match (self.position(key), other.position(key)) {
                (Some(here), Some(there)) => {
                    proof {
                        lemma_first_member(self.entries@, key@, here as int);
                        lemma_first_member(other.entries@, key@, there as int);
                    }
                    self.entries[here].1.same_as(&other.entries[there].1)
                },
                (Some(here), None) => {
                    proof {
                        lemma_first_member(self.entries@, key@, here as int);
                        lemma_absent_key(other.entries@, key@);
                    }
                    false
                },
                (None, _) => false,
            };
            if !same {
                return false;
            }
            index += 1;
        }
        assert forall|key: Seq<char>| #[trigger]
            self@.dom().contains(key) implies other@.dom().contains(key) && self@[key]
            == other@[key] by {
            let j = lemma_key_has_member(self.entries@, key);
            assert(self.entries@[j].0@ == key);
        }
        true
    }

    /// Whether every key of `self` is a key of `other`.
    fn keys_within(&self, other: &Object) -> (r: bool)
        ensures
            r == self@.dom().subset_of(other@.dom()),
    {
        let mut index: usize = 0;
        while index < self.entries.len()
            invariant
                index <= self.entries.len(),
                forall|j: int|
                    0 <= j < index ==> other@.contains_key((#[trigger] self.entries@[j]).0@),
            decreases self.entries.len() - index,
        {
            let key = &self.entries[index].0;
            match other.position(key) {
                Some(there) => {
                    proof {
                        lemma_first_member(other.entries@, key@, there as int);
                    }
                },
                None => {
                    proof {
                        lemma_absent_key(other.entries@, key@);
                        lemma_key_of_member(self.entries@, index as int);
                    }
                    return false;
                },
            }
            index += 1;
        }
        assert forall|key: Seq<char>| #[trigger]
            self@.dom().contains(key) implies other@.dom().contains(key) by {
            let j = lemma_key_has_member(self.entries@, key);
            assert(self.entries@[j].0@ == key);
        }
        true
    }

    /// Whether both objects have the same keys, with equal values under each.
    fn same_as(&self, other: &Object) -> (r: bool)
        ensures
            r == (self@ == other@),
        decreases self, 1nat,
    {
        let same = self.included_in(other) && other.keys_within(self);
        proof {
            if same {
                assert(self@.dom() =~= other@.dom());
                assert(self@ =~= other@);
            }
        }
        same
    }
}

/// Whether two lists of values have the same length and equal values at each
/// place.
fn same_items(left: &Vec<Value>, right: &Vec<Value>) -> (r: bool)
    ensures
        r == (items_model(left@) == items_model(right@)),
    decreases left, 0nat,
{
    if left.len() != right.len() {
        assert(items_model(left@).len() != items_model(right@).len());
        return false;
    }
    let mut index: usize = 0;
    while index < left.len()
        invariant
            index <= left.len(),
            left.len() == right.len(),
            forall|j: int| 0 <= j < index ==> (#[trigger] left@[j])@ == right@[j]@,
        decreases left.len() - index,
    {
        if !left[index].same_as(&right[index]) {
            assert(items_model(left@)[index as int] == left@[index as int]@);
            assert(items_model(right@)[index as int] == right@[index as int]@);
            return false;
        }
        index += 1;
    }
    assert(items_model(left@) =~= items_model(right@));
    true
}

impl Value {
    /// Structural equality: the same kind and equal contents, arrays place
    /// by place and objects key by key.
    fn same_as(&self, other: &Value) -> (r: bool)
        ensures
            r == (self@ == other@),
        decreases self, 0nat,
    {
        match (self, other) {
            (Value::Null, Value::Null) => true,
            (Value::Bool(a), Value::Bool(b)) => *a == *b,
            (Value::Number(a), Value::Number(b)) => *a == *b,
            (Value::String(a), Value::String(b)) => *a == *b,
            (Value::Array(a), Value::Array(b)) => same_items(a, b),
            (Value::Object(a), Value::Object(b)) => a.same_as(b),
            _ => false,
        }
    }
}

impl PartialEq for Object {
    fn eq(&self, other: &Object) -> (r: bool) {
        self.same_as(other)
    }
}

impl PartialEqSpecImpl for Object {
    open spec fn obeys_eq_spec() -> bool {
        true
    }

    open spec fn eq_spec(&self, other: &Object) -> bool {
        self@ == other@
    }
}

impl PartialEq for Value {
    fn eq(&self, other: &Value) -> (r: bool) {
        self.same_as(other)
    }
}

impl PartialEqSpecImpl for Value {
    open spec fn obeys_eq_spec() -> bool {
        true
    }

    open spec fn eq_spec(&self, other: &Value) -> bool {
        self@ == other@
    }
}

/// Lists of members with the same keys and equal values, place by place,
/// stand for the same map.
proof fn lemma_same_members(left: Seq<(String, Value)>, right: Seq<(String, Value)>)
    requires
        left.len() == right.len(),
        forall|j: int|
            0 <= j < left.len() ==> (#[trigger] left[j]).0@ == right[j].0@ && left[j].1@
                == right[j].1@,
    ensures
        members_model(left) == members_model(right),
    decreases left.len(),
{
    if left.len() > 0 {
        lemma_members_unfold(left);
        lemma_members_unfold(right);
        let left_rest = left.drop_first();
        let right_rest = right.drop_first();
        assert forall|j: int| 0 <= j < left_rest.len() implies (#[trigger] left_rest[j]).0@
            == right_rest[j].0@ && left_rest[j].1@ == right_rest[j].1@ by {
            assert(left_rest[j] == left[j + 1]);
            assert(right_rest[j] == right[j + 1]);
        }
        lemma_same_members(left_rest, right_rest);
        assert(left[0].0@ == right[0].0@);
    }
}

/// A copy of each value of a list, in the same order.
fn copy_items(items: &Vec<Value>) -> (copy: Vec<Value>)
    ensures
        items_model(copy@) == items_model(items@),
    decreases items, 0nat,
{
    let mut copy: Vec<Value> = Vec::new();
    let mut index: usize = 0;
    while index < items.len()
        invariant
            index <= items.len(),
            copy@.len() == index,
            forall|j: int| 0 <= j < index ==> (#[trigger] copy@[j])@ == items@[j]@,
        decreases items.len() - index,
    {
        copy.push(items[index].copy());
        index += 1;
    }
    assert(items_model(copy@) =~= items_model(items@));
    copy
}

impl Object {
    /// A copy with the same keys and equal values.
    fn copy(&self) -> (copy: Object)
        ensures
            copy@ == self@,
        decreases self, 0nat,
    {
        let mut entries: Vec<(String, Value)> = Vec::new();
        let mut index: usize = 0;
        while index < self.entries.len()
            invariant
                index <= self.entries.len(),
                entries@.len() == index,
                forall|j: int|
                    0 <= j < index ==> (#[trigger] entries@[j]).0@ == self.entries@[j].0@
                        && entries@[j].1@ == self.entries@[j].1@,
            decreases self.entries.len() - index,
        {
            let key = self.entries[index].0.clone();
            let value = self.entries[index].1.copy();
            entries.push((key, value));
            index += 1;
        }
        proof {
            lemma_same_members(entries@, self.entries@);
        }
        Object { entries }
    }
}

impl Value {
    /// A copy that equals the value.
    fn copy(&self) -> (copy: Value)
        ensures
            copy@ == self@,
        decreases self, 0nat,
    {
        match self {
            Value::Null => Value::Null,
            Value::Bool(b) => Value::Bool(*b),
            Value::Number(n) => Value::Number(*n),
            Value::String(s) => Value::String(s.clone()),
            Value::Array(items) => Value::Array(copy_items(items)),
            Value::Object(members) => Value::Object(members.copy()),
        }
    }
}

impl Clone for Object {
    fn clone(&self) -> (copy: Object)
        ensures
            copy@ == self@,
    {
        self.copy()
    }
}

impl Clone for Value {
    fn clone(&self) -> (copy: Value)
        ensures
            copy@ == self@,
    {
        self.copy()
    }
}

} // verus!
