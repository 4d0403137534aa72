//! JSON documents as plain data.

use vstd::prelude::*;
use crate::json_text::json_parsed;
use crate::text::same_text;

verus! {

/// A JSON document, as the mathematical object that contracts speak of.
pub enum JsonModel {
    Null,
    Bool(bool),
    Integer(int),
    Decimal(Seq<char>),
    Text(Seq<char>),
    Array(Seq<JsonModel>),
    Object(Map<Seq<char>, JsonModel>),
}

/// One `"key": value` entry of a JSON object.
#[derive(Debug, PartialEq, Eq)]
pub struct Member {
    pub key: String,
    pub value: JsonValue,
}

/// A number that is not an integer. The library never computes with one:
/// it keeps the digits as they were read and writes the same number back.
/// One comes into being only where JSON text is read, so its digits are
/// always digits that read back as this very number.
#[derive(Debug, PartialEq, Eq)]
pub struct Decimal {
    pub(crate) digits: String,
}

impl View for Decimal {
    type V = Seq<char>;

    closed spec fn view(&self) -> Seq<char> {
        self.digits@
    }
}

/// Whether digits are those of a decimal: read as JSON text, they are the
/// decimal with exactly these digits.
pub open spec fn reads_back(digits: Seq<char>) -> bool {
    json_parsed(digits) == Some(JsonModel::Decimal(digits))
}

impl Decimal {
    #[verifier::type_invariant]
    spec fn well_formed(self) -> bool {
        reads_back(self.digits@)
    }

    /// The digits of the number, as JSON writes them.
    pub fn digits(&self) -> (digits: &str)
        ensures
            digits@ == self@,
            reads_back(digits@),
    {
        proof {
            use_type_invariant(self);
        }
        self.digits.as_str()
    }
}

/// A JSON document held in memory.
#[derive(Debug, PartialEq, Eq)]
pub enum JsonValue {
    Null,
    Bool(bool),
    Int(i64),
    UInt(u64),
    Decimal(Decimal),
    Text(String),
    Array(Vec<JsonValue>),
    Object(Vec<Member>),
}

impl JsonModel {
    /// The value under `key`, where this document is an object that has the key.
    pub open spec fn member(self, key: Seq<char>) -> Option<JsonModel> {
        match self {
            JsonModel::Object(fields) => if fields.contains_key(key) {
                Some(fields[key])
            } else {
                None
            },
            _ => None,
        }
    }

    /// Whether this document is an object with an entry under `key`.
    pub open spec fn has(self, key: Seq<char>) -> bool {
        self.member(key) is Some
    }

    /// The string this document is, if it is one.
    pub open spec fn text(self) -> Option<Seq<char>> {
        match self {
            JsonModel::Text(t) => Some(t),
            _ => None,
        }
    }

    /// The integer this document is, if it is one.
    pub open spec fn integer(self) -> Option<int> {
        match self {
            JsonModel::Integer(i) => Some(i),
            _ => None,
        }
    }

    /// The truth value this document is, if it is one.
    pub open spec fn boolean(self) -> Option<bool> {
        match self {
            JsonModel::Bool(b) => Some(b),
            _ => None,
        }
    }

    /// The items of this document, if it is an array.
    pub open spec fn items(self) -> Option<Seq<JsonModel>> {
        match self {
            JsonModel::Array(items) => Some(items),
            _ => None,
        }
    }
}

impl JsonValue {
    /// The document that this value denotes.
    pub open spec fn model(self) -> JsonModel
        decreases self,
    {
        match self {
            JsonValue::Null => JsonModel::Null,
            JsonValue::Bool(b) => JsonModel::Bool(b),
            JsonValue::Int(i) => JsonModel::Integer(i as int),
            JsonValue::UInt(u) => JsonModel::Integer(u as int),
            JsonValue::Decimal(d) => JsonModel::Decimal(d@),
            JsonValue::Text(s) => JsonModel::Text(s@),
            JsonValue::Array(items) => JsonModel::Array(
                Seq::new(
                    items@.len(),
                    |i: int|
                        if 0 <= i < items@.len() {
                            items@[i].model()
                        } else {
                            JsonModel::Null
                        },
                ),
            ),
            JsonValue::Object(members) => JsonModel::Object(
                members_model(members@, members@.len()),
            ),
        }
    }
}

/// The map that the first `n` members of an object denote; a later entry
/// overrides an earlier one with the same key.
pub open spec fn members_model(members: Seq<Member>, n: nat) -> Map<Seq<char>, JsonModel>
    decreases members, n,
{
    if n == 0 || n > members.len() {
        Map::empty()
    } else {
        members_model(members, (n - 1) as nat).insert(
            members[n - 1].key@,
            members[n - 1].value.model(),
        )
    }
}

/// The map that the members of an object denote.
pub open spec fn object_model(members: Seq<Member>) -> Map<Seq<char>, JsonModel> {
    members_model(members, members.len())
}

/// The documents that the items of an array denote.
pub open spec fn items_model(items: Seq<JsonValue>) -> Seq<JsonModel> {
    Seq::new(items.len(), |i: int| items[i].model())
}

/// What the first `n` members denote depends on those members alone, and on
/// each only through its key and the document of its value.
pub proof fn lemma_members_model_agree(a: Seq<Member>, b: Seq<Member>, n: nat)
    requires
        n <= a.len(),
        n <= b.len(),
        forall|j: int| 0 <= j < n ==> a[j].key@ == b[j].key@ && a[j].value@ == b[j].value@,
    ensures
        members_model(a, n) == members_model(b, n),
    decreases n,
{
    if n > 0 {
        lemma_members_model_agree(a, b, (n - 1) as nat);
    }
}

/// One more member at the end adds its entry to the map.
pub proof fn lemma_object_model_push(members: Seq<Member>, last: Member)
    ensures
        object_model(members.push(last)) == object_model(members).insert(last.key@, last.value@),
{
    lemma_members_model_agree(members.push(last), members, members.len());
}

/// A key is in the map of the first `n` members exactly when one of them
/// has it, and the map then holds the value of the last that has it.
pub proof fn lemma_members_model_lookup(members: Seq<Member>, n: nat, key: Seq<char>)
    requires
        n <= members.len(),
    ensures
        members_model(members, n).contains_key(key) <==> exists|j: int|
            0 <= j < n && #[trigger] members[j].key@ == key,
        forall|j: int|
            0 <= j < n && #[trigger] members[j].key@ == key && (forall|k: int|
                j < k < n ==> #[trigger] members[k].key@ != key) ==> members_model(members, n)[key]
                == members[j].value@,
    decreases n,
{
    if n > 0 {
        lemma_members_model_lookup(members, (n - 1) as nat, key);
        let before = members_model(members, (n - 1) as nat);
        if members[n - 1].key@ == key {
        } else {
            assert forall|j: int|
                0 <= j < n && #[trigger] members[j].key@ == key && (forall|k: int|
                    j < k < n ==> #[trigger] members[k].key@ != key) implies members_model(
                members,
                n,
            )[key] == members[j].value@ by {
                assert(j < n - 1);
                assert(forall|k: int| j < k < n - 1 ==> #[trigger] members[k].key@ != key);
            }
        }
    }
}

impl View for JsonValue {
    type V = JsonModel;

    open spec fn view(&self) -> JsonModel {
        self.model()
    }
}

impl JsonValue {
    /// A string document.
    pub fn text(text: &str) -> (v: JsonValue)
        ensures
            v@ == JsonModel::Text(text@),
    {
        JsonValue::Text(text.to_owned())
    }

    /// The object without entries.
    pub fn empty_object() -> (v: JsonValue)
        ensures
            v@ == JsonModel::Object(Map::empty()),
    {
        let members: Vec<Member> = Vec::new();
        assert(object_model(members@) == Map::<Seq<char>, JsonModel>::empty());
        JsonValue::Object(members)
    }

    /// An object with the given entries; of several with one key, the last
    /// counts.
    pub fn object(members: Vec<Member>) -> (v: JsonValue)
        ensures
            v@ == JsonModel::Object(object_model(members@)),
    {
        JsonValue::Object(members)
    }

    /// An array of the given items.
    pub fn array(items: Vec<JsonValue>) -> (v: JsonValue)
        ensures
            v@ == JsonModel::Array(items_model(items@)),
    {
        assert(JsonValue::Array(items)@.items()->0 =~= items_model(items@));
        JsonValue::Array(items)
    }

    /// The value under `key`, where this is an object that has the key; of
    /// several entries with the key, the last.
    pub fn get(&self, key: &str) -> (found: Option<&JsonValue>)
        ensures
            match found {
                Some(v) => self@.member(key@) == Some(v@),
                None => self@.member(key@) is None,
            },
    {
        match self {
            JsonValue::Object(members) => {
                let mut i: usize = members.len();
                while i > 0
                    invariant
                        i <= members.len(),
                        self == JsonValue::Object(*members),
                        forall|k: int| i <= k < members.len() ==> #[trigger] members@[k].key@ != key@,
                    decreases i,
                {
                    i -= 1;
                    if same_text(members[i].key.as_str(), key) {
                        proof {
                            lemma_members_model_lookup(members@, members@.len(), key@);
                        }
                        return Some(&members[i].value);
                    }
                }
                proof {
                    lemma_members_model_lookup(members@, members@.len(), key@);
                }
                None
            },
            _ => None,
        }
    }

    /// The string this value is, if it is one.
    pub fn as_text(&self) -> (text: Option<&str>)
        ensures
            match text {
                Some(t) => self@.text() == Some(t@),
                None => self@.text() is None,
            },
    {
        match self {
            JsonValue::Text(t) => Some(t.as_str()),
            _ => None,
        }
    }

    /// The integer this value is, if it is one that fits in `i64`.
    pub fn as_i64(&self) -> (number: Option<i64>)
        ensures
            match number {
                Some(i) => self@.integer() == Some(i as int),
                None => !(self@.integer() matches Some(i) && i64::MIN <= i <= i64::MAX),
            },
    {
        match self {
            JsonValue::Int(i) => Some(*i),
            JsonValue::UInt(u) => if *u <= 0x7fff_ffff_ffff_ffff {
                Some(*u as i64)
            } else {
                None
            },
            _ => None,
        }
    }

    /// The truth value this value is, if it is one.
    pub fn as_bool(&self) -> (b: Option<bool>)
        ensures
            b == self@.boolean(),
    {
        match self {
            JsonValue::Bool(b) => Some(*b),
            _ => None,
        }
    }

    /// The items of this value, if it is an array.
    pub fn as_array(&self) -> (items: Option<&Vec<JsonValue>>)
        ensures
            match items {
                Some(v) => self@.items() == Some(items_model(v@)),
                None => self@.items() is None,
            },
    {
        match self {
            JsonValue::Array(items) => {
                assert(self@.items()->0 =~= items_model(items@));
                Some(items)
            },
            _ => None,
        }
    }

    /// Whether this value is `null`.
    pub fn is_null(&self) -> (b: bool)
        ensures
            b == (self@ is Null),
    {
        match self {
            JsonValue::Null => true,
            _ => false,
        }
    }
}

impl Clone for Decimal {
    fn clone(&self) -> (copy: Decimal)
        ensures
            copy@ == self@,
    {
        proof {
            use_type_invariant(self);
        }
        Decimal { digits: self.digits.clone() }
    }
}

impl Clone for JsonValue {
    fn clone(&self) -> (copy: JsonValue)
        ensures
            copy@ == self@,
        decreases self,
    {
        match self {
            JsonValue::Null => JsonValue::Null,
            JsonValue::Bool(b) => JsonValue::Bool(*b),
            JsonValue::Int(i) => JsonValue::Int(*i),
            JsonValue::UInt(u) => JsonValue::UInt(*u),
            JsonValue::Decimal(d) => JsonValue::Decimal(d.clone()),
            JsonValue::Text(t) => JsonValue::Text(t.clone()),
            JsonValue::Array(items) => {
                let mut out: Vec<JsonValue> = Vec::new();
                let mut i: usize = 0;
                while i < items.len()
                    invariant
                        i <= items.len(),
                        out.len() == i,
                        forall|k: int|
                            0 <= k < items@.len() ==> decreases_to!(*self => #[trigger] items@[k]),
                        forall|j: int| 0 <= j < i ==> out@[j]@ == items@[j]@,
                    decreases items.len() - i,
                {
                    out.push(items[i].clone());
                    i += 1;
                }
                assert(items_model(out@) =~= items_model(items@));
                assert(JsonValue::Array(out)@.items()->0 =~= items_model(out@));
                assert(self@.items()->0 =~= items_model(items@));
                JsonValue::Array(out)
            },
            JsonValue::Object(members) => {
                let mut out: Vec<Member> = Vec::new();
                let mut i: usize = 0;
                while i < members.len()
                    invariant
                        i <= members.len(),
                        out.len() == i,
                        forall|k: int|
                            0 <= k < members@.len() ==> decreases_to!(*self => (#[trigger] members@[k]).value),
                        forall|j: int|
                            0 <= j < i ==> out@[j].key@ == members@[j].key@ && out@[j].value@
                                == members@[j].value@,
                    decreases members.len() - i,
                {
                    out.push(Member { key: members[i].key.clone(), value: members[i].value.clone() });
                    i += 1;
                }
                proof {
                    lemma_members_model_agree(out@, members@, members@.len());
                }
                JsonValue::Object(out)
            },
        }
    }
}

/// Appends an entry to the members of an object under construction.
pub fn put(members: &mut Vec<Member>, key: &str, value: JsonValue)
    ensures
        object_model(final(members)@) == object_model(old(members)@).insert(key@, value@),
{
    let member = Member { key: key.to_owned(), value };
    proof {
        lemma_object_model_push(members@, member);
    }
    members.push(member);
}

} // verus!
