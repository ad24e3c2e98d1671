//! A configuration document as a tree of plain values, and how the fields of
//! the configuration are read out of it.
//!
//! The schema is closed: an object may hold the keys that the schema names
//! for it and no others. Where an object holds a key twice, the later member
//! counts.

use crate::string_set::{first_occurrences, string_set_from_vec, string_set_items, views};
use biome_deserialize::StringSet;
use vstd::prelude::*;

verus! {

/// One value of a document.
#[derive(Debug, PartialEq, Eq)]
pub enum Value {
    Null,
    Bool(bool),
    /// A number that is a non-negative integer below 2^64.
    Number(u64),
    /// Any other number.
    Fraction,
    Text(String),
    List(Vec<Value>),
    Object(Vec<Member>),
}

/// One member of an object.
#[derive(Debug, PartialEq, Eq)]
pub struct Member {
    pub key: String,
    pub value: Value,
}

/// Why a document is no configuration.
#[derive(Debug, PartialEq, Eq)]
pub enum SchemaError {
    /// An object holds a key that the schema does not name for it.
    UnknownKey { key: String },
    /// The value under `key` is of another type than the schema says. The
    /// empty key stands for the document itself.
    WrongType { key: String },
    /// The text under `key` is none of the names the schema lists for it.
    UnknownVariant { key: String, value: String },
    /// The number under `key` is outside the range of the field.
    OutOfRange { key: String },
}

/// What a [`SchemaError`] value stands for.
#[verifier::ext_equal]
pub enum SchemaErrorView {
    UnknownKey { key: Seq<char> },
    WrongType { key: Seq<char> },
    UnknownVariant { key: Seq<char>, value: Seq<char> },
    OutOfRange { key: Seq<char> },
}

impl View for SchemaError {
    type V = SchemaErrorView;

    open spec fn view(&self) -> SchemaErrorView {
        match *self {
            SchemaError::UnknownKey { key } => SchemaErrorView::UnknownKey { key: key@ },
            SchemaError::WrongType { key } => SchemaErrorView::WrongType { key: key@ },
            SchemaError::UnknownVariant { key, value } => SchemaErrorView::UnknownVariant {
                key: key@,
                value: value@,
            },
            SchemaError::OutOfRange { key } => SchemaErrorView::OutOfRange { key: key@ },
        }
    }
}

/// The key of the first member at position `from` or later whose key is not
/// among `known`.
pub open spec fn first_unknown(members: Seq<Member>, known: Seq<Seq<char>>, from: int) -> Option<
    Seq<char>,
>
    decreases members.len() - from,
{
    if from < 0 || from >= members.len() {
        None
    } else if !known.contains(members[from].key@) {
        Some(members[from].key@)
    } else {
        first_unknown(members, known, from + 1)
    }
}

/// The closed schema: an object with a key that is not among `known` is
/// refused, with the first such key.
pub open spec fn keys_checked(members: Seq<Member>, known: Seq<Seq<char>>) -> Result<
    (),
    SchemaErrorView,
> {
    match first_unknown(members, known, 0) {
        Some(key) => Err(SchemaErrorView::UnknownKey { key }),
        None => Ok(()),
    }
}

/// The value under `key`: that of the last member with this key.
pub open spec fn lookup(members: Seq<Member>, key: Seq<char>) -> Option<Value>
    decreases members.len(),
{
    if members.len() == 0 {
        None
    } else if members.last().key@ == key {
        Some(members.last().value)
    } else {
        lookup(members.drop_last(), key)
    }
}

/// The truth value under `key`, if there is a member with this key.
pub open spec fn bool_at(members: Seq<Member>, key: Seq<char>) -> Result<
    Option<bool>,
    SchemaErrorView,
> {
    match lookup(members, key) {
        None => Ok(None),
        Some(Value::Bool(b)) => Ok(Some(b)),
        Some(_) => Err(SchemaErrorView::WrongType { key }),
    }
}

/// The number under `key`, if there is a member with this key. It is at most
/// `max`.
pub open spec fn number_at(members: Seq<Member>, key: Seq<char>, max: u64) -> Result<
    Option<u64>,
    SchemaErrorView,
> {
    match lookup(members, key) {
        None => Ok(None),
        Some(Value::Number(n)) => if n <= max {
            Ok(Some(n))
        } else {
            Err(SchemaErrorView::OutOfRange { key })
        },
        Some(_) => Err(SchemaErrorView::WrongType { key }),
    }
}

/// A number narrowed to eight bits.
pub open spec fn narrowed_u8(number: Option<u64>) -> Option<u8> {
    match number {
        Some(n) => Some(n as u8),
        None => None,
    }
}

/// A number narrowed to sixteen bits.
pub open spec fn narrowed_u16(number: Option<u64>) -> Option<u16> {
    match number {
        Some(n) => Some(n as u16),
        None => None,
    }
}

/// The number under `key`, if there is a member with this key. It is at most
/// 255.
pub open spec fn u8_at(
    members: Seq<Member>,
    key: Seq<char>,
) -> Result<Option<u8>, SchemaErrorView> {
    match number_at(members, key, 255) {
        Ok(n) => Ok(narrowed_u8(n)),
        Err(e) => Err(e),
    }
}

/// The number under `key`, if there is a member with this key. It is at most
/// 65 535.
pub open spec fn u16_at(members: Seq<Member>, key: Seq<char>) -> Result<
    Option<u16>,
    SchemaErrorView,
> {
    match number_at(members, key, 65535) {
        Ok(n) => Ok(narrowed_u16(n)),
        Err(e) => Err(e),
    }
}

/// The text under `key`, if there is a member with this key.
pub open spec fn text_at(members: Seq<Member>, key: Seq<char>) -> Result<
    Option<Seq<char>>,
    SchemaErrorView,
> {
    match lookup(members, key) {
        None => Ok(None),
        Some(Value::Text(t)) => Ok(Some(t@)),
        Some(_) => Err(SchemaErrorView::WrongType { key }),
    }
}

/// The members of the object under `key`, if there is a member with this key.
pub open spec fn object_at(members: Seq<Member>, key: Seq<char>) -> Result<
    Option<Seq<Member>>,
    SchemaErrorView,
> {
    match lookup(members, key) {
        None => Ok(None),
        Some(Value::Object(inner)) => Ok(Some(inner@)),
        Some(_) => Err(SchemaErrorView::WrongType { key }),
    }
}

/// The items of the list under `key`, if there is a member with this key.
pub open spec fn list_at(members: Seq<Member>, key: Seq<char>) -> Result<
    Option<Seq<Value>>,
    SchemaErrorView,
> {
    match lookup(members, key) {
        None => Ok(None),
        Some(Value::List(items)) => Ok(Some(items@)),
        Some(_) => Err(SchemaErrorView::WrongType { key }),
    }
}

/// The texts that the values are, or nothing where one of them is no text.
pub open spec fn texts_of(items: Seq<Value>) -> Option<Seq<Seq<char>>>
    decreases items.len(),
{
    if items.len() == 0 {
        Some(Seq::empty())
    } else {
        match (texts_of(items.drop_last()), items.last()) {
            (Some(front), Value::Text(t)) => Some(front.push(t@)),
            _ => None,
        }
    }
}

/// The set of strings under `key`, if there is a member with this key: the
/// texts of a list, each one once and in the order of its first occurrence.
pub open spec fn strings_at(members: Seq<Member>, key: Seq<char>) -> Result<
    Option<Seq<Seq<char>>>,
    SchemaErrorView,
> {
    match list_at(members, key) {
        Err(e) => Err(e),
        Ok(None) => Ok(None),
        Ok(Some(items)) => match texts_of(items) {
            Some(texts) => Ok(Some(first_occurrences(texts))),
            None => Err(SchemaErrorView::WrongType { key }),
        },
    }
}

/// Whether `text` reads `literal`.
pub fn text_is(text: &String, literal: &str) -> (r: bool)
    ensures
        r == (text@ == literal@),
{
    let other = literal.to_owned();
    *text == other
}

/// Whether `key` is among `known`.
fn is_known(known: &Vec<String>, key: &String) -> (r: bool)
    ensures
        r == views(known@).contains(key@),
{
    let mut i: usize = 0;
    while i < known.len()
        invariant
            i <= known@.len(),
            forall|j: int| 0 <= j < i ==> views(known@)[j] != key@,
        decreases known@.len() - i,
    {
        if known[i] == *key {
            assert(views(known@)[i as int] == key@);
            return true;
        }
        i += 1;
    }
    false
}

/// Holds an object to the closed schema.
pub fn check_keys(members: &Vec<Member>, known: &Vec<String>) -> (r: Result<(), SchemaError>)
    ensures
        match r {
            Ok(_) => keys_checked(members@, views(known@)) is Ok,
            Err(e) => keys_checked(members@, views(known@)) == Err::<(), SchemaErrorView>(e@),
        },
{
    let mut i: usize = 0;
    while i < members.len()
        invariant
            i <= members@.len(),
            first_unknown(members@, views(known@), 0) == first_unknown(
                members@,
                views(known@),
                i as int,
            ),
        decreases members@.len() - i,
    {
        if !is_known(known, &members[i].key) {
            return Err(SchemaError::UnknownKey { key: members[i].key.clone() });
        }
        i += 1;
    }
    Ok(())
}

/// The value under `key`.
pub fn find<'a>(members: &'a Vec<Member>, key: &str) -> (r: Option<&'a Value>)
    ensures
        match r {
            Some(value) => lookup(members@, key@) == Some(*value),
            None => lookup(members@, key@) is None,
        },
{
    let wanted = key.to_owned();
    let mut i: usize = members.len();
    assert(members@.subrange(0, i as int) =~= members@);
    while i > 0
        invariant
            i <= members@.len(),
            wanted@ == key@,
            lookup(members@, key@) == lookup(members@.subrange(0, i as int), key@),
        decreases i,
    {
        i -= 1;
        let ghost upto = members@.subrange(0, i + 1);
        assert(upto.drop_last() =~= members@.subrange(0, i as int));
        assert(upto.last() == members@[i as int]);
        if members[i].key == wanted {
            return Some(&members[i].value);
        }
    }
    assert(members@.subrange(0, 0).len() == 0);
    None
}

/// Executable form of [`bool_at`].
pub fn read_bool(members: &Vec<Member>, key: &str) -> (r: Result<Option<bool>, SchemaError>)
    ensures
        match r {
            Ok(v) => bool_at(members@, key@) == Ok::<Option<bool>, SchemaErrorView>(v),
            Err(e) => bool_at(members@, key@) == Err::<Option<bool>, SchemaErrorView>(e@),
        },
{
    match find(members, key) {
        None => Ok(None),
        Some(Value::Bool(b)) => Ok(Some(*b)),
        Some(_) => Err(SchemaError::WrongType { key: key.to_owned() }),
    }
}

/// Executable form of [`number_at`].
pub fn read_number(members: &Vec<Member>, key: &str, max: u64) -> (r: Result<
    Option<u64>,
    SchemaError,
>)
    ensures
        match r {
            Ok(v) => number_at(members@, key@, max) == Ok::<Option<u64>, SchemaErrorView>(v),
            Err(e) => number_at(members@, key@, max) == Err::<Option<u64>, SchemaErrorView>(e@),
        },
{
    match find(members, key) {
        None => Ok(None),
        Some(Value::Number(n)) => {
            if *n <= max {
                Ok(Some(*n))
            } else {
                Err(SchemaError::OutOfRange { key: key.to_owned() })
            }
        },
        Some(_) => Err(SchemaError::WrongType { key: key.to_owned() }),
    }
}

/// Executable form of [`u8_at`].
pub fn read_u8(members: &Vec<Member>, key: &str) -> (r: Result<Option<u8>, SchemaError>)
    ensures
        match r {
            Ok(v) => u8_at(members@, key@) == Ok::<Option<u8>, SchemaErrorView>(v),
            Err(e) => u8_at(members@, key@) == Err::<Option<u8>, SchemaErrorView>(e@),
        },
{
    match read_number(members, key, 255) {
        Ok(Some(n)) => Ok(Some(n as u8)),
        Ok(None) => Ok(None),
        Err(e) => Err(e),
    }
}

/// Executable form of [`u16_at`].
pub fn read_u16(members: &Vec<Member>, key: &str) -> (r: Result<Option<u16>, SchemaError>)
    ensures
        match r {
            Ok(v) => u16_at(members@, key@) == Ok::<Option<u16>, SchemaErrorView>(v),
            Err(e) => u16_at(members@, key@) == Err::<Option<u16>, SchemaErrorView>(e@),
        },
{
    match read_number(members, key, 65535) {
        Ok(Some(n)) => Ok(Some(n as u16)),
        Ok(None) => Ok(None),
        Err(e) => Err(e),
    }
}

/// Executable form of [`text_at`].
pub fn read_text(members: &Vec<Member>, key: &str) -> (r: Result<Option<String>, SchemaError>)
    ensures
        match r {
            Ok(Some(t)) => text_at(members@, key@) == Ok::<Option<Seq<char>>, SchemaErrorView>(
                Some(t@),
            ),
            Ok(None) => text_at(members@, key@) == Ok::<Option<Seq<char>>, SchemaErrorView>(None),
            Err(e) => text_at(members@, key@) == Err::<Option<Seq<char>>, SchemaErrorView>(e@),
        },
{
    match find(members, key) {
        None => Ok(None),
        Some(Value::Text(t)) => Ok(Some(t.clone())),
        Some(_) => Err(SchemaError::WrongType { key: key.to_owned() }),
    }
}

/// Executable form of [`object_at`].
pub fn read_object<'a>(members: &'a Vec<Member>, key: &str) -> (r: Result<
    Option<&'a Vec<Member>>,
    SchemaError,
>)
    ensures
        match r {
            Ok(Some(inner)) => object_at(members@, key@) == Ok::<
                Option<Seq<Member>>,
                SchemaErrorView,
            >(Some(inner@)),
            Ok(None) => object_at(members@, key@) == Ok::<Option<Seq<Member>>, SchemaErrorView>(
                None,
            ),
            Err(e) => object_at(members@, key@) == Err::<Option<Seq<Member>>, SchemaErrorView>(e@),
        },
{
    match find(members, key) {
        None => Ok(None),
        Some(Value::Object(inner)) => Ok(Some(inner)),
        Some(_) => Err(SchemaError::WrongType { key: key.to_owned() }),
    }
}

/// Executable form of [`list_at`].
pub fn read_list<'a>(members: &'a Vec<Member>, key: &str) -> (r: Result<
    Option<&'a Vec<Value>>,
    SchemaError,
>)
    ensures
        match r {
            Ok(Some(items)) => list_at(members@, key@) == Ok::<Option<Seq<Value>>, SchemaErrorView>(
                Some(items@),
            ),
            Ok(None) => list_at(members@, key@) == Ok::<Option<Seq<Value>>, SchemaErrorView>(None),
            Err(e) => list_at(members@, key@) == Err::<Option<Seq<Value>>, SchemaErrorView>(e@),
        },
{
    match find(members, key) {
        None => Ok(None),
        Some(Value::List(items)) => Ok(Some(items)),
        Some(_) => Err(SchemaError::WrongType { key: key.to_owned() }),
    }
}

/// Executable form of [`strings_at`].
pub fn read_strings(members: &Vec<Member>, key: &str) -> (r: Result<Option<StringSet>, SchemaError>)
    ensures
        match r {
            Ok(Some(set)) => strings_at(members@, key@) == Ok::<
                Option<Seq<Seq<char>>>,
                SchemaErrorView,
            >(Some(string_set_items(set))),
            Ok(None) => strings_at(members@, key@) == Ok::<Option<Seq<Seq<char>>>, SchemaErrorView>(
                None,
            ),
            Err(e) => strings_at(members@, key@) == Err::<Option<Seq<Seq<char>>>, SchemaErrorView>(
                e@,
            ),
        },
{
    let items = match read_list(members, key) {
        Err(e) => {
            return Err(e);
        },
        Ok(None) => {
            return Ok(None);
        },
        Ok(Some(items)) => items,
    };
    let mut texts: Vec<String> = Vec::new();
    let mut i: usize = 0;
    assert(items@.subrange(0, 0) =~= Seq::<Value>::empty());
    while i < items.len()
        invariant
            i <= items@.len(),
            list_at(members@, key@) == Ok::<Option<Seq<Value>>, SchemaErrorView>(Some(items@)),
            texts_of(items@.subrange(0, i as int)) == Some(views(texts@)),
        decreases items@.len() - i,
    {
        let ghost upto = items@.subrange(0, i + 1);
        assert(upto.drop_last() =~= items@.subrange(0, i as int));
        assert(upto.last() == items@[i as int]);
        match &items[i] {
            Value::Text(t) => {
                let ghost before = texts@;
                texts.push(t.clone());
                assert(views(texts@) =~= views(before).push(t@));
            },
            _ => {
                proof {
                    lemma_texts_of_prefix(items@, i + 1);
                }
                return Err(SchemaError::WrongType { key: key.to_owned() });
            },
        }
        i += 1;
    }
    assert(items@.subrange(0, i as int) =~= items@);
    Ok(Some(string_set_from_vec(texts)))
}

/// Where the first values are not all texts, the values are not all texts.
proof fn lemma_texts_of_prefix(items: Seq<Value>, upto: int)
    requires
        0 <= upto <= items.len(),
        texts_of(items.subrange(0, upto)) is None,
    ensures
        texts_of(items) is None,
    decreases items.len() - upto,
{
    if upto < items.len() {
        let next = items.subrange(0, upto + 1);
        assert(next.drop_last() =~= items.subrange(0, upto));
        lemma_texts_of_prefix(items, upto + 1);
    } else {
        assert(items.subrange(0, upto) =~= items);
    }
}

/// The closed schema holds at every object: a member whose key is not among
/// `known` has the object refused for an unknown key, and for this key where
/// no member before it has such a key.
pub proof fn law_unknown_key_is_refused(members: Seq<Member>, known: Seq<Seq<char>>, at: int)
    requires
        0 <= at < members.len(),
        !known.contains(members[at].key@),
    ensures
        keys_checked(members, known) is Err,
        keys_checked(members, known)->Err_0 is UnknownKey,
        (forall|i: int| 0 <= i < at ==> known.contains((#[trigger] members[i]).key@))
            ==> keys_checked(members, known) == Err::<(), SchemaErrorView>(
            SchemaErrorView::UnknownKey { key: members[at].key@ },
        ),
{
    lemma_first_unknown(members, known, 0, at);
}

/// A member with an unknown key at `at` makes for a first unknown key from
/// every position up to `at`.
proof fn lemma_first_unknown(members: Seq<Member>, known: Seq<Seq<char>>, from: int, at: int)
    requires
        0 <= from <= at < members.len(),
        !known.contains(members[at].key@),
    ensures
        first_unknown(members, known, from) is Some,
        (forall|i: int| from <= i < at ==> known.contains((#[trigger] members[i]).key@))
            ==> first_unknown(members, known, from) == Some(members[at].key@),
    decreases at - from,
{
    if from < at {
        lemma_first_unknown(members, known, from + 1, at);
        if forall|i: int| from <= i < at ==> known.contains((#[trigger] members[i]).key@) {
            assert(known.contains(members[from].key@));
        }
    }
}

} // verus!
