//! JSON documents as trees of plain values.
//!
//! Text is turned into a tree by `serde_json`; everything that reads the
//! tree is verified here. A field of an object is looked up by its exact
//! name, and each reader says which of the three `ParseError`s it answers
//! with.

use vstd::prelude::*;
use vstd::string::*;
use serde_json::Value;
use crate::text::{optional_text, optional_texts, same_text, texts};

verus! {

/// A JSON document.
#[derive(Debug, PartialEq, Eq)]
pub enum Json {
    /// `null`
    Null,
    /// `true` or `false`
    Bool(bool),
    /// A number: its value where it is an integer from 0 to `u64::MAX`,
    /// `None` for a negative or fractional number.
    Number(Option<u64>),
    /// A string, unescaped.
    Text(String),
    /// An array, in document order.
    Array(Vec<Json>),
    /// An object: its members, in order. Where a name stands twice, the
    /// first member of that name is the one that is read.
    Object(Vec<Member>),
}

/// A member of a JSON object.
#[derive(Debug, PartialEq, Eq)]
pub struct Member {
    pub name: String,
    pub value: Json,
}

/// The mathematical value of a `Json`.
pub enum JsonTree {
    Null,
    Bool(bool),
    Number(Option<u64>),
    Text(Seq<char>),
    Array(Seq<JsonTree>),
    Object(Seq<(Seq<char>, JsonTree)>),
}

impl Json {
    /// The tree that this document holds.
    pub open spec fn tree(&self) -> JsonTree
        decreases self,
    {
        match self {
            Json::Null => JsonTree::Null,
            Json::Bool(b) => JsonTree::Bool(*b),
            Json::Number(n) => JsonTree::Number(*n),
            Json::Text(t) => JsonTree::Text(t@),
            Json::Array(items) => JsonTree::Array(
                Seq::new(
                    items.len() as nat,
                    |i: int|
                        if 0 <= i < items.len() {
                            items[i].tree()
                        } else {
                            JsonTree::Null
                        },
                ),
            ),
            Json::Object(members) => JsonTree::Object(
                Seq::new(
                    members.len() as nat,
                    |i: int|
                        if 0 <= i < members.len() {
                            (members[i].name@, members[i].value.tree())
                        } else {
                            (Seq::empty(), JsonTree::Null)
                        },
                ),
            ),
        }
    }
}

impl View for Json {
    type V = JsonTree;

    open spec fn view(&self) -> JsonTree {
        self.tree()
    }
}

/// Why a response body could not be decoded.
#[derive(Clone, Copy, Debug, PartialEq, Eq, Structural)]
pub enum ParseError {
    /// The text is not a JSON document.
    Malformed,
    /// A required field is absent from its object.
    MissingField,
    /// A value is present but not of the expected kind.
    TypeMismatch,
}

/// `serde_json::Value`, carried from the parser to the copy below and not
/// looked into.
#[verifier::external_type_specification]
#[verifier::external_body]
pub struct ExValue(serde_json::Value);

/// `serde_json::Error`, of which only its presence is read.
#[verifier::external_type_specification]
#[verifier::external_body]
pub struct ExError(serde_json::Error);

/// The document that `text` denotes, if it is well-formed JSON.
pub uninterp spec fn document_of(text: Seq<char>) -> Option<JsonTree>;

/// The tree that a `serde_json` value holds.
pub uninterp spec fn value_tree(value: Value) -> JsonTree;

/// Calls `serde_json::from_str` for a `serde_json::Value`. Trusted: the call
/// succeeds exactly on the texts that denote a document, and the value it
/// gives holds that document.
#[verifier::external_body]
fn value_from_text(text: &str) -> (r: Result<Value, serde_json::Error>)
    ensures
        match r {
            Ok(value) => document_of(text@) == Some(value_tree(value)),
            Err(_) => document_of(text@) is None,
        },
{
    serde_json::from_str::<Value>(text)
}

/// Copies a `serde_json::Value` into a `Json`, variant by variant. Trusted:
/// the copy holds the same tree; a number is kept as `Number::as_u64`
/// gives it, and the members of an object come in the order in which
/// `Map::iter` walks them.
#[verifier::external_body]
fn json_from_value(value: &Value) -> (json: Json)
    ensures
        json@ == value_tree(*value),
{
    match value {
        Value::Null => Json::Null,
        Value::Bool(b) => Json::Bool(*b),
        Value::Number(n) => Json::Number(n.as_u64()),
        Value::String(s) => Json::Text(s.clone()),
        Value::Array(a) => Json::Array(a.iter().map(json_from_value).collect()),
        Value::Object(m) => Json::Object(
            m.iter().map(|(k, v)| Member { name: k.clone(), value: json_from_value(v) }).collect(),
        ),
    }
}

/// Reads `text` as a JSON document.
pub fn parse_document(text: &str) -> (r: Result<Json, ParseError>)
    ensures
        match r {
            Ok(json) => document_of(text@) == Some(json@),
            Err(e) => e == ParseError::Malformed && document_of(text@) is None,
        },
{
    match value_from_text(text) {
        Ok(value) => Ok(json_from_value(&value)),
        Err(_) => Err(ParseError::Malformed),
    }
}

/// The members of an object as pairs of name and value.
pub open spec fn members_view(members: Seq<Member>) -> Seq<(Seq<char>, JsonTree)> {
    Seq::new(members.len(), |i: int| (members[i].name@, members[i].value@))
}

/// The values of an array.
pub open spec fn items_view(items: Seq<Json>) -> Seq<JsonTree> {
    Seq::new(items.len(), |i: int| items[i]@)
}

/// The view of an object is the view of its members.
pub proof fn lemma_object_view(members: Vec<Member>)
    ensures
        Json::Object(members)@ == JsonTree::Object(members_view(members@)),
{
    let whole = Json::Object(members)@->Object_0;
    assert(whole.len() == members@.len());
    assert forall|i: int| 0 <= i < whole.len() implies whole[i] == members_view(members@)[i] by {
        assert(members[i] == members@[i]);
    }
    assert(whole =~= members_view(members@));
}

/// The view of an array is the view of its items.
pub proof fn lemma_array_view(items: Vec<Json>)
    ensures
        Json::Array(items)@ == JsonTree::Array(items_view(items@)),
{
    let whole = Json::Array(items)@->Array_0;
    assert(whole.len() == items@.len());
    assert forall|i: int| 0 <= i < whole.len() implies whole[i] == items_view(items@)[i] by {
        assert(items[i] == items@[i]);
    }
    assert(whole =~= items_view(items@));
}

/// The value of the first member called `name`.
pub open spec fn member_value(members: Seq<(Seq<char>, JsonTree)>, name: Seq<char>) -> Option<
    JsonTree,
>
    decreases members.len(),
{
    if members.len() == 0 {
        None
    } else if members[0].0 == name {
        Some(members[0].1)
    } else {
        member_value(members.skip(1), name)
    }
}

/// Where no member before `i` is called `name`, the search goes on at `i`.
pub proof fn lemma_member_value_from(
    members: Seq<(Seq<char>, JsonTree)>,
    name: Seq<char>,
    i: int,
)
    requires
        0 <= i <= members.len(),
        forall|k: int| 0 <= k < i ==> (#[trigger] members[k]).0 != name,
    ensures
        member_value(members, name) == member_value(members.skip(i), name),
    decreases i,
{
    if i == 0 {
        assert(members.skip(0) =~= members);
    } else {
        lemma_member_value_from(members, name, i - 1);
        let rest = members.skip(i - 1);
        assert(rest[0] == members[i - 1]);
        assert(rest.skip(1) =~= members.skip(i));
    }
}

/// The value of the member called `name`, if there is one.
pub fn find_member<'a>(members: &'a Vec<Member>, name: &str) -> (r: Option<&'a Json>)
    ensures
        match r {
            Some(json) => member_value(members_view(members@), name@) == Some(json@),
            None => member_value(members_view(members@), name@) is None,
        },
{
    let ghost all = members_view(members@);
    let mut i: usize = 0;
    while i < members.len()
        invariant
            0 <= i <= members.len(),
            all == members_view(members@),
            forall|k: int| 0 <= k < i ==> (#[trigger] all[k]).0 != name@,
        decreases members.len() - i,
    {
        if same_text(members[i].name.as_str(), name) {
            proof {
                lemma_member_value_from(all, name@, i as int);
                assert(all.skip(i as int)[0] == all[i as int]);
            }
            return Some(&members[i].value);
        }
        i += 1;
    }
    proof {
        lemma_member_value_from(all, name@, i as int);
        assert(all.skip(i as int).len() == 0);
    }
    None
}

/// The value of the required member called `name`.
pub open spec fn required(members: Seq<(Seq<char>, JsonTree)>, name: Seq<char>) -> Result<
    JsonTree,
    ParseError,
> {
    match member_value(members, name) {
        Some(value) => Ok(value),
        None => Err(ParseError::MissingField),
    }
}

/// The members of an object.
pub open spec fn as_members(value: JsonTree) -> Result<Seq<(Seq<char>, JsonTree)>, ParseError> {
    match value {
        JsonTree::Object(members) => Ok(members),
        _ => Err(ParseError::TypeMismatch),
    }
}

/// The items of an array.
pub open spec fn as_items(value: JsonTree) -> Result<Seq<JsonTree>, ParseError> {
    match value {
        JsonTree::Array(items) => Ok(items),
        _ => Err(ParseError::TypeMismatch),
    }
}

/// The characters of a string, exactly as the document holds them.
pub open spec fn as_text(value: JsonTree) -> Result<Seq<char>, ParseError> {
    match value {
        JsonTree::Text(text) => Ok(text),
        _ => Err(ParseError::TypeMismatch),
    }
}

/// A string, or nothing for `null`.
pub open spec fn as_optional_text(value: JsonTree) -> Result<Option<Seq<char>>, ParseError> {
    match value {
        JsonTree::Null => Ok(None),
        JsonTree::Text(text) => Ok(Some(text)),
        _ => Err(ParseError::TypeMismatch),
    }
}

/// A boolean.
pub open spec fn as_flag(value: JsonTree) -> Result<bool, ParseError> {
    match value {
        JsonTree::Bool(flag) => Ok(flag),
        _ => Err(ParseError::TypeMismatch),
    }
}

/// An integer from 0 to `u32::MAX`.
pub open spec fn as_u32(value: JsonTree) -> Result<u32, ParseError> {
    match value {
        JsonTree::Number(Some(n)) if n <= u32::MAX => Ok(n as u32),
        _ => Err(ParseError::TypeMismatch),
    }
}

/// Every item is a string.
pub open spec fn all_texts(items: Seq<JsonTree>) -> bool {
    forall|i: int| 0 <= i < items.len() ==> as_text(#[trigger] items[i]) is Ok
}

/// Every item is a string or `null`.
pub open spec fn all_optional_texts(items: Seq<JsonTree>) -> bool {
    forall|i: int| 0 <= i < items.len() ==> as_optional_text(#[trigger] items[i]) is Ok
}

/// An array of strings.
pub open spec fn as_texts(value: JsonTree) -> Result<Seq<Seq<char>>, ParseError> {
    match value {
        JsonTree::Array(items) if all_texts(items) => Ok(
            Seq::new(items.len(), |i: int| as_text(items[i])->Ok_0),
        ),
        _ => Err(ParseError::TypeMismatch),
    }
}

/// An array whose every item is a string or `null`.
pub open spec fn as_optional_texts(value: JsonTree) -> Result<
    Seq<Option<Seq<char>>>,
    ParseError,
> {
    match value {
        JsonTree::Array(items) if all_optional_texts(items) => Ok(
            Seq::new(items.len(), |i: int| as_optional_text(items[i])->Ok_0),
        ),
        _ => Err(ParseError::TypeMismatch),
    }
}

/// The value of the member called `name`, which must be there.
pub fn required_member<'a>(members: &'a Vec<Member>, name: &str) -> (r: Result<
    &'a Json,
    ParseError,
>)
    ensures
        match r {
            Ok(json) => required(members_view(members@), name@) == Ok::<JsonTree, ParseError>(
                json@,
            ),
            Err(e) => required(members_view(members@), name@) == Err::<JsonTree, ParseError>(e),
        },
{
    match find_member(members, name) {
        Some(json) => Ok(json),
        None => Err(ParseError::MissingField),
    }
}

/// The members of `json`, which must be an object.
pub fn read_members(json: &Json) -> (r: Result<&Vec<Member>, ParseError>)
    ensures
        match r {
            Ok(members) => as_members(json@) == Ok::<_, ParseError>(members_view(members@)),
            Err(e) => as_members(json@) == Err::<Seq<(Seq<char>, JsonTree)>, ParseError>(e),
        },
{
    match json {
        Json::Object(members) => {
            proof {
                lemma_object_view(*members);
            }
            Ok(members)
        },
        _ => Err(ParseError::TypeMismatch),
    }
}

/// The items of `json`, which must be an array.
pub fn read_items(json: &Json) -> (r: Result<&Vec<Json>, ParseError>)
    ensures
        match r {
            Ok(items) => as_items(json@) == Ok::<_, ParseError>(items_view(items@)),
            Err(e) => as_items(json@) == Err::<Seq<JsonTree>, ParseError>(e),
        },
{
    match json {
        Json::Array(items) => {
            proof {
                lemma_array_view(*items);
            }
            Ok(items)
        },
        _ => Err(ParseError::TypeMismatch),
    }
}

/// The string that `json` holds, character for character.
pub fn read_text(json: &Json) -> (r: Result<String, ParseError>)
    ensures
        match r {
            Ok(text) => as_text(json@) == Ok::<_, ParseError>(text@),
            Err(e) => as_text(json@) == Err::<Seq<char>, ParseError>(e),
        },
{
    match json {
        Json::Text(text) => Ok(text.clone()),
        _ => Err(ParseError::TypeMismatch),
    }
}

/// The string that `json` holds, or `None` where it is `null`.
pub fn read_optional_text(json: &Json) -> (r: Result<Option<String>, ParseError>)
    ensures
        match r {
            Ok(text) => as_optional_text(json@) == Ok::<_, ParseError>(optional_text(text)),
            Err(e) => as_optional_text(json@) == Err::<Option<Seq<char>>, ParseError>(e),
        },
{
    match json {
        Json::Null => Ok(None),
        Json::Text(text) => Ok(Some(text.clone())),
        _ => Err(ParseError::TypeMismatch),
    }
}

/// The boolean that `json` holds.
pub fn read_flag(json: &Json) -> (r: Result<bool, ParseError>)
    ensures
        r == as_flag(json@),
{
    match json {
        Json::Bool(flag) => Ok(*flag),
        _ => Err(ParseError::TypeMismatch),
    }
}

/// The integer that `json` holds, where it fits in 32 bits.
pub fn read_u32(json: &Json) -> (r: Result<u32, ParseError>)
    ensures
        r == as_u32(json@),
{
    match json {
        Json::Number(Some(n)) => {
            if *n <= 0xffff_ffff {
                Ok(*n as u32)
            } else {
                Err(ParseError::TypeMismatch)
            }
        },
        _ => Err(ParseError::TypeMismatch),
    }
}

/// The strings of the array that `json` holds.
pub fn read_texts(json: &Json) -> (r: Result<Vec<String>, ParseError>)
    ensures
        match r {
            Ok(list) => as_texts(json@) == Ok::<_, ParseError>(texts(list@)),
            Err(e) => as_texts(json@) == Err::<Seq<Seq<char>>, ParseError>(e),
        },
{
    let items = match read_items(json) {
        Ok(items) => items,
        Err(e) => {
            return Err(e);
        },
    };
    let ghost trees = items_view(items@);
    let mut list: Vec<String> = Vec::new();
    let mut i: usize = 0;
    while i < items.len()
        invariant
            0 <= i <= items.len(),
            json@ == JsonTree::Array(trees),
            trees == items_view(items@),
            list@.len() == i,
            forall|k: int|
                0 <= k < i ==> as_text(#[trigger] trees[k]) == Ok::<_, ParseError>(list@[k]@),
        decreases items.len() - i,
    {
        match read_text(&items[i]) {
            Ok(text) => {
                list.push(text);
            },
            Err(e) => {
                assert(as_text(trees[i as int]) is Err);
                return Err(e);
            },
        }
        i += 1;
    }
    assert(texts(list@) =~= as_texts(json@)->Ok_0);
    Ok(list)
}

/// The strings and `null`s of the array that `json` holds.
pub fn read_optional_texts(json: &Json) -> (r: Result<Vec<Option<String>>, ParseError>)
    ensures
        match r {
            Ok(list) => as_optional_texts(json@) == Ok::<_, ParseError>(optional_texts(list@)),
            Err(e) => as_optional_texts(json@) == Err::<Seq<Option<Seq<char>>>, ParseError>(e),
        },
{
    let items = match read_items(json) {
        Ok(items) => items,
        Err(e) => {
            return Err(e);
        },
    };
    let ghost trees = items_view(items@);
    let mut list: Vec<Option<String>> = Vec::new();
    let mut i: usize = 0;
    while i < items.len()
        invariant
            0 <= i <= items.len(),
            json@ == JsonTree::Array(trees),
            trees == items_view(items@),
            list@.len() == i,
            forall|k: int|
                0 <= k < i ==> as_optional_text(#[trigger] trees[k]) == Ok::<_, ParseError>(
                    optional_text(list@[k]),
                ),
        decreases items.len() - i,
    {
        match read_optional_text(&items[i]) {
            Ok(text) => {
                list.push(text);
            },
            Err(e) => {
                assert(as_optional_text(trees[i as int]) is Err);
                return Err(e);
            },
        }
        i += 1;
    }
    assert(optional_texts(list@) =~= as_optional_texts(json@)->Ok_0);
    Ok(list)
}

/// The string field called `name`.
pub open spec fn text_at(members: Seq<(Seq<char>, JsonTree)>, name: Seq<char>) -> Result<
    Seq<char>,
    ParseError,
> {
    match required(members, name) {
        Ok(value) => as_text(value),
        Err(e) => Err(e),
    }
}

/// The optional string field called `name`: nothing where the member is
/// absent or `null`.
pub open spec fn optional_text_at(members: Seq<(Seq<char>, JsonTree)>, name: Seq<char>) -> Result<
    Option<Seq<char>>,
    ParseError,
> {
    match member_value(members, name) {
        Some(value) => as_optional_text(value),
        None => Ok(None),
    }
}

/// The boolean field called `name`.
pub open spec fn flag_at(members: Seq<(Seq<char>, JsonTree)>, name: Seq<char>) -> Result<
    bool,
    ParseError,
> {
    match required(members, name) {
        Ok(value) => as_flag(value),
        Err(e) => Err(e),
    }
}

/// The 32-bit integer field called `name`.
pub open spec fn u32_at(members: Seq<(Seq<char>, JsonTree)>, name: Seq<char>) -> Result<
    u32,
    ParseError,
> {
    match required(members, name) {
        Ok(value) => as_u32(value),
        Err(e) => Err(e),
    }
}

/// The field called `name`, an array of strings.
pub open spec fn texts_at(members: Seq<(Seq<char>, JsonTree)>, name: Seq<char>) -> Result<
    Seq<Seq<char>>,
    ParseError,
> {
    match required(members, name) {
        Ok(value) => as_texts(value),
        Err(e) => Err(e),
    }
}

/// The field called `name`, an array of strings and `null`s.
pub open spec fn optional_texts_at(members: Seq<(Seq<char>, JsonTree)>, name: Seq<char>) -> Result<
    Seq<Option<Seq<char>>>,
    ParseError,
> {
    match required(members, name) {
        Ok(value) => as_optional_texts(value),
        Err(e) => Err(e),
    }
}

/// The field called `name`, an array.
pub open spec fn items_at(members: Seq<(Seq<char>, JsonTree)>, name: Seq<char>) -> Result<
    Seq<JsonTree>,
    ParseError,
> {
    match required(members, name) {
        Ok(value) => as_items(value),
        Err(e) => Err(e),
    }
}

/// The string field called `name`.
pub fn get_text(members: &Vec<Member>, name: &str) -> (r: Result<String, ParseError>)
    ensures
        match r {
            Ok(text) => text_at(members_view(members@), name@) == Ok::<_, ParseError>(text@),
            Err(e) => text_at(members_view(members@), name@) == Err::<Seq<char>, ParseError>(e),
        },
{
    read_text(required_member(members, name)?)
}

/// The optional string field called `name`.
pub fn get_optional_text(members: &Vec<Member>, name: &str) -> (r: Result<
    Option<String>,
    ParseError,
>)
    ensures
        match r {
            Ok(text) => optional_text_at(members_view(members@), name@) == Ok::<_, ParseError>(
                optional_text(text),
            ),
            Err(e) => optional_text_at(members_view(members@), name@) == Err::<
                Option<Seq<char>>,
                ParseError,
            >(e),
        },
{
    match find_member(members, name) {
        Some(json) => read_optional_text(json),
        None => Ok(None),
    }
}

/// The boolean field called `name`.
pub fn get_flag(members: &Vec<Member>, name: &str) -> (r: Result<bool, ParseError>)
    ensures
        r == flag_at(members_view(members@), name@),
{
    read_flag(required_member(members, name)?)
}

/// The 32-bit integer field called `name`.
pub fn get_u32(members: &Vec<Member>, name: &str) -> (r: Result<u32, ParseError>)
    ensures
        r == u32_at(members_view(members@), name@),
{
    read_u32(required_member(members, name)?)
}

/// The field called `name`, an array of strings.
pub fn get_texts(members: &Vec<Member>, name: &str) -> (r: Result<Vec<String>, ParseError>)
    ensures
        match r {
            Ok(list) => texts_at(members_view(members@), name@) == Ok::<_, ParseError>(
                texts(list@),
            ),
            Err(e) => texts_at(members_view(members@), name@) == Err::<Seq<Seq<char>>, ParseError>(
                e,
            ),
        },
{
    read_texts(required_member(members, name)?)
}

/// The field called `name`, an array of strings and `null`s.
pub fn get_optional_texts(members: &Vec<Member>, name: &str) -> (r: Result<
    Vec<Option<String>>,
    ParseError,
>)
    ensures
        match r {
            Ok(list) => optional_texts_at(members_view(members@), name@) == Ok::<_, ParseError>(
                optional_texts(list@),
            ),
            Err(e) => optional_texts_at(members_view(members@), name@) == Err::<
                Seq<Option<Seq<char>>>,
                ParseError,
            >(e),
        },
{
    read_optional_texts(required_member(members, name)?)
}

/// The field called `name`, an array.
pub fn get_items<'a>(members: &'a Vec<Member>, name: &str) -> (r: Result<
    &'a Vec<Json>,
    ParseError,
>)
    ensures
        match r {
            Ok(items) => items_at(members_view(members@), name@) == Ok::<_, ParseError>(
                items_view(items@),
            ),
            Err(e) => items_at(members_view(members@), name@) == Err::<Seq<JsonTree>, ParseError>(
                e,
            ),
        },
{
    read_items(required_member(members, name)?)
}

/// A member that is found at `i` and nowhere before is the member that the
/// search gives.
pub proof fn lemma_member_found(members: Seq<(Seq<char>, JsonTree)>, name: Seq<char>, i: int)
    requires
        0 <= i < members.len(),
        members[i].0 == name,
        forall|k: int| 0 <= k < i ==> (#[trigger] members[k]).0 != name,
    ensures
        member_value(members, name) == Some(members[i].1),
{
    lemma_member_value_from(members, name, i);
    assert(members.skip(i)[0] == members[i]);
}

/// A member under another name is passed over: wherever it is put among
/// the members, the member found under `name` stays the same.
pub proof fn lemma_member_passed_over(
    members: Seq<(Seq<char>, JsonTree)>,
    at: int,
    other: (Seq<char>, JsonTree),
    name: Seq<char>,
)
    requires
        0 <= at <= members.len(),
        other.0 != name,
    ensures
        member_value(members.insert(at, other), name) == member_value(members, name),
    decreases members.len(),
{
    let longer = members.insert(at, other);
    if at == 0 {
        assert(longer.skip(1) =~= members);
    } else {
        assert(longer[0] == members[0]);
        if members[0].0 != name {
            lemma_member_passed_over(members.skip(1), at - 1, other, name);
            assert(longer.skip(1) =~= members.skip(1).insert(at - 1, other));
        }
    }
}

/// What tells the field names of the response schemas apart: the length of
/// a name and two of its characters.
pub open spec fn name_key(name: Seq<char>) -> (nat, char, char) {
    (name.len(), name[0], name[3])
}

/// Strings as items of an array.
pub open spec fn text_items(list: Seq<Seq<char>>) -> Seq<JsonTree> {
    Seq::new(list.len(), |i: int| JsonTree::Text(list[i]))
}

/// Optional strings as items of an array, `null` for an empty slot.
pub open spec fn optional_text_items(list: Seq<Option<Seq<char>>>) -> Seq<JsonTree> {
    Seq::new(list.len(), |i: int| optional_text_item(list[i]))
}

/// An optional string as a document: `null` where there is none.
pub open spec fn optional_text_item(text: Option<Seq<char>>) -> JsonTree {
    match text {
        Some(t) => JsonTree::Text(t),
        None => JsonTree::Null,
    }
}

/// An array of strings is read back as the strings it was made of.
pub proof fn lemma_texts_round_trip(list: Seq<Seq<char>>)
    ensures
        as_texts(JsonTree::Array(text_items(list))) == Ok::<_, ParseError>(list),
{
    let items = text_items(list);
    assert(as_texts(JsonTree::Array(items))->Ok_0 =~= list);
}

/// An array of strings and `null`s is read back as the slots it was made of.
pub proof fn lemma_optional_texts_round_trip(list: Seq<Option<Seq<char>>>)
    ensures
        as_optional_texts(JsonTree::Array(optional_text_items(list))) == Ok::<_, ParseError>(list),
{
    let items = optional_text_items(list);
    assert forall|i: int| 0 <= i < items.len() implies as_optional_text(#[trigger] items[i])
        == Ok::<_, ParseError>(list[i]) by {}
    assert(as_optional_texts(JsonTree::Array(items))->Ok_0 =~= list);
}

/// A member with a string value.
pub fn text_member(name: &str, value: &str) -> (m: Member)
    ensures
        m.name@ == name@,
        m.value@ == JsonTree::Text(value@),
{
    Member { name: name.to_owned(), value: Json::Text(value.to_owned()) }
}

/// A member with the given value.
pub fn member(name: &str, value: Json) -> (m: Member)
    ensures
        m.name@ == name@,
        m.value == value,
{
    Member { name: name.to_owned(), value }
}

/// An optional string as a document: `null` where there is none.
pub fn optional_text_json(text: &Option<String>) -> (json: Json)
    ensures
        json@ == optional_text_item(optional_text(*text)),
{
    match text {
        Some(t) => Json::Text(t.clone()),
        None => Json::Null,
    }
}

/// An array of strings as a document.
pub fn texts_json(list: &Vec<String>) -> (json: Json)
    ensures
        json@ == JsonTree::Array(text_items(texts(list@))),
{
    let mut items: Vec<Json> = Vec::new();
    let mut i: usize = 0;
    while i < list.len()
        invariant
            0 <= i <= list.len(),
            items@.len() == i,
            forall|k: int| 0 <= k < i ==> (#[trigger] items@[k])@ == JsonTree::Text(list@[k]@),
        decreases list.len() - i,
    {
        items.push(Json::Text(list[i].clone()));
        i += 1;
    }
    proof {
        lemma_array_view(items);
        assert(items_view(items@) =~= text_items(texts(list@)));
    }
    Json::Array(items)
}

/// An array of strings and empty slots as a document.
pub fn optional_texts_json(list: &Vec<Option<String>>) -> (json: Json)
    ensures
        json@ == JsonTree::Array(optional_text_items(optional_texts(list@))),
{
    let mut items: Vec<Json> = Vec::new();
    let mut i: usize = 0;
    while i < list.len()
        invariant
            0 <= i <= list.len(),
            items@.len() == i,
            forall|k: int|
                0 <= k < i ==> (#[trigger] items@[k])@ == optional_text_item(
                    optional_text(list@[k]),
                ),
        decreases list.len() - i,
    {
        items.push(optional_text_json(&list[i]));
        i += 1;
    }
    proof {
        lemma_array_view(items);
        assert(items_view(items@) =~= optional_text_items(optional_texts(list@)));
    }
    Json::Array(items)
}

} // verus!
