//! JSON documents, and the boundary to `serde_json`.
//!
//! The library works on its own [`Json`] tree. Parsing and writing text is
//! `serde_json`'s work: the functions marked as trusted below open and close
//! one level of a [`serde_json::Value`], and the conversions in between are
//! verified.

use vstd::prelude::*;

use crate::text::{first_where, lemma_first_where_at, lemma_first_where_none, same_text};

verus! {

/// A JSON document. Object members keep their order.
pub enum Json {
    Null,
    Bool(bool),
    /// A non-negative integer that fits in 64 bits.
    Unsigned(u64),
    /// Any other number; the control surface never reads one.
    OtherNumber,
    Text(String),
    Array(Vec<Json>),
    Object(Vec<(String, Json)>),
}

/// The mathematical form of a JSON document.
pub enum JsonView {
    Null,
    Bool(bool),
    Unsigned(u64),
    OtherNumber,
    Text(Seq<char>),
    Array(Seq<JsonView>),
    Object(Seq<(Seq<char>, JsonView)>),
}

/// The mathematical form of a document.
pub open spec fn json_view(json: Json) -> JsonView
    decreases json,
{
    match json {
        Json::Null => JsonView::Null,
        Json::Bool(flag) => JsonView::Bool(flag),
        Json::Unsigned(number) => JsonView::Unsigned(number),
        Json::OtherNumber => JsonView::OtherNumber,
        Json::Text(text) => JsonView::Text(text@),
        Json::Array(items) => JsonView::Array(
            Seq::new(
                items@.len(),
                |i: int|
                    if 0 <= i < items@.len() {
                        json_view(items@[i])
                    } else {
                        JsonView::Null
                    },
            ),
        ),
        Json::Object(entries) => JsonView::Object(
            Seq::new(
                entries@.len(),
                |i: int|
                    if 0 <= i < entries@.len() {
                        (entries@[i].0@, json_view(entries@[i].1))
                    } else {
                        (Seq::empty(), JsonView::Null)
                    },
            ),
        ),
    }
}

impl View for Json {
    type V = JsonView;

    open spec fn view(&self) -> JsonView {
        json_view(*self)
    }
}

/// Selects the members with a name.
pub open spec fn has_name(name: Seq<char>) -> spec_fn((Seq<char>, JsonView)) -> bool {
    |entry: (Seq<char>, JsonView)| entry.0 == name
}

impl JsonView {
    /// The member of an object with the given name.
    pub open spec fn field(self, name: Seq<char>) -> Option<JsonView> {
        match self {
            JsonView::Object(entries) => match first_where(entries, has_name(name)) {
                Some(entry) => Some(entry.1),
                None => None,
            },
            _ => None,
        }
    }

    /// The part of a record under a name, or at its position in a record that is
    /// written as an array.
    pub open spec fn part(self, name: Seq<char>, position: int) -> Option<JsonView> {
        match self {
            JsonView::Array(items) => if 0 <= position < items.len() {
                Some(items[position])
            } else {
                None
            },
            _ => self.field(name),
        }
    }

    /// Whether a record that is written as an array has no more parts than
    /// `count`.
    pub open spec fn within(self, count: nat) -> bool {
        self matches JsonView::Array(items) ==> items.len() <= count
    }

    /// The text of a string.
    pub open spec fn text(self) -> Option<Seq<char>> {
        match self {
            JsonView::Text(text) => Some(text),
            _ => None,
        }
    }

    /// The value of a boolean.
    pub open spec fn flag(self) -> Option<bool> {
        match self {
            JsonView::Bool(flag) => Some(flag),
            _ => None,
        }
    }

    /// The elements of an array.
    pub open spec fn items(self) -> Option<Seq<JsonView>> {
        match self {
            JsonView::Array(items) => Some(items),
            _ => None,
        }
    }

    /// The text of a string member.
    pub open spec fn text_field(self, name: Seq<char>) -> Option<Seq<char>> {
        match self.field(name) {
            Some(value) => value.text(),
            None => None,
        }
    }

    /// The text of a string member, or else of the same under another name.
    pub open spec fn text_field_or(self, name: Seq<char>, other: Seq<char>) -> Option<Seq<char>> {
        match self.text_field(name) {
            Some(text) => Some(text),
            None => self.text_field(other),
        }
    }

    /// The value of a boolean member.
    pub open spec fn flag_field(self, name: Seq<char>) -> Option<bool> {
        match self.field(name) {
            Some(value) => value.flag(),
            None => None,
        }
    }

    /// The value of a boolean member, or else of the same under another name.
    pub open spec fn flag_field_or(self, name: Seq<char>, other: Seq<char>) -> Option<bool> {
        match self.flag_field(name) {
            Some(flag) => Some(flag),
            None => self.flag_field(other),
        }
    }

    /// The elements of an array member.
    pub open spec fn items_field(self, name: Seq<char>) -> Option<Seq<JsonView>> {
        match self.field(name) {
            Some(value) => value.items(),
            None => None,
        }
    }
}

impl Json {
    /// The member of an object with the given name.
    pub fn get(&self, name: &str) -> (member: Option<&Json>)
        ensures
            match member {
                Some(value) => self@.field(name@) == Some(value@),
                None => self@.field(name@) is None,
            },
    {
        match self {
            Json::Object(entries) => {
                let ghost members = self@->Object_0;
                let ghost wanted = has_name(name@);
                let mut i: usize = 0;
                while i < entries.len()
                    invariant
                        self@ == JsonView::Object(members),
                        members.len() == entries@.len(),
                        forall|k: int|
                            0 <= k < entries@.len() ==> #[trigger] members[k] == (
                                entries@[k].0@,
                                entries@[k].1@,
                            ),
                        wanted == has_name(name@),
                        i <= entries@.len(),
                        forall|k: int| 0 <= k < i ==> !wanted(#[trigger] members[k]),
                    decreases entries@.len() - i,
                {
                    assert(members[i as int].0 == entries@[i as int].0@);
                    if same_text(entries[i].0.as_str(), name) {
                        proof {
                            lemma_first_where_at(members, wanted, i as int);
                        }
                        return Some(&entries[i].1);
                    }
                    i = i + 1;
                }
                proof {
                    lemma_first_where_none(members, wanted);
                }
                None
            },
            _ => None,
        }
    }

    /// The part of a record under a name, or at its position in a record that is
    /// written as an array.
    pub fn part(&self, name: &str, position: usize) -> (part: Option<&Json>)
        ensures
            match part {
                Some(value) => self@.part(name@, position as int) == Some(value@),
                None => self@.part(name@, position as int) is None,
            },
    {
        match self {
            Json::Array(items) => if position < items.len() {
                Some(&items[position])
            } else {
                None
            },
            _ => self.get(name),
        }
    }

    /// Whether a record that is written as an array has no more parts than
    /// `count`.
    pub fn is_within(&self, count: usize) -> (yes: bool)
        ensures
            yes == self@.within(count as nat),
    {
        match self {
            Json::Array(items) => items.len() <= count,
            _ => true,
        }
    }

    /// The text of a string.
    pub fn as_text(&self) -> (text: Option<&String>)
        ensures
            match text {
                Some(value) => self@.text() == Some(value@),
                None => self@.text() is None,
            },
    {
        match self {
            Json::Text(text) => Some(text),
            _ => None,
        }
    }

    /// The value of a boolean.
    pub fn as_flag(&self) -> (flag: Option<bool>)
        ensures
            flag == self@.flag(),
    {
        match self {
            Json::Bool(flag) => Some(*flag),
            _ => None,
        }
    }

    /// The elements of an array.
    pub fn as_items(&self) -> (items: Option<&Vec<Json>>)
        ensures
            match items {
                Some(values) => self@.items() == Some(crate::text::views(values@)),
                None => self@.items() is None,
            },
    {
        match self {
            Json::Array(items) => {
                assert(self@->Array_0 =~= crate::text::views(items@));
                Some(items)
            },
            _ => None,
        }
    }

    /// The text of a string member.
    pub fn text_field(&self, name: &str) -> (text: Option<String>)
        ensures
            crate::text::opt_view(text) == self@.text_field(name@),
    {
        match self.get(name) {
            Some(value) => match value.as_text() {
                Some(text) => Some(text.clone()),
                None => None,
            },
            None => None,
        }
    }

    /// The text of a string member, or else of the same under another name.
    pub fn text_field_or(&self, name: &str, other: &str) -> (text: Option<String>)
        ensures
            crate::text::opt_view(text) == self@.text_field_or(name@, other@),
    {
        match self.text_field(name) {
            Some(text) => Some(text),
            None => self.text_field(other),
        }
    }

    /// The value of a boolean member.
    pub fn flag_field(&self, name: &str) -> (flag: Option<bool>)
        ensures
            flag == self@.flag_field(name@),
    {
        match self.get(name) {
            Some(value) => value.as_flag(),
            None => None,
        }
    }

    /// The value of a boolean member, or else of the same under another name.
    pub fn flag_field_or(&self, name: &str, other: &str) -> (flag: Option<bool>)
        ensures
            flag == self@.flag_field_or(name@, other@),
    {
        match self.flag_field(name) {
            Some(flag) => Some(flag),
            None => self.flag_field(other),
        }
    }

    /// The elements of an array member.
    pub fn items_field(&self, name: &str) -> (items: Option<&Vec<Json>>)
        ensures
            match items {
                Some(values) => self@.items_field(name@) == Some(crate::text::views(values@)),
                None => self@.items_field(name@) is None,
            },
    {
        match self.get(name) {
            Some(value) => value.as_items(),
            None => None,
        }
    }
}

/// An object member.
pub open spec fn member(name: Seq<char>, value: JsonView) -> (Seq<char>, JsonView) {
    (name, value)
}

/// A string.
pub fn text_value(text: &str) -> (json: Json)
    ensures
        json@ == JsonView::Text(text@),
{
    Json::Text(text.to_owned())
}

/// An object of the given members.
pub fn object(members: Vec<(&'static str, Json)>) -> (json: Json)
    ensures
        json@ == JsonView::Object(
            Seq::new(members@.len(), |i: int| member(members@[i].0@, members@[i].1@)),
        ),
{
    let ghost source = members@;
    let mut entries: Vec<(String, Json)> = Vec::new();
    for entry in it: members
        invariant
            it.seq() == source,
            entries@.len() == it.index(),
            forall|k: int|
                0 <= k < entries@.len() ==> (#[trigger] entries@[k]).0@ == source[k].0@
                    && entries@[k].1@ == source[k].1@,
    {
        entries.push((entry.0.to_owned(), entry.1));
    }
    let json = Json::Object(entries);
    assert(json@->Object_0 =~= Seq::new(
        source.len(),
        |i: int| member(source[i].0@, source[i].1@),
    ));
    json
}

/// A document that [`to_json_text`] can turn into text: every number is an unsigned
/// integer and no object names a member twice.
pub open spec fn writable(json: JsonView) -> bool
    decreases json,
{
    match json {
        JsonView::OtherNumber => false,
        JsonView::Array(items) => forall|i: int|
            0 <= i < items.len() ==> writable(#[trigger] items[i]),
        JsonView::Object(entries) => {
            &&& distinct_names(entries)
            &&& forall|i: int| 0 <= i < entries.len() ==> writable((#[trigger] entries[i]).1)
        },
        _ => true,
    }
}

/// Whether no two members have the same name.
pub open spec fn distinct_names(entries: Seq<(Seq<char>, JsonView)>) -> bool {
    forall|i: int, j: int|
        0 <= i < j < entries.len() ==> (#[trigger] entries[i]).0 != (#[trigger] entries[j]).0
}

/// A parsed document as `serde_json` holds it.
#[verifier::external_type_specification]
#[verifier::external_body]
pub struct ExValue(serde_json::Value);

/// The document that a `serde_json` value holds: its kind, and for arrays and
/// objects the contents in order.
pub uninterp spec fn value_view(value: serde_json::Value) -> JsonView;

/// What `serde_json::from_slice` makes of some bytes: the document, or its
/// complaint.
pub uninterp spec fn parsed(bytes: Seq<u8>) -> Result<JsonView, Seq<char>>;

/// The compact text that `serde_json::to_string` writes for a document whose
/// numbers are unsigned integers.
pub uninterp spec fn written(json: JsonView) -> Seq<char>;

/// One level of a document whose parts are still held by `serde_json`.
enum Node {
    Leaf(Json),
    Array(Vec<serde_json::Value>),
    Object(Vec<(String, serde_json::Value)>),
}

spec fn node_view(node: Node) -> JsonView {
    match node {
        Node::Leaf(json) => json@,
        Node::Array(items) => JsonView::Array(
            Seq::new(items@.len(), |i: int| value_view(items@[i])),
        ),
        Node::Object(entries) => JsonView::Object(
            Seq::new(entries@.len(), |i: int| (entries@[i].0@, value_view(entries@[i].1))),
        ),
    }
}

/// Calls `serde_json::from_slice` for a `Value`. It is a function of the bytes
/// alone, named [`parsed`]; an error is given as the text it displays.
#[verifier::external_body]
fn value_from_slice(bytes: &[u8]) -> (value: Result<serde_json::Value, String>)
    ensures
        match value {
            Ok(document) => parsed(bytes@) == Ok::<JsonView, Seq<char>>(value_view(document)),
            Err(complaint) => parsed(bytes@) == Err::<JsonView, Seq<char>>(complaint@),
        },
{
    serde_json::from_slice(bytes).map_err(|err: serde_json::Error| err.to_string())
}

/// Opens one level of a `serde_json::Value`: which variant it is and, for an
/// array or an object, the parts in order (`Map::into_iter` walks the members
/// in the order in which they came). `Number::as_u64` tells an unsigned integer
/// from any other number.
#[verifier::external_body]
fn open_value(value: serde_json::Value) -> (node: Node)
    ensures
        node_view(node) == value_view(value),
{
    match value {
        serde_json::Value::Null => Node::Leaf(Json::Null),
        serde_json::Value::Bool(flag) => Node::Leaf(Json::Bool(flag)),
        serde_json::Value::Number(number) => {
            Node::Leaf(number.as_u64().map_or(Json::OtherNumber, Json::Unsigned))
        },
        serde_json::Value::String(text) => Node::Leaf(Json::Text(text)),
        serde_json::Value::Array(items) => Node::Array(items),
        serde_json::Value::Object(members) => Node::Object(members.into_iter().collect()),
    }
}

/// Makes a `serde_json::Value` out of one level: the variant, and for an object
/// a `Map` collected from the members, which keeps their order when no name
/// repeats.
#[verifier::external_body]
fn close_value(node: Node) -> (value: serde_json::Value)
    requires
        node matches Node::Leaf(json) ==> !(json is OtherNumber || json is Array || json is Object),
        node_view(node) matches JsonView::Object(entries) ==> distinct_names(entries),
    ensures
        value_view(value) == node_view(node),
{
    match node {
        Node::Leaf(Json::Bool(flag)) => serde_json::Value::Bool(flag),
        Node::Leaf(Json::Unsigned(number)) => serde_json::Value::from(number),
        Node::Leaf(Json::Text(text)) => serde_json::Value::String(text),
        Node::Leaf(_) => serde_json::Value::Null,
        Node::Array(items) => serde_json::Value::Array(items),
        Node::Object(entries) => serde_json::Value::Object(entries.into_iter().collect()),
    }
}

/// Calls `serde_json::to_string` on a value whose numbers are unsigned integers.
/// Writing a `Value` to memory cannot fail: its map keys are strings and no part
/// of it refuses to be written. The text is a function of the document, named
/// [`written`], and holds no line feed: the compact form puts no white space
/// between tokens and escapes control characters inside strings.
#[verifier::external_body]
fn value_to_string(value: &serde_json::Value) -> (text: Result<String, String>)
    requires
        writable(value_view(*value)),
    ensures
        text is Ok,
        text->Ok_0@ == written(value_view(*value)),
        forall|i: int| 0 <= i < text->Ok_0@.len() ==> #[trigger] text->Ok_0@[i] != '\n',
{
    serde_json::to_string(value).map_err(|err: serde_json::Error| err.to_string())
}

fn import(value: serde_json::Value) -> (json: Json)
    ensures
        json@ == value_view(value),
    decreases value_view(value),
{
    let ghost whole = value_view(value);
    match open_value(value) {
        Node::Leaf(json) => json,
        Node::Array(items) => {
            let ghost parts = items@;
            let mut imported: Vec<Json> = Vec::new();
            for item in it: items
                invariant
                    it.seq() == parts,
                    whole == value_view(value),
                    whole is Array,
                    whole->Array_0.len() == parts.len(),
                    forall|k: int|
                        0 <= k < parts.len() ==> #[trigger] whole->Array_0[k] == value_view(
                            parts[k],
                        ),
                    imported@.len() == it.index(),
                    forall|k: int|
                        0 <= k < imported@.len() ==> (#[trigger] imported@[k])@
                            == whole->Array_0[k],
            {
                let ghost at = it.index() as int;
                assert(whole->Array_0[at] == value_view(item));
                assert(decreases_to!(whole => whole->Array_0[at]));
                imported.push(import(item));
            }
            let json = Json::Array(imported);
            assert(json@->Array_0 =~= whole->Array_0);
            json
        },
        Node::Object(entries) => {
            let ghost parts = entries@;
            let mut imported: Vec<(String, Json)> = Vec::new();
            for entry in it: entries
                invariant
                    it.seq() == parts,
                    whole == value_view(value),
                    whole is Object,
                    whole->Object_0.len() == parts.len(),
                    forall|k: int|
                        0 <= k < parts.len() ==> #[trigger] whole->Object_0[k] == (
                            parts[k].0@,
                            value_view(parts[k].1),
                        ),
                    imported@.len() == it.index(),
                    forall|k: int|
                        0 <= k < imported@.len() ==> (#[trigger] imported@[k]).0@
                            == whole->Object_0[k].0 && imported@[k].1@ == whole->Object_0[k].1,
            {
                let ghost at = it.index() as int;
                assert(whole->Object_0[at] == (entry.0@, value_view(entry.1)));
                assert(decreases_to!(whole => whole->Object_0[at].1));
                imported.push((entry.0, import(entry.1)));
            }
            let json = Json::Object(imported);
            assert(json@->Object_0 =~= whole->Object_0);
            json
        },
    }
}

fn export(json: Json) -> (value: serde_json::Value)
    requires
        writable(json@),
    ensures
        value_view(value) == json@,
    decreases json@,
{
    let ghost whole = json@;
    match json {
        Json::Array(items) => {
            let ghost parts = items@;
            let mut exported: Vec<serde_json::Value> = Vec::new();
            for item in it: items
                invariant
                    it.seq() == parts,
                    whole == json@,
                    whole is Array,
                    writable(whole),
                    whole->Array_0.len() == parts.len(),
                    forall|k: int|
                        0 <= k < parts.len() ==> #[trigger] whole->Array_0[k] == parts[k]@,
                    exported@.len() == it.index(),
                    forall|k: int|
                        0 <= k < exported@.len() ==> value_view(#[trigger] exported@[k])
                            == whole->Array_0[k],
            {
                let ghost at = it.index() as int;
                assert(whole->Array_0[at] == item@);
                assert(decreases_to!(whole => whole->Array_0[at]));
                exported.push(export(item));
            }
            let node = Node::Array(exported);
            assert(node_view(node)->Array_0 =~= whole->Array_0);
            close_value(node)
        },
        Json::Object(entries) => {
            let ghost parts = entries@;
            let mut exported: Vec<(String, serde_json::Value)> = Vec::new();
            for entry in it: entries
                invariant
                    it.seq() == parts,
                    whole == json@,
                    whole is Object,
                    writable(whole),
                    whole->Object_0.len() == parts.len(),
                    forall|k: int|
                        0 <= k < parts.len() ==> #[trigger] whole->Object_0[k] == (
                            parts[k].0@,
                            parts[k].1@,
                        ),
                    exported@.len() == it.index(),
                    forall|k: int|
                        0 <= k < exported@.len() ==> (#[trigger] exported@[k]).0@
                            == whole->Object_0[k].0 && value_view(exported@[k].1)
                            == whole->Object_0[k].1,
            {
                let ghost at = it.index() as int;
                assert(whole->Object_0[at] == (entry.0@, entry.1@));
                assert(decreases_to!(whole => whole->Object_0[at].1));
                exported.push((entry.0, export(entry.1)));
            }
            let node = Node::Object(exported);
            assert(node_view(node)->Object_0 =~= whole->Object_0);
            close_value(node)
        },
        leaf => close_value(Node::Leaf(leaf)),
    }
}

/// Parses one JSON document.
pub fn parse(bytes: &[u8]) -> (document: Result<Json, String>)
    ensures
        match document {
            Ok(json) => parsed(bytes@) == Ok::<JsonView, Seq<char>>(json@),
            Err(complaint) => parsed(bytes@) == Err::<JsonView, Seq<char>>(complaint@),
        },
{
    match value_from_slice(bytes) {
        Ok(value) => Ok(import(value)),
        Err(complaint) => Err(complaint),
    }
}

/// Writes a document as one line of compact text.
pub fn to_json_text(json: Json) -> (text: Result<String, String>)
    requires
        writable(json@),
    ensures
        text is Ok,
        text->Ok_0@ == written(json@),
        forall|i: int| 0 <= i < written(json@).len() ==> #[trigger] written(json@)[i] != '\n',
{
    let value = export(json);
    value_to_string(&value)
}

proof fn lemma_named_member(entries: Seq<(Seq<char>, JsonView)>, name: Seq<char>, i: int)
    requires
        distinct_names(entries),
        0 <= i < entries.len(),
        entries[i].0 == name,
    ensures
        JsonView::Object(entries).field(name) == Some(entries[i].1),
{
    let wanted = has_name(name);
    assert forall|k: int| 0 <= k < i implies !wanted(#[trigger] entries[k]) by {
        assert(entries[k].0 != entries[i].0);
    }
    lemma_first_where_at(entries, wanted, i);
}

/// In an object that names no member twice, every member is found by its name.
pub proof fn lemma_member_is_found(entries: Seq<(Seq<char>, JsonView)>, i: int)
    requires
        distinct_names(entries),
        0 <= i < entries.len(),
    ensures
        JsonView::Object(entries).field(entries[i].0) == Some(entries[i].1),
{
    lemma_named_member(entries, entries[i].0, i);
}

} // verus!
