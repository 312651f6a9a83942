//! JSON documents as plain trees, and their text form.
//!
//! Reading and writing JSON text is serde_json's work. The documents
//! themselves are held here as a tree of plain values, `Json`, so that the
//! code that builds and inspects messages can be reasoned about. An object
//! keeps its fields in the order in which they were written.

use vstd::prelude::*;
use crate::text::same;

verus! {

/// `serde_json::Number`, a JSON number: carried, never looked into.
#[verifier::external_type_specification]
#[verifier::external_body]
pub struct ExNumber(serde_json::Number);

/// `serde_json::Value`, a JSON document as serde_json holds it: what its
/// reader hands out and its writer takes.
#[verifier::external_type_specification]
#[verifier::external_body]
pub struct ExValue(serde_json::Value);

/// `serde_json::Error`, why reading or writing failed: only told apart
/// from success.
#[verifier::external_type_specification]
#[verifier::external_body]
pub struct ExJsonError(serde_json::Error);

/// `Clone` for `serde_json::Number` is derived: the copy holds the same
/// number.
pub assume_specification[ <serde_json::Number as Clone>::clone ](n: &serde_json::Number) -> (copy:
    serde_json::Number)
    ensures
        copy == *n,
;

/// A JSON document. Numbers are carried as serde_json holds them; nothing
/// here looks inside one.
#[derive(Debug, PartialEq, Eq)]
pub enum Json {
    Null,
    Bool(bool),
    Number(serde_json::Number),
    Str(String),
    Array(Vec<Json>),
    Object(Vec<(String, Json)>),
}

/// The mathematical value of a JSON document.
pub enum JsonView {
    Null,
    Bool(bool),
    Number(serde_json::Number),
    Str(Seq<char>),
    Array(Seq<JsonView>),
    Object(Seq<(Seq<char>, JsonView)>),
}

/// The value of a document: that of each leaf, with strings as sequences
/// of characters.
pub open spec fn tree_view(tree: Json) -> JsonView
    decreases tree,
{
    match tree {
        Json::Null => JsonView::Null,
        Json::Bool(b) => JsonView::Bool(b),
        Json::Number(n) => JsonView::Number(n),
        Json::Str(s) => JsonView::Str(s@),
        Json::Array(items) => JsonView::Array(
            Seq::new(
                items@.len(),
                |i: int|
                    if 0 <= i < items@.len() {
                        tree_view(items@[i])
                    } else {
                        JsonView::Null
                    },
            ),
        ),
        Json::Object(fields) => JsonView::Object(
            Seq::new(
                fields@.len(),
                |i: int|
                    if 0 <= i < fields@.len() {
                        (fields@[i].0@, tree_view(fields@[i].1))
                    } else {
                        (Seq::empty(), JsonView::Null)
                    },
            ),
        ),
    }
}

impl View for Json {
    type V = JsonView;

    open spec fn view(&self) -> JsonView {
        tree_view(*self)
    }
}

impl Clone for Json {
    fn clone(&self) -> (copy: Self)
        ensures
            copy@ == self@,
        decreases self,
    {
        match self {
            Json::Null => Json::Null,
            Json::Bool(b) => Json::Bool(*b),
            Json::Number(n) => Json::Number(n.clone()),
            Json::Str(s) => Json::Str(s.clone()),
            Json::Array(items) => {
                let mut out: Vec<Json> = Vec::new();
                let mut i: usize = 0;
                while i < items.len()
                    invariant
                        *self == Json::Array(*items),
                        i <= items@.len(),
                        out@.len() == i,
                        forall|k: int| 0 <= k < i ==> out@[k]@ == items@[k]@,
                    decreases items@.len() - i,
                {
                    proof {
                        vstd::std_specs::vec::axiom_vec_index_decreases(*items, i as int);
                        assert(decreases_to!(*self => self->Array_0));
                    }
                    out.push(items[i].clone());
                    i += 1;
                }
                let copy = Json::Array(out);
                assert(copy@->Array_0 =~= self@->Array_0);
                copy
            },
            Json::Object(fields) => {
                let mut out: Vec<(String, Json)> = Vec::new();
                let mut i: usize = 0;
                while i < fields.len()
                    invariant
                        *self == Json::Object(*fields),
                        i <= fields@.len(),
                        out@.len() == i,
                        forall|k: int|
                            0 <= k < i ==> out@[k].0@ == fields@[k].0@ && out@[k].1@
                                == fields@[k].1@,
                    decreases fields@.len() - i,
                {
                    proof {
                        vstd::std_specs::vec::axiom_vec_index_decreases(*fields, i as int);
                        assert(decreases_to!(*self => self->Object_0));
                    }
                    out.push((fields[i].0.clone(), fields[i].1.clone()));
                    i += 1;
                }
                let copy = Json::Object(out);
                assert(copy@->Object_0 =~= self@->Object_0);
                copy
            },
        }
    }
}

/// `fields` holds `key` at index `i` and nowhere after it.
pub open spec fn last_at(fields: Seq<(Seq<char>, JsonView)>, key: Seq<char>, i: int) -> bool {
    &&& 0 <= i < fields.len()
    &&& fields[i].0 == key
    &&& forall|j: int| i < j < fields.len() ==> fields[j].0 != key
}

/// The value of the field named `key`, if there is one; where several
/// fields have that name, the last of them counts, as in the text of the
/// document.
pub open spec fn lookup(fields: Seq<(Seq<char>, JsonView)>, key: Seq<char>) -> Option<JsonView> {
    if exists|i: int| last_at(fields, key, i) {
        Some(fields[choose|i: int| last_at(fields, key, i)].1)
    } else {
        None
    }
}

/// The field named `key` is the one at `i`.
pub proof fn lemma_lookup_at(fields: Seq<(Seq<char>, JsonView)>, key: Seq<char>, i: int)
    requires
        last_at(fields, key, i),
    ensures
        lookup(fields, key) == Some(fields[i].1),
{
    let c = choose|c: int| last_at(fields, key, c);
    if c < i {
        assert(fields[i].0 != key);
    } else if i < c {
        assert(fields[c].0 != key);
    }
}

/// No field is named `key`.
pub proof fn lemma_lookup_absent(fields: Seq<(Seq<char>, JsonView)>, key: Seq<char>)
    requires
        forall|j: int| 0 <= j < fields.len() ==> fields[j].0 != key,
    ensures
        lookup(fields, key) is None,
{
}

impl JsonView {
    /// The fields of an object; of anything else, none.
    pub open spec fn fields(self) -> Seq<(Seq<char>, JsonView)> {
        match self {
            JsonView::Object(fields) => fields,
            _ => Seq::empty(),
        }
    }

    /// The value of the field named `key` of an object.
    pub open spec fn field(self, key: Seq<char>) -> Option<JsonView> {
        lookup(self.fields(), key)
    }
}

/// The document that `bytes` spell: what serde_json reads from them, as a
/// tree; `None` where they are no JSON text.
pub uninterp spec fn json_parse(bytes: Seq<u8>) -> Option<JsonView>;

/// The compact JSON text of a document: what serde_json writes for it;
/// `None` where it declines to write.
pub uninterp spec fn json_text(tree: JsonView) -> Option<Seq<u8>>;

/// The document that a `serde_json::Value` holds, as a tree.
pub uninterp spec fn value_tree(value: serde_json::Value) -> JsonView;

/// The compact JSON text that serde_json writes for a `serde_json::Value`,
/// if it writes one.
pub uninterp spec fn value_text(value: serde_json::Value) -> Option<Seq<u8>>;

/// Calls `serde_json::from_slice` for a `serde_json::Value`. The contract
/// only names the outcome: the document read is the one that the value
/// holds.
#[verifier::external_body]
fn parse_value(bytes: &[u8]) -> (r: Result<serde_json::Value, serde_json::Error>)
    ensures
        r matches Ok(value) ==> json_parse(bytes@) == Some(value_tree(value)),
        r is Err ==> json_parse(bytes@) is None,
{
    serde_json::from_slice::<serde_json::Value>(bytes)
}

/// Takes a `serde_json::Value` apart, variant by variant, into a tree; an
/// object's entries come in the order in which its map hands them out. The
/// contract only names the tree: it is what the value holds.
#[verifier::external_body]
fn tree_of_value(value: serde_json::Value) -> (tree: Json)
    ensures
        tree@ == value_tree(value),
{
    match value {
        serde_json::Value::Null => Json::Null,
        serde_json::Value::Bool(b) => Json::Bool(b),
        serde_json::Value::Number(n) => Json::Number(n),
        serde_json::Value::String(s) => Json::Str(s),
        serde_json::Value::Array(a) => Json::Array(a.into_iter().map(tree_of_value).collect()),
        serde_json::Value::Object(m) => Json::Object(
            m.into_iter().map(|(k, v)| (k, tree_of_value(v))).collect(),
        ),
    }
}

/// Builds the `serde_json::Value` of a tree, variant by variant; an object's
/// fields are collected into a `serde_json::Map` in their order, so that of
/// two fields with one name the map keeps the later value. The contract only
/// names the text of the value built: it is the text of the tree.
#[verifier::external_body]
fn value_of_tree(tree: &Json) -> (value: serde_json::Value)
    ensures
        value_text(value) == json_text(tree@),
{
    match tree {
        Json::Null => serde_json::Value::Null,
        Json::Bool(b) => serde_json::Value::Bool(*b),
        Json::Number(n) => serde_json::Value::Number(n.clone()),
        Json::Str(s) => serde_json::Value::String(s.clone()),
        Json::Array(a) => serde_json::Value::Array(a.iter().map(value_of_tree).collect()),
        Json::Object(m) => serde_json::Value::Object(
            m.iter().map(|(k, v)| (k.clone(), value_of_tree(v))).collect(),
        ),
    }
}

/// Calls `serde_json::to_vec` on a `serde_json::Value`. The contract only
/// names the outcome.
#[verifier::external_body]
fn print_value(value: &serde_json::Value) -> (r: Result<Vec<u8>, serde_json::Error>)
    ensures
        r matches Ok(bytes) ==> value_text(*value) == Some(bytes@),
        r is Err ==> value_text(*value) is None,
{
    serde_json::to_vec(value)
}

impl Json {
    /// Reads JSON text.
    pub fn parse(bytes: &[u8]) -> (r: Option<Json>)
        ensures
            r matches Some(tree) ==> json_parse(bytes@) == Some(tree@),
            r is None ==> json_parse(bytes@) is None,
    {
        match parse_value(bytes) {
            Ok(value) => Some(tree_of_value(value)),
            Err(_) => None,
        }
    }

    /// Writes the document as compact JSON text.
    pub fn to_bytes(&self) -> (r: Option<Vec<u8>>)
        ensures
            r matches Some(bytes) ==> json_text(self@) == Some(bytes@),
            r is None ==> json_text(self@) is None,
    {
        let value = value_of_tree(self);
        match print_value(&value) {
            Ok(bytes) => Some(bytes),
            Err(_) => None,
        }
    }

    /// A JSON string holding `text`.
    pub fn string(text: &str) -> (tree: Json)
        ensures
            tree@ == JsonView::Str(text@),
    {
        Json::Str(text.to_owned())
    }

    /// The text of a JSON string; `None` for any other document.
    pub fn as_str(&self) -> (r: Option<&String>)
        ensures
            match self@ {
                JsonView::Str(text) => r matches Some(s) && s@ == text,
                _ => r is None,
            },
    {
        match self {
            Json::Str(s) => Some(s),
            _ => None,
        }
    }

    /// Whether the document is `null`.
    pub fn is_null(&self) -> (r: bool)
        ensures
            r == (self@ is Null),
    {
        match self {
            Json::Null => true,
            _ => false,
        }
    }

    /// The field named `key` of an object, the last of them where there are
    /// several; `None` where there is no such field or the document is no
    /// object.
    pub fn get(&self, key: &str) -> (r: Option<&Json>)
        ensures
            match self@.field(key@) {
                Some(value) => r matches Some(found) && found@ == value,
                None => r is None,
            },
    {
        match self {
            Json::Object(fields) => {
                let mut i: usize = fields.len();
                while i > 0
                    invariant
                        i <= fields@.len(),
                        self@.fields().len() == fields@.len(),
                        forall|j: int|
                            0 <= j < fields@.len() ==> self@.fields()[j] == (
                                fields@[j].0@,
                                fields@[j].1@,
                            ),
                        forall|j: int| i <= j < fields@.len() ==> self@.fields()[j].0 != key@,
                    decreases i,
                {
                    i -= 1;
                    if same(fields[i].0.as_str(), key) {
                        proof {
                            lemma_lookup_at(self@.fields(), key@, i as int);
                        }
                        return Some(&fields[i].1);
                    }
                }
                proof {
                    lemma_lookup_absent(self@.fields(), key@);
                }
                None
            },
            _ => {
                proof {
                    lemma_lookup_absent(self@.fields(), key@);
                }
                None
            },
        }
    }

    /// The only field of an object that has exactly one; `None` for any
    /// other document.
    pub fn single_field(&self) -> (r: Option<(&String, &Json)>)
        ensures
            match self@ {
                JsonView::Object(fields) if fields.len() == 1 => r matches Some((key, value))
                    && key@ == fields[0].0 && value@ == fields[0].1,
                _ => r is None,
            },
    {
        match self {
            Json::Object(fields) => {
                if fields.len() == 1 {
                    Some((&fields[0].0, &fields[0].1))
                } else {
                    None
                }
            },
            _ => None,
        }
    }
}

} // verus!
