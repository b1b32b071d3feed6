//! Key/value annotations attached to spans and to the reporting process.

use vstd::prelude::*;

verus! {

/// The value of a tag.
///
/// A number is carried as the bit pattern of an IEEE 754 binary64 value, so
/// that it can be stored, compared and put on the wire without arithmetic.
#[derive(Debug)]
pub enum TagValue {
    String(String),
    Bool(bool),
    Number(u64),
}

/// A named annotation.
#[derive(Debug)]
pub struct Tag {
    name: String,
    value: TagValue,
}

/// What a [`TagValue`] denotes.
pub ghost enum TagValueModel {
    String(Seq<char>),
    Bool(bool),
    Number(u64),
}

/// What a [`Tag`] denotes.
pub ghost struct TagModel {
    pub name: Seq<char>,
    pub value: TagValueModel,
}

impl DeepView for TagValue {
    type V = TagValueModel;

    open spec fn deep_view(&self) -> TagValueModel {
        match self {
            TagValue::String(s) => TagValueModel::String(s@),
            TagValue::Bool(b) => TagValueModel::Bool(*b),
            TagValue::Number(bits) => TagValueModel::Number(*bits),
        }
    }
}

impl Clone for TagValue {
    fn clone(&self) -> (copy: Self)
        ensures
            copy.deep_view() == self.deep_view(),
    {
        match self {
            TagValue::String(s) => TagValue::String(s.clone()),
            TagValue::Bool(b) => TagValue::Bool(*b),
            TagValue::Number(bits) => TagValue::Number(*bits),
        }
    }
}

impl TagValue {
    /// A text value.
    pub fn text(value: &str) -> (v: TagValue)
        ensures
            v.deep_view() == TagValueModel::String(value@),
    {
        TagValue::String(value.to_owned())
    }

    /// A numeric value, given as the bit pattern of a binary64 number.
    pub fn number_from_bits(bits: u64) -> (v: TagValue)
        ensures
            v.deep_view() == TagValueModel::Number(bits),
    {
        TagValue::Number(bits)
    }
}

impl From<&'static str> for TagValue {
    fn from(f: &'static str) -> (v: TagValue)
        ensures
            v.deep_view() == TagValueModel::String(f@),
    {
        TagValue::String(f.to_owned())
    }
}

impl vstd::std_specs::convert::FromSpecImpl<&'static str> for TagValue {
    open spec fn obeys_from_spec() -> bool {
        false
    }

    open spec fn from_spec(f: &'static str) -> TagValue {
        arbitrary()
    }
}

impl From<String> for TagValue {
    fn from(f: String) -> (v: TagValue) {
        TagValue::String(f)
    }
}

impl vstd::std_specs::convert::FromSpecImpl<String> for TagValue {
    open spec fn obeys_from_spec() -> bool {
        true
    }

    open spec fn from_spec(f: String) -> TagValue {
        TagValue::String(f)
    }
}

impl From<bool> for TagValue {
    fn from(f: bool) -> (v: TagValue) {
        TagValue::Bool(f)
    }
}

impl vstd::std_specs::convert::FromSpecImpl<bool> for TagValue {
    open spec fn obeys_from_spec() -> bool {
        true
    }

    open spec fn from_spec(f: bool) -> TagValue {
        TagValue::Bool(f)
    }
}

impl DeepView for Tag {
    type V = TagModel;

    closed spec fn deep_view(&self) -> TagModel {
        TagModel { name: self.name@, value: self.value.deep_view() }
    }
}

impl Clone for Tag {
    fn clone(&self) -> (copy: Self)
        ensures
            copy.deep_view() == self.deep_view(),
    {
        Tag { name: self.name.clone(), value: self.value.clone() }
    }
}

impl Tag {
    /// A tag called `name` that holds `value`.
    pub fn new(name: &str, value: TagValue) -> (tag: Tag)
        ensures
            tag.deep_view() == (TagModel { name: name@, value: value.deep_view() }),
    {
        Tag { name: name.to_owned(), value }
    }

    pub fn name(&self) -> (name: &str)
        ensures
            name@ == self.deep_view().name,
    {
        self.name.as_str()
    }

    pub fn value(&self) -> (value: &TagValue)
        ensures
            value.deep_view() == self.deep_view().value,
    {
        &self.value
    }

    /// Takes the tag apart into its name and its value.
    pub fn split(self) -> (parts: (String, TagValue))
        ensures
            parts.0@ == self.deep_view().name,
            parts.1.deep_view() == self.deep_view().value,
    {
        (self.name, self.value)
    }
}

/// Copies a list of tags, one by one.
pub fn clone_tags(tags: &Vec<Tag>) -> (copy: Vec<Tag>)
    ensures
        copy.deep_view() == tags.deep_view(),
{
    let mut copy: Vec<Tag> = Vec::new();
    let mut i: usize = 0;
    while i < tags.len()
        invariant
            i <= tags.len(),
            copy.len() == i,
            forall|j: int| 0 <= j < i ==> copy[j].deep_view() == tags[j].deep_view(),
        decreases tags.len() - i,
    {
        copy.push(tags[i].clone());
        i += 1;
    }
    assert(copy.deep_view() =~= tags.deep_view());
    copy
}

} // verus!
