//! Paths to fields and the rule violations reported against them.

use vstd::prelude::*;

use crate::text::{
    decimal, join_strings, joined, owned, push_decimal, push_signed_decimal, signed_decimal,
    str_equal, texts,
};

verus! {

/// The position of a value inside a repeated field or a map.
#[derive(Clone, Debug, PartialEq, Eq)]
pub enum Subscript {
    /// An index into a repeated field.
    Index(u64),
    /// A key of a map keyed by booleans.
    BoolKey(bool),
    /// A key of a map keyed by signed integers.
    IntKey(i64),
    /// A key of a map keyed by unsigned integers.
    UintKey(u64),
    /// A key of a map keyed by strings.
    StringKey(String),
}

/// One step of a path to a field.
#[derive(Clone, Debug, PartialEq, Eq)]
pub struct FieldPathElement {
    /// The number of the field.
    pub field_number: Option<i32>,
    /// The name of the field.
    pub field_name: Option<String>,
    /// The type of the field, as a number of the descriptor's enumeration.
    pub field_type: Option<i32>,
    /// The type of the keys, where the field is a map.
    pub key_type: Option<i32>,
    /// The type of the values, where the field is a map.
    pub value_type: Option<i32>,
    /// The position inside the field, where the field is repeated or a map.
    pub subscript: Option<Subscript>,
}

/// A path from a message down to one of its fields.
#[derive(Clone, Debug, PartialEq, Eq)]
pub struct FieldPath {
    pub elements: Vec<FieldPathElement>,
}

/// A rule that a value broke.
#[derive(Clone, Debug, PartialEq, Eq)]
pub struct Violation {
    /// The path to the field whose value broke the rule.
    pub field: Option<FieldPath>,
    /// The path to the rule inside the rule set.
    pub rule: Option<FieldPath>,
    /// The identifier of the rule.
    pub rule_id: Option<String>,
    /// A message for people.
    pub message: Option<String>,
    /// Whether the violation is about the key of a map entry.
    pub for_key: Option<bool>,
}

/// The violations found in one message.
#[derive(Clone, Debug, PartialEq, Eq)]
pub struct Violations {
    pub violations: Vec<Violation>,
}

/// The text of an optional string: empty where there is none.
pub open spec fn text_or_empty(s: Option<String>) -> Seq<char> {
    match s {
        Some(s) => s@,
        None => Seq::<char>::empty(),
    }
}

impl Subscript {
    /// The subscript as text: the number, `true` or `false`, or the key.
    pub open spec fn text(self) -> Seq<char> {
        match self {
            Subscript::Index(i) => decimal(i as nat),
            Subscript::BoolKey(b) => if b {
                "true"@
            } else {
                "false"@
            },
            Subscript::IntKey(i) => signed_decimal(i as int),
            Subscript::UintKey(i) => decimal(i as nat),
            Subscript::StringKey(s) => s@,
        }
    }

    /// The subscript as text.
    #[must_use]
    pub fn to_string(&self) -> (r: String)
        ensures
            r@ == self.text(),
    {
        match self {
            Subscript::Index(i) => {
                let mut out = String::new();
                push_decimal(&mut out, *i as u128);
                assert(out@ =~= decimal(*i as nat));
                out
            },
            Subscript::BoolKey(b) => if *b {
                owned("true")
            } else {
                owned("false")
            },
            Subscript::IntKey(i) => {
                let mut out = String::new();
                push_signed_decimal(&mut out, *i as i128);
                assert(out@ =~= signed_decimal(*i as int));
                out
            },
            Subscript::UintKey(i) => {
                let mut out = String::new();
                push_decimal(&mut out, *i as u128);
                assert(out@ =~= decimal(*i as nat));
                out
            },
            Subscript::StringKey(s) => s.clone(),
        }
    }
}

impl FieldPathElement {
    /// The name of the field, or the empty text where it has none.
    pub open spec fn name_text(self) -> Seq<char> {
        text_or_empty(self.field_name)
    }

    /// What the element adds to a path: its name, if it has one, then its
    /// subscript, if it has one.
    pub open spec fn segments(self) -> Seq<Seq<char>> {
        (match self.field_name {
            Some(name) => seq![name@],
            None => Seq::<Seq<char>>::empty(),
        }) + (match self.subscript {
            Some(subscript) => seq![subscript.text()],
            None => Seq::<Seq<char>>::empty(),
        })
    }

    /// The name of the field, or the empty string where it has none.
    #[must_use]
    pub fn field_name(&self) -> (r: &str)
        ensures
            r@ == self.name_text(),
    {
        match &self.field_name {
            Some(name) => name.as_str(),
            None => {
                proof {
                    reveal_strlit("");
                }
                assert(""@ =~= Seq::<char>::empty());
                ""
            },
        }
    }
}

/// The segments of the first `count` elements of a path, in order.
pub open spec fn segments_of(elements: Seq<FieldPathElement>, count: nat) -> Seq<Seq<char>>
    decreases count,
{
    if count == 0 || count > elements.len() {
        Seq::<Seq<char>>::empty()
    } else {
        segments_of(elements, (count - 1) as nat) + elements[count - 1].segments()
    }
}

impl FieldPath {
    /// The names and subscripts along the path.
    pub open spec fn spec_field_path(self) -> Seq<Seq<char>> {
        segments_of(self.elements@, self.elements@.len())
    }

    /// The last element of the path, if the path is not empty.
    #[must_use]
    pub fn last_field(&self) -> (r: Option<&FieldPathElement>)
        ensures
            self.elements@.len() == 0 ==> r is None,
            self.elements@.len() > 0 ==> r == Some(&self.elements@[self.elements@.len() - 1]),
    {
        let n = self.elements.len();
        if n == 0 {
            None
        } else {
            Some(&self.elements[n - 1])
        }
    }

    /// The element before the last, if the path has two elements or more.
    #[must_use]
    pub fn parent_field(&self) -> (r: Option<&FieldPathElement>)
        ensures
            self.elements@.len() < 2 ==> r is None,
            self.elements@.len() >= 2 ==> r == Some(&self.elements@[self.elements@.len() - 2]),
    {
        let n = self.elements.len();
        if n < 2 {
            None
        } else {
            Some(&self.elements[n - 2])
        }
    }

    /// Whether the path has any element.
    #[must_use]
    pub fn has_fields(&self) -> (r: bool)
        ensures
            r == (self.elements@.len() > 0),
    {
        self.elements.len() != 0
    }

    /// The name of the last element, if the path is not empty.
    #[must_use]
    pub fn last_field_name(&self) -> (r: Option<&str>)
        ensures
            self.elements@.len() == 0 ==> r is None,
            self.elements@.len() > 0 ==> r is Some && r.unwrap()@
                == self.elements@[self.elements@.len() - 1].name_text(),
    {
        match self.last_field() {
            Some(element) => Some(element.field_name()),
            None => None,
        }
    }

    /// The first element called `name`, if there is one.
    #[must_use]
    pub fn get_field(&self, name: &str) -> (r: Option<&FieldPathElement>)
        ensures
            match r {
                Some(element) => exists|i: int|
                    0 <= i < self.elements@.len() && element == &self.elements@[i]
                        && self.elements@[i].name_text() == name@ && forall|j: int|
                        0 <= j < i ==> self.elements@[j].name_text() != name@,
                None => forall|i: int|
                    0 <= i < self.elements@.len() ==> self.elements@[i].name_text() != name@,
            },
    {
        let mut i: usize = 0;
        while i < self.elements.len()
            invariant
                i <= self.elements@.len(),
                forall|j: int| 0 <= j < i ==> self.elements@[j].name_text() != name@,
            decreases self.elements.len() - i,
        {
            if str_equal(self.elements[i].field_name(), name) {
                return Some(&self.elements[i]);
            }
            i = i + 1;
        }
        None
    }

    /// The names along the path, each followed by its subscript where it
    /// has one, such as `person`, `friends`, `0`, `address`.
    #[must_use]
    pub fn field_path(&self) -> (r: Vec<String>)
        ensures
            texts(r@) == self.spec_field_path(),
    {
        let mut path: Vec<String> = Vec::new();
        let mut i: usize = 0;
        assert(texts(path@) =~= segments_of(self.elements@, 0));
        while i < self.elements.len()
            invariant
                i <= self.elements@.len(),
                texts(path@) == segments_of(self.elements@, i as nat),
            decreases self.elements.len() - i,
        {
            let ghost before = texts(path@);
            let element = &self.elements[i];
            match &element.field_name {
                Some(name) => {
                    path.push(name.clone());
                },
                None => {},
            }
            match &element.subscript {
                Some(key) => {
                    path.push(key.to_string());
                },
                None => {},
            }
            assert(texts(path@) =~= before + element.segments());
            i = i + 1;
        }
        path
    }

    /// The path as one text, its segments joined by dots, such as
    /// `person.friends.0.address`.
    #[must_use]
    pub fn field_path_str(&self) -> (r: String)
        ensures
            r@ == joined(self.spec_field_path(), seq!['.']),
    {
        let path = self.field_path();
        proof {
            reveal_strlit(".");
            assert("."@ =~= seq!['.']);
        }
        join_strings(&path, ".")
    }
}

impl Violation {
    /// The identifier of the rule, or the empty string where it has none.
    #[must_use]
    pub fn rule_id(&self) -> (r: &str)
        ensures
            r@ == text_or_empty(self.rule_id),
    {
        match &self.rule_id {
            Some(id) => id.as_str(),
            None => {
                proof {
                    reveal_strlit("");
                }
                assert(""@ =~= Seq::<char>::empty());
                ""
            },
        }
    }

    /// The message, or the empty string where there is none.
    #[must_use]
    pub fn message(&self) -> (r: &str)
        ensures
            r@ == text_or_empty(self.message),
    {
        match &self.message {
            Some(message) => message.as_str(),
            None => {
                proof {
                    reveal_strlit("");
                }
                assert(""@ =~= Seq::<char>::empty());
                ""
            },
        }
    }

    /// The last element of the path to the field, if there is one.
    #[must_use]
    pub fn last_field(&self) -> (r: Option<&FieldPathElement>)
        ensures
            match self.field {
                Some(path) => if path.elements@.len() == 0 {
                    r is None
                } else {
                    r == Some(&path.elements@[path.elements@.len() - 1])
                },
                None => r is None,
            },
    {
        match &self.field {
            Some(path) => path.last_field(),
            None => None,
        }
    }

    /// The element before the last of the path to the field, if there is one.
    #[must_use]
    pub fn parent_field(&self) -> (r: Option<&FieldPathElement>)
        ensures
            match self.field {
                Some(path) => if path.elements@.len() < 2 {
                    r is None
                } else {
                    r == Some(&path.elements@[path.elements@.len() - 2])
                },
                None => r is None,
            },
    {
        match &self.field {
            Some(path) => path.parent_field(),
            None => None,
        }
    }

    /// The first element of the path to the field called `name`, if there
    /// is one.
    #[must_use]
    pub fn get_field(&self, name: &str) -> (r: Option<&FieldPathElement>)
        ensures
            match (self.field, r) {
                (Some(path), Some(element)) => exists|i: int|
                    0 <= i < path.elements@.len() && element == &path.elements@[i]
                        && path.elements@[i].name_text() == name@ && forall|j: int|
                        0 <= j < i ==> path.elements@[j].name_text() != name@,
                (Some(path), None) => forall|i: int|
                    0 <= i < path.elements@.len() ==> path.elements@[i].name_text() != name@,
                (None, Some(_)) => false,
                (None, None) => true,
            },
    {
        match &self.field {
            Some(path) => path.get_field(name),
            None => None,
        }
    }

    /// The names and subscripts along the path to the field, if the
    /// violation has one.
    #[must_use]
    pub fn field_path(&self) -> (r: Option<Vec<String>>)
        ensures
            match self.field {
                Some(path) => r is Some && texts(r.unwrap()@) == path.spec_field_path(),
                None => r is None,
            },
    {
        match &self.field {
            Some(path) => Some(path.field_path()),
            None => None,
        }
    }

    /// The names along the path to the rule, such as `string`, `max_len`,
    /// if the violation has one.
    #[must_use]
    pub fn rule_path(&self) -> (r: Option<Vec<String>>)
        ensures
            match self.rule {
                Some(path) => r is Some && texts(r.unwrap()@) == path.spec_field_path(),
                None => r is None,
            },
    {
        match &self.rule {
            Some(path) => Some(path.field_path()),
            None => None,
        }
    }

    /// The path to the field as one text, joined by dots, if the violation
    /// has one.
    #[must_use]
    pub fn field_path_str(&self) -> (r: Option<String>)
        ensures
            match self.field {
                Some(path) => r is Some && r.unwrap()@ == joined(
                    path.spec_field_path(),
                    seq!['.'],
                ),
                None => r is None,
            },
    {
        match &self.field {
            Some(path) => Some(path.field_path_str()),
            None => None,
        }
    }

    /// The path to the rule as one text, joined by dots, if the violation
    /// has one.
    #[must_use]
    pub fn rule_path_str(&self) -> (r: Option<String>)
        ensures
            match self.rule {
                Some(path) => r is Some && r.unwrap()@ == joined(
                    path.spec_field_path(),
                    seq!['.'],
                ),
                None => r is None,
            },
    {
        match &self.rule {
            Some(path) => Some(path.field_path_str()),
            None => None,
        }
    }

    /// Whether the violation has a path to a field. A rule on a whole
    /// message has none.
    #[must_use]
    pub fn has_fields(&self) -> (r: bool)
        ensures
            r == (self.field is Some),
    {
        self.field.is_some()
    }

    /// Whether the path to the field has an element called `name`.
    #[must_use]
    pub fn has_field_by_name(&self, name: &str) -> (r: bool)
        ensures
            r == match self.field {
                Some(path) => exists|i: int|
                    0 <= i < path.elements@.len() && path.elements@[i].name_text() == name@,
                None => false,
            },
    {
        match &self.field {
            Some(path) => path.get_field(name).is_some(),
            None => false,
        }
    }

    /// The name of the field that broke the rule: the name of the last
    /// element of the path, if there is one.
    #[must_use]
    pub fn field_name(&self) -> (r: Option<&str>)
        ensures
            match self.field {
                Some(path) => if path.elements@.len() == 0 {
                    r is None
                } else {
                    r is Some && r.unwrap()@ == path.elements@[path.elements@.len()
                        - 1].name_text()
                },
                None => r is None,
            },
    {
        match self.last_field() {
            Some(element) => Some(element.field_name()),
            None => None,
        }
    }

    /// The text of the path to the field, if the violation has a path.
    pub open spec fn spec_field_path_text(self) -> Option<Seq<char>> {
        match self.field {
            Some(path) => Some(joined(path.spec_field_path(), seq!['.'])),
            None => None,
        }
    }
}

impl Violations {
    /// An empty collection with room for `capacity` violations.
    #[must_use]
    pub fn with_capacity(capacity: usize) -> (r: Self)
        ensures
            r.violations@.len() == 0,
    {
        Self { violations: Vec::with_capacity(capacity) }
    }

    /// An empty collection.
    #[must_use]
    pub fn new() -> (r: Self)
        ensures
            r.violations@.len() == 0,
    {
        Self { violations: Vec::new() }
    }

    /// The first violation of the rule called `rule_id`, if there is one.
    #[must_use]
    pub fn violation_by_rule_id(&self, rule_id: &str) -> (r: Option<&Violation>)
        ensures
            match r {
                Some(violation) => exists|i: int|
                    0 <= i < self.violations@.len() && violation == &self.violations@[i]
                        && text_or_empty(self.violations@[i].rule_id) == rule_id@ && forall|j: int|
                        0 <= j < i ==> text_or_empty(self.violations@[j].rule_id) != rule_id@,
                None => forall|i: int|
                    0 <= i < self.violations@.len() ==> text_or_empty(self.violations@[i].rule_id)
                        != rule_id@,
            },
    {
        let mut i: usize = 0;
        while i < self.violations.len()
            invariant
                i <= self.violations@.len(),
                forall|j: int|
                    0 <= j < i ==> text_or_empty(self.violations@[j].rule_id) != rule_id@,
            decreases self.violations.len() - i,
        {
            if str_equal(self.violations[i].rule_id(), rule_id) {
                return Some(&self.violations[i]);
            }
            i = i + 1;
        }
        None
    }

    /// The first violation whose path to the field, joined by dots, is
    /// `path`. Subscripts are part of the path.
    #[must_use]
    pub fn violation_by_field_path(&self, path: &str) -> (r: Option<&Violation>)
        ensures
            match r {
                Some(violation) => exists|i: int|
                    0 <= i < self.violations@.len() && violation == &self.violations@[i]
                        && self.violations@[i].spec_field_path_text() == Some(path@)
                        && forall|j: int|
                        0 <= j < i ==> self.violations@[j].spec_field_path_text() != Some(path@),
                None => forall|i: int|
                    0 <= i < self.violations@.len() ==> self.violations@[i].spec_field_path_text()
                        != Some(path@),
            },
    {
        let mut i: usize = 0;
        while i < self.violations.len()
            invariant
                i <= self.violations@.len(),
                forall|j: int|
                    0 <= j < i ==> self.violations@[j].spec_field_path_text() != Some(path@),
            decreases self.violations.len() - i,
        {
            match self.violations[i].field_path_str() {
                Some(text) => {
                    if str_equal(text.as_str(), path) {
                        return Some(&self.violations[i]);
                    }
                },
                None => {},
            }
            i = i + 1;
        }
        None
    }

    /// The message of a status that reports these violations: the message
    /// of the violation where there is exactly one and it has a message,
    /// else "Validation failure".
    pub open spec fn spec_status_message(self) -> Seq<char> {
        if self.violations@.len() == 1 && text_or_empty(self.violations@[0].message).len() > 0 {
            text_or_empty(self.violations@[0].message)
        } else {
            "Validation failure"@
        }
    }

    /// The message of a status that reports these violations.
    #[must_use]
    pub fn status_message(&self) -> (r: String)
        ensures
            r@ == self.spec_status_message(),
    {
        if self.violations.len() == 1 {
            let message = self.violations[0].message();
            if message.unicode_len() > 0 {
                return owned(message);
            }
        }
        owned("Validation failure")
    }
}

impl Violation {
    /// The message of a status that reports this violation: its own
    /// message, or "Validation failure" where it has none.
    pub open spec fn spec_status_message(self) -> Seq<char> {
        if text_or_empty(self.message).len() > 0 {
            text_or_empty(self.message)
        } else {
            "Validation failure"@
        }
    }

    /// The message of a status that reports this violation.
    #[must_use]
    pub fn status_message(&self) -> (r: String)
        ensures
            r@ == self.spec_status_message(),
    {
        let message = self.message();
        if message.unicode_len() > 0 {
            owned(message)
        } else {
            owned("Validation failure")
        }
    }
}

} // verus!
