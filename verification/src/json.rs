//! JSON objects as the envelopes of a call need them: the members of one
//! object, each with what it holds. Reading and quoting is `serde_json`'s.

use vstd::prelude::*;

verus! {

/// What one member of a JSON object holds.
#[derive(Debug, Clone, PartialEq, Eq)]
pub enum Field {
    /// `null`.
    Null,
    /// `true` or `false`.
    Bool(bool),
    /// A number, in the notation in which `serde_json` writes it: an integer
    /// that fits 64 bits as its decimal digits, any other number with a
    /// fraction or an exponent.
    Number(String),
    /// A string, unescaped.
    Text(String),
    /// An array, as compact JSON text.
    Array(String),
    /// An object, as compact JSON text.
    Object(String),
}

/// A [`Field`] as contracts see it.
pub enum FieldView {
    Null,
    Bool(bool),
    Number(Seq<char>),
    Text(Seq<char>),
    Array(Seq<char>),
    Object(Seq<char>),
}

impl View for Field {
    type V = FieldView;

    open spec fn view(&self) -> FieldView {
        match self {
            Field::Null => FieldView::Null,
            Field::Bool(b) => FieldView::Bool(*b),
            Field::Number(digits) => FieldView::Number(digits@),
            Field::Text(text) => FieldView::Text(text@),
            Field::Array(text) => FieldView::Array(text@),
            Field::Object(text) => FieldView::Object(text@),
        }
    }
}

impl DeepView for Field {
    type V = FieldView;

    open spec fn deep_view(&self) -> FieldView {
        self@
    }
}

impl Field {
    /// A second value that holds the same.
    pub fn duplicate(&self) -> (copy: Field)
        ensures
            copy@ == self@,
    {
        match self {
            Field::Null => Field::Null,
            Field::Bool(b) => Field::Bool(*b),
            Field::Number(digits) => Field::Number(digits.clone()),
            Field::Text(text) => Field::Text(text.clone()),
            Field::Array(text) => Field::Array(text.clone()),
            Field::Object(text) => Field::Object(text.clone()),
        }
    }
}

/// One member of a JSON object: its name and what it holds.
#[derive(Debug, Clone, PartialEq, Eq)]
pub struct Member {
    pub name: String,
    pub value: Field,
}

/// A [`Member`] as contracts see it.
pub struct MemberView {
    pub name: Seq<char>,
    pub value: FieldView,
}

impl View for Member {
    type V = MemberView;

    open spec fn view(&self) -> MemberView {
        MemberView { name: self.name@, value: self.value@ }
    }
}

impl DeepView for Member {
    type V = MemberView;

    open spec fn deep_view(&self) -> MemberView {
        self@
    }
}

/// What the first member called `name` holds, if there is such a member.
pub open spec fn lookup(members: Seq<MemberView>, name: Seq<char>) -> Option<FieldView>
    decreases members.len(),
{
    if members.len() == 0 {
        None
    } else if members[0].name == name {
        Some(members[0].value)
    } else {
        lookup(members.drop_first(), name)
    }
}

/// What the first member called `name` holds, if there is such a member.
pub fn find<'a>(members: &'a Vec<Member>, name: &str) -> (found: Option<&'a Field>)
    ensures
        match found {
            Some(field) => lookup(members.deep_view(), name@) == Some(field@),
            None => lookup(members.deep_view(), name@) is None,
        },
{
    let wanted = String::from_str(name);
    let ghost all = members.deep_view();
    let mut i: usize = 0;
    assert(all.skip(0) =~= all);
    while i < members.len()
        invariant
            i <= members.len(),
            wanted@ == name@,
            all == members.deep_view(),
            lookup(all, name@) == lookup(all.skip(i as int), name@),
        decreases members.len() - i,
    {
        proof {
            let rest = all.skip(i as int);
            assert(rest[0] == members@[i as int]@);
            assert(rest.drop_first() =~= all.skip(i as int + 1));
        }
        if members[i].name == wanted {
            return Some(&members[i].value);
        }
        i += 1;
    }
    assert(all.skip(i as int).len() == 0);
    None
}

/// An error of `serde_json`. Nothing is known of it but its description.
#[verifier::external_type_specification]
#[verifier::external_body]
pub struct ExJsonError(serde_json::Error);

/// The members of the object that `serde_json` reads from `text`, in the
/// order in which its map hands them out; `None` where it reads no object.
pub uninterp spec fn parsed_members(text: Seq<char>) -> Option<Seq<MemberView>>;

/// The JSON string literal that `serde_json` writes for `text`; `None` where
/// it reports an error.
pub uninterp spec fn quoted(text: Seq<char>) -> Option<Seq<char>>;

/// `serde_json::from_str`, reading `text` as one JSON object
/// (`serde_json::Map<String, serde_json::Value>`), with each member brought
/// into a [`Member`]: a number by `serde_json::Number`'s `to_string`, an array
/// or an object by `serde_json::Value`'s `to_string`.
///
/// Trusted: that the result depends on `text` alone. What is read is known
/// only as [`parsed_members`].
#[verifier::external_body]
fn read_object(text: &str) -> (read: Result<Vec<Member>, serde_json::Error>)
    ensures
        match read {
            Ok(members) => parsed_members(text@) == Some(members.deep_view()),
            Err(_) => parsed_members(text@) is None,
        },
{
    let map = serde_json::from_str::<serde_json::Map<String, serde_json::Value>>(text)?;
    Ok(map.into_iter().map(|(name, value)| Member { name, value: match value {
        serde_json::Value::Null => Field::Null,
        serde_json::Value::Bool(b) => Field::Bool(b),
        serde_json::Value::Number(n) => Field::Number(n.to_string()),
        serde_json::Value::String(s) => Field::Text(s),
        array @ serde_json::Value::Array(_) => Field::Array(array.to_string()),
        object @ serde_json::Value::Object(_) => Field::Object(object.to_string()),
    } }).collect())
}

/// `serde_json::to_string` on a string slice: the JSON string literal for
/// `text`, quotes included.
///
/// Trusted: that the result depends on `text` alone. The literal is known
/// only as [`quoted`].
#[verifier::external_body]
fn write_literal(text: &str) -> (written: Result<String, serde_json::Error>)
    ensures
        match written {
            Ok(literal) => quoted(text@) == Some(literal@),
            Err(_) => quoted(text@) is None,
        },
{
    serde_json::to_string(text)
}

/// The `to_string` of a `serde_json::Error`: its description, with the line
/// and column where it has them. Nothing is claimed of the text.
#[verifier::external_body]
fn describe(error: &serde_json::Error) -> String {
    error.to_string()
}

/// The members of the JSON object that `text` holds, or the description of
/// what keeps `text` from being one. Where the text writes two members of one
/// name, `serde_json` keeps the later.
pub fn parse_object(text: &str) -> (read: Result<Vec<Member>, String>)
    ensures
        match read {
            Ok(members) => parsed_members(text@) == Some(members.deep_view()),
            Err(_) => parsed_members(text@) is None,
        },
{
    match read_object(text) {
        Ok(members) => Ok(members),
        Err(error) => Err(describe(&error)),
    }
}

/// The JSON string literal for `text`, or the description of what kept it
/// from being written.
pub fn quote(text: &str) -> (written: Result<String, String>)
    ensures
        match written {
            Ok(literal) => quoted(text@) == Some(literal@),
            Err(_) => quoted(text@) is None,
        },
{
    match write_literal(text) {
        Ok(literal) => Ok(literal),
        Err(error) => Err(describe(&error)),
    }
}

} // verus!
