//! The two envelopes of a call: the request that names a method, and the
//! response that carries what the method returned.

use crate::decimal::{i32_decimal, i32_of_decimal, int_decimal, lemma_i32_of_decimal, parse_i32};
use crate::error::{CallError, DecodeFault, DecodeFaultView, Slot};
use crate::json::{
    find, lookup, parse_object, parsed_members, quote, quoted, Field, FieldView, Member,
    MemberView,
};
use vstd::prelude::*;
use vstd::string::*;

verus! {

/// The text that `slot` holds among `members`: a fault where the member is
/// missing or holds no string.
pub open spec fn text_member(members: Seq<MemberView>, slot: Slot) -> Result<
    Seq<char>,
    DecodeFaultView,
> {
    match lookup(members, slot.spec_name()) {
        None => Err(DecodeFaultView::Missing(slot)),
        Some(FieldView::Text(text)) => Ok(text),
        Some(_) => Err(DecodeFaultView::Mistyped(slot)),
    }
}

/// The `i32` that `slot` holds among `members`: a fault where the member is
/// missing or holds anything but an integer of 32 bits.
pub open spec fn i32_member(members: Seq<MemberView>, slot: Slot) -> Result<i32, DecodeFaultView> {
    match lookup(members, slot.spec_name()) {
        None => Err(DecodeFaultView::Missing(slot)),
        Some(FieldView::Number(digits)) => match i32_of_decimal(digits) {
            Some(value) => Ok(value),
            None => Err(DecodeFaultView::Mistyped(slot)),
        },
        Some(_) => Err(DecodeFaultView::Mistyped(slot)),
    }
}

/// What `slot` holds among `members`, of whatever type: a fault where the
/// member is missing.
pub open spec fn any_member(members: Seq<MemberView>, slot: Slot) -> Result<
    FieldView,
    DecodeFaultView,
> {
    match lookup(members, slot.spec_name()) {
        None => Err(DecodeFaultView::Missing(slot)),
        Some(field) => Ok(field),
    }
}

/// The text that `slot` holds among `members`.
pub fn read_text(members: &Vec<Member>, slot: Slot) -> (read: Result<String, DecodeFault>)
    ensures
        match read {
            Ok(text) => text_member(members.deep_view(), slot) == Ok::<Seq<char>, DecodeFaultView>(
                text@,
            ),
            Err(fault) => text_member(members.deep_view(), slot) == Err::<
                Seq<char>,
                DecodeFaultView,
            >(fault@),
        },
{
    match find(members, slot.name()) {
        None => Err(DecodeFault::Missing(slot)),
        Some(Field::Text(text)) => Ok(text.clone()),
        Some(_) => Err(DecodeFault::Mistyped(slot)),
    }
}

/// The `i32` that `slot` holds among `members`.
pub fn read_i32(members: &Vec<Member>, slot: Slot) -> (read: Result<i32, DecodeFault>)
    ensures
        match read {
            Ok(value) => i32_member(members.deep_view(), slot) == Ok::<i32, DecodeFaultView>(
                value,
            ),
            Err(fault) => i32_member(members.deep_view(), slot) == Err::<i32, DecodeFaultView>(
                fault@,
            ),
        },
{
    match find(members, slot.name()) {
        None => Err(DecodeFault::Missing(slot)),
        Some(Field::Number(digits)) => match parse_i32(digits.as_str()) {
            Some(value) => Ok(value),
            None => Err(DecodeFault::Mistyped(slot)),
        },
        Some(_) => Err(DecodeFault::Mistyped(slot)),
    }
}

/// What `slot` holds among `members`.
pub fn read_any(members: &Vec<Member>, slot: Slot) -> (read: Result<Field, DecodeFault>)
    ensures
        match read {
            Ok(field) => any_member(members.deep_view(), slot) == Ok::<FieldView, DecodeFaultView>(
                field@,
            ),
            Err(fault) => any_member(members.deep_view(), slot) == Err::<
                FieldView,
                DecodeFaultView,
            >(fault@),
        },
{
    match find(members, slot.name()) {
        None => Err(DecodeFault::Missing(slot)),
        Some(field) => Ok(field.duplicate()),
    }
}

/// The request envelope: which method is called, under which protocol
/// version and request number.
#[derive(Debug, Clone, PartialEq, Eq)]
pub struct MethodCall {
    pub jsonrpc: String,
    pub id: i32,
    pub method: String,
}

/// A [`MethodCall`] as contracts see it.
pub struct MethodCallView {
    pub jsonrpc: Seq<char>,
    pub id: i32,
    pub method: Seq<char>,
}

impl View for MethodCall {
    type V = MethodCallView;

    open spec fn view(&self) -> MethodCallView {
        MethodCallView { jsonrpc: self.jsonrpc@, id: self.id, method: self.method@ }
    }
}

/// The text of a request envelope, given the JSON string literals of its
/// version and of its method: one object of three members and nothing else.
pub open spec fn envelope_text(
    version_literal: Seq<char>,
    id: int,
    method_literal: Seq<char>,
) -> Seq<char> {
    "{\"jsonrpc\":"@ + version_literal + ",\"id\":"@ + int_decimal(id) + ",\"method\":"@
        + method_literal + "}"@
}

/// Writes a request envelope around the JSON string literals of its version
/// and of its method.
pub fn write_envelope(version_literal: &str, id: i32, method_literal: &str) -> (text: String)
    ensures
        text@ == envelope_text(version_literal@, id as int, method_literal@),
{
    let mut text = String::from_str("{\"jsonrpc\":");
    text.append(version_literal);
    text.append(",\"id\":");
    let digits = i32_decimal(id);
    text.append(digits.as_str());
    text.append(",\"method\":");
    text.append(method_literal);
    text.append("}");
    text
}

impl MethodCallView {
    /// The envelope's text; `None` where the JSON writer fails on the
    /// version or on the method.
    pub open spec fn encoded(self) -> Option<Seq<char>> {
        match (quoted(self.jsonrpc), quoted(self.method)) {
            (Some(version_literal), Some(method_literal)) => Some(
                envelope_text(version_literal, self.id as int, method_literal),
            ),
            _ => None,
        }
    }

    /// The members that the envelope is made of, as a JSON reader hands them
    /// out.
    pub open spec fn members(self) -> Seq<MemberView> {
        seq![
            MemberView { name: Slot::Version.spec_name(), value: FieldView::Text(self.jsonrpc) },
            MemberView {
                name: Slot::Id.spec_name(),
                value: FieldView::Number(int_decimal(self.id as int)),
            },
            MemberView { name: Slot::Method.spec_name(), value: FieldView::Text(self.method) },
        ]
    }
}

/// The request that `members` make up: a version that is a string, a
/// request number that is an `i32`, a method that is a string. Members of
/// other names are passed over. Of several faults the first in this order is
/// reported.
pub open spec fn request_of(members: Seq<MemberView>) -> Result<MethodCallView, DecodeFaultView> {
    match text_member(members, Slot::Version) {
        Err(fault) => Err(fault),
        Ok(jsonrpc) => match i32_member(members, Slot::Id) {
            Err(fault) => Err(fault),
            Ok(id) => match text_member(members, Slot::Method) {
                Err(fault) => Err(fault),
                Ok(method) => Ok(MethodCallView { jsonrpc, id, method }),
            },
        },
    }
}

impl MethodCall {
    /// The call of `method` as this client makes it: version `2.0`, request
    /// number 1.
    pub fn new(method: &str) -> (call: MethodCall)
        ensures
            call@ == (MethodCallView { jsonrpc: "2.0"@, id: 1, method: method@ }),
    {
        MethodCall { jsonrpc: String::from_str("2.0"), id: 1, method: String::from_str(method) }
    }

    /// The envelope as JSON text.
    pub fn encode(&self) -> (written: Result<String, CallError>)
        ensures
            match written {
                Ok(text) => self@.encoded() == Some(text@),
                Err(error) => self@.encoded() is None && error@ is Encode,
            },
    {
        let version_literal = match quote(self.jsonrpc.as_str()) {
            Ok(literal) => literal,
            Err(description) => {
                return Err(CallError::Encode(description));
            },
        };
        let method_literal = match quote(self.method.as_str()) {
            Ok(literal) => literal,
            Err(description) => {
                return Err(CallError::Encode(description));
            },
        };
        Ok(write_envelope(version_literal.as_str(), self.id, method_literal.as_str()))
    }

    /// The request that `members` make up.
    pub fn from_members(members: &Vec<Member>) -> (read: Result<MethodCall, DecodeFault>)
        ensures
            match read {
                Ok(call) => request_of(members.deep_view()) == Ok::<
                    MethodCallView,
                    DecodeFaultView,
                >(call@),
                Err(fault) => request_of(members.deep_view()) == Err::<
                    MethodCallView,
                    DecodeFaultView,
                >(fault@),
            },
    {
        let jsonrpc = match read_text(members, Slot::Version) {
            Ok(text) => text,
            Err(fault) => {
                return Err(fault);
            },
        };
        let id = match read_i32(members, Slot::Id) {
            Ok(value) => value,
            Err(fault) => {
                return Err(fault);
            },
        };
        let method = match read_text(members, Slot::Method) {
            Ok(text) => text,
            Err(fault) => {
                return Err(fault);
            },
        };
        Ok(MethodCall { jsonrpc, id, method })
    }

    /// The request that `text` holds.
    ///
    /// A text that is no JSON object is a fault of syntax; an object is read
    /// as [`request_of`] says.
    pub fn decode(text: &str) -> (read: Result<MethodCall, DecodeFault>)
        ensures
            match read {
                Ok(call) => parsed_members(text@) is Some && request_of(
                    parsed_members(text@)->0,
                ) == Ok::<MethodCallView, DecodeFaultView>(call@),
                Err(fault) => match parsed_members(text@) {
                    None => fault@ is Syntax,
                    Some(members) => request_of(members) == Err::<
                        MethodCallView,
                        DecodeFaultView,
                    >(fault@),
                },
            },
    {
        match parse_object(text) {
            Err(description) => Err(DecodeFault::Syntax(description)),
            Ok(members) => MethodCall::from_members(&members),
        }
    }
}

/// The response envelope: what the server returned for a request.
#[derive(Debug, Clone, PartialEq, Eq)]
pub struct ApiResponse {
    pub jsonrpc: String,
    pub id: i32,
    pub result: Field,
}

/// An [`ApiResponse`] as contracts see it.
pub struct ApiResponseView {
    pub jsonrpc: Seq<char>,
    pub id: i32,
    pub result: FieldView,
}

impl View for ApiResponse {
    type V = ApiResponseView;

    open spec fn view(&self) -> ApiResponseView {
        ApiResponseView { jsonrpc: self.jsonrpc@, id: self.id, result: self.result@ }
    }
}

/// The response that `members` make up: a version that is a string, a
/// request number that is an `i32`, and a result of whatever type. Members
/// of other names are passed over; neither the version nor the number is held
/// against a request. Of several faults the first in this order is reported.
pub open spec fn response_of(members: Seq<MemberView>) -> Result<
    ApiResponseView,
    DecodeFaultView,
> {
    match text_member(members, Slot::Version) {
        Err(fault) => Err(fault),
        Ok(jsonrpc) => match i32_member(members, Slot::Id) {
            Err(fault) => Err(fault),
            Ok(id) => match any_member(members, Slot::Outcome) {
                Err(fault) => Err(fault),
                Ok(result) => Ok(ApiResponseView { jsonrpc, id, result }),
            },
        },
    }
}

/// A result that was expected to be a string: its text, or the fault of a
/// result of another type.
pub open spec fn text_result(result: FieldView) -> Result<Seq<char>, DecodeFaultView> {
    match result {
        FieldView::Text(text) => Ok(text),
        _ => Err(DecodeFaultView::Mistyped(Slot::Outcome)),
    }
}

impl ApiResponse {
    /// The response that `members` make up.
    pub fn from_members(members: &Vec<Member>) -> (read: Result<ApiResponse, DecodeFault>)
        ensures
            match read {
                Ok(response) => response_of(members.deep_view()) == Ok::<
                    ApiResponseView,
                    DecodeFaultView,
                >(response@),
                Err(fault) => response_of(members.deep_view()) == Err::<
                    ApiResponseView,
                    DecodeFaultView,
                >(fault@),
            },
    {
        let jsonrpc = match read_text(members, Slot::Version) {
            Ok(text) => text,
            Err(fault) => {
                return Err(fault);
            },
        };
        let id = match read_i32(members, Slot::Id) {
            Ok(value) => value,
            Err(fault) => {
                return Err(fault);
            },
        };
        let result = match read_any(members, Slot::Outcome) {
            Ok(field) => field,
            Err(fault) => {
                return Err(fault);
            },
        };
        Ok(ApiResponse { jsonrpc, id, result })
    }

    /// The response that `text` holds.
    ///
    /// A text that is no JSON object is a fault of syntax; an object is read
    /// as [`response_of`] says.
    pub fn decode(text: &str) -> (read: Result<ApiResponse, DecodeFault>)
        ensures
            match read {
                Ok(response) => parsed_members(text@) is Some && response_of(
                    parsed_members(text@)->0,
                ) == Ok::<ApiResponseView, DecodeFaultView>(response@),
                Err(fault) => match parsed_members(text@) {
                    None => fault@ is Syntax,
                    Some(members) => response_of(members) == Err::<
                        ApiResponseView,
                        DecodeFaultView,
                    >(fault@),
                },
            },
    {
        match parse_object(text) {
            Err(description) => Err(DecodeFault::Syntax(description)),
            Ok(members) => ApiResponse::from_members(&members),
        }
    }

    /// The result as the string that it was expected to be. Nothing is
    /// coerced: a number, a truth value, `null`, an array or an object is a
    /// fault.
    pub fn into_text(self) -> (read: Result<String, DecodeFault>)
        ensures
            match read {
                Ok(text) => text_result(self@.result) == Ok::<Seq<char>, DecodeFaultView>(text@),
                Err(fault) => text_result(self@.result) == Err::<Seq<char>, DecodeFaultView>(
                    fault@,
                ),
            },
    {
        match self.result {
            Field::Text(text) => Ok(text),
            _ => Err(DecodeFault::Mistyped(Slot::Outcome)),
        }
    }
}

/// Reading the members of a request gives the request back: the version, the
/// request number and the method are each the one that was written.
pub proof fn lemma_request_of_own_members(call: MethodCallView)
    ensures
        request_of(call.members()) == Ok::<MethodCallView, DecodeFaultView>(call),
{
    reveal_strlit("jsonrpc");
    reveal_strlit("id");
    reveal_strlit("method");
    let members = call.members();
    let after_version = members.drop_first();
    let after_id = after_version.drop_first();
    assert(after_version[0] == members[1]);
    assert(after_id[0] == members[2]);
    assert("jsonrpc"@.len() == 7 && "id"@.len() == 2 && "method"@.len() == 6);
    assert(lookup(members, Slot::Version.spec_name()) == Some(FieldView::Text(call.jsonrpc)));
    assert(lookup(members, Slot::Id.spec_name()) == Some(
        FieldView::Number(int_decimal(call.id as int)),
    )) by {
        assert(lookup(after_version, Slot::Id.spec_name()) == Some(
            FieldView::Number(int_decimal(call.id as int)),
        ));
    }
    assert(lookup(members, Slot::Method.spec_name()) == Some(FieldView::Text(call.method))) by {
        assert(lookup(after_id, Slot::Method.spec_name()) == Some(
            FieldView::Text(call.method),
        ));
        assert(lookup(after_version, Slot::Method.spec_name()) == lookup(
            after_id,
            Slot::Method.spec_name(),
        ));
    }
    lemma_i32_of_decimal(call.id);
}

} // verus!
