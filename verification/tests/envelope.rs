use mopidy_json_rpc::envelope::{
    read_any, read_i32, read_text, write_envelope, ApiResponse, MethodCall,
};
use mopidy_json_rpc::error::{CallError, DecodeFault, Slot};
use mopidy_json_rpc::json::{parse_object, Field, Member};

fn member(name: &str, value: Field) -> Member {
    Member { name: name.to_string(), value }
}

fn text(value: &str) -> Field {
    Field::Text(value.to_string())
}

fn number(digits: &str) -> Field {
    Field::Number(digits.to_string())
}

#[test]
fn new_call_has_version_two_and_number_one() {
    let call = MethodCall::new("core.playback.get_state");
    assert_eq!(call.jsonrpc, "2.0");
    assert_eq!(call.id, 1);
    assert_eq!(call.method, "core.playback.get_state");
}

#[test]
fn write_envelope_frames_the_two_literals() {
    assert_eq!(
        write_envelope("\"2.0\"", 1, "\"core.playback.get_state\""),
        r#"{"jsonrpc":"2.0","id":1,"method":"core.playback.get_state"}"#
    );
    assert_eq!(write_envelope("V", -12, "M"), r#"{"jsonrpc":V,"id":-12,"method":M}"#);
}

#[test]
fn encode_writes_one_object_of_three_members() {
    let body = MethodCall::new("core.playback.get_state").encode().unwrap();
    assert_eq!(body, r#"{"jsonrpc":"2.0","id":1,"method":"core.playback.get_state"}"#);
    let members = parse_object(&body).unwrap();
    assert_eq!(
        members,
        vec![
            member("id", number("1")),
            member("jsonrpc", text("2.0")),
            member("method", text("core.playback.get_state")),
        ]
    );
}

#[test]
fn encode_escapes_the_method() {
    let body = MethodCall::new("a\"b\\c\n").encode().unwrap();
    assert_eq!(body, r#"{"jsonrpc":"2.0","id":1,"method":"a\"b\\c\n"}"#);
}

#[test]
fn encode_writes_any_version_and_number() {
    let call = MethodCall { jsonrpc: "1.\"0\"".to_string(), id: i32::MIN, method: String::new() };
    assert_eq!(call.encode().unwrap(), r#"{"jsonrpc":"1.\"0\"","id":-2147483648,"method":""}"#);
}

#[test]
fn request_round_trip_keeps_the_method() {
    for method in [
        "core.playback.get_state",
        "",
        "with \"quotes\" and \\ backslash",
        "line\nbreak\ttab\r\u{8}\u{c}",
        "\u{0}\u{1f}\u{7f}",
        "caf\u{e9} \u{1f3b5} \u{2028}",
        "{\"jsonrpc\":\"2.0\"}",
        "/slash",
    ] {
        let call = MethodCall::new(method);
        let text = call.encode().unwrap();
        let back = MethodCall::decode(&text).unwrap();
        assert_eq!(back.method, method);
        assert_eq!(back, call);
    }
}

#[test]
fn request_round_trip_keeps_version_and_number() {
    for id in [0, 1, -1, 42, i32::MAX, i32::MIN] {
        let call = MethodCall { jsonrpc: "3.\u{e9}".to_string(), id, method: "m".to_string() };
        assert_eq!(MethodCall::decode(&call.encode().unwrap()), Ok(call));
    }
}

#[test]
fn request_from_its_own_members() {
    let members = vec![
        member("jsonrpc", text("2.0")),
        member("id", number("1")),
        member("method", text("core.playback.get_state")),
    ];
    assert_eq!(
        MethodCall::from_members(&members),
        Ok(MethodCall::new("core.playback.get_state"))
    );
}

#[test]
fn request_decode_reports_each_fault() {
    assert!(matches!(MethodCall::decode("{not json"), Err(DecodeFault::Syntax(_))));
    assert_eq!(
        MethodCall::decode(r#"{"id":1,"method":"m"}"#),
        Err(DecodeFault::Missing(Slot::Version))
    );
    assert_eq!(
        MethodCall::decode(r#"{"jsonrpc":"2.0","method":"m"}"#),
        Err(DecodeFault::Missing(Slot::Id))
    );
    assert_eq!(
        MethodCall::decode(r#"{"jsonrpc":"2.0","id":1}"#),
        Err(DecodeFault::Missing(Slot::Method))
    );
    assert_eq!(
        MethodCall::decode(r#"{"jsonrpc":"2.0","id":1,"method":7}"#),
        Err(DecodeFault::Mistyped(Slot::Method))
    );
}

#[test]
fn read_text_tells_missing_from_mistyped() {
    let members = vec![member("jsonrpc", text("2.0")), member("result", Field::Null)];
    assert_eq!(read_text(&members, Slot::Version), Ok("2.0".to_string()));
    assert_eq!(read_text(&members, Slot::Outcome), Err(DecodeFault::Mistyped(Slot::Outcome)));
    assert_eq!(read_text(&members, Slot::Method), Err(DecodeFault::Missing(Slot::Method)));
}

#[test]
fn read_i32_takes_only_integers_of_32_bits() {
    let read = |value: Field| read_i32(&vec![member("id", value)], Slot::Id);
    assert_eq!(read(number("1")), Ok(1));
    assert_eq!(read(number("-2147483648")), Ok(i32::MIN));
    assert_eq!(read(number("2147483648")), Err(DecodeFault::Mistyped(Slot::Id)));
    assert_eq!(read(number("1.0")), Err(DecodeFault::Mistyped(Slot::Id)));
    assert_eq!(read(number("-0.0")), Err(DecodeFault::Mistyped(Slot::Id)));
    assert_eq!(read(text("1")), Err(DecodeFault::Mistyped(Slot::Id)));
    assert_eq!(read(Field::Null), Err(DecodeFault::Mistyped(Slot::Id)));
    assert_eq!(read_i32(&Vec::new(), Slot::Id), Err(DecodeFault::Missing(Slot::Id)));
}

#[test]
fn read_any_takes_a_member_of_any_type() {
    let members = vec![member("result", Field::Array("[]".to_string()))];
    assert_eq!(read_any(&members, Slot::Outcome), Ok(Field::Array("[]".to_string())));
    assert_eq!(read_any(&members, Slot::Id), Err(DecodeFault::Missing(Slot::Id)));
}

#[test]
fn response_decode_reads_the_envelope() {
    let response = ApiResponse::decode(r#"{"jsonrpc":"2.0","id":1,"result":"playing"}"#);
    assert_eq!(
        response,
        Ok(ApiResponse { jsonrpc: "2.0".to_string(), id: 1, result: text("playing") })
    );
}

#[test]
fn response_decode_takes_members_in_any_order_and_passes_over_others() {
    let response = ApiResponse::decode(
        " {\"result\": null, \"extra\": [1, {\"a\": 2}], \"id\": -7,\n \"jsonrpc\": \"1.0\"} ",
    );
    assert_eq!(
        response,
        Ok(ApiResponse { jsonrpc: "1.0".to_string(), id: -7, result: Field::Null })
    );
}

#[test]
fn response_decode_holds_neither_version_nor_number_against_the_request() {
    let response = ApiResponse::decode(r#"{"jsonrpc":"9.9","id":2147483647,"result":true}"#);
    assert_eq!(
        response,
        Ok(ApiResponse { jsonrpc: "9.9".to_string(), id: i32::MAX, result: Field::Bool(true) })
    );
}

#[test]
fn response_decode_reports_each_fault() {
    assert!(matches!(ApiResponse::decode("{not json"), Err(DecodeFault::Syntax(_))));
    assert!(matches!(ApiResponse::decode("[\"2.0\",1,\"playing\"]"), Err(DecodeFault::Syntax(_))));
    assert_eq!(ApiResponse::decode("{}"), Err(DecodeFault::Missing(Slot::Version)));
    assert_eq!(
        ApiResponse::decode(r#"{"jsonrpc":2.0,"id":1,"result":"playing"}"#),
        Err(DecodeFault::Mistyped(Slot::Version))
    );
    assert_eq!(
        ApiResponse::decode(r#"{"jsonrpc":"2.0","result":"playing"}"#),
        Err(DecodeFault::Missing(Slot::Id))
    );
    assert_eq!(
        ApiResponse::decode(r#"{"jsonrpc":"2.0","id":"1","result":"playing"}"#),
        Err(DecodeFault::Mistyped(Slot::Id))
    );
    assert_eq!(
        ApiResponse::decode(r#"{"jsonrpc":"2.0","id":1.5,"result":"playing"}"#),
        Err(DecodeFault::Mistyped(Slot::Id))
    );
    assert_eq!(
        ApiResponse::decode(r#"{"jsonrpc":"2.0","id":2147483648,"result":"playing"}"#),
        Err(DecodeFault::Mistyped(Slot::Id))
    );
    assert_eq!(
        ApiResponse::decode(r#"{"jsonrpc":"2.0","id":1}"#),
        Err(DecodeFault::Missing(Slot::Outcome))
    );
}

#[test]
fn response_decode_reports_the_first_fault_in_envelope_order() {
    assert_eq!(
        ApiResponse::decode(r#"{"id":"x"}"#),
        Err(DecodeFault::Missing(Slot::Version))
    );
    assert_eq!(
        ApiResponse::decode(r#"{"jsonrpc":"2.0","id":"x"}"#),
        Err(DecodeFault::Mistyped(Slot::Id))
    );
}

#[test]
fn into_text_takes_a_string_and_nothing_else() {
    let response = |result: Field| ApiResponse { jsonrpc: "2.0".to_string(), id: 1, result };
    assert_eq!(response(text("paused")).into_text(), Ok("paused".to_string()));
    assert_eq!(response(text("")).into_text(), Ok(String::new()));
    for other in [
        number("123"),
        Field::Null,
        Field::Bool(true),
        Field::Object("{}".to_string()),
        Field::Array("[\"playing\"]".to_string()),
    ] {
        assert_eq!(response(other).into_text(), Err(DecodeFault::Mistyped(Slot::Outcome)));
    }
}

#[test]
fn slot_names_are_the_wire_names() {
    assert_eq!(Slot::Version.name(), "jsonrpc");
    assert_eq!(Slot::Id.name(), "id");
    assert_eq!(Slot::Method.name(), "method");
    assert_eq!(Slot::Outcome.name(), "result");
}

#[test]
fn messages_carry_the_description_or_name_the_member() {
    assert_eq!(CallError::Encode("cannot write".to_string()).message(), "cannot write");
    assert_eq!(
        CallError::Transport("connection refused".to_string()).message(),
        "connection refused"
    );
    assert_eq!(
        CallError::Decode(DecodeFault::Syntax("expected value".to_string())).message(),
        "expected value"
    );
    assert_eq!(
        CallError::Decode(DecodeFault::Missing(Slot::Outcome)).message(),
        "missing field `result`"
    );
    assert_eq!(
        CallError::Decode(DecodeFault::Mistyped(Slot::Id)).message(),
        "invalid type for field `id`"
    );
    assert_eq!(DecodeFault::Missing(Slot::Version).message(), "missing field `jsonrpc`");
    assert_eq!(DecodeFault::Mistyped(Slot::Method).message(), "invalid type for field `method`");
}
