use serde_json::Value;
use wsproto::envelope::{frame, settle};
use wsproto::{Input, Output, ProtoResult};

fn json(text: &str) -> Value {
    serde_json::from_str(text).unwrap()
}

#[test]
fn encode_writes_the_three_members_in_order() {
    let input =
        Input { service: "s".to_string(), action: "a".to_string(), payload: json("{\"x\":1}") };
    assert_eq!(input.encode(), "{\"service\":\"s\",\"action\":\"a\",\"payload\":{\"x\":1}}");
}

#[test]
fn encode_is_read_back_by_a_json_parser() {
    let payload = json("[1,\"two\",{\"three\":null}]");
    let input = Input {
        service: "auth".to_string(),
        action: "do-login".to_string(),
        payload: payload.clone(),
    };
    let wire = json(&input.encode());
    assert_eq!(wire.get("service"), Some(&Value::from("auth")));
    assert_eq!(wire.get("action"), Some(&Value::from("do-login")));
    assert_eq!(wire.get("payload"), Some(&payload));
    assert_eq!(wire.as_object().unwrap().len(), 3);
}

#[test]
fn encode_escapes_the_names() {
    let input = Input {
        service: "quo\"te".to_string(),
        action: "back\\slash\nline".to_string(),
        payload: Value::Null,
    };
    assert_eq!(
        input.encode(),
        "{\"service\":\"quo\\\"te\",\"action\":\"back\\\\slash\\nline\",\"payload\":null}"
    );
}

#[test]
fn encode_writes_the_payload_compactly() {
    let input = Input {
        service: String::new(),
        action: String::new(),
        payload: json(" { \"b\" : [ 1 , 2 ] , \"a\" : \"x y\" } "),
    };
    assert_eq!(
        input.encode(),
        "{\"service\":\"\",\"action\":\"\",\"payload\":{\"a\":\"x y\",\"b\":[1,2]}}"
    );
}

#[test]
fn frame_puts_the_texts_between_the_member_names() {
    assert_eq!(frame("1", "2", "3"), "{\"service\":1,\"action\":2,\"payload\":3}");
    assert_eq!(frame("", "", ""), "{\"service\":,\"action\":,\"payload\":}");
}

#[test]
fn round_trip_of_request_and_item_response() {
    let payload = json("{\"x\":1}");
    let input =
        Input { service: "s".to_string(), action: "a".to_string(), payload: payload.clone() };
    let wire = json(&input.encode());
    assert_eq!(wire.get("payload"), Some(&payload));
    let decoded = Output::decode("{\"event\":\"item\",\"data\":{\"x\":1}}");
    assert_eq!(decoded, Ok(Output::Item(payload.clone())));
    assert_eq!(settle(true, "{\"event\":\"item\",\"data\":{\"x\":1}}".to_string()), Ok(payload));
}

#[test]
fn decode_fail_gives_the_reason() {
    let decoded = Output::decode("{\"event\":\"fail\",\"data\":\"boom\"}");
    assert_eq!(decoded, Ok(Output::Fail("boom".to_string())));
    let result = settle(true, "{\"event\":\"fail\",\"data\":\"boom\"}".to_string());
    assert_eq!(result, Err("boom".to_string()));
}

#[test]
fn decode_malformed_text_is_a_failure() {
    assert_eq!(
        Output::decode("this is not json"),
        Err("expected ident at line 1 column 2".to_string())
    );
    assert_eq!(
        Output::decode(""),
        Err("EOF while parsing a value at line 1 column 0".to_string())
    );
    assert_eq!(
        Output::decode("{\"event\":\"item\",\"data\":"),
        Err("EOF while parsing a value at line 1 column 23".to_string())
    );
    assert_eq!(
        settle(true, "{\"event\"".to_string()),
        Err("EOF while parsing an object at line 1 column 8".to_string())
    );
}

#[test]
fn decode_accepts_the_members_in_either_order() {
    assert_eq!(
        Output::decode("{\"data\":[true],\"event\":\"item\"}"),
        Ok(Output::Item(json("[true]")))
    );
    assert_eq!(
        Output::decode(" { \"data\" : \"late\" , \"event\" : \"fail\" } "),
        Ok(Output::Fail("late".to_string()))
    );
}

#[test]
fn decode_item_takes_any_payload() {
    assert_eq!(Output::decode("{\"event\":\"item\",\"data\":null}"), Ok(Output::Item(Value::Null)));
    assert_eq!(
        Output::decode("{\"event\":\"item\",\"data\":\"text\"}"),
        Ok(Output::Item(Value::from("text")))
    );
}

#[test]
fn decode_refuses_an_unknown_event() {
    assert_eq!(
        Output::decode("{\"event\":\"done\",\"data\":1}"),
        Err("unknown variant `done`, expected `item` or `fail`".to_string())
    );
    assert_eq!(
        Output::decode("{\"event\":\"Item\",\"data\":1}"),
        Err("unknown variant `Item`, expected `item` or `fail`".to_string())
    );
    assert_eq!(
        Output::decode("{\"event\":\"\"}"),
        Err("unknown variant ``, expected `item` or `fail`".to_string())
    );
}

#[test]
fn decode_refuses_a_missing_event() {
    let missing: ProtoResult<Output> = Err("missing field `event`".to_string());
    assert_eq!(Output::decode("{\"data\":1}"), missing);
    assert_eq!(Output::decode("{}"), missing);
    assert_eq!(Output::decode("{\"event\":7,\"data\":1}"), missing);
    assert_eq!(Output::decode("[\"item\",1]"), missing);
    assert_eq!(Output::decode("\"item\""), missing);
    assert_eq!(Output::decode("null"), missing);
}

#[test]
fn decode_refuses_missing_data() {
    let missing: ProtoResult<Output> = Err("missing field `data`".to_string());
    assert_eq!(Output::decode("{\"event\":\"item\"}"), missing);
    assert_eq!(Output::decode("{\"event\":\"fail\"}"), missing);
}

#[test]
fn decode_refuses_a_reason_that_is_not_text() {
    let wrong: ProtoResult<Output> = Err("invalid type: expected a string".to_string());
    assert_eq!(Output::decode("{\"event\":\"fail\",\"data\":1}"), wrong);
    assert_eq!(Output::decode("{\"event\":\"fail\",\"data\":{\"why\":\"boom\"}}"), wrong);
    assert_eq!(Output::decode("{\"event\":\"fail\",\"data\":null}"), wrong);
}

#[test]
fn from_value_reads_a_parsed_response() {
    let value = json("{\"event\":\"item\",\"data\":{\"x\":1},\"more\":2}");
    assert_eq!(Output::from_value(&value), Ok(Output::Item(json("{\"x\":1}"))));
    assert_eq!(value, json("{\"event\":\"item\",\"data\":{\"x\":1},\"more\":2}"));
}

#[test]
fn assemble_decides_by_the_tag() {
    let data = json("{\"x\":1}");
    assert_eq!(Output::assemble(Some("item"), Some(&data), None), Ok(Output::Item(data.clone())));
    assert_eq!(
        Output::assemble(Some("item"), Some(&data), Some("ignored")),
        Ok(Output::Item(data.clone()))
    );
    assert_eq!(
        Output::assemble(Some("fail"), Some(&data), Some("boom")),
        Ok(Output::Fail("boom".to_string()))
    );
    assert_eq!(
        Output::assemble(Some("fail"), Some(&data), None),
        Err("invalid type: expected a string".to_string())
    );
    assert_eq!(Output::assemble(Some("item"), None, None), Err("missing field `data`".to_string()));
    assert_eq!(Output::assemble(Some("fail"), None, None), Err("missing field `data`".to_string()));
    assert_eq!(
        Output::assemble(None, Some(&data), Some("boom")),
        Err("missing field `event`".to_string())
    );
    assert_eq!(
        Output::assemble(Some("other"), None, None),
        Err("unknown variant `other`, expected `item` or `fail`".to_string())
    );
}

#[test]
fn into_result_of_both_envelopes() {
    assert_eq!(Output::Item(json("[1]")).into_result(), Ok(json("[1]")));
    assert_eq!(Output::Fail("boom".to_string()).into_result(), Err("boom".to_string()));
}

#[test]
fn settle_decodes_only_messages() {
    let text = "{\"event\":\"item\",\"data\":5}";
    assert_eq!(settle(true, text.to_string()), Ok(json("5")));
    assert_eq!(settle(false, text.to_string()), Err(text.to_string()));
    assert_eq!(
        settle(false, "connection closed".to_string()),
        Err("connection closed".to_string())
    );
    assert_eq!(settle(false, String::new()), Err(String::new()));
}

#[test]
fn settle_of_a_response_of_another_shape_is_a_failure() {
    assert_eq!(
        settle(true, "{\"event\":\"gone\",\"data\":5}".to_string()),
        Err("unknown variant `gone`, expected `item` or `fail`".to_string())
    );
    assert_eq!(settle(true, "[]".to_string()), Err("missing field `event`".to_string()));
}
