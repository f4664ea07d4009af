use wallet_server::wire::AddressRecord;
use wallet_server::wire::TransactionPayload;
use wallet_server::wire::encode_message;
use wallet_server::wire::encode_payload;

fn transfer_payload() -> TransactionPayload {
    TransactionPayload {
        kind: String::from("entry"),
        function: String::from("transfer"),
        arguments: vec![String::from("0x1"), String::from("100")],
        type_arguments: vec![],
    }
}

#[test]
fn payload_wire_text_is_exact() {
    let text = encode_payload(&transfer_payload());
    assert_eq!(
        text,
        "{\"type\":\"entry\",\"function\":\"transfer\",\"arguments\":[\"0x1\",\"100\"],\"type_arguments\":[]}"
    );
}

#[test]
fn empty_payload_wire_text() {
    let text = encode_payload(&TransactionPayload::empty());
    assert_eq!(
        text,
        "{\"type\":\"\",\"function\":\"\",\"arguments\":[],\"type_arguments\":[]}"
    );
}

#[test]
fn array_of_many_items() {
    let p = TransactionPayload {
        kind: String::from("k"),
        function: String::from("f"),
        arguments: vec![String::from("a"), String::from("b"), String::from("c")],
        type_arguments: vec![String::from("0x1::coin::T")],
    };
    let text = encode_payload(&p);
    assert_eq!(
        text,
        "{\"type\":\"k\",\"function\":\"f\",\"arguments\":[\"a\",\"b\",\"c\"],\"type_arguments\":[\"0x1::coin::T\"]}"
    );
}

#[test]
fn strings_are_escaped() {
    let p = TransactionPayload {
        kind: String::from("a\"b"),
        function: String::from("back\\slash"),
        arguments: vec![String::from("line\nbreak"), String::from("tab\there")],
        type_arguments: vec![String::from("\r\u{8}\u{c}")],
    };
    let text = encode_payload(&p);
    assert_eq!(
        text,
        "{\"type\":\"a\\\"b\",\"function\":\"back\\\\slash\",\"arguments\":[\"line\\nbreak\",\"tab\\there\"],\"type_arguments\":[\"\\r\\b\\f\"]}"
    );
}

#[test]
fn control_characters_get_unicode_escapes() {
    let text = encode_message("\u{1}\u{1f}");
    assert_eq!(text, "{\"message\":\"\\u0001\\u001f\"}");
}

#[test]
fn non_ascii_text_stands_as_itself() {
    let text = encode_message("adresse \u{e9}\u{1f600}");
    assert_eq!(text, "{\"message\":\"adresse \u{e9}\u{1f600}\"}");
}

#[test]
fn message_wire_text_is_exact() {
    assert_eq!(encode_message("Ok"), "{\"message\":\"Ok\"}");
    assert_eq!(encode_message("0xabc"), "{\"message\":\"0xabc\"}");
}

#[test]
fn encoder_output_parses_back_with_a_real_json_parser() {
    let p = TransactionPayload {
        kind: String::from("entry\n\"quoted\"\u{1}"),
        function: String::from("tr\\ansfer \u{e9}\u{1f600}"),
        arguments: vec![String::from("0x1\t"), String::from("\r100")],
        type_arguments: vec![String::from("0x1::coin::T")],
    };
    let text = encode_payload(&p);
    let v: serde_json::Value = serde_json::from_str(&text).unwrap();
    assert_eq!(v["type"].as_str().unwrap(), p.kind);
    assert_eq!(v["function"].as_str().unwrap(), p.function);
    let args: Vec<String> = v["arguments"]
        .as_array()
        .unwrap()
        .iter()
        .map(|x| x.as_str().unwrap().to_string())
        .collect();
    assert_eq!(args, p.arguments);
    let targs: Vec<String> = v["type_arguments"]
        .as_array()
        .unwrap()
        .iter()
        .map(|x| x.as_str().unwrap().to_string())
        .collect();
    assert_eq!(targs, p.type_arguments);
}

#[test]
fn address_record_holds_hex() {
    let a = AddressRecord { hex: String::from("0xabc") };
    assert_eq!(encode_message(&a.hex), "{\"message\":\"0xabc\"}");
}
