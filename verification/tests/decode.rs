use serde_json::{Number, Value};
use webview_bridge::decode::decode;
use webview_bridge::evaluation::{EvalMode, PendingEvaluation, Settlement};
use webview_bridge::ipc::{IpcChannel, IpcTurn};

fn samples() -> Vec<Value> {
    let mut object = serde_json::Map::new();
    object.insert("title".to_string(), Value::String("x".to_string()));
    object.insert("size".to_string(), Value::Array(vec![
        Value::Number(Number::from(800)),
        Value::Number(Number::from(600)),
    ]));
    object.insert("ratio".to_string(), Value::Number(Number::from_f64(1.5).unwrap()));
    vec![
        Value::Null,
        Value::Bool(true),
        Value::Bool(false),
        Value::Number(Number::from(-3)),
        Value::Number(Number::from_f64(0.25).unwrap()),
        Value::String(String::new()),
        Value::String("caf\u{e9} \"quoted\" \n".to_string()),
        Value::Array(vec![]),
        Value::Array(vec![Value::Null, Value::Array(vec![Value::Bool(true)])]),
        Value::Object(serde_json::Map::new()),
        Value::Object(object),
    ]
}

#[test]
fn decode_parses_json_text() {
    assert_eq!(decode("null").unwrap(), Value::Null);
    assert_eq!(decode(" true ").unwrap(), Value::Bool(true));
    assert_eq!(decode("12").unwrap(), Value::Number(Number::from(12)));
    assert_eq!(decode("\"s\"").unwrap(), Value::String("s".to_string()));
    assert_eq!(
        decode("[1,2]").unwrap(),
        Value::Array(vec![Value::Number(Number::from(1)), Value::Number(Number::from(2))])
    );
}

#[test]
fn decode_does_not_hand_back_its_argument() {
    // The text "\"null\"" is a JSON string, not the text itself and not null.
    assert_eq!(decode("\"null\"").unwrap(), Value::String("null".to_string()));
    assert_ne!(decode("\"null\"").unwrap(), Value::String("\"null\"".to_string()));
}

#[test]
fn decode_reports_text_that_is_not_json() {
    for text in ["", "undefined", "{", "[1,", "'single'", "1 2", "nul"] {
        let error = decode(text).unwrap_err();
        assert!(!error.message.is_empty(), "no message for {:?}", text);
    }
}

#[test]
fn decode_error_says_where() {
    let error = decode("[1,]").unwrap_err();
    assert!(error.message.contains("line 1"), "{}", error.message);
}

#[test]
fn round_trip_plain() {
    for value in samples() {
        let text = serde_json::to_string(&value).unwrap();
        assert_eq!(decode(&text).unwrap(), value);
    }
}

#[test]
fn round_trip_through_the_evaluation_channel() {
    for value in samples() {
        let text = serde_json::to_string(&value).unwrap();
        let mut cell = PendingEvaluation::new("f()".to_string(), EvalMode::Await);
        cell.fulfil(text);
        match cell.resolve() {
            Settlement::Resume(decoded) => assert_eq!(decoded, value),
            other => panic!("unexpected settlement {:?}", other),
        }
    }
}

#[test]
fn round_trip_through_the_message_channel() {
    let mut channel = IpcChannel::new();
    let first = channel.subscribe();
    let second = channel.subscribe();
    for value in samples() {
        channel.publish(serde_json::to_string(&value).unwrap());
    }
    for subscription in [first, second] {
        for value in samples() {
            match channel.next(subscription) {
                IpcTurn::Dispatch(decoded) => assert_eq!(decoded, value),
                other => panic!("unexpected turn {:?}", other),
            }
        }
        assert!(matches!(channel.next(subscription), IpcTurn::Wait));
    }
}
