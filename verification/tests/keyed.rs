use led_command::{Command, CommandError, CommandVisitor, Field, KeyedEntry, KeyedError, KeyedValue};
use serde_json::Value;

type Plh = Vec<u8>;

fn to_json(document: &[KeyedEntry]) -> String {
    let mut map = serde_json::Map::new();
    for entry in document {
        let value = match &entry.value {
            KeyedValue::Text(text) => Value::String(text.clone()),
            KeyedValue::Number(number) => Value::Number((*number).into()),
            KeyedValue::Bytes(bytes) => {
                Value::Array(bytes.iter().map(|byte| Value::Number((*byte).into())).collect())
            }
        };
        assert!(map.insert(entry.key.clone(), value).is_none());
    }
    serde_json::to_string(&Value::Object(map)).unwrap()
}

fn from_json(text: &str) -> Vec<KeyedEntry> {
    let parsed: Value = serde_json::from_str(text).unwrap();
    let map = match parsed {
        Value::Object(map) => map,
        other => panic!("not a map: {}", other),
    };
    map.into_iter()
        .map(|(key, value)| {
            let value = match value {
                Value::String(text) => KeyedValue::Text(text),
                Value::Number(number) => KeyedValue::Number(number.as_u64().unwrap()),
                Value::Array(items) => KeyedValue::Bytes(
                    items.iter().map(|item| u8::try_from(item.as_u64().unwrap()).unwrap()).collect(),
                ),
                other => panic!("no keyed value: {}", other),
            };
            KeyedEntry { key, value }
        })
        .collect()
}

fn entry(key: &str, value: KeyedValue) -> KeyedEntry {
    KeyedEntry { key: key.to_string(), value }
}

fn text(value: &str) -> KeyedValue {
    KeyedValue::Text(value.to_string())
}

#[test]
fn mod_constant_ser() {
    let command: Command<Plh> = Command::Constant {
        led_count: 1,
        colour: (0, 126, 0),
    };
    let serialized = to_json(&command.encode_keyed());
    let as_str = "{\"type\":\"constant\",\"led_count\":1,\"colour\":[0,126,0]}";
    assert_eq!(as_str, serialized)
}

#[test]
fn mod_constant_de() {
    let command = Command::Constant {
        led_count: 1,
        colour: (0, 126, 0),
    };
    let as_str = "{\"type\":\"constant\",\"led_count\":1,\"colour\":[0,126,0]}";
    let deserialized: Command<Plh> =
        Command::decode_keyed(&from_json(as_str)).expect("Failed to deserialize const example");
    assert_eq!(command, deserialized)
}

#[test]
fn mod_stream_ser() {
    let bytes: &[u8] = &[0, 127, 0];
    let command = Command::Stream(bytes);
    let serialized = to_json(&command.encode_keyed());
    let as_string = "{\"type\":\"stream\",\"bytes\":[0,127,0]}";
    assert_eq!(as_string, serialized);
}

#[test]
fn mod_stream_de() {
    let bytes = vec![0, 127, 0];
    let command = Command::Stream(bytes);
    let as_str = "{\"type\":\"stream\",\"bytes\":[0,127,0]}";
    let deserialized: Command<Plh> =
        Command::decode_keyed(&from_json(as_str)).expect("Failed to deserialize stream example");
    assert_eq!(deserialized, command);
}

#[test]
fn mod_pulse_ser() {
    let command: Command<Plh> = Command::Pulse {
        led_count: 5,
        start: (0, 0, 0),
        end: (127, 0, 127),
        frames: 60,
        period: 2000,
    };
    let as_string = "{\"type\":\"pulse\",\"led_count\":5,\"start\":[0,0,0],\"end\":[127,0,127],\"frames\":60,\"period\":2000}";
    let serialized = to_json(&command.encode_keyed());
    assert_eq!(as_string, serialized);
}

#[test]
fn mod_pulse_de() {
    let command: Command<Plh> = Command::Pulse {
        led_count: 5,
        start: (0, 0, 0),
        end: (127, 0, 127),
        frames: 60,
        period: 2000,
    };
    let as_str = "{\"type\":\"pulse\",\"led_count\":5,\"start\":[0,0,0],\"end\":[127,0,127],\"frames\":60,\"period\":2000}";
    let deserialized =
        Command::decode_keyed(&from_json(as_str)).expect("Failed to deserialize pulse example");
    assert_eq!(command, deserialized);
}

#[test]
fn mod_health_ser() {
    let command: Command<Plh> = Command::Health;
    let serialized = to_json(&command.encode_keyed());
    assert_eq!(serialized, "{\"type\":\"health\"}");
}

#[test]
fn mod_health_de() {
    let command: Command<Plh> = Command::Health;
    let deserialized = Command::decode_keyed(&from_json("{\"type\":\"health\"}"))
        .expect("Failed to deserialize health example");
    assert_eq!(command, deserialized);
}

#[test]
#[should_panic]
fn mod_garbled() {
    let _: Command<Plh> = Command::decode_keyed(&from_json("{\"not\":\"legit\"}")).unwrap();
}

#[test]
#[should_panic(expected = "Byte length must be multiple of 3")]
fn mod_wrong_byte_count() {
    let _: Command<Plh> =
        Command::decode_keyed(&from_json("{\"type\": \"stream\", \"bytes\": [127, 0]}"))
            .map_err(|error| error.message())
            .unwrap();
}

#[test]
fn constant_document_has_three_entries() {
    let command: Command<Plh> = Command::Constant { led_count: 1, colour: (0, 126, 0) };
    assert_eq!(
        command.encode_keyed(),
        vec![
            entry("type", text("constant")),
            entry("led_count", KeyedValue::Number(1)),
            entry("colour", KeyedValue::Bytes(vec![0, 126, 0])),
        ]
    );
}

#[test]
fn each_variant_emits_exactly_its_fields() {
    let health: Command<Plh> = Command::Health;
    let constant: Command<Plh> = Command::Constant { led_count: 1, colour: (0, 126, 0) };
    let stream: Command<Plh> = Command::Stream(vec![1, 2, 3]);
    let pulse: Command<Plh> =
        Command::Pulse { led_count: 5, start: (0, 0, 0), end: (127, 0, 127), frames: 60, period: 2000 };
    let keys = |command: &Command<Plh>| -> Vec<String> {
        command.encode_keyed().into_iter().map(|entry| entry.key).collect()
    };
    assert_eq!(keys(&health), vec!["type"]);
    assert_eq!(keys(&constant), vec!["type", "led_count", "colour"]);
    assert_eq!(keys(&stream), vec!["type", "bytes"]);
    assert_eq!(keys(&pulse), vec!["type", "led_count", "start", "end", "frames", "period"]);
}

#[test]
fn keyed_round_trip() {
    let commands: Vec<Command<Plh>> = vec![
        Command::Health,
        Command::Constant { led_count: 65535, colour: (255, 0, 1) },
        Command::Stream(vec![]),
        Command::Stream(vec![1, 2, 3, 4, 5, 6]),
        Command::Pulse { led_count: 0, start: (1, 2, 3), end: (4, 5, 6), frames: 255, period: 65535 },
    ];
    for command in commands.iter() {
        assert_eq!(Command::decode_keyed(&command.encode_keyed()).as_ref(), Ok(command));
    }
}

#[test]
fn stream_of_two_bytes_is_refused() {
    let document = vec![entry("type", text("stream")), entry("bytes", KeyedValue::Bytes(vec![127, 0]))];
    let error = Command::decode_keyed(&document).unwrap_err();
    assert_eq!(error, KeyedError::ByteLengthNotMultipleOf3);
    assert_eq!(error.message(), "Byte length must be multiple of 3");
    assert_eq!(error.kind(), CommandError::MalformedPayload);
}

#[test]
fn unknown_field_is_refused() {
    let document = vec![entry("type", text("health")), entry("foo", KeyedValue::Number(1))];
    let error = Command::decode_keyed(&document).unwrap_err();
    assert_eq!(error, KeyedError::UnknownField("foo".to_string()));
    assert_eq!(error.message(), "unknown field `foo`");
    let document = vec![entry("foo", KeyedValue::Number(1)), entry("type", text("health"))];
    assert_eq!(
        Command::decode_keyed(&document),
        Err(KeyedError::UnknownField("foo".to_string()))
    );
    let document = vec![entry("ledCount", KeyedValue::Number(1))];
    assert_eq!(
        Command::decode_keyed(&document),
        Err(KeyedError::UnknownField("ledCount".to_string()))
    );
}

#[test]
fn unexpected_command_type_is_refused() {
    let document = vec![entry("type", text("blink"))];
    let error = Command::decode_keyed(&document).unwrap_err();
    assert_eq!(error, KeyedError::UnexpectedCommandType);
    assert_eq!(error.message(), "Unexpected command type");
    assert_eq!(error.kind(), CommandError::InvalidHeader);
    let document = vec![entry("type", text("Health"))];
    assert_eq!(Command::decode_keyed(&document), Err(KeyedError::UnexpectedCommandType));
}

#[test]
fn each_missing_field_is_named() {
    let constant = |entries: Vec<KeyedEntry>| {
        let mut document = vec![entry("type", text("constant"))];
        document.extend(entries);
        Command::decode_keyed(&document)
    };
    assert_eq!(constant(vec![]), Err(KeyedError::MissingField(Field::Colour)));
    assert_eq!(
        constant(vec![entry("colour", KeyedValue::Bytes(vec![1, 2, 3]))]),
        Err(KeyedError::MissingField(Field::LedCount))
    );
    assert_eq!(
        constant(vec![entry("led_count", KeyedValue::Number(1))]),
        Err(KeyedError::MissingField(Field::Colour))
    );
    assert_eq!(
        Command::decode_keyed(&[entry("type", text("stream"))]),
        Err(KeyedError::MissingField(Field::Bytes))
    );
    let all = vec![
        entry("start", KeyedValue::Bytes(vec![0, 0, 0])),
        entry("end", KeyedValue::Bytes(vec![127, 0, 127])),
        entry("frames", KeyedValue::Number(60)),
        entry("period", KeyedValue::Number(2000)),
        entry("led_count", KeyedValue::Number(5)),
    ];
    let fields = [Field::Start, Field::End, Field::Frames, Field::Period, Field::LedCount];
    for (skipped, field) in fields.iter().enumerate() {
        let mut document = vec![entry("type", text("pulse"))];
        for (at, item) in all.iter().enumerate() {
            if at != skipped {
                document.push(item.clone());
            }
        }
        let error = Command::decode_keyed(&document).unwrap_err();
        assert_eq!(error, KeyedError::MissingField(*field));
        assert_eq!(error.message(), format!("missing field `{}`", field.as_str()));
        assert_eq!(error.kind(), CommandError::MalformedPayload);
    }
}

#[test]
fn duplicate_field_is_refused() {
    let document = vec![
        entry("type", text("constant")),
        entry("led_count", KeyedValue::Number(1)),
        entry("led_count", KeyedValue::Number(2)),
        entry("colour", KeyedValue::Bytes(vec![1, 2, 3])),
    ];
    let error = Command::decode_keyed(&document).unwrap_err();
    assert_eq!(error, KeyedError::DuplicateField(Field::LedCount));
    assert_eq!(error.message(), "duplicate field `led_count`");
    let document = vec![entry("type", text("health")), entry("type", text("health"))];
    assert_eq!(Command::decode_keyed(&document), Err(KeyedError::DuplicateField(Field::Type)));
}

#[test]
fn values_out_of_range_are_refused() {
    let with = |key: &str, value: KeyedValue| {
        Command::decode_keyed(&[entry("type", text("pulse")), entry(key, value)])
    };
    assert_eq!(
        with("led_count", KeyedValue::Number(65536)),
        Err(KeyedError::InvalidValue(Field::LedCount))
    );
    assert_eq!(with("period", KeyedValue::Number(65536)), Err(KeyedError::InvalidValue(Field::Period)));
    assert_eq!(with("frames", KeyedValue::Number(256)), Err(KeyedError::InvalidValue(Field::Frames)));
    assert_eq!(
        with("start", KeyedValue::Bytes(vec![1, 2])),
        Err(KeyedError::InvalidValue(Field::Start))
    );
    assert_eq!(
        with("end", KeyedValue::Bytes(vec![1, 2, 3, 4])),
        Err(KeyedError::InvalidValue(Field::End))
    );
    assert_eq!(with("colour", text("red")), Err(KeyedError::InvalidValue(Field::Colour)));
    assert_eq!(with("bytes", KeyedValue::Number(3)), Err(KeyedError::InvalidValue(Field::Bytes)));
    assert_eq!(
        Command::decode_keyed(&[entry("type", KeyedValue::Number(1))]),
        Err(KeyedError::InvalidValue(Field::Type))
    );
    let error = with("frames", KeyedValue::Number(256)).unwrap_err();
    assert_eq!(error.message(), "invalid value for field `frames`");
}

#[test]
fn key_order_does_not_matter() {
    let command: Command<Plh> =
        Command::Pulse { led_count: 5, start: (0, 0, 0), end: (127, 0, 127), frames: 60, period: 2000 };
    let as_str = "{\"period\":2000,\"end\":[127,0,127],\"type\":\"pulse\",\"frames\":60,\"led_count\":5,\"start\":[0,0,0]}";
    assert_eq!(Command::decode_keyed(&from_json(as_str)), Ok(command));
    let mut reversed = Command::<Plh>::Stream(vec![3, 2, 1]).encode_keyed();
    reversed.reverse();
    assert_eq!(Command::decode_keyed(&reversed), Ok(Command::Stream(vec![3, 2, 1])));
}

#[test]
fn document_without_type_is_refused() {
    let error = Command::decode_keyed(&[]).unwrap_err();
    assert_eq!(error, KeyedError::MissingField(Field::Type));
    assert_eq!(error.message(), "missing field `type`");
    assert_eq!(error.kind(), CommandError::MalformedPayload);
    let document = vec![
        entry("led_count", KeyedValue::Number(1)),
        entry("colour", KeyedValue::Bytes(vec![0, 126, 0])),
    ];
    assert_eq!(Command::decode_keyed(&document), Err(KeyedError::MissingField(Field::Type)));
    assert_eq!(CommandVisitor::default().finish(), Err(KeyedError::MissingField(Field::Type)));
}

#[test]
fn fields_of_other_commands_are_ignored() {
    let document = vec![
        entry("type", text("constant")),
        entry("led_count", KeyedValue::Number(1)),
        entry("colour", KeyedValue::Bytes(vec![0, 126, 0])),
        entry("frames", KeyedValue::Number(3)),
        entry("bytes", KeyedValue::Bytes(vec![1, 2])),
    ];
    assert_eq!(
        Command::decode_keyed(&document),
        Ok(Command::Constant { led_count: 1, colour: (0, 126, 0) })
    );
}

#[test]
fn visitor_gathers_entry_by_entry() {
    let mut visitor = CommandVisitor::default();
    assert!(!visitor.has(Field::Type));
    assert_eq!(visitor.resolve_cmd_type("stream"), Ok(()));
    assert!(visitor.has(Field::Type));
    assert_eq!(visitor.resolve_cmd_type("nothing"), Err(KeyedError::UnexpectedCommandType));
    assert_eq!(visitor.visit_entry("bytes", &KeyedValue::Bytes(vec![1, 2, 3])), Ok(()));
    assert_eq!(
        visitor.visit_entry("bytes", &KeyedValue::Bytes(vec![4, 5, 6])),
        Err(KeyedError::DuplicateField(Field::Bytes))
    );
    assert_eq!(
        visitor.visit_entry("other", &KeyedValue::Number(0)),
        Err(KeyedError::UnknownField("other".to_string()))
    );
    assert_eq!(visitor.accept(Field::Frames, &KeyedValue::Number(255)), Ok(()));
    assert_eq!(visitor.finish(), Ok(Command::Stream(vec![1, 2, 3])));
    let document = vec![entry("colour", KeyedValue::Bytes(vec![1, 2, 3]))];
    let mut visitor = CommandVisitor::default();
    assert_eq!(visitor.resolve_cmd_type("constant"), Ok(()));
    assert_eq!(visitor.visit_map(&document), Err(KeyedError::MissingField(Field::LedCount)));
}

#[test]
fn field_names_are_the_wire_contract() {
    let names = ["type", "led_count", "start", "end", "colour", "frames", "period", "bytes"];
    let fields = [
        Field::Type,
        Field::LedCount,
        Field::Start,
        Field::End,
        Field::Colour,
        Field::Frames,
        Field::Period,
        Field::Bytes,
    ];
    for (name, field) in names.iter().zip(fields.iter()) {
        assert_eq!(field.as_str(), *name);
        assert_eq!(Field::from_key(name), Some(*field));
    }
    assert_eq!(Field::from_key("typ"), None);
    assert_eq!(Field::from_key("types"), None);
    assert_eq!(Field::from_key(""), None);
    assert_eq!(Field::from_key("b\u{e9}tes"), None);
}
