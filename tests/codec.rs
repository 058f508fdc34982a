use tlv_records::{
    serialize, Action, ActionKind, Deserialize, Entity, Error, Field, FieldReader, FieldType,
    Serialize, Session,
};

fn entity(name: &str, field_b: u8, field_c: bool) -> Entity {
    Entity { name: name.to_string(), field_b, field_c }
}

fn record(tag: u8, payload: &[u8]) -> Vec<u8> {
    let mut out = vec![tag, (payload.len() / 256) as u8, (payload.len() % 256) as u8];
    out.extend_from_slice(payload);
    out
}

#[test]
fn entity_new_zeroes_scalar_fields() {
    let e = Entity::new("bob".to_string());
    assert_eq!(e, entity("bob", 0, false));
}

#[test]
fn entity_payload_bytes() {
    let e = entity("ab", 9, true);
    let bytes = e.serialize().unwrap();
    assert_eq!(bytes, vec![1, 0, 2, b'a', b'b', 3, 0, 1, 9, 4, 0, 1, 1]);
}

#[test]
fn entity_round_trip() {
    let e = entity("alice", 7, true);
    let bytes = e.encode().unwrap();
    assert_eq!(Entity::decode(&bytes), Ok(e));
}

#[test]
fn entity_round_trip_through_traits() {
    let e = entity("zoë", 255, false);
    let payload = e.serialize().unwrap();
    let mut reader = FieldReader::new(&payload);
    assert_eq!(Entity::deserialize(&mut reader), Ok(e));
}

#[test]
fn action_round_trip() {
    let a = Action::new(ActionKind::Heal, "goblin".to_string());
    let bytes = a.encode().unwrap();
    assert_eq!(bytes[0], 5);
    assert_eq!(Action::decode(&bytes), Ok(a));
}

#[test]
fn action_kind_round_trip() {
    for k in [ActionKind::Attack, ActionKind::Defend, ActionKind::Heal, ActionKind::Flee] {
        let bytes = k.encode();
        assert_eq!(bytes, vec![6, 0, 1, k.discriminant()]);
        assert_eq!(ActionKind::decode(&bytes), Ok(k));
    }
}

#[test]
fn action_kind_discriminants_are_stable() {
    assert_eq!(ActionKind::Attack.discriminant(), 0);
    assert_eq!(ActionKind::Defend.discriminant(), 1);
    assert_eq!(ActionKind::Heal.discriminant(), 2);
    assert_eq!(ActionKind::Flee.discriminant(), 3);
    assert_eq!(ActionKind::from_discriminant(2), Some(ActionKind::Heal));
    assert_eq!(ActionKind::from_discriminant(4), None);
}

#[test]
fn session_round_trip() {
    let s = Session::new(entity("carol", 3, true));
    let bytes = s.encode().unwrap();
    assert_eq!(Session::decode(&bytes), Ok(s));
}

#[test]
fn nested_session_layout() {
    let s = Session::new(entity("alice", 7, true));
    let bytes = s.encode().unwrap();
    assert_eq!(bytes[0], 8);
    let payload_len = bytes[1] as usize * 256 + bytes[2] as usize;
    assert_eq!(payload_len, bytes.len() - 3);
    let payload = &bytes[3..];
    assert_eq!(payload[0], 7);
    let mut outer = FieldReader::new(payload);
    let inner = match outer.read_field(FieldType::Entity).unwrap() {
        Field::Entity(e) => e,
        _ => panic!("not an entity"),
    };
    assert_eq!(inner, entity("alice", 7, true));
    let entity_payload = &payload[3..];
    let mut reader = FieldReader::new(entity_payload);
    assert_eq!(reader.read_str(), Ok("alice".to_string()));
    assert_eq!(reader.read_byte(), Ok(7));
    assert_eq!(reader.read_bool(), Ok(true));
    assert_eq!(reader.read_byte(), Err(Error::MissingFieldType));
}

#[test]
fn field_round_trip_every_kind() {
    let fields = vec![
        Field::Str("text".to_string()),
        Field::Byte(42),
        Field::Bool(true),
        Field::U128(0x0102_0304_0506_0708_090a_0b0c_0d0e_0f10),
        Field::Action(Action::new(ActionKind::Attack, "troll".to_string())),
        Field::ActionKind(ActionKind::Flee),
        Field::Entity(entity("dave", 1, false)),
        Field::Session(Session::new(entity("erin", 2, true))),
    ];
    let kinds = [
        FieldType::Str,
        FieldType::Byte,
        FieldType::Bool,
        FieldType::U128,
        FieldType::Action,
        FieldType::ActionKind,
        FieldType::Entity,
        FieldType::Session,
    ];
    let mut buf = Vec::new();
    for f in fields.iter() {
        serialize(&mut buf, f.clone()).unwrap();
    }
    let mut reader = FieldReader::new(&buf);
    for (f, k) in fields.iter().zip(kinds.iter()) {
        assert_eq!(reader.read_field(*k).as_ref(), Ok(f));
    }
    assert_eq!(reader.read_field(FieldType::Str), Err(Error::MissingFieldType));
}

#[test]
fn u128_is_big_endian() {
    let mut buf = Vec::new();
    serialize(&mut buf, Field::U128(0x0102)).unwrap();
    let mut expected = vec![2, 0, 16];
    expected.extend_from_slice(&[0; 14]);
    expected.extend_from_slice(&[1, 2]);
    assert_eq!(buf, expected);
    let mut reader = FieldReader::new(&buf);
    assert_eq!(reader.read_u128(), Ok(0x0102));
}

#[test]
fn bool_payload_other_than_one_is_false() {
    let bytes = record(4, &[2]);
    let mut reader = FieldReader::new(&bytes);
    assert_eq!(reader.read_bool(), Ok(false));
}

#[test]
fn entity_fields_out_of_order_fail() {
    let mut payload = Vec::new();
    serialize(&mut payload, Field::Byte(7)).unwrap();
    serialize(&mut payload, Field::Str("alice".to_string())).unwrap();
    serialize(&mut payload, Field::Bool(true)).unwrap();
    let mut reader = FieldReader::new(&payload);
    assert_eq!(Entity::deserialize(&mut reader), Err(Error::InvalidFieldType));

    let mut payload = Vec::new();
    serialize(&mut payload, Field::Str("alice".to_string())).unwrap();
    serialize(&mut payload, Field::Bool(true)).unwrap();
    serialize(&mut payload, Field::Byte(7)).unwrap();
    let mut reader = FieldReader::new(&payload);
    assert_eq!(Entity::deserialize(&mut reader), Err(Error::InvalidFieldType));
}

#[test]
fn action_fields_out_of_order_fail() {
    let mut payload = Vec::new();
    serialize(&mut payload, Field::Str("orc".to_string())).unwrap();
    serialize(&mut payload, Field::ActionKind(ActionKind::Defend)).unwrap();
    let mut reader = FieldReader::new(&payload);
    assert_eq!(Action::deserialize(&mut reader), Err(Error::InvalidFieldType));
}

#[test]
fn tag_mismatch_for_every_pair() {
    let kinds = [
        FieldType::Str,
        FieldType::U128,
        FieldType::Byte,
        FieldType::Bool,
        FieldType::Action,
        FieldType::ActionKind,
        FieldType::Entity,
        FieldType::Session,
    ];
    let samples = vec![
        Field::Str("x".to_string()),
        Field::U128(5),
        Field::Byte(1),
        Field::Bool(false),
        Field::Action(Action::new(ActionKind::Defend, "y".to_string())),
        Field::ActionKind(ActionKind::Attack),
        Field::Entity(entity("z", 0, false)),
        Field::Session(Session::new(entity("w", 0, true))),
    ];
    for (i, f) in samples.iter().enumerate() {
        let mut buf = Vec::new();
        serialize(&mut buf, f.clone()).unwrap();
        for (j, k) in kinds.iter().enumerate() {
            let mut reader = FieldReader::new(&buf);
            let got = reader.read_field(*k);
            if i == j {
                assert_eq!(got.as_ref(), Ok(f));
            } else {
                assert_eq!(got, Err(Error::InvalidFieldType));
            }
        }
    }
}

#[test]
fn failed_read_leaves_reader_in_place() {
    let mut buf = Vec::new();
    serialize(&mut buf, Field::Byte(3)).unwrap();
    let mut reader = FieldReader::new(&buf);
    assert_eq!(reader.read_bool(), Err(Error::InvalidFieldType));
    assert_eq!(reader.read_byte(), Ok(3));
}

#[test]
fn truncation_at_every_offset() {
    let s = Session::new(entity("frank", 4, true));
    let bytes = s.encode().unwrap();
    for n in 0..bytes.len() {
        let got = Session::decode(&bytes[..n]);
        let expected = if n == 0 {
            Error::MissingFieldType
        } else if n < 3 {
            Error::MissingFieldLen
        } else {
            Error::TruncatedPayload
        };
        assert_eq!(got, Err(expected));
    }
}

#[test]
fn inner_truncation_is_an_error() {
    // An entity record whose name record declares more bytes than the entity holds.
    let inner = vec![1, 0, 9, b'a', b'b'];
    let bytes = record(7, &inner);
    assert_eq!(Entity::decode(&bytes), Err(Error::TruncatedPayload));
}

#[test]
fn string_of_max_length_round_trips() {
    let name = "a".repeat(65535);
    let mut buf = Vec::new();
    serialize(&mut buf, Field::Str(name.clone())).unwrap();
    assert_eq!(buf.len(), 65538);
    assert_eq!(&buf[..3], &[1, 255, 255]);
    let mut reader = FieldReader::new(&buf);
    assert_eq!(reader.read_str(), Ok(name));
}

#[test]
fn string_over_max_length_overflows() {
    let name = "a".repeat(65536);
    let mut buf = vec![9];
    assert_eq!(serialize(&mut buf, Field::Str(name.clone())), Err(Error::LengthOverflow));
    assert_eq!(buf, vec![9]);
    assert_eq!(entity(&name, 0, false).serialize(), Err(Error::LengthOverflow));
    assert_eq!(entity(&name, 0, false).encode(), Err(Error::LengthOverflow));
}

#[test]
fn entity_that_fills_a_session_overflows() {
    // The name fits its own record, but the entity payload around it does not fit the session's.
    let e = entity(&"b".repeat(65530), 0, false);
    assert!(e.serialize().is_ok());
    assert_eq!(e.encode(), Err(Error::LengthOverflow));
    assert_eq!(Session::new(e).encode(), Err(Error::LengthOverflow));
}

#[test]
fn unknown_discriminant_is_rejected() {
    for b in [4u8, 7, 200, 255] {
        let bytes = record(6, &[b]);
        assert_eq!(ActionKind::decode(&bytes), Err(Error::InvalidFieldType));
    }
}

#[test]
fn empty_buffer_misses_field_type() {
    let mut reader = FieldReader::new(&[]);
    assert_eq!(reader.read_str(), Err(Error::MissingFieldType));
}

#[test]
fn short_buffer_misses_field_len() {
    let mut reader = FieldReader::new(&[1, 0]);
    assert_eq!(reader.read_str(), Err(Error::MissingFieldLen));
}

#[test]
fn unknown_tag_is_invalid() {
    let mut reader = FieldReader::new(&[9, 0, 0]);
    assert_eq!(reader.read_str(), Err(Error::InvalidFieldType));
    let mut reader = FieldReader::new(&[0]);
    assert_eq!(reader.read_byte(), Err(Error::InvalidFieldType));
}

#[test]
fn invalid_utf8_is_an_encoding_error() {
    let bytes = record(1, &[0x66, 0xff, 0x6f]);
    let mut reader = FieldReader::new(&bytes);
    assert_eq!(reader.read_str(), Err(Error::EncodingError));
}

#[test]
fn non_ascii_text_decodes() {
    let bytes = record(1, "héllo→".as_bytes());
    let mut reader = FieldReader::new(&bytes);
    assert_eq!(reader.read_str(), Ok("héllo→".to_string()));
}

#[test]
fn empty_scalar_payloads_are_truncated() {
    for tag in [3u8, 4, 6] {
        let bytes = record(tag, &[]);
        let kind = FieldType::from_tag(tag).unwrap();
        let mut reader = FieldReader::new(&bytes);
        assert_eq!(reader.read_field(kind), Err(Error::TruncatedPayload));
    }
    let bytes = record(2, &[0; 15]);
    let mut reader = FieldReader::new(&bytes);
    assert_eq!(reader.read_u128(), Err(Error::TruncatedPayload));
}

#[test]
fn conversion_layer_accepts_one_variant() {
    assert_eq!(Field::Byte(5).into_byte(), Ok(5));
    assert_eq!(Field::Byte(5).into_bool(), Err(Error::InvalidFieldType));
    assert_eq!(Field::Bool(true).into_bool(), Ok(true));
    assert_eq!(Field::Str("q".to_string()).into_str(), Ok("q".to_string()));
    assert_eq!(Field::Str("q".to_string()).into_u128(), Err(Error::InvalidFieldType));
    assert_eq!(Field::U128(77).into_u128(), Ok(77));
    assert_eq!(Field::ActionKind(ActionKind::Heal).into_action_kind(), Ok(ActionKind::Heal));
    let e = entity("g", 1, true);
    assert_eq!(Field::Entity(e.clone()).into_entity(), Ok(e.clone()));
    assert_eq!(Field::Entity(e.clone()).into_session(), Err(Error::InvalidFieldType));
    let s = Session::new(e);
    assert_eq!(Field::Session(s.clone()).into_session(), Ok(s));
    let a = Action::new(ActionKind::Flee, "h".to_string());
    assert_eq!(Field::Action(a.clone()).into_action(), Ok(a));
}

#[test]
fn field_type_tags() {
    assert_eq!(FieldType::Str.tag(), 1);
    assert_eq!(FieldType::U128.tag(), 2);
    assert_eq!(FieldType::Byte.tag(), 3);
    assert_eq!(FieldType::Bool.tag(), 4);
    assert_eq!(FieldType::Action.tag(), 5);
    assert_eq!(FieldType::ActionKind.tag(), 6);
    assert_eq!(FieldType::Entity.tag(), 7);
    assert_eq!(FieldType::Session.tag(), 8);
    assert_eq!(FieldType::from_tag(0), None);
    assert_eq!(FieldType::from_tag(9), None);
}

#[test]
fn trailing_bytes_after_a_record_are_left() {
    let mut bytes = entity("i", 2, false).encode().unwrap();
    bytes.extend_from_slice(&[3, 0, 1, 8]);
    let mut reader = FieldReader::new(&bytes);
    assert_eq!(reader.read_entity(), Ok(entity("i", 2, false)));
    assert_eq!(reader.read_byte(), Ok(8));
}
