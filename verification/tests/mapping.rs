use flashcards::mapper::{
    decode_new_card, decode_new_user, encode_card, encode_card_with, encode_cards,
    encode_integers, encode_user, encode_users, first_text_field, integer_field, integers_field,
    new_card_with, text_field, DecodeError,
};
use flashcards::model::{Card, NewCard, NewUser, Timestamp, User};
use flashcards::wire::{WireField, WireValue};

fn entry(name: &str, value: WireValue) -> WireField {
    WireField { name: name.to_string(), value }
}

fn text(value: &str) -> WireValue {
    WireValue::Text(value.to_string())
}

fn full_user() -> Vec<WireField> {
    vec![
        entry("name", text("ada")),
        entry("first", text("Ada")),
        entry("last", text("Lovelace")),
        entry("email", text("ada@example.org")),
    ]
}

fn full_card() -> Vec<WireField> {
    vec![
        entry("user_id", WireValue::Integer(3)),
        entry("deck_id", WireValue::Integer(5)),
        entry("from", text("der Hund")),
        entry("to", text("the dog")),
        entry("example", text("Der Hund bellt.")),
        entry("audio_url", text("https://example.org/hund.ogg")),
        entry("seen_at", text("2015-09-18T23:56:04")),
        entry("seen_for", WireValue::Integer(2500)),
        entry("rating", WireValue::Integer(2)),
        entry("prev_rating", WireValue::Integer(-1)),
        entry("related", WireValue::List(vec![WireValue::Integer(9), WireValue::Integer(4)])),
    ]
}

fn without(fields: Vec<WireField>, name: &str) -> WireValue {
    WireValue::Record(fields.into_iter().filter(|field| field.name != name).collect())
}

fn with(fields: Vec<WireField>, name: &str, value: WireValue) -> WireValue {
    let mut out = Vec::new();
    for field in fields {
        if field.name == name {
            out.push(entry(name, WireValue::Null));
        } else {
            out.push(field);
        }
    }
    for field in out.iter_mut() {
        if field.name == name {
            field.value = value;
            break;
        }
    }
    WireValue::Record(out)
}

fn stored_card() -> Card {
    Card {
        id: 11,
        user_id: 3,
        deck_id: 5,
        from: "der Hund".to_string(),
        to: "the dog".to_string(),
        example: "Der Hund bellt.".to_string(),
        audio_url: "https://example.org/hund.ogg".to_string(),
        seen_at: Timestamp { seconds: 1442620564, nanos: 0 },
        seen_for: 2500,
        rating: 2,
        prev_rating: -1,
        related: vec![9, 4],
    }
}

#[test]
fn field_lookup_takes_the_first_of_a_name() {
    let record = WireValue::Record(vec![
        entry("a", WireValue::Integer(1)),
        entry("b", WireValue::Bool(true)),
        entry("a", WireValue::Integer(2)),
    ]);
    assert_eq!(record.field("a"), Some(&WireValue::Integer(1)));
    assert_eq!(record.field("b"), Some(&WireValue::Bool(true)));
    assert_eq!(record.field("c"), None);
    assert_eq!(WireValue::Record(vec![]).field("a"), None);
    assert_eq!(WireValue::Null.field("a"), None);
    assert_eq!(WireValue::List(vec![WireValue::Integer(1)]).field("a"), None);
}

#[test]
fn field_readers_tell_missing_from_invalid() {
    let record = WireValue::Record(vec![
        entry("t", text("x")),
        entry("n", WireValue::Integer(7)),
        entry("l", WireValue::List(vec![WireValue::Integer(1), WireValue::Integer(-2)])),
    ]);
    assert_eq!(text_field(&record, "t"), Ok(&"x".to_string()));
    assert_eq!(text_field(&record, "n"), Err(DecodeError::Invalid("n".to_string())));
    assert_eq!(text_field(&record, "z"), Err(DecodeError::Missing("z".to_string())));
    assert_eq!(integer_field(&record, "n"), Ok(7));
    assert_eq!(integer_field(&record, "t"), Err(DecodeError::Invalid("t".to_string())));
    assert_eq!(integer_field(&record, "z"), Err(DecodeError::Missing("z".to_string())));
    assert_eq!(integers_field(&record, "l"), Ok(vec![1, -2]));
    assert_eq!(integers_field(&record, "n"), Err(DecodeError::Invalid("n".to_string())));
    assert_eq!(integers_field(&record, "z"), Err(DecodeError::Missing("z".to_string())));
}

#[test]
fn integers_must_fit_in_32_bits() {
    let record = WireValue::Record(vec![
        entry("max", WireValue::Integer(2147483647)),
        entry("min", WireValue::Integer(-2147483648)),
        entry("over", WireValue::Integer(2147483648)),
        entry("under", WireValue::Integer(-2147483649)),
        entry("decimal", WireValue::Decimal("1.0".to_string())),
        entry("list", WireValue::List(vec![WireValue::Integer(1), WireValue::Integer(2147483648)])),
        entry("mixed", WireValue::List(vec![WireValue::Integer(1), text("2")])),
        entry("empty", WireValue::List(vec![])),
    ]);
    assert_eq!(integer_field(&record, "max"), Ok(2147483647));
    assert_eq!(integer_field(&record, "min"), Ok(-2147483648));
    assert_eq!(integer_field(&record, "over"), Err(DecodeError::Invalid("over".to_string())));
    assert_eq!(integer_field(&record, "under"), Err(DecodeError::Invalid("under".to_string())));
    assert_eq!(integer_field(&record, "decimal"), Err(DecodeError::Invalid("decimal".to_string())));
    assert_eq!(integers_field(&record, "list"), Err(DecodeError::Invalid("list".to_string())));
    assert_eq!(integers_field(&record, "mixed"), Err(DecodeError::Invalid("mixed".to_string())));
    assert_eq!(integers_field(&record, "empty"), Ok(vec![]));
}

#[test]
fn new_user_decodes_from_its_four_fields() {
    let expected = NewUser {
        name: "ada".to_string(),
        first: "Ada".to_string(),
        last: "Lovelace".to_string(),
        email: "ada@example.org".to_string(),
    };
    assert_eq!(decode_new_user(&WireValue::Record(full_user())), Ok(expected.clone()));
    let mut reversed = full_user();
    reversed.reverse();
    reversed.push(entry("id", WireValue::Integer(99)));
    reversed.push(entry("id", WireValue::Integer(98)));
    reversed.push(entry("nickname", text("countess")));
    assert_eq!(decode_new_user(&WireValue::Record(reversed)), Ok(expected));
}

#[test]
fn new_user_needs_every_field() {
    for name in ["name", "first", "last", "email"] {
        assert_eq!(
            decode_new_user(&without(full_user(), name)),
            Err(DecodeError::Missing(name.to_string()))
        );
        assert_eq!(
            decode_new_user(&with(full_user(), name, WireValue::Integer(1))),
            Err(DecodeError::Invalid(name.to_string()))
        );
        assert_eq!(
            decode_new_user(&with(full_user(), name, WireValue::Null)),
            Err(DecodeError::Invalid(name.to_string()))
        );
    }
    assert_eq!(
        decode_new_user(&WireValue::Record(vec![])),
        Err(DecodeError::Missing("name".to_string()))
    );
    assert_eq!(
        decode_new_user(&with(without(full_user(), "first").into_fields(), "email", WireValue::Null)),
        Err(DecodeError::Missing("first".to_string()))
    );
}

trait IntoFields {
    fn into_fields(self) -> Vec<WireField>;
}

impl IntoFields for WireValue {
    fn into_fields(self) -> Vec<WireField> {
        match self {
            WireValue::Record(fields) => fields,
            _ => Vec::new(),
        }
    }
}

#[test]
fn only_a_record_decodes() {
    for value in [
        WireValue::Null,
        WireValue::Bool(true),
        WireValue::Integer(1),
        WireValue::Decimal("1.5".to_string()),
        text("name"),
        WireValue::List(vec![text("ada"), text("Ada"), text("Lovelace"), text("ada@example.org")]),
    ] {
        assert_eq!(decode_new_user(&value), Err(DecodeError::NotARecord));
        assert_eq!(decode_new_card(&value), Err(DecodeError::NotARecord));
    }
}

#[test]
fn new_card_decodes_from_its_eleven_fields() {
    let expected = NewCard {
        user_id: 3,
        deck_id: 5,
        from: "der Hund".to_string(),
        to: "the dog".to_string(),
        example: "Der Hund bellt.".to_string(),
        audio_url: "https://example.org/hund.ogg".to_string(),
        seen_at: Timestamp { seconds: 1442620564, nanos: 0 },
        seen_for: 2500,
        rating: 2,
        prev_rating: -1,
        related: vec![9, 4],
    };
    assert_eq!(decode_new_card(&WireValue::Record(full_card())), Ok(expected));
}

#[test]
fn new_card_needs_every_field() {
    for name in [
        "user_id",
        "deck_id",
        "from",
        "to",
        "example",
        "audio_url",
        "seen_at",
        "seen_for",
        "rating",
        "prev_rating",
        "related",
    ] {
        assert_eq!(
            decode_new_card(&without(full_card(), name)),
            Err(DecodeError::Missing(name.to_string()))
        );
        assert_eq!(
            decode_new_card(&with(full_card(), name, WireValue::Bool(false))),
            Err(DecodeError::Invalid(name.to_string()))
        );
    }
}

#[test]
fn new_card_reports_the_first_field_at_fault() {
    let value = with(without(full_card(), "rating").into_fields(), "deck_id", text("5"));
    assert_eq!(decode_new_card(&value), Err(DecodeError::Invalid("deck_id".to_string())));
    let value = with(without(full_card(), "related").into_fields(), "seen_at", text("yesterday"));
    assert_eq!(decode_new_card(&value), Err(DecodeError::Invalid("seen_at".to_string())));
    let value = with(without(full_card(), "audio_url").into_fields(), "seen_at", text("yesterday"));
    assert_eq!(decode_new_card(&value), Err(DecodeError::Missing("audio_url".to_string())));
}

#[test]
fn seen_at_reads_date_and_time_with_optional_fraction() {
    let at = |written: &str| {
        decode_new_card(&with(full_card(), "seen_at", text(written))).map(|card| card.seen_at)
    };
    assert_eq!(at("1970-01-01T00:00:00"), Ok(Timestamp { seconds: 0, nanos: 0 }));
    assert_eq!(at("1970-01-01T00:00:01.5"), Ok(Timestamp { seconds: 1, nanos: 500000000 }));
    assert_eq!(at("1969-12-31T23:59:59"), Ok(Timestamp { seconds: -1, nanos: 0 }));
    assert_eq!(at("2024-02-29T12:00:00.000000001"), Ok(Timestamp { seconds: 1709208000, nanos: 1 }));
    let invalid = Err(DecodeError::Invalid("seen_at".to_string()));
    assert_eq!(at(""), invalid);
    assert_eq!(at("2024-02-30T12:00:00"), invalid);
    assert_eq!(at("2023-02-29T12:00:00"), invalid);
    assert_eq!(at("2024-01-01"), invalid);
    assert_eq!(at("2024-01-01T25:00:00"), invalid);
    assert_eq!(at("2024-01-01T00:00:00Z"), invalid);
    assert_eq!(at("1700000000"), invalid);
}

#[test]
fn new_card_with_takes_the_timestamp_as_given() {
    let value = WireValue::Record(full_card());
    let at = Timestamp { seconds: 42, nanos: 7 };
    assert_eq!(new_card_with(&value, Some(at)).map(|card| card.seen_at), Ok(at));
    assert_eq!(new_card_with(&value, None), Err(DecodeError::Invalid("seen_at".to_string())));
    assert_eq!(
        new_card_with(&without(full_card(), "seen_at"), Some(at)),
        Err(DecodeError::Missing("seen_at".to_string()))
    );
    assert_eq!(
        new_card_with(&without(full_card(), "user_id"), None),
        Err(DecodeError::Missing("user_id".to_string()))
    );
    assert_eq!(
        new_card_with(&without(full_card(), "seen_for"), None),
        Err(DecodeError::Invalid("seen_at".to_string()))
    );
}

#[test]
fn required_field_may_be_written_once_only() {
    let twice = |name: &str, second: WireValue| {
        let mut fields = full_card();
        fields.push(entry(name, second));
        WireValue::Record(fields)
    };
    for name in ["user_id", "deck_id", "seen_for", "rating", "prev_rating"] {
        assert_eq!(
            decode_new_card(&twice(name, WireValue::Integer(1))),
            Err(DecodeError::Duplicate(name.to_string()))
        );
    }
    for name in ["from", "to", "example", "audio_url", "seen_at"] {
        assert_eq!(
            decode_new_card(&twice(name, WireValue::Null)),
            Err(DecodeError::Duplicate(name.to_string()))
        );
    }
    assert_eq!(
        decode_new_card(&twice("related", WireValue::List(vec![]))),
        Err(DecodeError::Duplicate("related".to_string()))
    );
    for name in ["name", "first", "last", "email"] {
        let mut fields = full_user();
        fields.insert(0, entry(name, text("again")));
        assert_eq!(
            decode_new_user(&WireValue::Record(fields)),
            Err(DecodeError::Duplicate(name.to_string()))
        );
    }
    let mut fields = full_user();
    fields.insert(0, entry("last", WireValue::Integer(1)));
    assert_eq!(
        decode_new_user(&WireValue::Record(fields)),
        Err(DecodeError::Invalid("last".to_string()))
    );
    let record = twice("seen_at", text("2015-09-18T23:56:04"));
    assert_eq!(first_text_field(&record, "seen_at"), Ok(&"2015-09-18T23:56:04".to_string()));
    assert_eq!(text_field(&record, "seen_at"), Err(DecodeError::Duplicate("seen_at".to_string())));
    assert!(record.repeats("seen_at"));
    assert!(!record.repeats("rating"));
    assert!(!record.repeats("absent"));
    assert!(!WireValue::Null.repeats("seen_at"));
    let bad_first = with(twice("seen_at", text("2015-09-18T23:56:04")).into_fields(), "seen_at", text("soon"));
    assert_eq!(decode_new_card(&bad_first), Err(DecodeError::Invalid("seen_at".to_string())));
}

#[test]
fn decode_errors_describe_themselves() {
    assert_eq!(
        DecodeError::Duplicate("rating".to_string()).describe(),
        "duplicate field `rating`"
    );
    assert_eq!(DecodeError::NotARecord.describe(), "expected a record of named fields");
    assert_eq!(DecodeError::Missing("email".to_string()).describe(), "missing field `email`");
    assert_eq!(
        DecodeError::Invalid("seen_at".to_string()).describe(),
        "invalid value for field `seen_at`"
    );
    assert_eq!(DecodeError::Missing(String::new()).describe(), "missing field ``");
}

#[test]
fn user_is_shown_with_its_identifier_first() {
    let user = User {
        id: 12,
        name: "ada".to_string(),
        first: "Ada".to_string(),
        last: "Lovelace".to_string(),
        email: "ada@example.org".to_string(),
    };
    let mut fields = vec![entry("id", WireValue::Integer(12))];
    fields.extend(full_user());
    assert_eq!(encode_user(&user), WireValue::Record(fields));
}

#[test]
fn shown_user_decodes_to_its_payload() {
    let user = User {
        id: -4,
        name: "n".to_string(),
        first: String::new(),
        last: "l".to_string(),
        email: "e".to_string(),
    };
    assert_eq!(
        decode_new_user(&encode_user(&user)),
        Ok(NewUser {
            name: "n".to_string(),
            first: String::new(),
            last: "l".to_string(),
            email: "e".to_string(),
        })
    );
    assert_eq!(encode_user(&user).field("id"), Some(&WireValue::Integer(-4)));
}

#[test]
fn listing_is_shown_row_by_row_in_order() {
    let first = User {
        id: 2,
        name: "b".to_string(),
        first: "B".to_string(),
        last: "Bee".to_string(),
        email: "b@example.org".to_string(),
    };
    let second = User {
        id: 1,
        name: "a".to_string(),
        first: "A".to_string(),
        last: "Ay".to_string(),
        email: "a@example.org".to_string(),
    };
    assert_eq!(encode_users(&vec![]), WireValue::List(vec![]));
    assert_eq!(
        encode_users(&vec![first.clone(), second.clone()]),
        WireValue::List(vec![encode_user(&first), encode_user(&second)])
    );
    assert_eq!(
        encode_users(&vec![second.clone(), first.clone(), second.clone()]),
        WireValue::List(vec![encode_user(&second), encode_user(&first), encode_user(&second)])
    );
}

#[test]
fn integers_are_shown_in_order() {
    assert_eq!(encode_integers(&vec![]), WireValue::List(vec![]));
    assert_eq!(
        encode_integers(&vec![3, -1, 3, 2147483647, -2147483648]),
        WireValue::List(vec![
            WireValue::Integer(3),
            WireValue::Integer(-1),
            WireValue::Integer(3),
            WireValue::Integer(2147483647),
            WireValue::Integer(-2147483648),
        ])
    );
}

#[test]
fn card_is_shown_with_its_identifier_first() {
    let mut fields = vec![entry("id", WireValue::Integer(11))];
    fields.extend(full_card());
    assert_eq!(encode_card(&stored_card()), Some(WireValue::Record(fields)));
}

#[test]
fn card_is_shown_with_the_timestamp_text_given() {
    let mut fields = vec![entry("id", WireValue::Integer(11))];
    fields.extend(with(full_card(), "seen_at", text("whenever")).into_fields());
    assert_eq!(encode_card_with(&stored_card(), "whenever"), WireValue::Record(fields));
}

#[test]
fn timestamp_is_written_with_its_fraction() {
    let written = |seconds: i64, nanos: u32| {
        let card = Card { seen_at: Timestamp { seconds, nanos }, ..stored_card() };
        encode_card(&card).and_then(|wire| wire.field("seen_at").map(|value| format!("{:?}", value)))
    };
    assert_eq!(written(0, 0), Some("Text(\"1970-01-01T00:00:00\")".to_string()));
    assert_eq!(written(-1, 0), Some("Text(\"1969-12-31T23:59:59\")".to_string()));
    assert_eq!(written(1709208000, 1), Some("Text(\"2024-02-29T12:00:00.000000001\")".to_string()));
    assert_eq!(written(1, 500000000), Some("Text(\"1970-01-01T00:00:01.500\")".to_string()));
    assert_eq!(written(59, 1500000000), Some("Text(\"1970-01-01T00:00:60.500\")".to_string()));
}

#[test]
fn timestamp_out_of_range_is_not_shown() {
    let card = Card { seen_at: Timestamp { seconds: i64::MAX, nanos: 0 }, ..stored_card() };
    assert_eq!(encode_card(&card), None);
    let card = Card { seen_at: Timestamp { seconds: 0, nanos: 2000000000 }, ..stored_card() };
    assert_eq!(encode_card(&card), None);
    let card = Card { seen_at: Timestamp { seconds: 0, nanos: 1000000000 }, ..stored_card() };
    assert_eq!(encode_card(&card), None);
    assert_eq!(encode_cards(&vec![stored_card(), card, stored_card()]), None);
}

#[test]
fn cards_are_shown_row_by_row_in_order() {
    let other = Card { id: 12, related: vec![], ..stored_card() };
    assert_eq!(encode_cards(&vec![]), Some(WireValue::List(vec![])));
    assert_eq!(
        encode_cards(&vec![other.clone(), stored_card()]),
        Some(WireValue::List(vec![
            encode_card(&other).unwrap_or(WireValue::Null),
            encode_card(&stored_card()).unwrap_or(WireValue::Null),
        ]))
    );
    assert_eq!(
        encode_card(&other).and_then(|wire| wire.field("related").map(|value| value == &WireValue::List(vec![]))),
        Some(true)
    );
}

#[test]
fn shown_card_decodes_to_its_payload() {
    let shown = encode_card(&stored_card()).unwrap_or(WireValue::Null);
    let card = stored_card();
    assert_eq!(
        decode_new_card(&shown),
        Ok(NewCard {
            user_id: card.user_id,
            deck_id: card.deck_id,
            from: card.from,
            to: card.to,
            example: card.example,
            audio_url: card.audio_url,
            seen_at: card.seen_at,
            seen_for: card.seen_for,
            rating: card.rating,
            prev_rating: card.prev_rating,
            related: card.related,
        })
    );
}

#[test]
fn seen_at_is_read_and_written_as_chrono_does() {
    let texts = [
        "2015-09-18T23:56:04",
        "2015-09-18T23:56:04.5",
        "+12345-6-7T7:59:60.5",
        " 2015-09-18 T 23:56:04 ",
        "2015-9-8T3:6:4",
        "0000-01-01T00:00:00",
        "-0001-12-31T23:59:59.999999999",
        "2015-09-18t23:56:04",
        "2015-09-18 23:56:04",
        "2015-13-01T00:00:00",
        "2015-09-18T23:56",
        "",
    ];
    let mut read = 0;
    for written in texts {
        let ours = decode_new_card(&with(full_card(), "seen_at", text(written)))
            .map(|card| card.seen_at)
            .ok();
        let theirs = written.parse::<chrono::NaiveDateTime>().ok();
        assert_eq!(
            ours,
            theirs.map(|at| Timestamp {
                seconds: at.and_utc().timestamp(),
                nanos: at.and_utc().timestamp_subsec_nanos(),
            }),
            "{:?}",
            written
        );
        if let (Some(at), Some(theirs)) = (ours, theirs) {
            read += 1;
            let card = Card { seen_at: at, ..stored_card() };
            let shown = encode_card(&card).and_then(|wire| match wire.field("seen_at") {
                Some(WireValue::Text(text)) => Some(text.clone()),
                _ => None,
            });
            assert_eq!(shown, Some(format!("{:?}", theirs)));
        }
    }
    assert!(read >= 5, "read {}", read);
}
