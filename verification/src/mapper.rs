//! Mapping between the wire form and the typed records: which fields a
//! payload must carry, of which type, and how a stored row is shown.

use crate::model::{
    integers, Card, CardView, NewCard, NewCardView, NewUser, NewUserView, Timestamp, User,
    UserView,
};
use crate::timestamp::{parse_timestamp, parsed_timestamp, write_timestamp, written_timestamp};
use crate::wire::{WireField, WireValue, WireView};
use vstd::prelude::*;
use vstd::string::*;

verus! {

/// Why a payload could not be decoded.
#[derive(Clone, Debug, PartialEq, Eq)]
pub enum DecodeError {
    /// The payload is not a record of named fields.
    NotARecord,
    /// A required field is absent.
    Missing(String),
    /// A field is present but does not hold a value of its type.
    Invalid(String),
    /// A required field is written more than once.
    Duplicate(String),
}

/// Mathematical value of a [`DecodeError`].
pub enum DecodeErrorView {
    NotARecord,
    Missing(Seq<char>),
    Invalid(Seq<char>),
    Duplicate(Seq<char>),
}

impl View for DecodeError {
    type V = DecodeErrorView;

    open spec fn view(&self) -> DecodeErrorView {
        match self {
            DecodeError::NotARecord => DecodeErrorView::NotARecord,
            DecodeError::Missing(name) => DecodeErrorView::Missing(name@),
            DecodeError::Invalid(name) => DecodeErrorView::Invalid(name@),
            DecodeError::Duplicate(name) => DecodeErrorView::Duplicate(name@),
        }
    }
}

impl DecodeErrorView {
    /// The sentence that reports this error to the caller.
    pub open spec fn description(self) -> Seq<char> {
        match self {
            DecodeErrorView::NotARecord => "expected a record of named fields"@,
            DecodeErrorView::Missing(name) => "missing field `"@ + name + "`"@,
            DecodeErrorView::Invalid(name) => "invalid value for field `"@ + name + "`"@,
            DecodeErrorView::Duplicate(name) => "duplicate field `"@ + name + "`"@,
        }
    }
}

impl DecodeError {
    /// The sentence that reports this error to the caller.
    pub fn describe(&self) -> (text: String)
        ensures
            text@ == self@.description(),
    {
        match self {
            DecodeError::NotARecord => "expected a record of named fields".to_owned(),
            DecodeError::Missing(name) => {
                "missing field `".to_owned().concat(name.as_str()).concat("`")
            },
            DecodeError::Invalid(name) => {
                "invalid value for field `".to_owned().concat(name.as_str()).concat("`")
            },
            DecodeError::Duplicate(name) => {
                "duplicate field `".to_owned().concat(name.as_str()).concat("`")
            },
        }
    }
}

/// The views of a result's two sides.
pub open spec fn outcome<T: View, E: View>(result: Result<T, E>) -> Result<T::V, E::V> {
    match result {
        Ok(value) => Ok(value@),
        Err(error) => Err(error@),
    }
}

/// The view of what an option holds.
pub open spec fn shown<T: View>(option: Option<T>) -> Option<T::V> {
    match option {
        Some(value) => Some(value@),
        None => None,
    }
}

/// The integer that `value` holds, where it is one that fits in 32 bits.
pub open spec fn small_integer(value: WireView) -> Option<int> {
    match value {
        WireView::Integer(number) => if i32::MIN <= number <= i32::MAX {
            Some(number)
        } else {
            None
        },
        _ => None,
    }
}

/// What was read under `key`, unless `key` is written a second time: a
/// field that a payload must carry may be written once only. A fault of the
/// first occurrence comes before the repetition.
pub open spec fn once<T>(value: WireView, key: Seq<char>, read: Result<T, DecodeErrorView>) -> Result<
    T,
    DecodeErrorView,
> {
    match read {
        Ok(found) => if value.repeats(key) {
            Err(DecodeErrorView::Duplicate(key))
        } else {
            Ok(found)
        },
        Err(error) => Err(error),
    }
}

/// The text in the first field named `key`.
pub open spec fn first_text_at(value: WireView, key: Seq<char>) -> Result<
    Seq<char>,
    DecodeErrorView,
> {
    match value.field(key) {
        None => Err(DecodeErrorView::Missing(key)),
        Some(WireView::Text(text)) => Ok(text),
        Some(_) => Err(DecodeErrorView::Invalid(key)),
    }
}

/// The text in field `key`.
pub open spec fn text_at(value: WireView, key: Seq<char>) -> Result<Seq<char>, DecodeErrorView> {
    once(value, key, first_text_at(value, key))
}

/// The 32-bit integer in field `key`.
pub open spec fn integer_at(value: WireView, key: Seq<char>) -> Result<int, DecodeErrorView> {
    once(
        value,
        key,
        match value.field(key) {
            None => Err(DecodeErrorView::Missing(key)),
            Some(found) => match small_integer(found) {
                Some(number) => Ok(number),
                None => Err(DecodeErrorView::Invalid(key)),
            },
        },
    )
}

/// The list of 32-bit integers in field `key`, in the order written.
pub open spec fn integers_at(value: WireView, key: Seq<char>) -> Result<Seq<int>, DecodeErrorView> {
    once(
        value,
        key,
        match value.field(key) {
            None => Err(DecodeErrorView::Missing(key)),
            Some(WireView::List(items)) => if forall|i: int|
                0 <= i < items.len() ==> (#[trigger] small_integer(items[i])) is Some {
                Ok(Seq::new(items.len(), |i: int| small_integer(items[i])->0))
            } else {
                Err(DecodeErrorView::Invalid(key))
            },
            Some(_) => Err(DecodeErrorView::Invalid(key)),
        },
    )
}

/// Reads the text in the first field named `key` of `value`.
pub fn first_text_field<'a>(value: &'a WireValue, key: &str) -> (read: Result<
    &'a String,
    DecodeError,
>)
    ensures
        match read {
            Ok(text) => first_text_at(value@, key@) == Ok::<Seq<char>, DecodeErrorView>(text@),
            Err(error) => first_text_at(value@, key@) == Err::<Seq<char>, DecodeErrorView>(error@),
        },
{
    match value.field(key) {
        None => Err(DecodeError::Missing(key.to_owned())),
        Some(WireValue::Text(text)) => Ok(text),
        Some(_) => Err(DecodeError::Invalid(key.to_owned())),
    }
}

/// Reads the text in field `key` of `value`.
pub fn text_field<'a>(value: &'a WireValue, key: &str) -> (read: Result<&'a String, DecodeError>)
    ensures
        match read {
            Ok(text) => text_at(value@, key@) == Ok::<Seq<char>, DecodeErrorView>(text@),
            Err(error) => text_at(value@, key@) == Err::<Seq<char>, DecodeErrorView>(error@),
        },
{
    match first_text_field(value, key) {
        Ok(text) => {
            if value.repeats(key) {
                Err(DecodeError::Duplicate(key.to_owned()))
            } else {
                Ok(text)
            }
        },
        Err(error) => Err(error),
    }
}

/// Reads the 32-bit integer in field `key` of `value`.
pub fn integer_field(value: &WireValue, key: &str) -> (read: Result<i32, DecodeError>)
    ensures
        match read {
            Ok(number) => integer_at(value@, key@) == Ok::<int, DecodeErrorView>(number as int),
            Err(error) => integer_at(value@, key@) == Err::<int, DecodeErrorView>(error@),
        },
{
    match value.field(key) {
        None => Err(DecodeError::Missing(key.to_owned())),
        Some(WireValue::Integer(number)) => {
            if -2147483648 <= *number && *number <= 2147483647 {
                if value.repeats(key) {
                    Err(DecodeError::Duplicate(key.to_owned()))
                } else {
                    Ok(*number as i32)
                }
            } else {
                Err(DecodeError::Invalid(key.to_owned()))
            }
        },
        Some(_) => Err(DecodeError::Invalid(key.to_owned())),
    }
}

/// Reads the list of 32-bit integers in field `key` of `value`.
pub fn integers_field(value: &WireValue, key: &str) -> (read: Result<Vec<i32>, DecodeError>)
    ensures
        match read {
            Ok(numbers) => integers_at(value@, key@) == Ok::<Seq<int>, DecodeErrorView>(
                integers(numbers@),
            ),
            Err(error) => integers_at(value@, key@) == Err::<Seq<int>, DecodeErrorView>(error@),
        },
{
    match value.field(key) {
        None => Err(DecodeError::Missing(key.to_owned())),
        Some(WireValue::List(items)) => {
            let ghost all = value@.field(key@)->0->List_0;
            let mut numbers: Vec<i32> = Vec::new();
            let mut i: usize = 0;
            while i < items.len()
                invariant
                    i <= items.len(),
                    numbers.len() == i,
                    all.len() == items.len(),
                    value@.field(key@) == Some(WireView::List(all)),
                    forall|j: int| 0 <= j < items.len() ==> all[j] == #[trigger] items@[j]@,
                    forall|j: int|
                        0 <= j < i ==> (#[trigger] small_integer(all[j])) == Some(
                            numbers@[j] as int,
                        ),
                decreases items.len() - i,
            {
                assert(all[i as int] == items@[i as int]@);
                match &items[i] {
                    WireValue::Integer(number) => {
                        if -2147483648 <= *number && *number <= 2147483647 {
                            numbers.push(*number as i32);
                        } else {
                            assert(small_integer(all[i as int]) is None);
                            return Err(DecodeError::Invalid(key.to_owned()));
                        }
                    },
                    _ => {
                        assert(small_integer(all[i as int]) is None);
                        return Err(DecodeError::Invalid(key.to_owned()));
                    },
                }
                i += 1;
            }
            assert(integers(numbers@) =~= Seq::new(all.len(), |i: int| small_integer(all[i])->0));
            if value.repeats(key) {
                Err(DecodeError::Duplicate(key.to_owned()))
            } else {
                Ok(numbers)
            }
        },
        Some(_) => Err(DecodeError::Invalid(key.to_owned())),
    }
}

/// What a payload decodes to as a new user: every field must be present,
/// written once, and hold a text; the first field at fault, in the order
/// `name`, `first`, `last`, `email`, decides the error. Fields of other
/// names are ignored.
pub open spec fn new_user_of(value: WireView) -> Result<NewUserView, DecodeErrorView> {
    let name = text_at(value, "name"@);
    let first = text_at(value, "first"@);
    let last = text_at(value, "last"@);
    let email = text_at(value, "email"@);
    if !(value is Record) {
        Err(DecodeErrorView::NotARecord)
    } else if name is Err {
        Err(name->Err_0)
    } else if first is Err {
        Err(first->Err_0)
    } else if last is Err {
        Err(last->Err_0)
    } else if email is Err {
        Err(email->Err_0)
    } else {
        Ok(NewUserView { name: name->Ok_0, first: first->Ok_0, last: last->Ok_0, email: email->Ok_0 })
    }
}

/// What a payload decodes to as a new card, given what reading its
/// `seen_at` text as a timestamp gave. Every field must be present, written
/// once, and hold a value of its type; the first field at fault, in the
/// order in which [`NewCardView`] lists them, decides the error. Fields of
/// other names are ignored.
pub open spec fn new_card_given(value: WireView, seen_at: Option<Timestamp>) -> Result<
    NewCardView,
    DecodeErrorView,
> {
    let user_id = integer_at(value, "user_id"@);
    let deck_id = integer_at(value, "deck_id"@);
    let from = text_at(value, "from"@);
    let to = text_at(value, "to"@);
    let example = text_at(value, "example"@);
    let audio_url = text_at(value, "audio_url"@);
    let seen_text = first_text_at(value, "seen_at"@);
    let seen_for = integer_at(value, "seen_for"@);
    let rating = integer_at(value, "rating"@);
    let prev_rating = integer_at(value, "prev_rating"@);
    let related = integers_at(value, "related"@);
    if !(value is Record) {
        Err(DecodeErrorView::NotARecord)
    } else if user_id is Err {
        Err(user_id->Err_0)
    } else if deck_id is Err {
        Err(deck_id->Err_0)
    } else if from is Err {
        Err(from->Err_0)
    } else if to is Err {
        Err(to->Err_0)
    } else if example is Err {
        Err(example->Err_0)
    } else if audio_url is Err {
        Err(audio_url->Err_0)
    } else if seen_text is Err {
        Err(seen_text->Err_0)
    } else if seen_at is None {
        Err(DecodeErrorView::Invalid("seen_at"@))
    } else if value.repeats("seen_at"@) {
        Err(DecodeErrorView::Duplicate("seen_at"@))
    } else if seen_for is Err {
        Err(seen_for->Err_0)
    } else if rating is Err {
        Err(rating->Err_0)
    } else if prev_rating is Err {
        Err(prev_rating->Err_0)
    } else if related is Err {
        Err(related->Err_0)
    } else {
        Ok(
            NewCardView {
                user_id: user_id->Ok_0,
                deck_id: deck_id->Ok_0,
                from: from->Ok_0,
                to: to->Ok_0,
                example: example->Ok_0,
                audio_url: audio_url->Ok_0,
                seen_at: seen_at->0,
                seen_for: seen_for->Ok_0,
                rating: rating->Ok_0,
                prev_rating: prev_rating->Ok_0,
                related: related->Ok_0,
            },
        )
    }
}

/// The timestamp that the `seen_at` field of a payload stands for, if the
/// field holds a text that reads as one.
pub open spec fn seen_at_of(value: WireView) -> Option<Timestamp> {
    match first_text_at(value, "seen_at"@) {
        Ok(text) => parsed_timestamp(text),
        Err(_) => None,
    }
}

/// What a payload decodes to as a new card.
pub open spec fn new_card_of(value: WireView) -> Result<NewCardView, DecodeErrorView> {
    new_card_given(value, seen_at_of(value))
}

/// Decodes the payload of a request that creates a user.
pub fn decode_new_user(value: &WireValue) -> (decoded: Result<NewUser, DecodeError>)
    ensures
        outcome(decoded) == new_user_of(value@),
{
    match value {
        WireValue::Record(_) => {},
        _ => {
            return Err(DecodeError::NotARecord);
        },
    }
    let name = match text_field(value, "name") {
        Ok(text) => text,
        Err(error) => {
            return Err(error);
        },
    };
    let first = match text_field(value, "first") {
        Ok(text) => text,
        Err(error) => {
            return Err(error);
        },
    };
    let last = match text_field(value, "last") {
        Ok(text) => text,
        Err(error) => {
            return Err(error);
        },
    };
    let email = match text_field(value, "email") {
        Ok(text) => text,
        Err(error) => {
            return Err(error);
        },
    };
    Ok(NewUser { name: name.clone(), first: first.clone(), last: last.clone(), email: email.clone() })
}

/// Decodes the payload of a request that creates a card, given what reading
/// its `seen_at` text as a timestamp gave.
pub fn new_card_with(value: &WireValue, seen_at: Option<Timestamp>) -> (decoded: Result<
    NewCard,
    DecodeError,
>)
    ensures
        outcome(decoded) == new_card_given(value@, seen_at),
{
    match value {
        WireValue::Record(_) => {},
        _ => {
            return Err(DecodeError::NotARecord);
        },
    }
    let user_id: i32 = match integer_field(value, "user_id") {
        Ok(number) => number,
        Err(error) => {
            return Err(error);
        },
    };
    let deck_id: i32 = match integer_field(value, "deck_id") {
        Ok(number) => number,
        Err(error) => {
            return Err(error);
        },
    };
    let from = match text_field(value, "from") {
        Ok(text) => text,
        Err(error) => {
            return Err(error);
        },
    };
    let to = match text_field(value, "to") {
        Ok(text) => text,
        Err(error) => {
            return Err(error);
        },
    };
    let example = match text_field(value, "example") {
        Ok(text) => text,
        Err(error) => {
            return Err(error);
        },
    };
    let audio_url = match text_field(value, "audio_url") {
        Ok(text) => text,
        Err(error) => {
            return Err(error);
        },
    };
    match first_text_field(value, "seen_at") {
        Ok(_) => {},
        Err(error) => {
            return Err(error);
        },
    }
    let seen_at = match seen_at {
        Some(at) => at,
        None => {
            return Err(DecodeError::Invalid("seen_at".to_owned()));
        },
    };
    if value.repeats("seen_at") {
        return Err(DecodeError::Duplicate("seen_at".to_owned()));
    }
    let seen_for: i32 = match integer_field(value, "seen_for") {
        Ok(number) => number,
        Err(error) => {
            return Err(error);
        },
    };
    let rating: i32 = match integer_field(value, "rating") {
        Ok(number) => number,
        Err(error) => {
            return Err(error);
        },
    };
    let prev_rating: i32 = match integer_field(value, "prev_rating") {
        Ok(number) => number,
        Err(error) => {
            return Err(error);
        },
    };
    let related = match integers_field(value, "related") {
        Ok(numbers) => numbers,
        Err(error) => {
            return Err(error);
        },
    };
    Ok(
        NewCard {
            user_id,
            deck_id,
            from: from.clone(),
            to: to.clone(),
            example: example.clone(),
            audio_url: audio_url.clone(),
            seen_at,
            seen_for,
            rating,
            prev_rating,
            related,
        },
    )
}

/// Decodes the payload of a request that creates a card.
pub fn decode_new_card(value: &WireValue) -> (decoded: Result<NewCard, DecodeError>)
    ensures
        outcome(decoded) == new_card_of(value@),
{
    let seen_at = match first_text_field(value, "seen_at") {
        Ok(text) => parse_timestamp(text.as_str()),
        Err(_) => None,
    };
    new_card_with(value, seen_at)
}

/// The wire form of a stored user: its five fields, `id` first.
pub open spec fn user_wire(user: UserView) -> WireView {
    WireView::Record(
        seq![
            ("id"@, WireView::Integer(user.id)),
            ("name"@, WireView::Text(user.name)),
            ("first"@, WireView::Text(user.first)),
            ("last"@, WireView::Text(user.last)),
            ("email"@, WireView::Text(user.email)),
        ],
    )
}

/// The wire form of a listing of users: one record for each, in the order
/// of the listing.
pub open spec fn users_wire(users: Seq<User>) -> WireView {
    WireView::List(Seq::new(users.len(), |i: int| user_wire(users[i]@)))
}

/// The wire form of a list of integers.
pub open spec fn integers_wire(numbers: Seq<int>) -> WireView {
    WireView::List(Seq::new(numbers.len(), |i: int| WireView::Integer(numbers[i])))
}

/// The wire form of a stored card whose timestamp is written as `seen_at`:
/// its twelve fields, `id` first.
pub open spec fn card_wire_given(card: CardView, seen_at: Seq<char>) -> WireView {
    WireView::Record(
        seq![
            ("id"@, WireView::Integer(card.id)),
            ("user_id"@, WireView::Integer(card.user_id)),
            ("deck_id"@, WireView::Integer(card.deck_id)),
            ("from"@, WireView::Text(card.from)),
            ("to"@, WireView::Text(card.to)),
            ("example"@, WireView::Text(card.example)),
            ("audio_url"@, WireView::Text(card.audio_url)),
            ("seen_at"@, WireView::Text(seen_at)),
            ("seen_for"@, WireView::Integer(card.seen_for)),
            ("rating"@, WireView::Integer(card.rating)),
            ("prev_rating"@, WireView::Integer(card.prev_rating)),
            ("related"@, integers_wire(card.related)),
        ],
    )
}

/// The wire form of a stored card; `None` where its timestamp cannot be
/// written.
pub open spec fn card_wire(card: CardView) -> Option<WireView> {
    match written_timestamp(card.seen_at) {
        Some(seen_at) => Some(card_wire_given(card, seen_at)),
        None => None,
    }
}

/// The wire form of a listing of cards: one record for each, in the order
/// of the listing; `None` where the timestamp of one of them cannot be
/// written.
pub open spec fn cards_wire(cards: Seq<Card>) -> Option<WireView> {
    if forall|i: int| 0 <= i < cards.len() ==> (#[trigger] card_wire(cards[i]@)) is Some {
        Some(WireView::List(Seq::new(cards.len(), |i: int| card_wire(cards[i]@)->0)))
    } else {
        None
    }
}

fn integer_entry(name: &str, number: i32) -> (entry: WireField)
    ensures
        entry@ == (name@, WireView::Integer(number as int)),
{
    WireField { name: name.to_owned(), value: WireValue::Integer(number as i64) }
}

fn text_entry(name: &str, text: &str) -> (entry: WireField)
    ensures
        entry@ == (name@, WireView::Text(text@)),
{
    WireField { name: name.to_owned(), value: WireValue::Text(text.to_owned()) }
}

/// Shows a stored user in wire form.
pub fn encode_user(user: &User) -> (wire: WireValue)
    ensures
        wire@ == user_wire(user@),
{
    let mut fields: Vec<WireField> = Vec::new();
    fields.push(integer_entry("id", user.id));
    fields.push(text_entry("name", user.name.as_str()));
    fields.push(text_entry("first", user.first.as_str()));
    fields.push(text_entry("last", user.last.as_str()));
    fields.push(text_entry("email", user.email.as_str()));
    let wire = WireValue::Record(fields);
    assert(wire@->Record_0 =~= user_wire(user@)->Record_0);
    wire
}

/// Shows a listing of users in wire form.
pub fn encode_users(users: &Vec<User>) -> (wire: WireValue)
    ensures
        wire@ == users_wire(users@),
{
    let mut items: Vec<WireValue> = Vec::new();
    let mut i: usize = 0;
    while i < users.len()
        invariant
            i <= users.len(),
            items.len() == i,
            forall|j: int| 0 <= j < i ==> (#[trigger] items@[j])@ == user_wire(users@[j]@),
        decreases users.len() - i,
    {
        items.push(encode_user(&users[i]));
        i += 1;
    }
    let wire = WireValue::List(items);
    assert(wire@->List_0 =~= users_wire(users@)->List_0);
    wire
}

/// Shows a list of integers in wire form.
pub fn encode_integers(numbers: &Vec<i32>) -> (wire: WireValue)
    ensures
        wire@ == integers_wire(integers(numbers@)),
{
    let mut items: Vec<WireValue> = Vec::new();
    let mut i: usize = 0;
    while i < numbers.len()
        invariant
            i <= numbers.len(),
            items.len() == i,
            forall|j: int|
                0 <= j < i ==> (#[trigger] items@[j])@ == WireView::Integer(numbers@[j] as int),
        decreases numbers.len() - i,
    {
        items.push(WireValue::Integer(numbers[i] as i64));
        i += 1;
    }
    let wire = WireValue::List(items);
    assert(wire@->List_0 =~= integers_wire(integers(numbers@))->List_0);
    wire
}

/// Shows a stored card in wire form, its timestamp written as `seen_at`.
pub fn encode_card_with(card: &Card, seen_at: &str) -> (wire: WireValue)
    ensures
        wire@ == card_wire_given(card@, seen_at@),
{
    let mut fields: Vec<WireField> = Vec::new();
    fields.push(integer_entry("id", card.id));
    fields.push(integer_entry("user_id", card.user_id));
    fields.push(integer_entry("deck_id", card.deck_id));
    fields.push(text_entry("from", card.from.as_str()));
    fields.push(text_entry("to", card.to.as_str()));
    fields.push(text_entry("example", card.example.as_str()));
    fields.push(text_entry("audio_url", card.audio_url.as_str()));
    fields.push(text_entry("seen_at", seen_at));
    fields.push(integer_entry("seen_for", card.seen_for));
    fields.push(integer_entry("rating", card.rating));
    fields.push(integer_entry("prev_rating", card.prev_rating));
    fields.push(WireField { name: "related".to_owned(), value: encode_integers(&card.related) });
    let wire = WireValue::Record(fields);
    proof {
        let shown = wire@->Record_0;
        let meant = card_wire_given(card@, seen_at@)->Record_0;
        assert(shown =~= meant);
    }
    wire
}

/// Shows a stored card in wire form; `None` where its timestamp cannot be
/// written.
pub fn encode_card(card: &Card) -> (wire: Option<WireValue>)
    ensures
        shown(wire) == card_wire(card@),
{
    match write_timestamp(card.seen_at) {
        Some(seen_at) => Some(encode_card_with(card, seen_at.as_str())),
        None => None,
    }
}

/// Shows a listing of cards in wire form; `None` where the timestamp of one
/// of them cannot be written.
pub fn encode_cards(cards: &Vec<Card>) -> (wire: Option<WireValue>)
    ensures
        shown(wire) == cards_wire(cards@),
{
    let mut items: Vec<WireValue> = Vec::new();
    let mut i: usize = 0;
    while i < cards.len()
        invariant
            i <= cards.len(),
            items.len() == i,
            forall|j: int| 0 <= j < i ==> (#[trigger] card_wire(cards@[j]@)) is Some,
            forall|j: int| 0 <= j < i ==> card_wire(cards@[j]@) == Some((#[trigger] items@[j])@),
        decreases cards.len() - i,
    {
        match encode_card(&cards[i]) {
            Some(item) => {
                items.push(item);
            },
            None => {
                assert(card_wire(cards@[i as int]@) is None);
                return None;
            },
        }
        i += 1;
    }
    let wire = WireValue::List(items);
    assert(wire@->List_0 =~= cards_wire(cards@)->0->List_0);
    Some(wire)
}

} // verus!
