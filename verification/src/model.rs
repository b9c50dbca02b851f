//! The persisted records and the payloads that create them.

use vstd::prelude::*;

verus! {

/// A point in time without a zone: whole seconds since 1970-01-01T00:00:00
/// and the nanoseconds past that second.
#[derive(Clone, Copy, Debug, PartialEq, Eq)]
pub struct Timestamp {
    pub seconds: i64,
    pub nanos: u32,
}

/// A stored user. `id` is assigned by storage.
#[derive(Clone, Debug, PartialEq, Eq)]
pub struct User {
    pub id: i32,
    pub name: String,
    pub first: String,
    pub last: String,
    pub email: String,
}

/// What a caller submits to create a user.
#[derive(Clone, Debug, PartialEq, Eq)]
pub struct NewUser {
    pub name: String,
    pub first: String,
    pub last: String,
    pub email: String,
}

/// Mathematical value of a [`User`].
pub struct UserView {
    pub id: int,
    pub name: Seq<char>,
    pub first: Seq<char>,
    pub last: Seq<char>,
    pub email: Seq<char>,
}

/// Mathematical value of a [`NewUser`].
pub struct NewUserView {
    pub name: Seq<char>,
    pub first: Seq<char>,
    pub last: Seq<char>,
    pub email: Seq<char>,
}

impl View for User {
    type V = UserView;

    open spec fn view(&self) -> UserView {
        UserView {
            id: self.id as int,
            name: self.name@,
            first: self.first@,
            last: self.last@,
            email: self.email@,
        }
    }
}

impl View for NewUser {
    type V = NewUserView;

    open spec fn view(&self) -> NewUserView {
        NewUserView { name: self.name@, first: self.first@, last: self.last@, email: self.email@ }
    }
}

/// A stored card. `id` is assigned by storage; every other field is kept as
/// it was submitted.
#[derive(Clone, Debug, PartialEq, Eq)]
pub struct Card {
    pub id: i32,
    pub user_id: i32,
    pub deck_id: i32,
    pub from: String,
    pub to: String,
    pub example: String,
    pub audio_url: String,
    pub seen_at: Timestamp,
    /// Milliseconds spent viewing.
    pub seen_for: i32,
    pub rating: i32,
    pub prev_rating: i32,
    /// Identifiers of related cards, in the order given.
    pub related: Vec<i32>,
}

/// What a caller submits to create a card.
#[derive(Clone, Debug, PartialEq, Eq)]
pub struct NewCard {
    pub user_id: i32,
    pub deck_id: i32,
    pub from: String,
    pub to: String,
    pub example: String,
    pub audio_url: String,
    pub seen_at: Timestamp,
    pub seen_for: i32,
    pub rating: i32,
    pub prev_rating: i32,
    pub related: Vec<i32>,
}

/// Mathematical value of a [`Card`].
pub struct CardView {
    pub id: int,
    pub user_id: int,
    pub deck_id: int,
    pub from: Seq<char>,
    pub to: Seq<char>,
    pub example: Seq<char>,
    pub audio_url: Seq<char>,
    pub seen_at: Timestamp,
    pub seen_for: int,
    pub rating: int,
    pub prev_rating: int,
    pub related: Seq<int>,
}

/// Mathematical value of a [`NewCard`].
pub struct NewCardView {
    pub user_id: int,
    pub deck_id: int,
    pub from: Seq<char>,
    pub to: Seq<char>,
    pub example: Seq<char>,
    pub audio_url: Seq<char>,
    pub seen_at: Timestamp,
    pub seen_for: int,
    pub rating: int,
    pub prev_rating: int,
    pub related: Seq<int>,
}

/// The integers of `items` as mathematical integers, in the same order.
pub open spec fn integers(items: Seq<i32>) -> Seq<int> {
    Seq::new(items.len(), |i: int| items[i] as int)
}

impl View for Card {
    type V = CardView;

    open spec fn view(&self) -> CardView {
        CardView {
            id: self.id as int,
            user_id: self.user_id as int,
            deck_id: self.deck_id as int,
            from: self.from@,
            to: self.to@,
            example: self.example@,
            audio_url: self.audio_url@,
            seen_at: self.seen_at,
            seen_for: self.seen_for as int,
            rating: self.rating as int,
            prev_rating: self.prev_rating as int,
            related: integers(self.related@),
        }
    }
}

impl View for NewCard {
    type V = NewCardView;

    open spec fn view(&self) -> NewCardView {
        NewCardView {
            user_id: self.user_id as int,
            deck_id: self.deck_id as int,
            from: self.from@,
            to: self.to@,
            example: self.example@,
            audio_url: self.audio_url@,
            seen_at: self.seen_at,
            seen_for: self.seen_for as int,
            rating: self.rating as int,
            prev_rating: self.prev_rating as int,
            related: integers(self.related@),
        }
    }
}

impl NewCardView {
    /// The row that storage holds for this payload once it has given it `id`.
    pub open spec fn stored(self, id: int) -> CardView {
        CardView {
            id,
            user_id: self.user_id,
            deck_id: self.deck_id,
            from: self.from,
            to: self.to,
            example: self.example,
            audio_url: self.audio_url,
            seen_at: self.seen_at,
            seen_for: self.seen_for,
            rating: self.rating,
            prev_rating: self.prev_rating,
            related: self.related,
        }
    }
}

impl NewUserView {
    /// The row that storage holds for this payload once it has given it `id`.
    pub open spec fn stored(self, id: int) -> UserView {
        UserView { id, name: self.name, first: self.first, last: self.last, email: self.email }
    }
}

} // verus!
