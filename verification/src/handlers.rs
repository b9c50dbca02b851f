//! The request handlers. A handler does no outside work itself: it is asked
//! what to do next, given how far the request has come, and answers with the
//! connection to acquire, the statement to run, or the reply to send.

use crate::mapper::{
    card_wire, cards_wire, decode_new_card, decode_new_user, encode_card, encode_cards,
    encode_user, encode_users, new_card_of, new_user_of, user_wire, users_wire, DecodeError,
    DecodeErrorView,
};
use crate::model::{Card, NewCard, NewCardView, NewUser, NewUserView, User};
use crate::response::{failure, refusal, success, Response, ResponseView, StatusCode};
use crate::wire::WireValue;
use vstd::prelude::*;
use vstd::string::*;

verus! {

/// A statement for storage. An insert returns the stored row, with the
/// identifier that storage gave it, in the same statement.
#[derive(Clone, Debug, PartialEq, Eq)]
pub enum Query {
    SelectUsers,
    InsertUser(NewUser),
    SelectCards,
    InsertCard(NewCard),
}

/// Mathematical value of a [`Query`].
pub enum QueryView {
    SelectUsers,
    InsertUser(NewUserView),
    SelectCards,
    InsertCard(NewCardView),
}

impl View for Query {
    type V = QueryView;

    open spec fn view(&self) -> QueryView {
        match self {
            Query::SelectUsers => QueryView::SelectUsers,
            Query::InsertUser(new_user) => QueryView::InsertUser(new_user@),
            Query::SelectCards => QueryView::SelectCards,
            Query::InsertCard(new_card) => QueryView::InsertCard(new_card@),
        }
    }
}

/// The body of a request that creates a row, as far as it could be read.
#[derive(Debug, PartialEq, Eq)]
pub enum Payload {
    /// The request does not declare its body as JSON.
    NotJson,
    /// The body is not JSON text; why not.
    Unreadable(String),
    /// The body, read as a value.
    Read(WireValue),
}

/// How far a request has come. `T` is what its statement returns.
#[derive(Debug, PartialEq, Eq)]
pub enum Progress<T> {
    /// The request has arrived and nothing was done yet.
    Received,
    /// The pool handed out a connection.
    Connected,
    /// The pool had no connection to give, or could not open one.
    PoolFailed(String),
    /// The work on the connection panicked or was cancelled before storage
    /// answered.
    Interrupted(String),
    /// Storage refused the statement or failed while running it.
    Rejected(String),
    /// Storage ran the statement and returned this.
    Answered(T),
}

/// What to do next for a request.
#[derive(Debug, PartialEq, Eq)]
pub enum Step {
    /// Acquire a connection from the pool.
    Acquire,
    /// Run this statement on the connection, then give the connection back.
    Run(Query),
    /// Send this reply; the request is done.
    Reply(Response),
}

/// Mathematical value of a [`Step`].
pub enum StepView {
    Acquire,
    Run(QueryView),
    Reply(ResponseView),
}

impl View for Step {
    type V = StepView;

    open spec fn view(&self) -> StepView {
        match self {
            Step::Acquire => StepView::Acquire,
            Step::Run(query) => StepView::Run(query@),
            Step::Reply(response) => StepView::Reply(response@),
        }
    }
}

/// The text sent where a request does not declare its body as JSON.
pub open spec fn not_json() -> Seq<char> {
    "Expected request with `Content-Type: application/json`"@
}

/// The text sent where a body is JSON but does not decode.
pub open spec fn undecodable(error: DecodeErrorView) -> Seq<char> {
    "Failed to deserialize the JSON body into the target type: "@ + error.description()
}

/// The text sent where a body is JSON but does not decode.
pub fn report(error: &DecodeError) -> (text: String)
    ensures
        text@ == undecodable(error@),
{
    "Failed to deserialize the JSON body into the target type: ".to_owned().concat(
        error.describe().as_str(),
    )
}

/// The text sent where a stored timestamp has no written form.
pub open spec fn unwritable() -> Seq<char> {
    "a stored timestamp cannot be written"@
}

/// The course that every request takes: acquire one connection, run one
/// statement, reply with what `answer` makes of the rows; a failure at any
/// point ends the request with the description of that failure.
pub open spec fn settle<T>(
    progress: Progress<T>,
    query: QueryView,
    answer: spec_fn(T) -> ResponseView,
) -> StepView {
    match progress {
        Progress::Received => StepView::Acquire,
        Progress::Connected => StepView::Run(query),
        Progress::PoolFailed(description) => StepView::Reply(failure(description@)),
        Progress::Interrupted(description) => StepView::Reply(failure(description@)),
        Progress::Rejected(description) => StepView::Reply(failure(description@)),
        Progress::Answered(rows) => StepView::Reply(answer(rows)),
    }
}

/// The reply that shows a listing of users.
pub open spec fn users_reply(users: Vec<User>) -> ResponseView {
    success(users_wire(users@))
}

/// The reply that shows one stored user.
pub open spec fn user_reply(user: User) -> ResponseView {
    success(user_wire(user@))
}

/// The reply that shows a listing of cards.
pub open spec fn cards_reply(cards: Vec<Card>) -> ResponseView {
    match cards_wire(cards@) {
        Some(wire) => success(wire),
        None => failure(unwritable()),
    }
}

/// The reply that shows one stored card.
pub open spec fn card_reply(card: Card) -> ResponseView {
    match card_wire(card@) {
        Some(wire) => success(wire),
        None => failure(unwritable()),
    }
}

/// What listing the users does next.
pub open spec fn list_users_step(progress: Progress<Vec<User>>) -> StepView {
    settle(progress, QueryView::SelectUsers, |users: Vec<User>| users_reply(users))
}

/// What creating a user does next. A request at fault is refused at once,
/// before anything is asked of the pool or of storage: with status 415
/// where it does not declare JSON, 400 where its body is not JSON text, 422
/// where the body does not decode. Any other takes the common course with
/// the decoded payload as the row to insert.
pub open spec fn create_user_step(body: Payload, progress: Progress<User>) -> StepView {
    match body {
        Payload::NotJson => StepView::Reply(
            refusal(StatusCode::UnsupportedMediaType, not_json()),
        ),
        Payload::Unreadable(description) => StepView::Reply(
            refusal(StatusCode::BadRequest, description@),
        ),
        Payload::Read(value) => match new_user_of(value@) {
            Err(error) => StepView::Reply(
                refusal(StatusCode::UnprocessableEntity, undecodable(error)),
            ),
            Ok(new_user) => settle(
                progress,
                QueryView::InsertUser(new_user),
                |user: User| user_reply(user),
            ),
        },
    }
}

/// What listing the cards does next.
pub open spec fn list_cards_step(progress: Progress<Vec<Card>>) -> StepView {
    settle(progress, QueryView::SelectCards, |cards: Vec<Card>| cards_reply(cards))
}

/// What creating a card does next; see [`create_user_step`].
pub open spec fn create_card_step(body: Payload, progress: Progress<Card>) -> StepView {
    match body {
        Payload::NotJson => StepView::Reply(
            refusal(StatusCode::UnsupportedMediaType, not_json()),
        ),
        Payload::Unreadable(description) => StepView::Reply(
            refusal(StatusCode::BadRequest, description@),
        ),
        Payload::Read(value) => match new_card_of(value@) {
            Err(error) => StepView::Reply(
                refusal(StatusCode::UnprocessableEntity, undecodable(error)),
            ),
            Ok(new_card) => settle(
                progress,
                QueryView::InsertCard(new_card),
                |card: Card| card_reply(card),
            ),
        },
    }
}

/// Handles `GET /users`.
pub fn list_users(progress: Progress<Vec<User>>) -> (step: Step)
    ensures
        step@ == list_users_step(progress),
{
    match progress {
        Progress::Received => Step::Acquire,
        Progress::Connected => Step::Run(Query::SelectUsers),
        Progress::PoolFailed(description) => Step::Reply(Response::failed(description)),
        Progress::Interrupted(description) => Step::Reply(Response::failed(description)),
        Progress::Rejected(description) => Step::Reply(Response::failed(description)),
        Progress::Answered(users) => Step::Reply(Response::served(encode_users(&users))),
    }
}

/// Handles `GET /users/:id`. The identifier in the path is not looked at:
/// the reply is the full listing, as for `GET /users`.
pub fn get_user(progress: Progress<Vec<User>>) -> (step: Step)
    ensures
        step@ == list_users_step(progress),
{
    list_users(progress)
}

/// Handles `POST /users`.
pub fn create_user(body: &Payload, progress: Progress<User>) -> (step: Step)
    ensures
        step@ == create_user_step(*body, progress),
{
    let value = match body {
        Payload::Read(value) => value,
        Payload::Unreadable(description) => {
            return Step::Reply(Response::refused(StatusCode::BadRequest, description.clone()));
        },
        Payload::NotJson => {
            return Step::Reply(
                Response::refused(
                    StatusCode::UnsupportedMediaType,
                    "Expected request with `Content-Type: application/json`".to_owned(),
                ),
            );
        },
    };
    let new_user = match decode_new_user(value) {
        Ok(new_user) => new_user,
        Err(error) => {
            return Step::Reply(
                Response::refused(StatusCode::UnprocessableEntity, report(&error)),
            );
        },
    };
    match progress {
        Progress::Received => Step::Acquire,
        Progress::Connected => Step::Run(Query::InsertUser(new_user)),
        Progress::PoolFailed(description) => Step::Reply(Response::failed(description)),
        Progress::Interrupted(description) => Step::Reply(Response::failed(description)),
        Progress::Rejected(description) => Step::Reply(Response::failed(description)),
        Progress::Answered(user) => Step::Reply(Response::served(encode_user(&user))),
    }
}

/// Handles `GET /cards`.
pub fn list_cards(progress: Progress<Vec<Card>>) -> (step: Step)
    ensures
        step@ == list_cards_step(progress),
{
    match progress {
        Progress::Received => Step::Acquire,
        Progress::Connected => Step::Run(Query::SelectCards),
        Progress::PoolFailed(description) => Step::Reply(Response::failed(description)),
        Progress::Interrupted(description) => Step::Reply(Response::failed(description)),
        Progress::Rejected(description) => Step::Reply(Response::failed(description)),
        Progress::Answered(cards) => match encode_cards(&cards) {
            Some(wire) => Step::Reply(Response::served(wire)),
            None => Step::Reply(
                Response::failed("a stored timestamp cannot be written".to_owned()),
            ),
        },
    }
}

/// Handles `POST /cards`.
pub fn create_card(body: &Payload, progress: Progress<Card>) -> (step: Step)
    ensures
        step@ == create_card_step(*body, progress),
{
    let value = match body {
        Payload::Read(value) => value,
        Payload::Unreadable(description) => {
            return Step::Reply(Response::refused(StatusCode::BadRequest, description.clone()));
        },
        Payload::NotJson => {
            return Step::Reply(
                Response::refused(
                    StatusCode::UnsupportedMediaType,
                    "Expected request with `Content-Type: application/json`".to_owned(),
                ),
            );
        },
    };
    let new_card = match decode_new_card(value) {
        Ok(new_card) => new_card,
        Err(error) => {
            return Step::Reply(
                Response::refused(StatusCode::UnprocessableEntity, report(&error)),
            );
        },
    };
    match progress {
        Progress::Received => Step::Acquire,
        Progress::Connected => Step::Run(Query::InsertCard(new_card)),
        Progress::PoolFailed(description) => Step::Reply(Response::failed(description)),
        Progress::Interrupted(description) => Step::Reply(Response::failed(description)),
        Progress::Rejected(description) => Step::Reply(Response::failed(description)),
        Progress::Answered(card) => match encode_card(&card) {
            Some(wire) => Step::Reply(Response::served(wire)),
            None => Step::Reply(
                Response::failed("a stored timestamp cannot be written".to_owned()),
            ),
        },
    }
}

} // verus!
