//! What holds of the service as a whole, proved from the contracts of its
//! parts.

use crate::handlers::{
    create_card_step, create_user_step, list_cards_step, list_users_step, not_json, undecodable,
    Payload, Progress, QueryView, StepView,
};
use crate::mapper::{
    card_wire, card_wire_given, cards_wire, integers_at, integers_wire, new_card_given,
    new_card_of, new_user_of, small_integer, user_wire, users_wire, DecodeErrorView,
};
use crate::model::{Card, CardView, NewCardView, NewUserView, User, UserView};
use crate::response::{failure, refusal, success, StatusCode};
use crate::timestamp::{parsed_timestamp, written_timestamp};
use crate::wire::{lemma_named_once, WireValue, WireView};
use vstd::multiset::*;
use vstd::prelude::*;
use vstd::seq_lib::*;

verus! {

/// Whether `key` names a field that a new user must carry.
pub open spec fn user_requires(key: Seq<char>) -> bool {
    key == "name"@ || key == "first"@ || key == "last"@ || key == "email"@
}

/// Whether `key` names a field that a new card must carry.
pub open spec fn card_requires(key: Seq<char>) -> bool {
    ||| key == "user_id"@
    ||| key == "deck_id"@
    ||| key == "from"@
    ||| key == "to"@
    ||| key == "example"@
    ||| key == "audio_url"@
    ||| key == "seen_at"@
    ||| key == "seen_for"@
    ||| key == "rating"@
    ||| key == "prev_rating"@
    ||| key == "related"@
}

/// Whether a step refuses the request: it neither asks for a connection nor
/// runs a statement, and replies with a status that blames the request.
pub open spec fn refuses(step: StepView) -> bool {
    step matches StepView::Reply(reply) && reply.status.is_client_error()
}

/// A request to create a user whose body lacks a required field is refused
/// at every point: no connection is acquired for it and no row is inserted.
pub proof fn lemma_incomplete_user_creates_nothing(
    value: WireValue,
    key: Seq<char>,
    progress: Progress<User>,
)
    requires
        user_requires(key),
        value@.field(key) is None,
    ensures
        new_user_of(value@) is Err,
        create_user_step(Payload::Read(value), progress) == StepView::Reply(
            refusal(StatusCode::UnprocessableEntity, undecodable(new_user_of(value@)->Err_0)),
        ),
        refuses(create_user_step(Payload::Read(value), progress)),
{
}

/// A request to create a card whose body lacks a required field is refused
/// at every point: no connection is acquired for it and no row is inserted.
pub proof fn lemma_incomplete_card_creates_nothing(
    value: WireValue,
    key: Seq<char>,
    progress: Progress<Card>,
)
    requires
        card_requires(key),
        value@.field(key) is None,
    ensures
        new_card_of(value@) is Err,
        create_card_step(Payload::Read(value), progress) == StepView::Reply(
            refusal(StatusCode::UnprocessableEntity, undecodable(new_card_of(value@)->Err_0)),
        ),
        refuses(create_card_step(Payload::Read(value), progress)),
{
}

/// Whether `body` is at fault as the body of a request that creates a user.
pub open spec fn faulty_user(body: Payload) -> bool {
    body matches Payload::Read(value) ==> new_user_of(value@) is Err
}

/// Whether `body` is at fault as the body of a request that creates a card.
pub open spec fn faulty_card(body: Payload) -> bool {
    body matches Payload::Read(value) ==> new_card_of(value@) is Err
}

/// A request to create a row whose body is at fault is refused at every
/// point, with a status of the 400 class and the description of the fault:
/// 415 where it does not declare JSON, 400 where it is not JSON text, 422
/// where it does not decode. Nothing is asked of the pool or of storage.
pub proof fn lemma_malformed_body_creates_nothing(
    body: Payload,
    users: Progress<User>,
    cards: Progress<Card>,
)
    ensures
        faulty_user(body) ==> refuses(create_user_step(body, users)),
        faulty_card(body) ==> refuses(create_card_step(body, cards)),
        body is NotJson ==> {
            &&& create_user_step(body, users) == StepView::Reply(
                refusal(StatusCode::UnsupportedMediaType, not_json()),
            )
            &&& create_card_step(body, cards) == StepView::Reply(
                refusal(StatusCode::UnsupportedMediaType, not_json()),
            )
        },
        body matches Payload::Unreadable(description) ==> {
            &&& create_user_step(body, users) == StepView::Reply(
                refusal(StatusCode::BadRequest, description@),
            )
            &&& create_card_step(body, cards) == StepView::Reply(
                refusal(StatusCode::BadRequest, description@),
            )
        },
        body matches Payload::Read(value) ==> {
            &&& new_user_of(value@) matches Err(error) ==> create_user_step(body, users)
                == StepView::Reply(refusal(StatusCode::UnprocessableEntity, undecodable(error)))
            &&& new_card_of(value@) matches Err(error) ==> create_card_step(body, cards)
                == StepView::Reply(refusal(StatusCode::UnprocessableEntity, undecodable(error)))
        },
{
}

/// A request to create a row whose body writes a required field twice is
/// refused like one that lacks the field.
pub proof fn lemma_repeated_field_creates_nothing(
    value: WireValue,
    key: Seq<char>,
    users: Progress<User>,
    cards: Progress<Card>,
)
    requires
        value@.repeats(key),
    ensures
        user_requires(key) ==> new_user_of(value@) is Err && refuses(
            create_user_step(Payload::Read(value), users),
        ),
        card_requires(key) ==> new_card_of(value@) is Err && refuses(
            create_card_step(Payload::Read(value), cards),
        ),
{
}

/// Whether a handler keeps to the course of a request: it asks for a
/// connection only before anything was done, runs a statement only on a
/// connection that the pool just handed out, and replies to everything else.
/// So a request takes one connection at most, one statement at most, and is
/// answered after two outside steps at the latest.
pub open spec fn orderly<T>(course: spec_fn(Progress<T>) -> StepView) -> bool {
    forall|progress: Progress<T>|
        {
            &&& (#[trigger] course(progress)) is Acquire ==> progress is Received
            &&& course(progress) is Run ==> progress is Connected
            &&& !(progress is Received || progress is Connected) ==> course(progress) is Reply
        }
}

/// Every handler keeps to the course of a request, whatever the body.
pub proof fn lemma_handlers_are_orderly(body: Payload)
    ensures
        orderly(|progress: Progress<Vec<User>>| list_users_step(progress)),
        orderly(|progress: Progress<User>| create_user_step(body, progress)),
        orderly(|progress: Progress<Vec<Card>>| list_cards_step(progress)),
        orderly(|progress: Progress<Card>| create_card_step(body, progress)),
{
}

/// Whether a handler reports every failure of the pool and of storage: the
/// reply has status 500 and carries the description of the failure. A pool
/// that gave no connection within its wait is such a failure.
pub open spec fn reports_failures<T>(course: spec_fn(Progress<T>) -> StepView) -> bool {
    forall|progress: Progress<T>|
        {
            &&& progress matches Progress::PoolFailed(description) ==> (#[trigger] course(progress))
                == StepView::Reply(failure(description@))
            &&& progress matches Progress::Interrupted(description) ==> course(progress)
                == StepView::Reply(failure(description@))
            &&& progress matches Progress::Rejected(description) ==> course(progress)
                == StepView::Reply(failure(description@))
        }
}

/// A pool that gives no connection, and storage that fails, end the request
/// with an explicit error: for a listing always, for a creation wherever
/// the body decodes (where it does not, the request was refused before).
pub proof fn lemma_failures_are_reported(value: WireValue)
    ensures
        reports_failures(|progress: Progress<Vec<User>>| list_users_step(progress)),
        reports_failures(|progress: Progress<Vec<Card>>| list_cards_step(progress)),
        new_user_of(value@) is Ok ==> reports_failures(
            |progress: Progress<User>| create_user_step(Payload::Read(value), progress),
        ),
        new_card_of(value@) is Ok ==> reports_failures(
            |progress: Progress<Card>| create_card_step(Payload::Read(value), progress),
        ),
{
}

/// The payload that a stored user was created from, read off the row.
pub open spec fn user_payload(user: UserView) -> NewUserView {
    NewUserView { name: user.name, first: user.first, last: user.last, email: user.email }
}

/// A stored user, as it is shown, decodes to the payload that it was
/// created from, and shows its identifier in the field `id`.
pub proof fn lemma_shown_user_decodes(user: UserView)
    ensures
        new_user_of(user_wire(user)) == Ok::<NewUserView, DecodeErrorView>(
            user_payload(user),
        ),
        user_wire(user).field("id"@) == Some(WireView::Integer(user.id)),
        user_wire(user).field("name"@) == Some(WireView::Text(user.name)),
        user_wire(user).field("first"@) == Some(WireView::Text(user.first)),
        user_wire(user).field("last"@) == Some(WireView::Text(user.last)),
        user_wire(user).field("email"@) == Some(WireView::Text(user.email)),
{
    reveal_strlit("id");
    reveal_strlit("name");
    reveal_strlit("first");
    reveal_strlit("last");
    reveal_strlit("email");
    let fields = user_wire(user)->Record_0;
    assert("id"@ != "name"@ && "id"@ != "first"@ && "id"@ != "last"@ && "id"@ != "email"@) by {
        assert("id"@.len() == 2);
    }
    assert("name"@ != "first"@ && "name"@ != "last"@ && "name"@ != "email"@) by {
        assert("name"@[0] == 'n');
        assert("first"@[0] == 'f');
        assert("last"@[0] == 'l');
        assert("email"@[0] == 'e');
    }
    assert("first"@ != "last"@ && "first"@ != "email"@ && "last"@ != "email"@) by {
        assert("first"@[0] == 'f');
        assert("last"@[0] == 'l');
        assert("email"@[0] == 'e');
    }
    lemma_named_once(fields, "id"@, 0);
    lemma_named_once(fields, "name"@, 1);
    lemma_named_once(fields, "first"@, 2);
    lemma_named_once(fields, "last"@, 3);
    lemma_named_once(fields, "email"@, 4);
}

/// What is submitted is what is shown, as far as that lies with the service:
/// a body that decodes is handed to storage as it was decoded; and if
/// storage keeps its fields in a row `stored` and later lists that row at
/// `at`, the listing shows at `at` a record that carries the row's
/// identifier and, field by field, the texts submitted.
pub proof fn lemma_created_user_is_listed(
    value: WireValue,
    stored: User,
    listing: Vec<User>,
    at: int,
)
    requires
        new_user_of(value@) is Ok,
        user_payload(stored@) == new_user_of(value@)->Ok_0,
        0 <= at < listing@.len(),
        listing@[at]@ == stored@,
    ensures
        create_user_step(Payload::Read(value), Progress::Connected) == StepView::Run(
            QueryView::InsertUser(new_user_of(value@)->Ok_0),
        ),
        create_user_step(Payload::Read(value), Progress::Answered(stored)) == StepView::Reply(
            success(user_wire(stored@)),
        ),
        list_users_step(Progress::Answered(listing)) == StepView::Reply(
            success(users_wire(listing@)),
        ),
        users_wire(listing@)->List_0.len() == listing@.len(),
        users_wire(listing@)->List_0[at] == user_wire(stored@),
        new_user_of(user_wire(stored@)) == new_user_of(value@),
        ({
            let shown = users_wire(listing@)->List_0[at];
            let submitted = new_user_of(value@)->Ok_0;
            &&& shown.field("id"@) == Some(WireView::Integer(stored.id as int))
            &&& shown.field("name"@) == Some(WireView::Text(submitted.name))
            &&& shown.field("first"@) == Some(WireView::Text(submitted.first))
            &&& shown.field("last"@) == Some(WireView::Text(submitted.last))
            &&& shown.field("email"@) == Some(WireView::Text(submitted.email))
        }),
{
    lemma_shown_user_decodes(stored@);
}

/// A listing is shown row by row: listings that hold the same rows in the
/// same order get the same reply.
pub proof fn lemma_same_rows_same_reply(
    users: Vec<User>,
    same_users: Vec<User>,
    cards: Vec<Card>,
    same_cards: Vec<Card>,
)
    requires
        users@.len() == same_users@.len(),
        forall|i: int| 0 <= i < users@.len() ==> users@[i]@ == same_users@[i]@,
        cards@.len() == same_cards@.len(),
        forall|i: int| 0 <= i < cards@.len() ==> cards@[i]@ == same_cards@[i]@,
    ensures
        list_users_step(Progress::Answered(users)) == list_users_step(
            Progress::Answered(same_users),
        ),
        list_cards_step(Progress::Answered(cards)) == list_cards_step(
            Progress::Answered(same_cards),
        ),
{
    assert(users_wire(users@)->List_0 =~= users_wire(same_users@)->List_0);
    let shown = cards_wire(cards@);
    let same_shown = cards_wire(same_cards@);
    if shown is Some {
        assert forall|i: int| 0 <= i < same_cards@.len() implies (#[trigger] card_wire(
            same_cards@[i]@,
        )) is Some by {
            assert(card_wire(cards@[i]@) is Some);
        }
        assert(shown->0->List_0 =~= same_shown->0->List_0);
    } else {
        let i = choose|i: int|
            0 <= i < cards@.len() && !((#[trigger] card_wire(cards@[i]@)) is Some);
        assert(card_wire(same_cards@[i]@) is None);
    }
}

/// The views of the rows of a listing, in its order.
pub open spec fn rows<T: View>(listing: Seq<T>) -> Seq<T::V> {
    Seq::new(listing.len(), |i: int| listing[i]@)
}

/// Two sequences that hold the same items, in whatever order, still do so
/// after every item was replaced by what `f` makes of it.
pub proof fn lemma_mapping_keeps_items<A, B>(left: Seq<A>, right: Seq<A>, f: spec_fn(A) -> B)
    requires
        left.to_multiset() == right.to_multiset(),
    ensures
        left.map_values(f).to_multiset() == right.map_values(f).to_multiset(),
    decreases left.len(),
{
    broadcast use {group_multiset_axioms, group_to_multiset_ensures};

    to_multiset_len(left);
    to_multiset_len(right);
    if left.len() == 0 {
        assert(left.map_values(f) =~= right.map_values(f));
    } else {
        let item = left.last();
        let before = left.drop_last();
        assert(left =~= before.push(item));
        to_multiset_build(before, item);
        to_multiset_contains(right, item);
        let at = choose|at: int| 0 <= at < right.len() && right[at] == item;
        let others = right.remove(at);
        to_multiset_remove(right, at);
        assert(before.to_multiset() =~= others.to_multiset());
        lemma_mapping_keeps_items(before, others, f);
        assert(left.map_values(f) =~= before.map_values(f).push(f(item)));
        to_multiset_build(before.map_values(f), f(item));
        assert(right.map_values(f).remove(at) =~= others.map_values(f));
        to_multiset_remove(right.map_values(f), at);
        to_multiset_contains(right.map_values(f), f(item));
        assert(right.map_values(f)[at] == f(item));
        assert(right.map_values(f).to_multiset() =~= others.map_values(f).to_multiset().insert(
            f(item),
        ));
    }
}

/// Reading twice shows the same rows: where two listings hold the same
/// rows, in whatever order, their replies hold the same records, each as
/// often as the other.
pub proof fn lemma_same_rows_same_records(users: Vec<User>, again: Vec<User>)
    requires
        rows(users@).to_multiset() == rows(again@).to_multiset(),
    ensures
        list_users_step(Progress::Answered(users)) == StepView::Reply(success(users_wire(users@))),
        list_users_step(Progress::Answered(again)) == StepView::Reply(success(users_wire(again@))),
        users_wire(users@)->List_0.to_multiset() == users_wire(again@)->List_0.to_multiset(),
{
    let show = |user: UserView| user_wire(user);
    lemma_mapping_keeps_items(rows(users@), rows(again@), show);
    assert(users_wire(users@)->List_0 =~= rows(users@).map_values(show));
    assert(users_wire(again@)->List_0 =~= rows(again@).map_values(show));
}

/// The payload that a stored card was created from, read off the row.
pub open spec fn card_payload(card: CardView) -> NewCardView {
    NewCardView {
        user_id: card.user_id,
        deck_id: card.deck_id,
        from: card.from,
        to: card.to,
        example: card.example,
        audio_url: card.audio_url,
        seen_at: card.seen_at,
        seen_for: card.seen_for,
        rating: card.rating,
        prev_rating: card.prev_rating,
        related: card.related,
    }
}

/// The names of a shown card's fields differ from one another: no two agree
/// in both length and first letter.
proof fn lemma_card_names_differ()
    ensures
        "id"@.len() == 2 && "id"@[0] == 'i',
        "user_id"@.len() == 7 && "user_id"@[0] == 'u',
        "deck_id"@.len() == 7 && "deck_id"@[0] == 'd',
        "from"@.len() == 4 && "from"@[0] == 'f',
        "to"@.len() == 2 && "to"@[0] == 't',
        "example"@.len() == 7 && "example"@[0] == 'e',
        "audio_url"@.len() == 9 && "audio_url"@[0] == 'a',
        "seen_at"@.len() == 7 && "seen_at"@[0] == 's',
        "seen_for"@.len() == 8 && "seen_for"@[0] == 's',
        "rating"@.len() == 6 && "rating"@[0] == 'r',
        "prev_rating"@.len() == 11 && "prev_rating"@[0] == 'p',
        "related"@.len() == 7 && "related"@[0] == 'r',
{
    reveal_strlit("id");
    reveal_strlit("user_id");
    reveal_strlit("deck_id");
    reveal_strlit("from");
    reveal_strlit("to");
    reveal_strlit("example");
    reveal_strlit("audio_url");
    reveal_strlit("seen_at");
    reveal_strlit("seen_for");
    reveal_strlit("rating");
    reveal_strlit("prev_rating");
    reveal_strlit("related");
}

/// A stored card, shown with its timestamp written as `seen_at`, decodes to
/// the payload that it was created from wherever that text reads back as the
/// card's timestamp; in particular `related` comes back in its order.
pub proof fn lemma_shown_card_decodes(card: Card, seen_at: Seq<char>)
    ensures
        new_card_given(card_wire_given(card@, seen_at), Some(card.seen_at)) == Ok::<
            NewCardView,
            DecodeErrorView,
        >(card_payload(card@)),
        card_wire_given(card@, seen_at).field("id"@) == Some(WireView::Integer(card.id as int)),
        card_wire_given(card@, seen_at).field("seen_at"@) == Some(WireView::Text(seen_at)),
{
    lemma_card_names_differ();
    let shown = card_wire_given(card@, seen_at);
    let fields = shown->Record_0;
    assert(fields[0].0 == "id"@);
    assert(fields[1].0 == "user_id"@);
    assert(fields[2].0 == "deck_id"@);
    assert(fields[3].0 == "from"@);
    assert(fields[4].0 == "to"@);
    assert(fields[5].0 == "example"@);
    assert(fields[6].0 == "audio_url"@);
    assert(fields[7].0 == "seen_at"@);
    assert(fields[8].0 == "seen_for"@);
    assert(fields[9].0 == "rating"@);
    assert(fields[10].0 == "prev_rating"@);
    assert(fields[11].0 == "related"@);
    lemma_named_once(fields, "id"@, 0);
    lemma_named_once(fields, "user_id"@, 1);
    lemma_named_once(fields, "deck_id"@, 2);
    lemma_named_once(fields, "from"@, 3);
    lemma_named_once(fields, "to"@, 4);
    lemma_named_once(fields, "example"@, 5);
    lemma_named_once(fields, "audio_url"@, 6);
    lemma_named_once(fields, "seen_at"@, 7);
    lemma_named_once(fields, "seen_for"@, 8);
    lemma_named_once(fields, "rating"@, 9);
    lemma_named_once(fields, "prev_rating"@, 10);
    lemma_named_once(fields, "related"@, 11);
    let items = integers_wire(card@.related)->List_0;
    assert forall|i: int| 0 <= i < items.len() implies (#[trigger] small_integer(items[i]))
        == Some(card@.related[i]) by {
        assert(card@.related[i] == card.related@[i] as int);
    }
    assert(integers_at(shown, "related"@)->Ok_0 =~= card@.related);
}

/// A stored card, as it is shown, decodes to the payload that it was created
/// from, provided that its timestamp has a written form and that this form
/// reads back as the same timestamp.
pub proof fn lemma_shown_card_reads_back(card: Card)
    requires
        written_timestamp(card.seen_at) matches Some(text) && parsed_timestamp(text) == Some(
            card.seen_at,
        ),
    ensures
        card_wire(card@) matches Some(shown) && new_card_of(shown) == Ok::<
            NewCardView,
            DecodeErrorView,
        >(card_payload(card@)),
{
    lemma_shown_card_decodes(card, written_timestamp(card.seen_at)->0);
}

} // verus!
