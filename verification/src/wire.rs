//! The wire form of requests and replies: a tree of JSON-like values.

use crate::text::same_text;
use vstd::prelude::*;

verus! {

/// A value as it travels on the wire.
#[derive(Debug, PartialEq, Eq)]
pub enum WireValue {
    Null,
    Bool(bool),
    /// A number that is a 64-bit signed integer.
    Integer(i64),
    /// Any other number, kept as it was written.
    Decimal(String),
    Text(String),
    List(Vec<WireValue>),
    /// Named fields, in the order in which they were written.
    Record(Vec<WireField>),
}

/// One named field of a record.
#[derive(Debug, PartialEq, Eq)]
pub struct WireField {
    pub name: String,
    pub value: WireValue,
}

/// Mathematical value of a [`WireValue`].
pub enum WireView {
    Null,
    Bool(bool),
    Integer(int),
    Decimal(Seq<char>),
    Text(Seq<char>),
    List(Seq<WireView>),
    Record(Seq<(Seq<char>, WireView)>),
}

/// The mathematical value of `value`.
pub open spec fn wire_view(value: WireValue) -> WireView
    decreases value,
{
    match value {
        WireValue::Null => WireView::Null,
        WireValue::Bool(flag) => WireView::Bool(flag),
        WireValue::Integer(number) => WireView::Integer(number as int),
        WireValue::Decimal(digits) => WireView::Decimal(digits@),
        WireValue::Text(text) => WireView::Text(text@),
        WireValue::List(items) => WireView::List(
            Seq::new(
                items@.len(),
                |i: int|
                    if 0 <= i < items@.len() {
                        wire_view(items@[i])
                    } else {
                        WireView::Null
                    },
            ),
        ),
        WireValue::Record(fields) => WireView::Record(
            Seq::new(
                fields@.len(),
                |i: int|
                    if 0 <= i < fields@.len() {
                        (fields@[i].name@, wire_view(fields@[i].value))
                    } else {
                        (Seq::empty(), WireView::Null)
                    },
            ),
        ),
    }
}

impl View for WireValue {
    type V = WireView;

    open spec fn view(&self) -> WireView {
        wire_view(*self)
    }
}

impl View for WireField {
    type V = (Seq<char>, WireView);

    open spec fn view(&self) -> (Seq<char>, WireView) {
        (self.name@, self.value@)
    }
}

/// The value of the first field named `key`, if there is one.
pub open spec fn first_named(fields: Seq<(Seq<char>, WireView)>, key: Seq<char>) -> Option<
    WireView,
>
    decreases fields.len(),
{
    if fields.len() == 0 {
        None
    } else if fields.first().0 == key {
        Some(fields.first().1)
    } else {
        first_named(fields.drop_first(), key)
    }
}

/// How many fields are named `key`.
pub open spec fn count_named(fields: Seq<(Seq<char>, WireView)>, key: Seq<char>) -> nat
    decreases fields.len(),
{
    if fields.len() == 0 {
        0
    } else if fields.first().0 == key {
        1 + count_named(fields.drop_first(), key)
    } else {
        count_named(fields.drop_first(), key)
    }
}

/// Where no field is named `key`, none is counted or found under it.
pub proof fn lemma_not_named(fields: Seq<(Seq<char>, WireView)>, key: Seq<char>)
    requires
        forall|j: int| 0 <= j < fields.len() ==> fields[j].0 != key,
    ensures
        count_named(fields, key) == 0,
        first_named(fields, key) is None,
    decreases fields.len(),
{
    if fields.len() > 0 {
        let rest = fields.drop_first();
        assert(fields[0].0 != key);
        assert forall|j: int| 0 <= j < rest.len() implies rest[j].0 != key by {
            assert(rest[j] == fields[j + 1]);
        }
        lemma_not_named(rest, key);
    }
}

/// Where the field at `at` is the only one named `key`, it is the one found
/// under `key`, and `key` is counted once.
pub proof fn lemma_named_once(fields: Seq<(Seq<char>, WireView)>, key: Seq<char>, at: int)
    requires
        0 <= at < fields.len(),
        fields[at].0 == key,
        forall|j: int| 0 <= j < fields.len() && j != at ==> fields[j].0 != key,
    ensures
        first_named(fields, key) == Some(fields[at].1),
        count_named(fields, key) == 1,
    decreases fields.len(),
{
    let rest = fields.drop_first();
    if at == 0 {
        assert forall|j: int| 0 <= j < rest.len() implies rest[j].0 != key by {
            assert(rest[j] == fields[j + 1]);
        }
        lemma_not_named(rest, key);
    } else {
        assert(fields[0].0 != key);
        assert(rest[at - 1] == fields[at]);
        assert forall|j: int| 0 <= j < rest.len() && j != at - 1 implies rest[j].0 != key by {
            assert(rest[j] == fields[j + 1]);
        }
        lemma_named_once(rest, key, at - 1);
    }
}

/// The first field named `key` is the one at `at` where that one is named
/// `key` and none before it is.
pub proof fn lemma_first_named_at(fields: Seq<(Seq<char>, WireView)>, key: Seq<char>, at: int)
    requires
        0 <= at < fields.len(),
        fields[at].0 == key,
        forall|j: int| 0 <= j < at ==> fields[j].0 != key,
    ensures
        first_named(fields, key) == Some(fields[at].1),
    decreases at,
{
    if at > 0 {
        let rest = fields.drop_first();
        assert(rest[at - 1] == fields[at]);
        assert forall|j: int| 0 <= j < at - 1 implies rest[j].0 != key by {
            assert(rest[j] == fields[j + 1]);
        }
        lemma_first_named_at(rest, key, at - 1);
    }
}

/// No field is found under `key` exactly where no field is named `key`.
pub proof fn lemma_first_named_absent(fields: Seq<(Seq<char>, WireView)>, key: Seq<char>)
    ensures
        first_named(fields, key) is None <==> forall|j: int|
            0 <= j < fields.len() ==> (#[trigger] fields[j]).0 != key,
    decreases fields.len(),
{
    if fields.len() > 0 {
        let rest = fields.drop_first();
        lemma_first_named_absent(rest, key);
        if fields.first().0 != key {
            if first_named(rest, key) is None {
                assert forall|j: int| 0 <= j < fields.len() implies (#[trigger] fields[j]).0
                    != key by {
                    if j > 0 {
                        assert(rest[j - 1] == fields[j]);
                    }
                }
            } else {
                let j = choose|j: int| 0 <= j < rest.len() && (#[trigger] rest[j]).0 == key;
                assert(fields[j + 1] == rest[j]);
            }
        } else {
            assert(fields[0].0 == key);
        }
    }
}

impl WireView {
    /// The field `key` of a record; `None` for a missing field and for a value
    /// that is no record.
    pub open spec fn field(self, key: Seq<char>) -> Option<WireView> {
        match self {
            WireView::Record(fields) => first_named(fields, key),
            _ => None,
        }
    }
}

impl WireView {
    /// Whether a record names `key` more than once.
    pub open spec fn repeats(self, key: Seq<char>) -> bool {
        match self {
            WireView::Record(fields) => count_named(fields, key) > 1,
            _ => false,
        }
    }
}

impl WireValue {
    /// Whether this is a record that names `key` more than once.
    pub fn repeats(&self, key: &str) -> (repeated: bool)
        ensures
            repeated == self@.repeats(key@),
    {
        match self {
            WireValue::Record(fields) => {
                let ghost all = self@->Record_0;
                assert(all.skip(0) =~= all);
                let mut seen: bool = false;
                let mut i: usize = 0;
                while i < fields.len()
                    invariant
                        i <= fields.len(),
                        self@ == WireView::Record(all),
                        all.len() == fields.len(),
                        forall|j: int|
                            0 <= j < fields.len() ==> all[j] == (
                                #[trigger] fields@[j].name@,
                                fields@[j].value@,
                            ),
                        count_named(all, key@) == (if seen {
                            1nat
                        } else {
                            0nat
                        }) + count_named(all.skip(i as int), key@),
                    decreases fields.len() - i,
                {
                    let ghost rest = all.skip(i as int);
                    assert(rest.first() == all[i as int]);
                    assert(rest.drop_first() =~= all.skip(i + 1));
                    if same_text(fields[i].name.as_str(), key) {
                        if seen {
                            return true;
                        }
                        seen = true;
                    }
                    i += 1;
                }
                assert(count_named(all.skip(i as int), key@) == 0);
                false
            },
            _ => false,
        }
    }

    /// Looks up the field `key` of a record. Where a name occurs twice, the
    /// first occurrence counts.
    pub fn field(&self, key: &str) -> (found: Option<&WireValue>)
        ensures
            match found {
                Some(value) => self@.field(key@) == Some(value@),
                None => self@.field(key@) is None,
            },
    {
        match self {
            WireValue::Record(fields) => {
                let ghost all = self@->Record_0;
                assert(all.skip(0) =~= all);
                let mut i: usize = 0;
                while i < fields.len()
                    invariant
                        i <= fields.len(),
                        self@ == WireView::Record(all),
                        all.len() == fields.len(),
                        forall|j: int|
                            0 <= j < fields.len() ==> all[j] == (
                                #[trigger] fields@[j].name@,
                                fields@[j].value@,
                            ),
                        first_named(all, key@) == first_named(all.skip(i as int), key@),
                    decreases fields.len() - i,
                {
                    let ghost rest = all.skip(i as int);
                    assert(rest.first() == all[i as int]);
                    assert(rest.drop_first() =~= all.skip(i + 1));
                    if same_text(fields[i].name.as_str(), key) {
                        assert(first_named(rest, key@) == Some(fields@[i as int].value@));
                        return Some(&fields[i].value);
                    }
                    i += 1;
                }
                None
            },
            _ => None,
        }
    }
}

} // verus!
