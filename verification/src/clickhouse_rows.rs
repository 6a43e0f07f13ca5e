//! The rows the workers insert into the analytics store, one table per kind
//! of event, and the row type of per-product counts that the store gives
//! back.
use vstd::prelude::*;
use crate::ids::{random_uuid, uuid_variant_bits, uuid_version};
use crate::models::Event;
use crate::time::Timestamp;

verus! {

/// A product and how many events of one kind it had.
#[derive(Debug, Clone, Copy, PartialEq, Eq, Structural)]
pub struct TopProductRow {
    pub product_id: u128,
    pub count: u64,
}

/// The text of an optional field, or the empty text when it is absent.
pub open spec fn text_or_empty(o: Option<String>) -> Seq<char> {
    match o {
        Some(s) => s@,
        None => Seq::empty(),
    }
}

/// An optional number, or 0 when it is absent.
pub open spec fn u32_or_zero(o: Option<u32>) -> u32 {
    match o {
        Some(n) => n,
        None => 0,
    }
}

/// An optional number, or 0 when it is absent.
pub open spec fn u64_or_zero(o: Option<u64>) -> u64 {
    match o {
        Some(n) => n,
        None => 0,
    }
}

/// Whether an identifier is a random (version 4, RFC 4122 variant) UUID.
pub open spec fn is_random_uuid(id: u128) -> bool {
    uuid_version(id) == 4 && uuid_variant_bits(id) == 2
}

fn text_or_empty_of(o: &Option<String>) -> (r: String)
    ensures
        r@ == text_or_empty(*o),
{
    match o {
        Some(s) => s.clone(),
        None => String::new(),
    }
}

fn u32_or_zero_of(o: &Option<u32>) -> (r: u32)
    ensures
        r == u32_or_zero(*o),
{
    match o {
        Some(n) => *n,
        None => 0,
    }
}

fn u64_or_zero_of(o: &Option<u64>) -> (r: u64)
    ensures
        r == u64_or_zero(*o),
{
    match o {
        Some(n) => *n,
        None => 0,
    }
}

/// A row of the `clicks` table.
#[derive(Debug)]
pub struct ClickRow {
    pub event_id: u128,
    pub user_id: u128,
    pub product_id: u128,
    pub session_id: u128,
    pub timestamp: Timestamp,
    pub source: String,
    pub position: u32,
    pub category: String,
}

/// A row of the `views` table.
#[derive(Debug)]
pub struct ViewRow {
    pub event_id: u128,
    pub user_id: u128,
    pub product_id: u128,
    pub session_id: u128,
    pub timestamp: Timestamp,
    pub source: String,
    pub position: u32,
    pub category: String,
}

/// A row of the `purchases` table.
#[derive(Debug)]
pub struct PurchaseRow {
    pub event_id: u128,
    pub user_id: u128,
    pub product_id: u128,
    pub session_id: u128,
    pub timestamp: Timestamp,
    pub source: String,
    pub position: u32,
    pub category: String,
    pub amount: u64,
}

/// A row that carries an event holds, field by field, the event's user,
/// product, session and time, and its metadata with an absent text written
/// as the empty text and an absent number as 0.
pub proof fn law_click_row_copies_event_fields(r: ClickRow, e: Event)
    requires
        r.carries(e),
    ensures
            r.user_id == e.user_id,
            r.product_id == e.product_id,
            r.session_id == e.session_id,
            r.timestamp == e.timestamp,
            e.metadata.source matches Some(t) ==> r.source@ == t@,
            e.metadata.source is None ==> r.source@ == Seq::<char>::empty(),
            e.metadata.position matches Some(n) ==> r.position == n,
            e.metadata.position is None ==> r.position == 0,
            e.metadata.category matches Some(t) ==> r.category@ == t@,
            e.metadata.category is None ==> r.category@ == Seq::<char>::empty(),
{
}

impl ClickRow {
    /// The row carries the event's identifiers and time, and its metadata
    /// with absent texts as empty and absent numbers as 0.
    pub open spec fn carries(self, e: Event) -> bool {
        &&& self.user_id == e.user_id
        &&& self.product_id == e.product_id
        &&& self.session_id == e.session_id
        &&& self.timestamp == e.timestamp
        &&& self.source@ == text_or_empty(e.metadata.source)
        &&& self.position == u32_or_zero(e.metadata.position)
        &&& self.category@ == text_or_empty(e.metadata.category)
    }

    /// The row for `value`, under the given row identifier.
    pub fn from_event_with_id(value: &Event, event_id: u128) -> (r: ClickRow)
        ensures
            r.event_id == event_id,
            r.carries(*value),
            r.user_id == value.user_id,
            r.product_id == value.product_id,
            r.session_id == value.session_id,
            r.timestamp == value.timestamp,
            value.metadata.source matches Some(t) ==> r.source@ == t@,
            value.metadata.source is None ==> r.source@ == Seq::<char>::empty(),
            value.metadata.position matches Some(n) ==> r.position == n,
            value.metadata.position is None ==> r.position == 0,
            value.metadata.category matches Some(t) ==> r.category@ == t@,
            value.metadata.category is None ==> r.category@ == Seq::<char>::empty(),
    {
        ClickRow {
            event_id,
            user_id: value.user_id,
            product_id: value.product_id,
            session_id: value.session_id,
            timestamp: value.timestamp,
            source: text_or_empty_of(&value.metadata.source),
            position: u32_or_zero_of(&value.metadata.position),
            category: text_or_empty_of(&value.metadata.category),
        }
    }

    /// The row for `value`, under a fresh random identifier.
    pub fn from_event(value: &Event) -> (r: ClickRow)
        ensures
            is_random_uuid(r.event_id),
            r.carries(*value),
            r.user_id == value.user_id,
            r.product_id == value.product_id,
            r.session_id == value.session_id,
            r.timestamp == value.timestamp,
            value.metadata.source matches Some(t) ==> r.source@ == t@,
            value.metadata.source is None ==> r.source@ == Seq::<char>::empty(),
            value.metadata.position matches Some(n) ==> r.position == n,
            value.metadata.position is None ==> r.position == 0,
            value.metadata.category matches Some(t) ==> r.category@ == t@,
            value.metadata.category is None ==> r.category@ == Seq::<char>::empty(),
    {
        let id: u128 = random_uuid();
        Self::from_event_with_id(value, id)
    }
}

/// A row that carries an event holds, field by field, the event's user,
/// product, session and time, and its metadata with an absent text written
/// as the empty text and an absent number as 0.
pub proof fn law_view_row_copies_event_fields(r: ViewRow, e: Event)
    requires
        r.carries(e),
    ensures
            r.user_id == e.user_id,
            r.product_id == e.product_id,
            r.session_id == e.session_id,
            r.timestamp == e.timestamp,
            e.metadata.source matches Some(t) ==> r.source@ == t@,
            e.metadata.source is None ==> r.source@ == Seq::<char>::empty(),
            e.metadata.position matches Some(n) ==> r.position == n,
            e.metadata.position is None ==> r.position == 0,
            e.metadata.category matches Some(t) ==> r.category@ == t@,
            e.metadata.category is None ==> r.category@ == Seq::<char>::empty(),
{
}

impl ViewRow {
    /// The row carries the event's identifiers and time, and its metadata
    /// with absent texts as empty and absent numbers as 0.
    pub open spec fn carries(self, e: Event) -> bool {
        &&& self.user_id == e.user_id
        &&& self.product_id == e.product_id
        &&& self.session_id == e.session_id
        &&& self.timestamp == e.timestamp
        &&& self.source@ == text_or_empty(e.metadata.source)
        &&& self.position == u32_or_zero(e.metadata.position)
        &&& self.category@ == text_or_empty(e.metadata.category)
    }

    /// The row for `value`, under the given row identifier.
    pub fn from_event_with_id(value: &Event, event_id: u128) -> (r: ViewRow)
        ensures
            r.event_id == event_id,
            r.carries(*value),
            r.user_id == value.user_id,
            r.product_id == value.product_id,
            r.session_id == value.session_id,
            r.timestamp == value.timestamp,
            value.metadata.source matches Some(t) ==> r.source@ == t@,
            value.metadata.source is None ==> r.source@ == Seq::<char>::empty(),
            value.metadata.position matches Some(n) ==> r.position == n,
            value.metadata.position is None ==> r.position == 0,
            value.metadata.category matches Some(t) ==> r.category@ == t@,
            value.metadata.category is None ==> r.category@ == Seq::<char>::empty(),
    {
        ViewRow {
            event_id,
            user_id: value.user_id,
            product_id: value.product_id,
            session_id: value.session_id,
            timestamp: value.timestamp,
            source: text_or_empty_of(&value.metadata.source),
            position: u32_or_zero_of(&value.metadata.position),
            category: text_or_empty_of(&value.metadata.category),
        }
    }

    /// The row for `value`, under a fresh random identifier.
    pub fn from_event(value: &Event) -> (r: ViewRow)
        ensures
            is_random_uuid(r.event_id),
            r.carries(*value),
            r.user_id == value.user_id,
            r.product_id == value.product_id,
            r.session_id == value.session_id,
            r.timestamp == value.timestamp,
            value.metadata.source matches Some(t) ==> r.source@ == t@,
            value.metadata.source is None ==> r.source@ == Seq::<char>::empty(),
            value.metadata.position matches Some(n) ==> r.position == n,
            value.metadata.position is None ==> r.position == 0,
            value.metadata.category matches Some(t) ==> r.category@ == t@,
            value.metadata.category is None ==> r.category@ == Seq::<char>::empty(),
    {
        let id: u128 = random_uuid();
        Self::from_event_with_id(value, id)
    }
}

/// A row that carries an event holds, field by field, the event's user,
/// product, session and time, and its metadata with an absent text written
/// as the empty text and an absent number as 0.
pub proof fn law_purchase_row_copies_event_fields(r: PurchaseRow, e: Event)
    requires
        r.carries(e),
    ensures
            r.user_id == e.user_id,
            r.product_id == e.product_id,
            r.session_id == e.session_id,
            r.timestamp == e.timestamp,
            e.metadata.source matches Some(t) ==> r.source@ == t@,
            e.metadata.source is None ==> r.source@ == Seq::<char>::empty(),
            e.metadata.position matches Some(n) ==> r.position == n,
            e.metadata.position is None ==> r.position == 0,
            e.metadata.category matches Some(t) ==> r.category@ == t@,
            e.metadata.category is None ==> r.category@ == Seq::<char>::empty(),
            e.metadata.amount matches Some(n) ==> r.amount == n,
            e.metadata.amount is None ==> r.amount == 0,
{
}

impl PurchaseRow {
    /// The row carries the event's identifiers and time, and its metadata
    /// with absent texts as empty and absent numbers as 0.
    pub open spec fn carries(self, e: Event) -> bool {
        &&& self.user_id == e.user_id
        &&& self.product_id == e.product_id
        &&& self.session_id == e.session_id
        &&& self.timestamp == e.timestamp
        &&& self.source@ == text_or_empty(e.metadata.source)
        &&& self.position == u32_or_zero(e.metadata.position)
        &&& self.category@ == text_or_empty(e.metadata.category)
        &&& self.amount == u64_or_zero(e.metadata.amount)
    }

    /// The row for `value`, under the given row identifier.
    pub fn from_event_with_id(value: &Event, event_id: u128) -> (r: PurchaseRow)
        ensures
            r.event_id == event_id,
            r.carries(*value),
            r.user_id == value.user_id,
            r.product_id == value.product_id,
            r.session_id == value.session_id,
            r.timestamp == value.timestamp,
            value.metadata.source matches Some(t) ==> r.source@ == t@,
            value.metadata.source is None ==> r.source@ == Seq::<char>::empty(),
            value.metadata.position matches Some(n) ==> r.position == n,
            value.metadata.position is None ==> r.position == 0,
            value.metadata.category matches Some(t) ==> r.category@ == t@,
            value.metadata.category is None ==> r.category@ == Seq::<char>::empty(),
            value.metadata.amount matches Some(n) ==> r.amount == n,
            value.metadata.amount is None ==> r.amount == 0,
    {
        PurchaseRow {
            event_id,
            user_id: value.user_id,
            product_id: value.product_id,
            session_id: value.session_id,
            timestamp: value.timestamp,
            source: text_or_empty_of(&value.metadata.source),
            position: u32_or_zero_of(&value.metadata.position),
            category: text_or_empty_of(&value.metadata.category),
            amount: u64_or_zero_of(&value.metadata.amount),
        }
    }

    /// The row for `value`, under a fresh random identifier.
    pub fn from_event(value: &Event) -> (r: PurchaseRow)
        ensures
            is_random_uuid(r.event_id),
            r.carries(*value),
            r.user_id == value.user_id,
            r.product_id == value.product_id,
            r.session_id == value.session_id,
            r.timestamp == value.timestamp,
            value.metadata.source matches Some(t) ==> r.source@ == t@,
            value.metadata.source is None ==> r.source@ == Seq::<char>::empty(),
            value.metadata.position matches Some(n) ==> r.position == n,
            value.metadata.position is None ==> r.position == 0,
            value.metadata.category matches Some(t) ==> r.category@ == t@,
            value.metadata.category is None ==> r.category@ == Seq::<char>::empty(),
            value.metadata.amount matches Some(n) ==> r.amount == n,
            value.metadata.amount is None ==> r.amount == 0,
    {
        let id: u128 = random_uuid();
        Self::from_event_with_id(value, id)
    }
}

} // verus!
