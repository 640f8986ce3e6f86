//! Bookings, made by a passenger, by an agent on a passenger's behalf, or by
//! a staff delegate, then updated or cancelled by their identifier. The
//! identifier of a party that took no part is recorded as `None`.

use vstd::prelude::*;
use crate::edits::{merge_field, merged};
use crate::ids::{is_uuid, is_uuid_text, is_uuid_v4_text, new_uuid_v4_text};
use crate::random::RandomSourceError;
use crate::text::{trim, trimmed};

verus! {

/// The answers gathered for a booking.
#[derive(Debug)]
pub struct BookingData {
    pub details: String,
}

/// Gathers the booking details from the answer to "Enter booking details: ",
/// trimmed as every prompt answer is.
pub fn gather_booking_data(details_answer: &str) -> (r: BookingData)
    ensures
        r.details@ == trimmed(details_answer@),
{
    BookingData { details: trim(details_answer) }
}

/// A row of the bookings table.
#[derive(Debug)]
pub struct Booking {
    pub uuid: String,
    pub passenger_id: String,
    pub agent_id: String,
    pub staff_id: String,
    pub details: String,
}

/// What is recorded for a party that took no part in a booking.
pub open spec fn absent_party() -> Seq<char> {
    "None"@
}

/// Puts a booking together from its identifier, its details and its parties.
pub fn assemble_booking(uuid: String, data: BookingData, passenger_id: &str, agent_id: &str, staff_id: &str) -> (r: Booking)
    ensures
        r.uuid@ == uuid@,
        r.passenger_id@ == passenger_id@,
        r.agent_id@ == agent_id@,
        r.staff_id@ == staff_id@,
        r.details@ == data.details@,
{
    Booking {
        uuid,
        passenger_id: passenger_id.to_owned(),
        agent_id: agent_id.to_owned(),
        staff_id: staff_id.to_owned(),
        details: data.details,
    }
}

/// A booking made by the passenger: no agent and no staff delegate.
pub fn book_by_passenger(data: BookingData, passenger_id: &str) -> (res: Result<Booking, RandomSourceError>)
    ensures
        res matches Ok(r) ==> {
            &&& is_uuid_v4_text(r.uuid@)
            &&& r.passenger_id@ == passenger_id@
            &&& r.agent_id@ == absent_party()
            &&& r.staff_id@ == absent_party()
            &&& r.details@ == data.details@
        },
        res matches Err(e) ==> e == RandomSourceError::Unavailable,
{
    let uuid = new_uuid_v4_text()?;
    Ok(assemble_booking(uuid, data, passenger_id, "None", "None"))
}

/// A booking made by an agent for a passenger: no staff delegate.
pub fn book_by_agent(data: BookingData, passenger_id: &str, agent_id: &str) -> (res: Result<Booking, RandomSourceError>)
    ensures
        res matches Ok(r) ==> {
            &&& is_uuid_v4_text(r.uuid@)
            &&& r.passenger_id@ == passenger_id@
            &&& r.agent_id@ == agent_id@
            &&& r.staff_id@ == absent_party()
            &&& r.details@ == data.details@
        },
        res matches Err(e) ==> e == RandomSourceError::Unavailable,
{
    let uuid = new_uuid_v4_text()?;
    Ok(assemble_booking(uuid, data, passenger_id, agent_id, "None"))
}

/// A booking made by a staff delegate for a passenger: no agent.
pub fn book_by_staff_delegate(data: BookingData, passenger_id: &str, staff_id: &str) -> (res: Result<Booking, RandomSourceError>)
    ensures
        res matches Ok(r) ==> {
            &&& is_uuid_v4_text(r.uuid@)
            &&& r.passenger_id@ == passenger_id@
            &&& r.agent_id@ == absent_party()
            &&& r.staff_id@ == staff_id@
            &&& r.details@ == data.details@
        },
        res matches Err(e) ==> e == RandomSourceError::Unavailable,
{
    let uuid = new_uuid_v4_text()?;
    Ok(assemble_booking(uuid, data, passenger_id, "None", staff_id))
}


pub ghost struct BookingView {
    pub uuid: Seq<char>,
    pub passenger_id: Seq<char>,
    pub agent_id: Seq<char>,
    pub staff_id: Seq<char>,
    pub details: Seq<char>,
}

impl View for Booking {
    type V = BookingView;

    open spec fn view(&self) -> BookingView {
        BookingView {
            uuid: self.uuid@,
            passenger_id: self.passenger_id@,
            agent_id: self.agent_id@,
            staff_id: self.staff_id@,
            details: self.details@,
        }
    }
}

/// The answers to the booking-update prompts, one per editable field.
#[derive(Debug)]
pub struct BookingEdits {
    pub passenger_id: String,
    pub agent_id: String,
    pub staff_id: String,
    pub details: String,
}

pub ghost struct BookingEditsView {
    pub passenger_id: Seq<char>,
    pub agent_id: Seq<char>,
    pub staff_id: Seq<char>,
    pub details: Seq<char>,
}

impl View for BookingEdits {
    type V = BookingEditsView;

    open spec fn view(&self) -> BookingEditsView {
        BookingEditsView {
            passenger_id: self.passenger_id@,
            agent_id: self.agent_id@,
            staff_id: self.staff_id@,
            details: self.details@,
        }
    }
}

/// The booking after the answers `entered`: its identifier stays, and each
/// other field keeps its value on a blank answer.
pub open spec fn edited_booking(current: BookingView, entered: BookingEditsView) -> BookingView {
    BookingView {
        uuid: current.uuid,
        passenger_id: merged(current.passenger_id, entered.passenger_id),
        agent_id: merged(current.agent_id, entered.agent_id),
        staff_id: merged(current.staff_id, entered.staff_id),
        details: merged(current.details, entered.details),
    }
}

/// Updates an existing booking from the answers to the update prompts.
pub fn update_booking(current: Booking, entered: BookingEdits) -> (r: Booking)
    ensures
        r@ == edited_booking(current@, entered@),
        trimmed(entered.passenger_id@).len() == 0 ==> r.passenger_id@ == current.passenger_id@,
        trimmed(entered.passenger_id@).len() != 0 ==> r.passenger_id@ == entered.passenger_id@,
        trimmed(entered.agent_id@).len() == 0 ==> r.agent_id@ == current.agent_id@,
        trimmed(entered.agent_id@).len() != 0 ==> r.agent_id@ == entered.agent_id@,
        trimmed(entered.staff_id@).len() == 0 ==> r.staff_id@ == current.staff_id@,
        trimmed(entered.staff_id@).len() != 0 ==> r.staff_id@ == entered.staff_id@,
        trimmed(entered.details@).len() == 0 ==> r.details@ == current.details@,
        trimmed(entered.details@).len() != 0 ==> r.details@ == entered.details@,
{
    Booking {
        uuid: current.uuid,
        passenger_id: merge_field(current.passenger_id, entered.passenger_id),
        agent_id: merge_field(current.agent_id, entered.agent_id),
        staff_id: merge_field(current.staff_id, entered.staff_id),
        details: merge_field(current.details, entered.details),
    }
}

/// An update never changes which booking it is.
pub proof fn lemma_update_keeps_identifier(current: BookingView, entered: BookingEditsView)
    ensures
        edited_booking(current, entered).uuid == current.uuid,
{
}

/// Updating twice with the same answers gives what updating once gives.
pub proof fn lemma_booking_update_idempotent(current: BookingView, entered: BookingEditsView)
    ensures
        edited_booking(edited_booking(current, entered), entered) == edited_booking(current, entered),
{
}

/// Blank answers everywhere leave the booking as it was.
pub proof fn lemma_booking_blank_update_keeps(current: BookingView, entered: BookingEditsView)
    requires
        trimmed(entered.passenger_id).len() == 0,
        trimmed(entered.agent_id).len() == 0,
        trimmed(entered.staff_id).len() == 0,
        trimmed(entered.details).len() == 0,
    ensures
        edited_booking(current, entered) == current,
{
}

/// The booking identifier named by an answer: the trimmed answer, when it is
/// a hyphenated lower-case UUID.
pub open spec fn booking_id_of(answer: Seq<char>) -> Option<Seq<char>> {
    if is_uuid_text(trimmed(answer)) {
        Some(trimmed(answer))
    } else {
        None
    }
}

/// Reads the identifier of the booking to update or cancel.
pub fn booking_id(answer: &str) -> (r: Option<String>)
    ensures
        r matches Some(id) ==> booking_id_of(answer@) == Some(id@),
        r is None ==> booking_id_of(answer@) is None,
{
    let t = trim(answer);
    if is_uuid(t.as_str()) {
        Some(t)
    } else {
        None
    }
}

/// The identifier of every booking made here is accepted when typed back.
pub proof fn lemma_issued_identifier_accepted(uuid: Seq<char>)
    requires
        is_uuid_v4_text(uuid),
    ensures
        booking_id_of(uuid) == Some(uuid),
{
    crate::ids::lemma_v4_is_uuid_text(uuid);
    assert forall|k: int| 0 <= k < uuid.len() implies !crate::text::is_whitespace_char(
        #[trigger] uuid[k],
    ) by {
        if k == 8 || k == 13 || k == 18 || k == 23 {
            assert(uuid[k] == '-');
        } else {
            assert(crate::ids::is_lower_hex_digit(uuid[k]));
        }
    }
    crate::text::lemma_trim_noop(uuid);
}

/// Every field of an edited booking is decided by the answer given for that
/// same field alone: a blank answer (after trimming) keeps the field's value,
/// any other answer becomes its new value.
pub proof fn lemma_booking_update_each_field(current: BookingView, entered: BookingEditsView)
    ensures
        trimmed(entered.passenger_id).len() == 0 ==> edited_booking(current, entered).passenger_id == current.passenger_id,
        trimmed(entered.passenger_id).len() != 0 ==> edited_booking(current, entered).passenger_id == entered.passenger_id,
        trimmed(entered.agent_id).len() == 0 ==> edited_booking(current, entered).agent_id == current.agent_id,
        trimmed(entered.agent_id).len() != 0 ==> edited_booking(current, entered).agent_id == entered.agent_id,
        trimmed(entered.staff_id).len() == 0 ==> edited_booking(current, entered).staff_id == current.staff_id,
        trimmed(entered.staff_id).len() != 0 ==> edited_booking(current, entered).staff_id == entered.staff_id,
        trimmed(entered.details).len() == 0 ==> edited_booking(current, entered).details == current.details,
        trimmed(entered.details).len() != 0 ==> edited_booking(current, entered).details == entered.details,
{
}

} // verus!
