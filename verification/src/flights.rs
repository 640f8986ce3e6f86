//! Flights: adding a flight from the answers to the flight form and editing
//! the stored details of an existing one.

use vstd::prelude::*;
use crate::text::trimmed;
use crate::edits::{merge_field, merged};
use crate::ids::{is_uuid_v4_text, new_uuid_v4_text};
use crate::random::RandomSourceError;

verus! {

/// The answers to the new-flight form, in the order they are asked.
#[derive(Debug)]
pub struct FlightForm {
    pub flight_number: String,
    pub origin: String,
    pub destination: String,
    pub schedule: String,
    pub aircraft_type: String,
    pub available_seats: String,
}

/// A flight ready to be stored: a fresh identifier and the form's answers.
#[derive(Debug)]
pub struct NewFlight {
    pub uuid: String,
    pub form: FlightForm,
}

/// Gives the answers to the new-flight form a fresh identifier.
pub fn add_new_flight(form: FlightForm) -> (res: Result<NewFlight, RandomSourceError>)
    ensures
        res matches Ok(r) ==> is_uuid_v4_text(r.uuid@) && r.form == form,
        res matches Err(e) ==> e == RandomSourceError::Unavailable,
{
    let uuid = new_uuid_v4_text()?;
    Ok(NewFlight { uuid, form })
}

/// The editable details of a stored flight.
#[derive(Debug)]
pub struct FlightDetails {
    pub origin: String,
    pub destination: String,
    pub schedule: String,
    pub aircraft_type: String,
}

pub ghost struct FlightDetailsView {
    pub origin: Seq<char>,
    pub destination: Seq<char>,
    pub schedule: Seq<char>,
    pub aircraft_type: Seq<char>,
}

impl View for FlightDetails {
    type V = FlightDetailsView;

    open spec fn view(&self) -> FlightDetailsView {
        FlightDetailsView {
            origin: self.origin@,
            destination: self.destination@,
            schedule: self.schedule@,
            aircraft_type: self.aircraft_type@,
        }
    }
}

/// The details after the answers `entered`, one per field.
pub open spec fn edited_flight(current: FlightDetailsView, entered: FlightDetailsView) -> FlightDetailsView {
    FlightDetailsView {
        origin: merged(current.origin, entered.origin),
        destination: merged(current.destination, entered.destination),
        schedule: merged(current.schedule, entered.schedule),
        aircraft_type: merged(current.aircraft_type, entered.aircraft_type),
    }
}

/// Applies the answers of the edit prompts to a flight's details: a blank
/// answer keeps the field.
pub fn edit_flight(current: FlightDetails, entered: FlightDetails) -> (r: FlightDetails)
    ensures
        r@ == edited_flight(current@, entered@),
        trimmed(entered.origin@).len() == 0 ==> r.origin@ == current.origin@,
        trimmed(entered.origin@).len() != 0 ==> r.origin@ == entered.origin@,
        trimmed(entered.destination@).len() == 0 ==> r.destination@ == current.destination@,
        trimmed(entered.destination@).len() != 0 ==> r.destination@ == entered.destination@,
        trimmed(entered.schedule@).len() == 0 ==> r.schedule@ == current.schedule@,
        trimmed(entered.schedule@).len() != 0 ==> r.schedule@ == entered.schedule@,
        trimmed(entered.aircraft_type@).len() == 0 ==> r.aircraft_type@ == current.aircraft_type@,
        trimmed(entered.aircraft_type@).len() != 0 ==> r.aircraft_type@ == entered.aircraft_type@,
{
    FlightDetails {
        origin: merge_field(current.origin, entered.origin),
        destination: merge_field(current.destination, entered.destination),
        schedule: merge_field(current.schedule, entered.schedule),
        aircraft_type: merge_field(current.aircraft_type, entered.aircraft_type),
    }
}

/// Editing a flight twice with the same answers gives what editing it once
/// gives.
pub proof fn lemma_flight_edit_idempotent(current: FlightDetailsView, entered: FlightDetailsView)
    ensures
        edited_flight(edited_flight(current, entered), entered) == edited_flight(current, entered),
{
}

/// Blank answers everywhere leave the flight as it was.
pub proof fn lemma_flight_blank_edit_keeps(current: FlightDetailsView, entered: FlightDetailsView)
    requires
        crate::text::trimmed(entered.origin).len() == 0,
        crate::text::trimmed(entered.destination).len() == 0,
        crate::text::trimmed(entered.schedule).len() == 0,
        crate::text::trimmed(entered.aircraft_type).len() == 0,
    ensures
        edited_flight(current, entered) == current,
{
}

/// Every field of an edited flight is decided by the answer given for that
/// same field alone: a blank answer (after trimming) keeps the field's value,
/// any other answer becomes its new value.
pub proof fn lemma_flight_edit_each_field(current: FlightDetailsView, entered: FlightDetailsView)
    ensures
        trimmed(entered.origin).len() == 0 ==> edited_flight(current, entered).origin == current.origin,
        trimmed(entered.origin).len() != 0 ==> edited_flight(current, entered).origin == entered.origin,
        trimmed(entered.destination).len() == 0 ==> edited_flight(current, entered).destination == current.destination,
        trimmed(entered.destination).len() != 0 ==> edited_flight(current, entered).destination == entered.destination,
        trimmed(entered.schedule).len() == 0 ==> edited_flight(current, entered).schedule == current.schedule,
        trimmed(entered.schedule).len() != 0 ==> edited_flight(current, entered).schedule == entered.schedule,
        trimmed(entered.aircraft_type).len() == 0 ==> edited_flight(current, entered).aircraft_type == current.aircraft_type,
        trimmed(entered.aircraft_type).len() != 0 ==> edited_flight(current, entered).aircraft_type == entered.aircraft_type,
{
}

} // verus!
