//! The console's menus. Each answer is normalised (trimmed and lower-cased,
//! except in the passenger menu, which is only trimmed) and then matched
//! against the option's number and its spelled-out forms.

use vstd::prelude::*;
use crate::text::{lowercase_of, normalize_choice, normalized, text_equals, trim, trimmed};

verus! {

/// Main menu: administrator, passenger, or leaving the interface.
#[derive(Debug, Clone, Copy, PartialEq, Eq, Structural)]
pub enum RoleChoice {
    Admin,
    Passenger,
    Exit,
    Invalid,
}

pub open spec fn role_choice_of(choice: Seq<char>) -> RoleChoice {
    if choice == "admin"@ || choice == "1"@ {
        RoleChoice::Admin
    } else if choice == "passenger"@ || choice == "2"@ {
        RoleChoice::Passenger
    } else if choice == "exit"@ || choice == "3"@ {
        RoleChoice::Exit
    } else {
        RoleChoice::Invalid
    }
}

/// Reads an already normalised main-menu answer.
pub fn role_choice_normalized(choice: &str) -> (r: RoleChoice)
    ensures
        r == role_choice_of(choice@),
{
    if text_equals(choice, "admin") || text_equals(choice, "1") {
        RoleChoice::Admin
    } else if text_equals(choice, "passenger") || text_equals(choice, "2") {
        RoleChoice::Passenger
    } else if text_equals(choice, "exit") || text_equals(choice, "3") {
        RoleChoice::Exit
    } else {
        RoleChoice::Invalid
    }
}

/// Reads a raw main-menu answer.
pub fn role_choice(input: &str) -> (r: RoleChoice)
    ensures
        r == role_choice_of(normalized(input@)),
{
    let c = normalize_choice(input);
    role_choice_normalized(c.as_str())
}

/// Passenger menu.
#[derive(Debug, Clone, Copy, PartialEq, Eq, Structural)]
pub enum PassengerChoice {
    Register,
    Login,
    Exit,
    Invalid,
}

pub open spec fn passenger_choice_of(choice: Seq<char>) -> PassengerChoice {
    if choice == "1"@ {
        PassengerChoice::Register
    } else if choice == "2"@ {
        PassengerChoice::Login
    } else if choice == "3"@ {
        PassengerChoice::Exit
    } else {
        PassengerChoice::Invalid
    }
}

/// Reads a raw passenger-menu answer; only surrounding whitespace is ignored.
pub fn passenger_choice(input: &str) -> (r: PassengerChoice)
    ensures
        r == passenger_choice_of(trimmed(input@)),
{
    let t = trim(input);
    let c = t.as_str();
    if text_equals(c, "1") {
        PassengerChoice::Register
    } else if text_equals(c, "2") {
        PassengerChoice::Login
    } else if text_equals(c, "3") {
        PassengerChoice::Exit
    } else {
        PassengerChoice::Invalid
    }
}

/// Administration menu.
#[derive(Debug, Clone, Copy, PartialEq, Eq, Structural)]
pub enum ManagementChoice {
    Staff,
    Flight,
    Booking,
    Analytics,
    Exit,
    Invalid,
}

pub open spec fn management_choice_of(choice: Seq<char>) -> ManagementChoice {
    if choice == "staff management"@ || choice == "staff"@ || choice == "1"@ {
        ManagementChoice::Staff
    } else if choice == "flight management"@ || choice == "flight"@ || choice == "2"@ {
        ManagementChoice::Flight
    } else if choice == "booking management"@ || choice == "booking"@ || choice == "3"@ {
        ManagementChoice::Booking
    } else if choice == "reports and analytics"@ || choice == "analytics"@ || choice == "4"@ {
        ManagementChoice::Analytics
    } else if choice == "exit"@ || choice == "5"@ {
        ManagementChoice::Exit
    } else {
        ManagementChoice::Invalid
    }
}

/// Reads an already normalised administration-menu answer.
pub fn management_choice_normalized(choice: &str) -> (r: ManagementChoice)
    ensures
        r == management_choice_of(choice@),
{
    if text_equals(choice, "staff management") || text_equals(choice, "staff") || text_equals(
        choice,
        "1",
    ) {
        ManagementChoice::Staff
    } else if text_equals(choice, "flight management") || text_equals(choice, "flight")
        || text_equals(choice, "2") {
        ManagementChoice::Flight
    } else if text_equals(choice, "booking management") || text_equals(choice, "booking")
        || text_equals(choice, "3") {
        ManagementChoice::Booking
    } else if text_equals(choice, "reports and analytics") || text_equals(choice, "analytics")
        || text_equals(choice, "4") {
        ManagementChoice::Analytics
    } else if text_equals(choice, "exit") || text_equals(choice, "5") {
        ManagementChoice::Exit
    } else {
        ManagementChoice::Invalid
    }
}

/// Reads a raw administration-menu answer.
pub fn management_choice(input: &str) -> (r: ManagementChoice)
    ensures
        r == management_choice_of(normalized(input@)),
{
    let c = normalize_choice(input);
    management_choice_normalized(c.as_str())
}

/// Booking-management menu.
#[derive(Debug, Clone, Copy, PartialEq, Eq, Structural)]
pub enum BookingChoice {
    ByPassenger,
    ByAgent,
    ByStaffDelegate,
    ViewAll,
    Exit,
    Update,
    Cancel,
    Invalid,
}

pub open spec fn booking_choice_of(choice: Seq<char>) -> BookingChoice {
    if choice == "1"@ || choice == "book by passenger"@ || choice == "passenger"@ {
        BookingChoice::ByPassenger
    } else if choice == "2"@ || choice == "book by agent"@ || choice == "agent"@ {
        BookingChoice::ByAgent
    } else if choice == "3"@ || choice == "book by staff delegate"@ || choice == "staff"@ {
        BookingChoice::ByStaffDelegate
    } else if choice == "4"@ || choice == "view all bookings"@ || choice == "admin"@ {
        BookingChoice::ViewAll
    } else if choice == "5"@ || choice == "exit"@ {
        BookingChoice::Exit
    } else if choice == "6"@ || choice == "update booking"@ || choice == "update"@ {
        BookingChoice::Update
    } else if choice == "7"@ || choice == "cancel booking"@ || choice == "cancel"@ {
        BookingChoice::Cancel
    } else {
        BookingChoice::Invalid
    }
}

/// Reads an already normalised booking-menu answer.
pub fn booking_choice_normalized(choice: &str) -> (r: BookingChoice)
    ensures
        r == booking_choice_of(choice@),
{
    if text_equals(choice, "1") || text_equals(choice, "book by passenger") || text_equals(
        choice,
        "passenger",
    ) {
        BookingChoice::ByPassenger
    } else if text_equals(choice, "2") || text_equals(choice, "book by agent") || text_equals(
        choice,
        "agent",
    ) {
        BookingChoice::ByAgent
    } else if text_equals(choice, "3") || text_equals(choice, "book by staff delegate")
        || text_equals(choice, "staff") {
        BookingChoice::ByStaffDelegate
    } else if text_equals(choice, "4") || text_equals(choice, "view all bookings") || text_equals(
        choice,
        "admin",
    ) {
        BookingChoice::ViewAll
    } else if text_equals(choice, "5") || text_equals(choice, "exit") {
        BookingChoice::Exit
    } else if text_equals(choice, "6") || text_equals(choice, "update booking") || text_equals(
        choice,
        "update",
    ) {
        BookingChoice::Update
    } else if text_equals(choice, "7") || text_equals(choice, "cancel booking") || text_equals(
        choice,
        "cancel",
    ) {
        BookingChoice::Cancel
    } else {
        BookingChoice::Invalid
    }
}

/// Reads a raw booking-menu answer.
pub fn booking_choice(input: &str) -> (r: BookingChoice)
    ensures
        r == booking_choice_of(normalized(input@)),
{
    let c = normalize_choice(input);
    booking_choice_normalized(c.as_str())
}

/// Flight-management menu.
#[derive(Debug, Clone, Copy, PartialEq, Eq, Structural)]
pub enum FlightChoice {
    Add,
    Edit,
    Cancel,
    ManageCrew,
    List,
    Exit,
    Invalid,
}

pub open spec fn flight_choice_of(choice: Seq<char>) -> FlightChoice {
    if choice == "1"@ || choice == "add new flight"@ || choice == "add"@ || choice == "flight"@ {
        FlightChoice::Add
    } else if choice == "2"@ || choice == "edit flight"@ || choice == "edit"@ {
        FlightChoice::Edit
    } else if choice == "3"@ || choice == "cancel flight"@ || choice == "cancel"@ {
        FlightChoice::Cancel
    } else if choice == "4"@ || choice == "manage flight crew"@ || choice == "manage crew"@
        || choice == "crew"@ {
        FlightChoice::ManageCrew
    } else if choice == "5"@ || choice == "list flights"@ || choice == "list"@ {
        FlightChoice::List
    } else if choice == "6"@ || choice == "exit"@ || choice == "quit"@ {
        FlightChoice::Exit
    } else {
        FlightChoice::Invalid
    }
}

/// Reads an already normalised flight-menu answer.
pub fn flight_choice_normalized(choice: &str) -> (r: FlightChoice)
    ensures
        r == flight_choice_of(choice@),
{
    if text_equals(choice, "1") || text_equals(choice, "add new flight") || text_equals(
        choice,
        "add",
    ) || text_equals(choice, "flight") {
        FlightChoice::Add
    } else if text_equals(choice, "2") || text_equals(choice, "edit flight") || text_equals(
        choice,
        "edit",
    ) {
        FlightChoice::Edit
    } else if text_equals(choice, "3") || text_equals(choice, "cancel flight") || text_equals(
        choice,
        "cancel",
    ) {
        FlightChoice::Cancel
    } else if text_equals(choice, "4") || text_equals(choice, "manage flight crew")
        || text_equals(choice, "manage crew") || text_equals(choice, "crew") {
        FlightChoice::ManageCrew
    } else if text_equals(choice, "5") || text_equals(choice, "list flights") || text_equals(
        choice,
        "list",
    ) {
        FlightChoice::List
    } else if text_equals(choice, "6") || text_equals(choice, "exit") || text_equals(
        choice,
        "quit",
    ) {
        FlightChoice::Exit
    } else {
        FlightChoice::Invalid
    }
}

/// Reads a raw flight-menu answer.
pub fn flight_choice(input: &str) -> (r: FlightChoice)
    ensures
        r == flight_choice_of(normalized(input@)),
{
    let c = normalize_choice(input);
    flight_choice_normalized(c.as_str())
}

/// Staff-management menu.
#[derive(Debug, Clone, Copy, PartialEq, Eq, Structural)]
pub enum StaffChoice {
    Add,
    Update,
    Delete,
    Exit,
    Invalid,
}

pub open spec fn staff_choice_of(choice: Seq<char>) -> StaffChoice {
    if choice == "1"@ || choice == "add new staff"@ || choice == "new staff"@ || choice == "add"@
        || choice == "staff"@ {
        StaffChoice::Add
    } else if choice == "2"@ || choice == "update"@ || choice == "update staff"@ {
        StaffChoice::Update
    } else if choice == "3"@ || choice == "delete"@ || choice == "delete staff"@ {
        StaffChoice::Delete
    } else if choice == "4"@ || choice == "exit"@ || choice == "log out"@ || choice == "quit"@ {
        StaffChoice::Exit
    } else {
        StaffChoice::Invalid
    }
}

/// Reads an already normalised staff-menu answer.
pub fn staff_choice_normalized(choice: &str) -> (r: StaffChoice)
    ensures
        r == staff_choice_of(choice@),
{
    if text_equals(choice, "1") || text_equals(choice, "add new staff") || text_equals(
        choice,
        "new staff",
    ) || text_equals(choice, "add") || text_equals(choice, "staff") {
        StaffChoice::Add
    } else if text_equals(choice, "2") || text_equals(choice, "update") || text_equals(
        choice,
        "update staff",
    ) {
        StaffChoice::Update
    } else if text_equals(choice, "3") || text_equals(choice, "delete") || text_equals(
        choice,
        "delete staff",
    ) {
        StaffChoice::Delete
    } else if text_equals(choice, "4") || text_equals(choice, "exit") || text_equals(
        choice,
        "log out",
    ) || text_equals(choice, "quit") {
        StaffChoice::Exit
    } else {
        StaffChoice::Invalid
    }
}

/// Reads a raw staff-menu answer.
pub fn staff_choice(input: &str) -> (r: StaffChoice)
    ensures
        r == staff_choice_of(normalized(input@)),
{
    let c = normalize_choice(input);
    staff_choice_normalized(c.as_str())
}

/// Reports-and-analytics menu.
#[derive(Debug, Clone, Copy, PartialEq, Eq, Structural)]
pub enum AnalyticsChoice {
    BookingStatistics,
    StaffPerformance,
    Exit,
    Invalid,
}

pub open spec fn analytics_choice_of(choice: Seq<char>) -> AnalyticsChoice {
    if choice == "1"@ || choice == "view booking statistics"@ || choice == "booking"@ {
        AnalyticsChoice::BookingStatistics
    } else if choice == "2"@ || choice == "view staff performance"@ || choice == "staff"@ {
        AnalyticsChoice::StaffPerformance
    } else if choice == "3"@ || choice == "exit"@ {
        AnalyticsChoice::Exit
    } else {
        AnalyticsChoice::Invalid
    }
}

/// Reads an already normalised analytics-menu answer.
pub fn analytics_choice_normalized(choice: &str) -> (r: AnalyticsChoice)
    ensures
        r == analytics_choice_of(choice@),
{
    if text_equals(choice, "1") || text_equals(choice, "view booking statistics") || text_equals(
        choice,
        "booking",
    ) {
        AnalyticsChoice::BookingStatistics
    } else if text_equals(choice, "2") || text_equals(choice, "view staff performance")
        || text_equals(choice, "staff") {
        AnalyticsChoice::StaffPerformance
    } else if text_equals(choice, "3") || text_equals(choice, "exit") {
        AnalyticsChoice::Exit
    } else {
        AnalyticsChoice::Invalid
    }
}

/// Reads a raw analytics-menu answer.
pub fn analytics_choice(input: &str) -> (r: AnalyticsChoice)
    ensures
        r == analytics_choice_of(normalized(input@)),
{
    let c = normalize_choice(input);
    analytics_choice_normalized(c.as_str())
}

/// Whether an answer to a "(yes/no)" confirmation is, lower-cased, exactly
/// "yes".
pub open spec fn confirms(answer: Seq<char>) -> bool {
    lowercase_of(answer) == "yes"@
}

/// Reads the answer to a destructive-operation confirmation. The answer is
/// lower-cased but not trimmed.
pub fn is_confirmed(answer: &str) -> (r: bool)
    ensures
        r == confirms(answer@),
{
    let lowered = crate::text::to_lowercase(answer);
    text_equals(lowered.as_str(), "yes")
}

} // verus!
