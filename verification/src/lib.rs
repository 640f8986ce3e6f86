//! Verified core of the Oragrick Airline management console: menu parsing,
//! admin and passenger authentication, booking, flight and staff records.

pub mod text;
pub mod menus;
pub mod random;
pub mod ids;
pub mod tickets;
pub mod login;
pub mod edits;
pub mod booking;
pub mod flights;
pub mod staff;
