//! Staff management: the menu's outcome, new staff records, editing a staff
//! member's details, and locating the database file.

use vstd::prelude::*;
use crate::edits::{merge_field, merged};
use crate::ids::{is_uuid_v4_text, new_uuid_v4_text};
use crate::random::RandomSourceError;
use crate::menus::StaffChoice;
use crate::text::{has_prefix, strip_prefix, trimmed};

verus! {

/// Whether the staff-management loop goes on after a menu choice.
#[derive(Debug, Clone, Copy, PartialEq, Eq, Structural)]
pub enum StaffManagementResult {
    Continue,
    ExitToMainMenu,
}

/// The staff menu returns to the main menu on its exit option only.
pub fn staff_management_result(choice: StaffChoice) -> (r: StaffManagementResult)
    ensures
        r == (if choice == StaffChoice::Exit {
            StaffManagementResult::ExitToMainMenu
        } else {
            StaffManagementResult::Continue
        }),
{
    match choice {
        StaffChoice::Exit => StaffManagementResult::ExitToMainMenu,
        _ => StaffManagementResult::Continue,
    }
}

/// The answers to the new-staff form, in the order they are asked.
#[derive(Debug)]
pub struct StaffForm {
    pub first_name: String,
    pub last_name: String,
    pub middle_name: String,
    pub email: String,
    pub role: String,
    pub phone_number: String,
    pub address: String,
    pub password: String,
}

/// A staff member ready to be stored: a fresh identifier and the answers.
#[derive(Debug)]
pub struct NewStaff {
    pub uuid: String,
    pub form: StaffForm,
}

/// Gives the answers to the new-staff form a fresh identifier.
pub fn add_new_staff(form: StaffForm) -> (res: Result<NewStaff, RandomSourceError>)
    ensures
        res matches Ok(r) ==> is_uuid_v4_text(r.uuid@) && r.form == form,
        res matches Err(e) ==> e == RandomSourceError::Unavailable,
{
    let uuid = new_uuid_v4_text()?;
    Ok(NewStaff { uuid, form })
}

/// The editable details of a staff member (the e-mail identifies the
/// record and is not edited).
#[derive(Debug)]
pub struct StaffDetails {
    pub first_name: String,
    pub last_name: String,
    pub middle_name: String,
    pub role: String,
    pub phone_number: String,
    pub address: String,
}

pub ghost struct StaffDetailsView {
    pub first_name: Seq<char>,
    pub last_name: Seq<char>,
    pub middle_name: Seq<char>,
    pub role: Seq<char>,
    pub phone_number: Seq<char>,
    pub address: Seq<char>,
}

impl View for StaffDetails {
    type V = StaffDetailsView;

    open spec fn view(&self) -> StaffDetailsView {
        StaffDetailsView {
            first_name: self.first_name@,
            last_name: self.last_name@,
            middle_name: self.middle_name@,
            role: self.role@,
            phone_number: self.phone_number@,
            address: self.address@,
        }
    }
}

/// The details after the answers `entered`, one per field.
pub open spec fn edited_staff(current: StaffDetailsView, entered: StaffDetailsView) -> StaffDetailsView {
    StaffDetailsView {
        first_name: merged(current.first_name, entered.first_name),
        last_name: merged(current.last_name, entered.last_name),
        middle_name: merged(current.middle_name, entered.middle_name),
        role: merged(current.role, entered.role),
        phone_number: merged(current.phone_number, entered.phone_number),
        address: merged(current.address, entered.address),
    }
}

/// Applies the answers of the edit prompts to a staff member's details: a
/// blank answer keeps the field.
pub fn update_staff(current: StaffDetails, entered: StaffDetails) -> (r: StaffDetails)
    ensures
        r@ == edited_staff(current@, entered@),
        trimmed(entered.first_name@).len() == 0 ==> r.first_name@ == current.first_name@,
        trimmed(entered.first_name@).len() != 0 ==> r.first_name@ == entered.first_name@,
        trimmed(entered.last_name@).len() == 0 ==> r.last_name@ == current.last_name@,
        trimmed(entered.last_name@).len() != 0 ==> r.last_name@ == entered.last_name@,
        trimmed(entered.middle_name@).len() == 0 ==> r.middle_name@ == current.middle_name@,
        trimmed(entered.middle_name@).len() != 0 ==> r.middle_name@ == entered.middle_name@,
        trimmed(entered.role@).len() == 0 ==> r.role@ == current.role@,
        trimmed(entered.role@).len() != 0 ==> r.role@ == entered.role@,
        trimmed(entered.phone_number@).len() == 0 ==> r.phone_number@ == current.phone_number@,
        trimmed(entered.phone_number@).len() != 0 ==> r.phone_number@ == entered.phone_number@,
        trimmed(entered.address@).len() == 0 ==> r.address@ == current.address@,
        trimmed(entered.address@).len() != 0 ==> r.address@ == entered.address@,
{
    StaffDetails {
        first_name: merge_field(current.first_name, entered.first_name),
        last_name: merge_field(current.last_name, entered.last_name),
        middle_name: merge_field(current.middle_name, entered.middle_name),
        role: merge_field(current.role, entered.role),
        phone_number: merge_field(current.phone_number, entered.phone_number),
        address: merge_field(current.address, entered.address),
    }
}

/// Editing a staff member twice with the same answers gives what editing
/// once gives.
pub proof fn lemma_staff_edit_idempotent(current: StaffDetailsView, entered: StaffDetailsView)
    ensures
        edited_staff(edited_staff(current, entered), entered) == edited_staff(current, entered),
{
}

/// Blank answers everywhere leave the staff member as they were.
pub proof fn lemma_staff_blank_edit_keeps(current: StaffDetailsView, entered: StaffDetailsView)
    requires
        crate::text::trimmed(entered.first_name).len() == 0,
        crate::text::trimmed(entered.last_name).len() == 0,
        crate::text::trimmed(entered.middle_name).len() == 0,
        crate::text::trimmed(entered.role).len() == 0,
        crate::text::trimmed(entered.phone_number).len() == 0,
        crate::text::trimmed(entered.address).len() == 0,
    ensures
        edited_staff(current, entered) == current,
{
}

/// The database file named by a `sqlite://` URL, if the URL has that form.
pub open spec fn database_path_of(url: Seq<char>) -> Option<Seq<char>> {
    if has_prefix(url, "sqlite://"@) {
        Some(url.subrange("sqlite://"@.len() as int, url.len() as int))
    } else {
        None
    }
}

/// Extracts the database file path from the database URL.
pub fn database_file_path(url: &str) -> (r: Option<String>)
    ensures
        r matches Some(p) ==> database_path_of(url@) == Some(p@),
        r is None ==> database_path_of(url@) is None,
{
    let r = strip_prefix(url, "sqlite://");
    match r {
        Some(p) => {
            assert(p@ =~= url@.subrange("sqlite://"@.len() as int, url@.len() as int));
            Some(p)
        },
        None => None,
    }
}

/// The URL made of the `sqlite://` scheme and a path names that path.
pub proof fn lemma_database_path_roundtrip(path: Seq<char>)
    ensures
        database_path_of("sqlite://"@ + path) == Some(path),
{
    let url = "sqlite://"@ + path;
    assert(url.subrange(0, "sqlite://"@.len() as int) =~= "sqlite://"@);
    assert(url.subrange("sqlite://"@.len() as int, url.len() as int) =~= path);
}

/// Every field of an edited staff member is decided by the answer given for that
/// same field alone: a blank answer (after trimming) keeps the field's value,
/// any other answer becomes its new value.
pub proof fn lemma_staff_update_each_field(current: StaffDetailsView, entered: StaffDetailsView)
    ensures
        trimmed(entered.first_name).len() == 0 ==> edited_staff(current, entered).first_name == current.first_name,
        trimmed(entered.first_name).len() != 0 ==> edited_staff(current, entered).first_name == entered.first_name,
        trimmed(entered.last_name).len() == 0 ==> edited_staff(current, entered).last_name == current.last_name,
        trimmed(entered.last_name).len() != 0 ==> edited_staff(current, entered).last_name == entered.last_name,
        trimmed(entered.middle_name).len() == 0 ==> edited_staff(current, entered).middle_name == current.middle_name,
        trimmed(entered.middle_name).len() != 0 ==> edited_staff(current, entered).middle_name == entered.middle_name,
        trimmed(entered.role).len() == 0 ==> edited_staff(current, entered).role == current.role,
        trimmed(entered.role).len() != 0 ==> edited_staff(current, entered).role == entered.role,
        trimmed(entered.phone_number).len() == 0 ==> edited_staff(current, entered).phone_number == current.phone_number,
        trimmed(entered.phone_number).len() != 0 ==> edited_staff(current, entered).phone_number == entered.phone_number,
        trimmed(entered.address).len() == 0 ==> edited_staff(current, entered).address == current.address,
        trimmed(entered.address).len() != 0 ==> edited_staff(current, entered).address == entered.address,
{
}

} // verus!
