use airlinepro::booking::{
    assemble_booking, book_by_agent, book_by_passenger, book_by_staff_delegate, booking_id,
    gather_booking_data, update_booking, BookingData, BookingEdits,
};
use airlinepro::edits::merge_field;
use airlinepro::ids::{new_uuid_v4_text, uuid_v4_text};
use airlinepro::random::{draw_bytes16, draw_u32};
use airlinepro::flights::{add_new_flight, edit_flight, FlightDetails, FlightForm};
use airlinepro::menus::StaffChoice;
use airlinepro::staff::{
    add_new_staff, database_file_path, staff_management_result, update_staff, StaffDetails,
    StaffForm, StaffManagementResult,
};

fn is_uuid_v4_text(s: &str) -> bool {
    let c: Vec<char> = s.chars().collect();
    c.len() == 36
        && c.iter().enumerate().all(|(i, ch)| {
            if [8, 13, 18, 23].contains(&i) {
                *ch == '-'
            } else {
                ch.is_ascii_digit() || ('a'..='f').contains(ch)
            }
        })
        && c[14] == '4'
        && "89ab".contains(c[19])
}

#[test]
fn gather_booking_data_trims() {
    assert_eq!(gather_booking_data("  window seat \n").details, "window seat");
}

#[test]
fn booking_by_passenger() {
    let b = book_by_passenger(gather_booking_data("LOS-ABV"), "P1").unwrap();
    assert!(is_uuid_v4_text(&b.uuid));
    assert_eq!(b.passenger_id, "P1");
    assert_eq!(b.agent_id, "None");
    assert_eq!(b.staff_id, "None");
    assert_eq!(b.details, "LOS-ABV");
}

#[test]
fn booking_by_agent_and_delegate() {
    let a = book_by_agent(gather_booking_data("d"), "P2", "A9").unwrap();
    assert_eq!((a.agent_id.as_str(), a.staff_id.as_str()), ("A9", "None"));
    let s = book_by_staff_delegate(gather_booking_data("d"), "P3", "S4").unwrap();
    assert_eq!((s.agent_id.as_str(), s.staff_id.as_str()), ("None", "S4"));
    assert!(is_uuid_v4_text(&a.uuid) && is_uuid_v4_text(&s.uuid));
    assert_ne!(a.uuid, s.uuid);
}

#[test]
fn assemble_booking_keeps_fields() {
    let b = assemble_booking("u".to_string(), BookingData { details: "x".to_string() }, "p", "a", "s");
    assert_eq!((b.uuid.as_str(), b.passenger_id.as_str(), b.agent_id.as_str(), b.staff_id.as_str(), b.details.as_str()), ("u", "p", "a", "s", "x"));
}

#[test]
fn merge_field_blank_keeps() {
    assert_eq!(merge_field("Lagos".to_string(), "".to_string()), "Lagos");
    assert_eq!(merge_field("Lagos".to_string(), "   ".to_string()), "Lagos");
    assert_eq!(merge_field("Lagos".to_string(), "Abuja".to_string()), "Abuja");
    assert_eq!(merge_field("Lagos".to_string(), " Abuja ".to_string()), " Abuja ");
}

fn flight(o: &str, d: &str, s: &str, a: &str) -> FlightDetails {
    FlightDetails { origin: o.into(), destination: d.into(), schedule: s.into(), aircraft_type: a.into() }
}

#[test]
fn edit_flight_fieldwise() {
    let cur = || flight("LOS", "ABV", "2024-01-01 10:00", "B737");
    let out = edit_flight(cur(), flight("", "KAN", "", "A320"));
    assert_eq!(out.origin, "LOS");
    assert_eq!(out.destination, "KAN");
    assert_eq!(out.schedule, "2024-01-01 10:00");
    assert_eq!(out.aircraft_type, "A320");
    let blank = edit_flight(cur(), flight("", " ", "", ""));
    let c = cur();
    assert_eq!(
        (blank.origin, blank.destination, blank.schedule, blank.aircraft_type),
        (c.origin, c.destination, c.schedule, c.aircraft_type)
    );
    let once = edit_flight(cur(), flight("", "KAN", "", "A320"));
    let twice = edit_flight(edit_flight(cur(), flight("", "KAN", "", "A320")), flight("", "KAN", "", "A320"));
    assert_eq!(
        (once.origin, once.destination, once.schedule, once.aircraft_type),
        (twice.origin, twice.destination, twice.schedule, twice.aircraft_type)
    );
}

#[test]
fn add_new_flight_keeps_answers() {
    let form = FlightForm {
        flight_number: "OA100".into(),
        origin: "LOS".into(),
        destination: "ABV".into(),
        schedule: "2024-01-01 10:00".into(),
        aircraft_type: "B737".into(),
        available_seats: "150".into(),
    };
    let f = add_new_flight(form).unwrap();
    assert!(is_uuid_v4_text(&f.uuid));
    assert_eq!(f.form.flight_number, "OA100");
    assert_eq!(f.form.available_seats, "150");
}

#[test]
fn staff_menu_result_exits_only_on_exit() {
    assert_eq!(staff_management_result(StaffChoice::Exit), StaffManagementResult::ExitToMainMenu);
    for c in [StaffChoice::Add, StaffChoice::Update, StaffChoice::Delete, StaffChoice::Invalid] {
        assert_eq!(staff_management_result(c), StaffManagementResult::Continue);
    }
}

#[test]
fn add_new_staff_keeps_answers() {
    let form = StaffForm {
        first_name: "Ada".into(),
        last_name: "Obi".into(),
        middle_name: "".into(),
        email: "ada@oa.ng".into(),
        role: "admin".into(),
        phone_number: "0800".into(),
        address: "Lagos".into(),
        password: "pw".into(),
    };
    let s = add_new_staff(form).unwrap();
    assert!(is_uuid_v4_text(&s.uuid));
    assert_eq!(s.form.email, "ada@oa.ng");
    assert_eq!(s.form.password, "pw");
}

#[test]
fn update_staff_fieldwise() {
    let cur = StaffDetails {
        first_name: "Ada".into(),
        last_name: "Obi".into(),
        middle_name: "N".into(),
        role: "staff".into(),
        phone_number: "0800".into(),
        address: "Lagos".into(),
    };
    let entered = StaffDetails {
        first_name: "".into(),
        last_name: "".into(),
        middle_name: "".into(),
        role: "admin".into(),
        phone_number: "".into(),
        address: "Abuja".into(),
    };
    let out = update_staff(cur, entered);
    assert_eq!(out.first_name, "Ada");
    assert_eq!(out.role, "admin");
    assert_eq!(out.address, "Abuja");
    assert_eq!(out.phone_number, "0800");
}

#[test]
fn database_path_from_url() {
    assert_eq!(database_file_path("sqlite://airline.db"), Some("airline.db".to_string()));
    assert_eq!(database_file_path("sqlite:///var/db/a.db"), Some("/var/db/a.db".to_string()));
    assert_eq!(database_file_path("sqlite:airline.db"), None);
    assert_eq!(database_file_path(""), None);
}

#[test]
fn booking_id_reads_uuids_only() {
    let b = book_by_passenger(gather_booking_data("d"), "P1").unwrap();
    assert_eq!(booking_id(&format!("  {}\n", b.uuid)), Some(b.uuid.clone()));
    assert_eq!(booking_id("67e55044-10b1-426f-9247-bb680e5fe0c8"), Some("67e55044-10b1-426f-9247-bb680e5fe0c8".to_string()));
    assert_eq!(booking_id("67E55044-10B1-426F-9247-BB680E5FE0C8"), None);
    assert_eq!(booking_id("67e5504410b1426f9247bb680e5fe0c8"), None);
    assert_eq!(booking_id("67e55044-10b1-426f-9247-bb680e5fe0c"), None);
    assert_eq!(booking_id(""), None);
}

#[test]
fn update_booking_keeps_identifier_and_blank_fields() {
    let b = assemble_booking("u-1".to_string(), BookingData { details: "old".to_string() }, "P1", "None", "None");
    let edits = BookingEdits {
        passenger_id: "".into(),
        agent_id: "A7".into(),
        staff_id: "  ".into(),
        details: "new details".into(),
    };
    let out = update_booking(b, edits);
    assert_eq!(out.uuid, "u-1");
    assert_eq!(out.passenger_id, "P1");
    assert_eq!(out.agent_id, "A7");
    assert_eq!(out.staff_id, "None");
    assert_eq!(out.details, "new details");
}

#[test]
fn uuid_text_from_bytes() {
    assert_eq!(uuid_v4_text([0u8; 16]), "00000000-0000-4000-8000-000000000000");
    assert_eq!(uuid_v4_text([0xffu8; 16]), "ffffffff-ffff-4fff-bfff-ffffffffffff");
    let bytes = [0x67, 0xe5, 0x50, 0x44, 0x10, 0xb1, 0x42, 0x6f, 0x92, 0x47, 0xbb, 0x68, 0x0e, 0x5f, 0xe0, 0xc8];
    assert_eq!(uuid_v4_text(bytes), "67e55044-10b1-426f-9247-bb680e5fe0c8");
    let fresh = new_uuid_v4_text().unwrap();
    assert!(is_uuid_v4_text(&fresh));
}

#[test]
fn random_draws_succeed_here() {
    assert!(draw_u32().is_ok());
    let a = draw_bytes16().unwrap();
    let b = draw_bytes16().unwrap();
    assert_ne!(a, b);
}
