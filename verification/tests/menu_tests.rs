use airlinepro::menus::{
    analytics_choice, analytics_choice_normalized, booking_choice, booking_choice_normalized,
    flight_choice, flight_choice_normalized, is_confirmed, management_choice,
    management_choice_normalized, passenger_choice, role_choice, role_choice_normalized,
    staff_choice, staff_choice_normalized, AnalyticsChoice, BookingChoice, FlightChoice,
    ManagementChoice, PassengerChoice, RoleChoice, StaffChoice,
};

#[test]
fn role_menu_accepts_numbers_and_words() {
    assert_eq!(role_choice("1"), RoleChoice::Admin);
    assert_eq!(role_choice("  Admin\n"), RoleChoice::Admin);
    assert_eq!(role_choice("2"), RoleChoice::Passenger);
    assert_eq!(role_choice("PASSENGER"), RoleChoice::Passenger);
    assert_eq!(role_choice("3"), RoleChoice::Exit);
    assert_eq!(role_choice(" Exit\n"), RoleChoice::Exit);
    assert_eq!(role_choice("4"), RoleChoice::Invalid);
    assert_eq!(role_choice(""), RoleChoice::Invalid);
}

#[test]
fn passenger_menu_is_only_trimmed() {
    assert_eq!(passenger_choice(" 1 "), PassengerChoice::Register);
    assert_eq!(passenger_choice("2\n"), PassengerChoice::Login);
    assert_eq!(passenger_choice("3"), PassengerChoice::Exit);
    assert_eq!(passenger_choice("register"), PassengerChoice::Invalid);
    assert_eq!(passenger_choice("4"), PassengerChoice::Invalid);
}

#[test]
fn management_menu() {
    for s in ["1", "staff", "Staff Management"] {
        assert_eq!(management_choice(s), ManagementChoice::Staff);
    }
    for s in ["2", "flight", "FLIGHT MANAGEMENT"] {
        assert_eq!(management_choice(s), ManagementChoice::Flight);
    }
    for s in ["3", "booking", "booking management"] {
        assert_eq!(management_choice(s), ManagementChoice::Booking);
    }
    for s in ["4", "analytics", "Reports and Analytics"] {
        assert_eq!(management_choice(s), ManagementChoice::Analytics);
    }
    for s in ["5", " exit "] {
        assert_eq!(management_choice(s), ManagementChoice::Exit);
    }
    assert_eq!(management_choice("6"), ManagementChoice::Invalid);
    assert_eq!(management_choice("staffs"), ManagementChoice::Invalid);
}

#[test]
fn booking_menu() {
    for s in ["1", "book by passenger", "Passenger"] {
        assert_eq!(booking_choice(s), BookingChoice::ByPassenger);
    }
    for s in ["2", "book by agent", "agent"] {
        assert_eq!(booking_choice(s), BookingChoice::ByAgent);
    }
    for s in ["3", "book by staff delegate", "staff"] {
        assert_eq!(booking_choice(s), BookingChoice::ByStaffDelegate);
    }
    for s in ["4", "view all bookings", "ADMIN"] {
        assert_eq!(booking_choice(s), BookingChoice::ViewAll);
    }
    for s in ["5", "exit"] {
        assert_eq!(booking_choice(s), BookingChoice::Exit);
    }
    for s in ["6", "update booking", "Update"] {
        assert_eq!(booking_choice(s), BookingChoice::Update);
    }
    for s in ["7", "cancel booking", "CANCEL"] {
        assert_eq!(booking_choice(s), BookingChoice::Cancel);
    }
    assert_eq!(booking_choice("quit"), BookingChoice::Invalid);
}

#[test]
fn flight_menu() {
    for s in ["1", "add new flight", "add", "flight"] {
        assert_eq!(flight_choice(s), FlightChoice::Add);
    }
    for s in ["2", "edit flight", "edit"] {
        assert_eq!(flight_choice(s), FlightChoice::Edit);
    }
    for s in ["3", "cancel flight", "cancel"] {
        assert_eq!(flight_choice(s), FlightChoice::Cancel);
    }
    for s in ["4", "manage flight crew", "manage crew", "crew"] {
        assert_eq!(flight_choice(s), FlightChoice::ManageCrew);
    }
    for s in ["5", "list flights", "list"] {
        assert_eq!(flight_choice(s), FlightChoice::List);
    }
    for s in ["6", "exit", "Quit"] {
        assert_eq!(flight_choice(s), FlightChoice::Exit);
    }
    assert_eq!(flight_choice("list all flights"), FlightChoice::Invalid);
}

#[test]
fn staff_menu() {
    for s in ["1", "add new staff", "new staff", "add", "staff"] {
        assert_eq!(staff_choice(s), StaffChoice::Add);
    }
    for s in ["2", "update", "update staff"] {
        assert_eq!(staff_choice(s), StaffChoice::Update);
    }
    for s in ["3", "delete", "delete staff"] {
        assert_eq!(staff_choice(s), StaffChoice::Delete);
    }
    for s in ["4", "exit", "log out", "QUIT"] {
        assert_eq!(staff_choice(s), StaffChoice::Exit);
    }
    assert_eq!(staff_choice("logout"), StaffChoice::Invalid);
}

#[test]
fn analytics_menu() {
    for s in ["1", "view booking statistics", "booking"] {
        assert_eq!(analytics_choice(s), AnalyticsChoice::BookingStatistics);
    }
    for s in ["2", "view staff performance", "staff"] {
        assert_eq!(analytics_choice(s), AnalyticsChoice::StaffPerformance);
    }
    for s in ["3", "exit"] {
        assert_eq!(analytics_choice(s), AnalyticsChoice::Exit);
    }
    assert_eq!(analytics_choice("quit"), AnalyticsChoice::Invalid);
}

#[test]
fn normalized_parsers_do_not_normalize() {
    assert_eq!(role_choice_normalized("Admin"), RoleChoice::Invalid);
    assert_eq!(role_choice_normalized("admin"), RoleChoice::Admin);
    assert_eq!(management_choice_normalized(" 1"), ManagementChoice::Invalid);
    assert_eq!(booking_choice_normalized("agent"), BookingChoice::ByAgent);
    assert_eq!(flight_choice_normalized("CREW"), FlightChoice::Invalid);
    assert_eq!(staff_choice_normalized("log out"), StaffChoice::Exit);
    assert_eq!(analytics_choice_normalized("staff"), AnalyticsChoice::StaffPerformance);
}

#[test]
fn confirmation_requires_yes() {
    assert!(is_confirmed("yes"));
    assert!(is_confirmed("YES"));
    assert!(is_confirmed("Yes"));
    assert!(!is_confirmed("y"));
    assert!(!is_confirmed("no"));
    assert!(!is_confirmed(" yes"));
    assert!(!is_confirmed(""));
}
