use airlinepro::tickets::{decimal_text, make_ticket_number, ticket_number};

#[test]
fn ticket_number_examples() {
    assert_eq!(ticket_number(0), "TICKET-0");
    assert_eq!(ticket_number(7), "TICKET-7");
    assert_eq!(ticket_number(10), "TICKET-10");
    assert_eq!(ticket_number(1234567), "TICKET-1234567");
    assert_eq!(ticket_number(u32::MAX), "TICKET-4294967295");
}

#[test]
fn decimal_text_matches_to_string() {
    for n in [0u32, 1, 9, 10, 99, 100, 65535, 1_000_000_007, u32::MAX] {
        assert_eq!(decimal_text(n), n.to_string());
    }
}

#[test]
fn distinct_draws_give_distinct_tickets() {
    assert_ne!(ticket_number(12), ticket_number(120));
    assert_ne!(ticket_number(1), ticket_number(11));
}

#[test]
fn issued_ticket_has_the_ticket_shape() {
    let t = make_ticket_number().unwrap();
    let digits = t.strip_prefix("TICKET-").expect("prefix");
    let n: u32 = digits.parse().expect("a u32 in decimal");
    assert_eq!(n.to_string(), digits);
}
