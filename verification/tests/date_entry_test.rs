use mortgage_core::date_entry::{backspace_date, filter_date_input, push_date_digit};

fn typed(start: &str, keys: &str) -> String {
    let mut field = start.to_string();
    for c in keys.chars() {
        push_date_digit(&mut field, c);
    }
    field
}

#[test]
fn typing_a_full_date() {
    assert_eq!(typed("", "15032025"), "15-03-2025");
    assert_eq!(typed("", "150320251"), "15-03-2025");
}

#[test]
fn typing_pads_and_rejects() {
    assert_eq!(typed("", "7"), "07");
    assert_eq!(typed("", "3"), "3");
    assert_eq!(typed("3", "5"), "3");
    assert_eq!(typed("", "x"), "");
    assert_eq!(typed("12-", "5"), "12-05");
    assert_eq!(typed("12-", "1"), "12-1");
    assert_eq!(typed("12-1", "3"), "12-1");
    assert_eq!(typed("12-1", "2"), "12-12-");
}

#[test]
fn backspace_deletes_one_character() {
    let run = |s: &str| {
        let mut f = s.to_string();
        backspace_date(&mut f);
        f
    };
    assert_eq!(run("01-01-2025"), "01-01-202");
    assert_eq!(run("15-03-2025"), "15-03-202");
    assert_eq!(run("15-03-2"), "15-03");
    assert_eq!(run("15-03-"), "15-03");
    assert_eq!(run("15-03"), "15-0");
    assert_eq!(run("05-1"), "05");
    assert_eq!(run("05-"), "05");
    assert_eq!(run("1"), "");
    assert_eq!(run(""), "");
}

#[test]
fn reformatting_typed_dates() {
    assert_eq!(filter_date_input("15032025"), "15-03-2025");
    assert_eq!(filter_date_input("15-03-2025"), "15-03-2025");
    assert_eq!(filter_date_input("5"), "05");
    assert_eq!(filter_date_input("4"), "04");
    assert_eq!(filter_date_input("3"), "3");
    assert_eq!(filter_date_input("35"), "05-");
    assert_eq!(filter_date_input("1522"), "15-022-");
    assert_eq!(filter_date_input("abc"), "");
    assert_eq!(filter_date_input(""), "");
    assert_eq!(filter_date_input("1503202599"), "15-03-2025");
    assert_eq!(filter_date_input("3102"), "31-02-");
    assert_eq!(filter_date_input("a1b2c3d4e5f6g7h8"), "12-034-567");
    assert_eq!(filter_date_input("99999999"), "09-099-999");
}

#[test]
fn reformatted_dates_are_short_and_plain() {
    for raw in ["", "1", "99999999999999", "31-12-20251231", "x9y8z7w6v5u4t3"] {
        let out = filter_date_input(raw);
        assert!(out.chars().count() <= 10);
        assert!(out.chars().all(|c| c.is_ascii_digit() || c == '-'));
    }
}
