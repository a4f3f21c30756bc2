use ripasso_cursive::date::{format_date, UpdateDate};
use ripasso_cursive::label::{
    create_label, new_entry_row, recipient_label, recipient_labels, result_labels, PasswordEntry, Recipient,
};

fn chrono_text(year: i32, month: u32, day: u32) -> String {
    chrono::NaiveDate::from_ymd_opt(year, month, day)
        .unwrap()
        .format("%Y-%m-%d")
        .to_string()
}

fn date(year: i32, month: u32, day: u32) -> UpdateDate {
    UpdateDate { year, month, day }
}

#[test]
fn date_is_written_year_month_day() {
    assert_eq!(format_date(&date(2019, 3, 7)), "2019-03-07");
    assert_eq!(format_date(&date(2024, 12, 31)), "2024-12-31");
}

#[test]
fn date_matches_chrono_on_every_kind_of_year() {
    let cases = [
        (2019, 3, 7),
        (1, 1, 1),
        (0, 2, 29),
        (5, 10, 10),
        (999, 6, 15),
        (9999, 12, 31),
        (10000, 1, 1),
        (123456, 7, 8),
        (-1, 1, 1),
        (-45, 11, 30),
        (-12345, 5, 5),
    ];
    for (y, m, d) in cases.iter() {
        assert_eq!(format_date(&date(*y, *m, *d)), chrono_text(*y, *m, *d), "year {}", y);
    }
}

#[test]
fn date_of_a_four_digit_year_has_ten_characters() {
    for y in [0, 7, 42, 815, 2000, 9999].iter() {
        assert_eq!(format_date(&date(*y, 1, 2)).chars().count(), 10);
    }
}

fn entry(name: &str, updated: Option<UpdateDate>) -> PasswordEntry {
    PasswordEntry { name: name.to_string(), updated }
}

#[test]
fn label_pads_the_name_to_the_column() {
    let e = entry("mail/work", Some(date(2019, 3, 7)));
    let label = create_label(&e, 80);
    let expected = format!("{:2$}  {}", "mail/work", "2019-03-07", 80 - 10 - 8);
    assert_eq!(label, expected);
    assert_eq!(label.chars().count(), 62 + 2 + 10);
    assert!(label.starts_with("mail/work     "));
    assert!(label.ends_with("  2019-03-07"));
}

#[test]
fn label_without_date_says_not_available() {
    let e = entry("bank", None);
    assert_eq!(create_label(&e, 30), format!("{:12}  n/a", "bank"));
    assert_eq!(create_label(&e, 30), "bank          n/a");
}

#[test]
fn label_keeps_a_long_name_whole() {
    let name = "a/very/long/path/to/some/password/file";
    let e = entry(name, None);
    assert_eq!(create_label(&e, 20), format!("{}  n/a", name));
}

#[test]
fn label_on_the_narrowest_screen() {
    let e = entry("x", Some(date(2001, 1, 9)));
    assert_eq!(create_label(&e, 18), "x  2001-01-09");
    let empty = entry("", None);
    assert_eq!(create_label(&empty, 18), "  n/a");
}

#[test]
fn label_counts_characters_not_bytes() {
    let e = entry("pässwörd", None);
    let label = create_label(&e, 30);
    assert_eq!(label, format!("{:12}  n/a", "pässwörd"));
    assert_eq!(label.chars().count(), 12 + 2 + 3);
}

#[test]
fn labels_of_short_names_align_their_dates() {
    let a = create_label(&entry("a", Some(date(2020, 2, 2))), 40);
    let b = create_label(&entry("longer/name", Some(date(1999, 12, 1))), 40);
    let ca: Vec<char> = a.chars().collect();
    let cb: Vec<char> = b.chars().collect();
    assert_eq!(ca[24..].iter().collect::<String>(), "2020-02-02");
    assert_eq!(cb[24..].iter().collect::<String>(), "1999-12-01");
}

#[test]
fn result_labels_follow_the_entries() {
    let entries = vec![
        entry("one", None),
        entry("two", Some(date(2010, 10, 10))),
        entry("three", None),
    ];
    let labels = result_labels(&entries, 24);
    assert_eq!(labels.len(), 3);
    for (e, l) in entries.iter().zip(labels.iter()) {
        assert_eq!(*l, create_label(e, 24));
    }
    assert_eq!(labels[1], "two     2010-10-10");
    assert!(result_labels(&Vec::new(), 80).is_empty());
}

#[test]
fn no_rows_on_a_narrow_screen() {
    assert!(result_labels(&Vec::new(), 0).is_empty());
    assert!(result_labels(&Vec::new(), 17).is_empty());
}

#[test]
fn recipient_label_is_key_then_name() {
    assert_eq!(recipient_label("7E068070D5EF794B", "Alexander Kjäll"), "7E068070D5EF794B Alexander Kjäll");
    assert_eq!(recipient_label("", ""), " ");
}

#[test]
fn stored_password_is_listed_when_read_back() {
    let e = entry("mail/work", Some(date(2019, 3, 7)));
    let row = new_entry_row::<&str>(Ok(e.clone()), 40);
    assert_eq!(row, Some(create_label(&e, 40)));
    assert_eq!(row.unwrap(), "mail/work               2019-03-07");
}

#[test]
fn stored_password_that_cannot_be_read_back_is_not_listed() {
    assert_eq!(new_entry_row::<&str>(Err("unreadable"), 40), None);
    assert_eq!(new_entry_row::<&str>(Err("unreadable"), 3), None);
}

#[test]
fn recipient_rows_follow_the_recipients() {
    let people = vec![
        Recipient { key_id: "AAAA".to_string(), name: "Ann".to_string() },
        Recipient { key_id: "BBBB".to_string(), name: "Bo Bø".to_string() },
    ];
    let rows = recipient_labels(&people);
    assert_eq!(rows, vec!["AAAA Ann", "BBBB Bo Bø"]);
    for (p, r) in people.iter().zip(rows.iter()) {
        assert_eq!(*r, recipient_label(&p.key_id, &p.name));
    }
    assert!(recipient_labels(&Vec::new()).is_empty());
}
