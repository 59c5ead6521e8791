use aid_distributor::modules::utils::{chars_of, current_timestamp, escape_id_part, generate_voucher_id};

#[test]
fn voucher_identity_joins_zone_beneficiary_and_timestamp() {
    assert_eq!(generate_voucher_id("Z1", "B1", "1700000000"), "Z1_B1_1700000000");
    assert_eq!(generate_voucher_id("", "", ""), "__");
    assert_eq!(generate_voucher_id("zone \u{e9}", "b\u{1f600}", "t"), "zone \u{e9}_b\u{1f600}_t");
    assert_eq!(generate_voucher_id("north-1", "ben.7", "genesis"), "north-1_ben.7_genesis");
}

#[test]
fn voucher_identity_escapes_underscore_and_backslash_in_zone_and_beneficiary() {
    assert_eq!(generate_voucher_id("a_b", "c", "1"), "a\\_b_c_1");
    assert_eq!(generate_voucher_id("a", "b_c", "1"), "a_b\\_c_1");
    assert_eq!(generate_voucher_id("a\\", "b", "1"), "a\\\\_b_1");
    assert_eq!(generate_voucher_id("a", "\\_", "1"), "a_\\\\\\__1");
    assert_eq!(generate_voucher_id("_", "_", "_"), "\\__\\___");
    assert_eq!(generate_voucher_id("a", "b", "1_2\\3"), "a_b_1_2\\3");
}

#[test]
fn escaped_part() {
    assert_eq!(escape_id_part(""), "");
    assert_eq!(escape_id_part("plain"), "plain");
    assert_eq!(escape_id_part("_"), "\\_");
    assert_eq!(escape_id_part("\\"), "\\\\");
    assert_eq!(escape_id_part("_a_"), "\\_a\\_");
    assert_eq!(escape_id_part("a__b"), "a\\_\\_b");
    assert_eq!(escape_id_part("\u{e9}_\u{1f600}\\z"), "\u{e9}\\_\u{1f600}\\\\z");
}

#[test]
fn voucher_identities_meet_only_where_all_three_parts_do() {
    let parts = ["", "a", "_", "\\", "a_", "_a", "a_b", "a\\", "\\_", "\\\\", "__", "b", "a\\_b"];
    let mut seen: Vec<(String, (usize, usize, usize))> = Vec::new();
    for (i, zone) in parts.iter().enumerate() {
        for (j, beneficiary) in parts.iter().enumerate() {
            for (k, timestamp) in parts.iter().enumerate() {
                let id = generate_voucher_id(zone, beneficiary, timestamp);
                for (other, triple) in seen.iter() {
                    assert!(*other != id, "{:?} and {:?} meet in {:?}", triple, (i, j, k), id);
                }
                seen.push((id, (i, j, k)));
            }
        }
    }
    assert_eq!(seen.len(), parts.len() * parts.len() * parts.len());
}

#[test]
fn voucher_identity_differs_with_the_timestamp() {
    assert_ne!(generate_voucher_id("Z1", "B1", "100"), generate_voucher_id("Z1", "B1", "101"));
    assert_eq!(generate_voucher_id("Z1", "B1", "100"), generate_voucher_id("Z1", "B1", "100"));
}

#[test]
fn timestamp_reads_decimal_text() {
    assert_eq!(current_timestamp("1700000000"), 1_700_000_000);
    assert_eq!(current_timestamp("0"), 0);
    assert_eq!(current_timestamp("7"), 7);
    assert_eq!(current_timestamp("0012"), 12);
    assert_eq!(current_timestamp("+5"), 5);
    assert_eq!(current_timestamp("18446744073709551615"), u64::MAX);
    assert_eq!(current_timestamp("000018446744073709551615"), u64::MAX);
}

#[test]
fn timestamp_that_is_no_u64_reads_as_zero() {
    for text in ["", "+", "-", "-1", "+-1", "++1", "1+", "abc", "12a", " 12", "12 ", "1_000", "1.5", "0x10",
        "18446744073709551616", "18446744073709551620", "99999999999999999999", "184467440737095516150",
        "\u{661}\u{662}", "\u{ff11}"] {
        assert_eq!(current_timestamp(text), 0, "{:?}", text);
    }
}

#[test]
fn timestamp_reads_as_parse_or_zero() {
    let pieces = ["", "+", "-", "0", "1", "9", "18446744073709551615", "18446744073709551616", "a", " ", "/", ":", "00"];
    for a in pieces {
        for b in pieces {
            let text = format!("{}{}", a, b);
            assert_eq!(current_timestamp(&text), text.parse::<u64>().unwrap_or(0), "{:?}", text);
        }
    }
}

#[test]
fn chars_of_gives_each_character() {
    assert_eq!(chars_of(""), Vec::<char>::new());
    assert_eq!(chars_of("a\u{e9}\u{1f600}z"), vec!['a', '\u{e9}', '\u{1f600}', 'z']);
}
