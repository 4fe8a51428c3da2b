use shopping_list::{
    add_item, buy_item, decimal_text, is_all_bought, is_blank, parse_number, parse_position,
    remove_item, same_text, seed_list, tokenize, Action, ListItem, Notice,
};

#[test]
fn a_line_splits_at_white_space() {
    assert_eq!(tokenize("add Bread 2"), vec!["add", "Bread", "2"]);
    assert_eq!(tokenize("list"), vec!["list"]);
    assert_eq!(tokenize("exit now\n"), vec!["exit", "now"]);
}

#[test]
fn white_space_at_the_ends_and_in_runs_makes_no_word() {
    assert_eq!(tokenize("  add \t Bread\r\n   2  \n"), vec!["add", "Bread", "2"]);
    assert_eq!(tokenize("\tbuy\u{b}0\u{c}"), vec!["buy", "0"]);
}

#[test]
fn a_line_of_white_space_has_no_words() {
    assert_eq!(tokenize(""), Vec::<&str>::new());
    assert_eq!(tokenize(" "), Vec::<&str>::new());
    assert_eq!(tokenize(" \t\r\n\u{a0}\u{3000}"), Vec::<&str>::new());
}

#[test]
fn white_space_beyond_ascii_splits_too() {
    assert_eq!(
        tokenize("a\u{85}b\u{a0}c\u{1680}d\u{2000}e\u{200a}f"),
        vec!["a", "b", "c", "d", "e", "f"]
    );
    assert_eq!(
        tokenize("f\u{2028}g\u{2029}h\u{202f}i\u{205f}j\u{3000}k"),
        vec!["f", "g", "h", "i", "j", "k"]
    );
}

#[test]
fn characters_that_only_look_blank_do_not_split() {
    assert_eq!(tokenize("a\u{200b}b"), vec!["a\u{200b}b"]);
    assert_eq!(tokenize("a\u{feff}b\u{180e}c"), vec!["a\u{feff}b\u{180e}c"]);
    assert_eq!(tokenize("Cr\u{e8}me fra\u{ee}che"), vec!["Cr\u{e8}me", "fra\u{ee}che"]);
}

#[test]
fn tokenize_splits_as_the_standard_library_does() {
    let lines =
        ["", "add  Bread 2", " x\u{2003}y ", "\u{1f600} z\n", "a\u{0}b c", "\u{1c}\u{1f} q"];
    for line in lines {
        let expected: Vec<&str> = line.split_whitespace().collect();
        assert_eq!(tokenize(line), expected, "line {line:?}");
    }
}

#[test]
fn is_blank_agrees_with_the_standard_library_on_every_character() {
    let mut blanks = 0;
    for code in 0..=0x10ffffu32 {
        if let Some(c) = char::from_u32(code) {
            assert_eq!(is_blank(c), c.is_whitespace(), "U+{code:04X}");
            if is_blank(c) {
                blanks += 1;
            }
        }
    }
    assert_eq!(blanks, 25);
}

#[test]
fn same_text_compares_character_by_character() {
    assert!(same_text("add", "add"));
    assert!(same_text("", ""));
    assert!(!same_text("add", "Add"));
    assert!(!same_text("add", "ad"));
    assert!(!same_text("ad", "add"));
    assert!(!same_text("", " "));
    assert!(same_text("fra\u{ee}che", "fra\u{ee}che"));
    assert!(!same_text("fra\u{ee}che", "fraiche"));
}

#[test]
fn a_numeral_within_the_limit_is_read() {
    assert_eq!(parse_number("0", 0), Some(0));
    assert_eq!(parse_number("7", 9), Some(7));
    assert_eq!(parse_number("65535", 65535), Some(65535));
    assert_eq!(parse_number("+42", 100), Some(42));
    assert_eq!(parse_number("+0", 0), Some(0));
    assert_eq!(parse_number("000123", 123), Some(123));
    assert_eq!(parse_number("18446744073709551615", u64::MAX), Some(u64::MAX));
}

#[test]
fn a_numeral_above_the_limit_is_not_read() {
    assert_eq!(parse_number("1", 0), None);
    assert_eq!(parse_number("65536", 65535), None);
    assert_eq!(parse_number("18446744073709551616", u64::MAX), None);
    assert_eq!(parse_number("99999999999999999999999999999999999999999999", u64::MAX), None);
    assert_eq!(parse_number("100", 99), None);
}

#[test]
fn what_is_no_numeral_is_not_read() {
    let tokens = [
        "", "+", "-", "-1", "+-1", "++1", "1+", "a", "1a", "a1", " 1", "1 ", "1_000", "1,0",
        "0.5", "٣", "²",
    ];
    for token in tokens {
        assert_eq!(parse_number(token, u64::MAX), None, "token {token:?}");
    }
}

#[test]
fn parse_number_reads_what_the_standard_library_reads() {
    let tokens = [
        "0", "+0", "-0", "12", "012", "+12", "65535", "65536", "", "+", "x", "1x", "4294967295",
        "٣",
    ];
    for token in tokens {
        assert_eq!(
            parse_number(token, 65535),
            token.parse::<u16>().ok().map(u64::from),
            "token {token:?}"
        );
    }
}

#[test]
fn a_position_must_lie_in_the_list() {
    assert_eq!(parse_position("0", 3), Some(0));
    assert_eq!(parse_position("2", 3), Some(2));
    assert_eq!(parse_position("+2", 3), Some(2));
    assert_eq!(parse_position("3", 3), None);
    assert_eq!(parse_position("0", 0), None);
    assert_eq!(parse_position("-1", 3), None);
    assert_eq!(parse_position("two", 3), None);
    assert_eq!(parse_position("18446744073709551616", usize::MAX), None);
}

#[test]
fn numbers_are_written_in_decimal() {
    assert_eq!(decimal_text(0), "0");
    assert_eq!(decimal_text(9), "9");
    assert_eq!(decimal_text(10), "10");
    assert_eq!(decimal_text(65535), "65535");
    assert_eq!(decimal_text(1_000_000), "1000000");
    assert_eq!(decimal_text(u64::MAX), "18446744073709551615");
}

#[test]
fn what_is_written_is_read_back() {
    for n in [0u64, 1, 9, 10, 11, 99, 100, 101, 65535, 65536, u64::MAX - 1, u64::MAX] {
        assert_eq!(parse_number(&decimal_text(n), u64::MAX), Some(n));
        assert_eq!(decimal_text(n), n.to_string());
    }
}

#[test]
fn all_bought_holds_of_the_empty_list() {
    assert!(is_all_bought(&Vec::new()));
    assert!(!is_all_bought(&seed_list()));
    assert!(is_all_bought(&vec![ListItem { name: "Milk".to_string(), count: 1, bought: true }]));
}

#[test]
fn a_new_entry_is_not_bought() {
    assert_eq!(
        ListItem::new("Milk", 3),
        ListItem { name: "Milk".to_string(), count: 3, bought: false }
    );
}

#[test]
fn the_three_changes_can_be_called_by_themselves() {
    let mut list = Vec::new();
    assert_eq!(add_item(&mut list, "Milk", "3").notice, None);
    assert_eq!(add_item(&mut list, "Eggs", "many").notice, Some(Notice::InvalidInput));
    assert_eq!(add_item(&mut list, "Eggs", "6").action, Action::Show);
    assert_eq!(list.len(), 2);

    assert_eq!(buy_item(&mut list, "2").notice, Some(Notice::InvalidIndex));
    assert_eq!(buy_item(&mut list, "1").action, Action::Show);
    assert!(list[1].bought && !list[0].bought);

    assert_eq!(remove_item(&mut list, "0").notice, None);
    assert_eq!(list, vec![ListItem { name: "Eggs".to_string(), count: 6, bought: true }]);
    assert_eq!(buy_item(&mut list, "0").action, Action::Finish);
    assert_eq!(remove_item(&mut list, "0").notice, None);
    assert_eq!(remove_item(&mut list, "0").notice, Some(Notice::NothingToRemove));
}
