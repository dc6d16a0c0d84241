use wx_rs::{get_event_string, Modifiers};

fn text(code: u32, modifiers: Modifiers, shift: bool) -> Option<String> {
    get_event_string(code, modifiers, shift)
}

#[test]
fn shifted_symbols_map_to_their_symbols() {
    let table: [(u32, &str); 20] = [
        (44, "<"),
        (45, "_"),
        (46, ">"),
        (47, "?"),
        (48, ")"),
        (49, "!"),
        (50, "@"),
        (51, "#"),
        (52, "$"),
        (53, "%"),
        (54, "^"),
        (55, "&"),
        (56, "*"),
        (57, "("),
        (59, ":"),
        (61, "+"),
        (91, "{"),
        (92, "|"),
        (93, "}"),
        (96, "~"),
    ];
    for (code, symbol) in table {
        assert_eq!(text(code, Modifiers::shift(), true), Some(symbol.to_string()));
        assert_eq!(text(code, Modifiers::none(), true), Some(symbol.to_string()));
    }
}

#[test]
fn shifted_symbols_follow_the_unshifted_keys() {
    let unshifted = ",-./0123456789;=[\\]`";
    let shifted = "<_>?)!@#$%^&*(:+{|}~";
    for (plain, symbol) in unshifted.chars().zip(shifted.chars()) {
        assert_eq!(text(plain as u32, Modifiers::shift(), true), Some(symbol.to_string()));
    }
}

#[test]
fn shift_keeps_keys_outside_the_table() {
    assert_eq!(text(65, Modifiers::shift(), true), Some("A".to_string()));
    assert_eq!(text(97, Modifiers::shift(), true), Some("a".to_string()));
    assert_eq!(text(58, Modifiers::shift(), true), Some(":".to_string()));
    assert_eq!(text(60, Modifiers::shift(), true), Some("<".to_string()));
    assert_eq!(text(32, Modifiers::shift(), true), Some(" ".to_string()));
    assert_eq!(text(0xC9, Modifiers::shift(), true), Some("\u{c9}".to_string()));
}

#[test]
fn unshifted_letters_are_lower_case() {
    for code in 65u32..=90 {
        let lower = char::from_u32(code + 32).unwrap().to_string();
        assert_eq!(text(code, Modifiers::none(), false), Some(lower.clone()));
        assert_eq!(text(code + 32, Modifiers::none(), false), Some(lower));
    }
}

#[test]
fn unshifted_keys_that_are_no_letters_stay() {
    assert_eq!(text(49, Modifiers::none(), false), Some("1".to_string()));
    assert_eq!(text(44, Modifiers::none(), false), Some(",".to_string()));
    assert_eq!(text(96, Modifiers::none(), false), Some("`".to_string()));
    assert_eq!(text(32, Modifiers::none(), false), Some(" ".to_string()));
}

#[test]
fn unshifted_letters_beyond_ascii_are_lower_case() {
    assert_eq!(text(0xC9, Modifiers::none(), false), Some("\u{e9}".to_string()));
    assert_eq!(text(0x416, Modifiers::none(), false), Some("\u{436}".to_string()));
    assert_eq!(text(0x130, Modifiers::none(), false), Some("i\u{307}".to_string()));
}

#[test]
fn shift_flag_without_shift_down_takes_the_lower_case_path() {
    assert_eq!(text(65, Modifiers::shift(), false), Some("a".to_string()));
    assert_eq!(text(49, Modifiers::shift(), false), Some("1".to_string()));
}

#[test]
fn control_codes_give_nothing() {
    let all = [
        Modifiers::none(),
        Modifiers::shift(),
        Modifiers::control(),
        Modifiers::alt(),
        Modifiers::meta(),
        Modifiers::new(0xf),
    ];
    for code in [0u32, 8, 9, 13, 27, 127] {
        for modifiers in all {
            assert_eq!(text(code, modifiers, false), None);
            assert_eq!(text(code, modifiers, true), None);
        }
    }
}

#[test]
fn a_modifier_other_than_shift_gives_nothing() {
    assert_eq!(text(97, Modifiers::control(), false), None);
    assert_eq!(text(97, Modifiers::alt(), false), None);
    assert_eq!(text(97, Modifiers::meta(), false), None);
    assert_eq!(text(97, Modifiers::control() | Modifiers::shift(), true), None);
    assert_eq!(text(49, Modifiers::alt() | Modifiers::shift(), true), None);
    assert_eq!(text(97, Modifiers::new(16), false), None);
    assert_eq!(text(97, Modifiers::shift(), true), Some("a".to_string()));
    assert_eq!(text(97, Modifiers::none(), false), Some("a".to_string()));
}

#[test]
fn a_code_that_is_no_character_gives_nothing() {
    assert_eq!(text(0xD800, Modifiers::none(), false), None);
    assert_eq!(text(0xDFFF, Modifiers::none(), true), None);
    assert_eq!(text(0x110000, Modifiers::none(), false), None);
    assert_eq!(text(u32::MAX, Modifiers::shift(), true), None);
    assert_eq!(text(0x10FFFF, Modifiers::none(), true), Some("\u{10ffff}".to_string()));
    assert_eq!(text(0xD7FF, Modifiers::none(), true), Some("\u{d7ff}".to_string()));
}

#[test]
fn modifiers_keep_their_bits() {
    assert_eq!(Modifiers::new(0).bits(), 0);
    assert_eq!(Modifiers::new(5).bits(), 5);
    assert_eq!(Modifiers::new(0xffff_ffff).bits(), 0xffff_ffff);
    assert_eq!(Modifiers::none().bits(), 0b0000);
    assert_eq!(Modifiers::alt().bits(), 0b0001);
    assert_eq!(Modifiers::control().bits(), 0b0010);
    assert_eq!(Modifiers::shift().bits(), 0b0100);
    assert_eq!(Modifiers::meta().bits(), 0b1000);
}

#[test]
fn modifiers_combine_and_subtract() {
    let both = Modifiers::control() | Modifiers::shift();
    assert_eq!(both, Modifiers::new(6));
    assert_eq!(both.union(Modifiers::alt()), Modifiers::new(7));
    assert_eq!(both - Modifiers::shift(), Modifiers::control());
    assert_eq!(both.difference(Modifiers::control()), Modifiers::shift());
    assert_eq!(Modifiers::shift() - Modifiers::shift(), Modifiers::none());
    assert_eq!(Modifiers::none() - Modifiers::shift(), Modifiers::none());
    assert_eq!(Modifiers::alt() - Modifiers::shift(), Modifiers::alt());
    assert!(both.contains(Modifiers::shift()));
    assert!(both.contains(Modifiers::none()));
    assert!(!both.contains(Modifiers::alt()));
    assert!(!both.contains(Modifiers::new(7)));
    assert!(Modifiers::none().is_empty());
    assert!(Modifiers::new(0).is_empty());
    assert!(!Modifiers::meta().is_empty());
    assert_ne!(Modifiers::alt(), Modifiers::control());
}
