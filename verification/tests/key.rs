use phosphor_core::input::key::{parse, parse_seq, Code, Key, Mods, Named, Protocol};

#[test]
fn notation_round_trips() {
    for key in [
        Key::char('q'),
        Key::char(']'),
        Key::char(' '),
        Key::char('A'),
        Key::new(Code::Char('c'), Mods::ctrl_bit()),
        Key::new(Code::Char('k'), Mods::ctrl_bit().with(Mods::shift_bit())),
        Key::named(Named::Esc),
        Key::named(Named::Enter),
        Key::named(Named::Function(5)),
        Key::new(Code::Named(Named::Left), Mods::alt_bit()),
    ] {
        let spelled = key.notation();
        assert_eq!(parse(&spelled), Some(key), "{spelled}");
    }
}

#[test]
fn the_spellings_the_editor_layer_already_uses() {
    assert_eq!(parse(":"), Some(Key::char(':')));
    assert_eq!(parse("<C-c>"), Some(Key::new(Code::Char('c'), Mods::ctrl_bit())));
    assert_eq!(parse("<esc>"), Some(Key::named(Named::Esc)));
    assert_eq!(parse("<space>"), Some(Key::char(' ')));
    assert_eq!(Key::char(' ').notation(), "<space>");
}

#[test]
fn a_sequence_is_read_the_way_a_keymap_is_written() {
    assert_eq!(parse_seq("]u"), Some(vec![Key::char(']'), Key::char('u')]));
    assert_eq!(parse_seq("SPC f"), Some(vec![Key::char(' '), Key::char('f')]));
    assert_eq!(parse_seq("<space>f"), Some(vec![Key::char(' '), Key::char('f')]));
    assert_eq!(
        parse_seq("<C-w>v"),
        Some(vec![Key::new(Code::Char('w'), Mods::ctrl_bit()), Key::char('v')])
    );
    assert_eq!(parse_seq("<C-w"), None);
    assert_eq!(parse_seq("<nope>"), None);
}

#[test]
fn shift_is_part_of_the_character_and_a_modifier_everywhere_else() {
    assert_eq!(Key::new(Code::Char('A'), Mods::shift_bit()), Key::char('A'));
    assert_ne!(
        Key::new(Code::Char('k'), Mods::ctrl_bit().with(Mods::shift_bit())),
        Key::new(Code::Char('k'), Mods::ctrl_bit())
    );
    assert_eq!(Key::new(Code::Named(Named::Tab), Mods::shift_bit()).notation(), "<S-tab>");
}

#[test]
fn the_two_encodings_of_a_shifted_chord_are_one_key() {
    let reported_as_alternate = Key::new(Code::Char('K'), Mods::ctrl_bit());
    let reported_as_modifier = Key::new(Code::Char('k'), Mods::ctrl_bit().with(Mods::shift_bit()));
    assert_eq!(reported_as_alternate, reported_as_modifier);
    assert_eq!(reported_as_alternate.notation(), "<C-S-k>");
    assert_ne!(
        reported_as_alternate,
        Key::new(Code::Char('k'), Mods::ctrl_bit()),
        "ctrl+shift+k must stay distinguishable from ctrl+k"
    );
    assert_eq!(parse("<C-S-k>"), Some(reported_as_alternate));
    assert_eq!(parse("<C-K>"), Some(reported_as_alternate));
}

#[test]
fn folding_stops_where_the_character_carries_the_shift() {
    assert_eq!(Key::new(Code::Char('A'), Mods::shift_bit()), Key::char('A'));
    assert_eq!(Key::char('A').notation(), "A");
    assert_eq!(
        Key::new(Code::Char('K'), Mods::alt_bit()).notation(),
        "<A-S-k>",
        "a capital under alt is shift too"
    );
    assert_eq!(
        Key::new(Code::Char('!'), Mods::ctrl_bit()).notation(),
        "<C-!>",
        "punctuation keeps the glyph — vim's rule"
    );
    assert_eq!(Key::new(Code::Char('Ä'), Mods::ctrl_bit()).notation(), "<C-Ä>");
    assert_eq!(Key::new(Code::Named(Named::Tab), Mods::shift_bit()).notation(), "<S-tab>");
}

#[test]
fn shifted_is_the_question_a_legacy_terminal_makes_the_machine_ask() {
    assert_eq!(
        Key::new(Code::Char('k'), Mods::ctrl_bit()).shifted(),
        parse("<C-S-k>").expect("a spelling this test wrote")
    );
    let chord = Key::new(Code::Char('k'), Mods::ctrl_bit()).shifted();
    assert_eq!(chord.shifted(), chord);
    assert_eq!(Key::char('a').shifted(), Key::char('a'));
}

#[test]
fn the_unconfigured_protocol_assumes_nothing_is_lost() {
    assert_eq!(Protocol::default(), Protocol::Kitty);
}

#[test]
fn only_a_key_that_types_something_types_something() {
    assert_eq!(Key::char('a').typed(), Some('a'));
    assert_eq!(Key::char(' ').typed(), Some(' '));
    assert_eq!(Key::new(Code::Char('a'), Mods::ctrl_bit()).typed(), None);
    assert_eq!(Key::named(Named::Enter).typed(), None);
}

#[test]
fn a_named_key_round_trips_through_its_word() {
    for named in [Named::Esc, Named::Enter, Named::Tab, Named::Left] {
        let word = named.word().expect("every key here has a word");
        assert_eq!(Named::from_word(word), Some(named));
    }
    assert_eq!(Named::Function(12).word(), None);
    assert_eq!(Named::from_word("f12"), Some(Named::Function(12)));
    assert_eq!(Named::from_word("nope"), None);
}

#[test]
fn function_keys_are_f1_to_f12_and_escape_is_an_alias() {
    for k in 1..=12u8 {
        assert_eq!(Named::from_word(&format!("f{k}")), Some(Named::Function(k)));
    }
    assert_eq!(Named::from_word("f0"), None);
    assert_eq!(Named::from_word("f13"), None);
    assert_eq!(Named::from_word("escape"), Some(Named::Esc));
    for named in [
        Named::Esc, Named::Enter, Named::Tab, Named::Backspace, Named::Delete, Named::Insert, Named::Left,
        Named::Right, Named::Up, Named::Down, Named::Home, Named::End, Named::PageUp, Named::PageDown,
    ] {
        let word = named.word().expect("every key but a function key has a word");
        assert_eq!(Named::from_word(word), Some(named));
    }
    assert_eq!(Key::char('a').shifted(), Key::char('a'));
}
