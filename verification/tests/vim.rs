use phosphor_core::input::key::parse_seq;
use phosphor_core::input::table::{Keymap, Resolution, Scope};
use phosphor_core::input::vim::table;

#[test]
fn the_seed_binds_what_cp3_asks_for() {
    let mut table = table();
    for (scope, keys) in [
        (Scope::Normal, "d"),
        (Scope::Normal, "c"),
        (Scope::Normal, "y"),
        (Scope::Normal, "\""),
        (Scope::Normal, "<C-c>"),
        (Scope::Normal, "<C-r>"),
        (Scope::Normal, "gg"),
        (Scope::OperatorPending, "i"),
        (Scope::OperatorPending, "d"),
        (Scope::Object, "("),
        (Scope::Object, "u"),
        (Scope::Insert, "<esc>"),
    ] {
        let keys = parse_seq(keys).expect("a spelling this test wrote");
        assert!(
            matches!(table.resolve(scope, &keys), Resolution::Role(_)),
            "{scope:?} {keys:?}"
        );
    }
}

#[test]
fn the_editor_layer_keeps_the_prompt_key_and_the_leader() {
    let mut table = table();
    for keys in [":", "<space>"] {
        let keys = parse_seq(keys).expect("a spelling this test wrote");
        assert_eq!(table.resolve(Scope::Normal, &keys), Resolution::Unbound);
    }
}
