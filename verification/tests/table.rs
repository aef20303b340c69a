use phosphor_core::input::key::{parse_seq, Key};
use phosphor_core::input::table::{Goto, Keymap, Layered, Operator, Resolution, Role, Scope, Table};
use phosphor_core::request::{EditMode, Motion};

fn keys(spelled: &str) -> Vec<Key> {
    parse_seq(spelled).expect("a spelling the tests wrote")
}

fn table() -> Table {
    let mut table = Table::new();
    table.bind(Scope::Normal, "w", Role::Motion(Motion::WordForward));
    table.bind(Scope::Normal, "gg", Role::Goto(Goto::First));
    table.bind(Scope::Normal, "gc", Role::Operator(Operator::ToggleComment));
    table
}

#[test]
fn a_lookup_is_bound_pending_or_unbound() {
    let mut table = table();
    assert_eq!(
        table.resolve(Scope::Normal, &keys("w")),
        Resolution::Role(Role::Motion(Motion::WordForward))
    );
    assert_eq!(table.resolve(Scope::Normal, &keys("g")), Resolution::Pending);
    assert_eq!(
        table.resolve(Scope::Normal, &keys("gg")),
        Resolution::Role(Role::Goto(Goto::First))
    );
    assert_eq!(table.resolve(Scope::Normal, &keys("z")), Resolution::Unbound);
    assert_eq!(table.resolve(Scope::OperatorPending, &keys("w")), Resolution::Unbound);
}

#[test]
fn the_layer_shadows_the_seed_except_inside_an_operator() {
    let mut layer = Table::new();
    layer.bind(Scope::Normal, "w", Role::Repeat);
    layer.bind(Scope::OperatorPending, "w", Role::Repeat);
    let mut seed = table();
    seed.bind(Scope::OperatorPending, "w", Role::Motion(Motion::WordForward));

    let mut layered = Layered::new(&mut layer, &mut seed);
    assert_eq!(
        layered.resolve(Scope::Normal, &keys("w")),
        Resolution::Role(Role::Repeat),
        "a rebind wins in normal mode"
    );
    assert_eq!(
        layered.resolve(Scope::OperatorPending, &keys("w")),
        Resolution::Role(Role::Motion(Motion::WordForward)),
        "the operand of an operator belongs to the grammar"
    );
}

#[test]
fn a_pending_layer_sequence_is_not_overtaken_by_the_seed() {
    let mut layer = Table::new();
    layer.bind(Scope::Normal, "]r", Role::Repeat);
    let mut seed = Table::new();
    seed.bind(Scope::Normal, "]", Role::Motion(Motion::ParagraphForward));

    let mut layered = Layered::new(&mut layer, &mut seed);
    assert_eq!(
        layered.resolve(Scope::Normal, &keys("]")),
        Resolution::Pending,
        "the seed cannot know the layer is mid-sequence"
    );
}

#[test]
fn bound_lists_a_scope_for_which_key() {
    let table = table();
    let listed = table.bound(Scope::Normal);
    assert_eq!(listed.len(), 3);
    assert!(table.bound(Scope::Insert).is_empty());
}

#[test]
fn a_rebind_replaces_and_an_unbind_removes() {
    let mut table = table();
    assert_eq!(table.len(), 3);
    table.bind(Scope::Normal, "w", Role::Repeat);
    assert_eq!(table.len(), 3);
    assert_eq!(table.resolve(Scope::Normal, &keys("w")), Resolution::Role(Role::Repeat));
    table.unbind(Scope::Normal, "w");
    assert_eq!(table.len(), 2);
    assert_eq!(table.resolve(Scope::Normal, &keys("w")), Resolution::Unbound);
    table.bind(Scope::Normal, "<nope>", Role::Repeat);
    assert_eq!(table.len(), 2, "a spelling that does not parse binds nothing");
    assert!(!table.is_empty());
}

#[test]
fn under_fills_only_what_is_missing() {
    let mut layer = Table::new();
    layer.bind(Scope::Normal, "w", Role::Repeat);
    layer.under(&table());
    assert_eq!(layer.len(), 3);
    assert_eq!(layer.resolve(Scope::Normal, &keys("w")), Resolution::Role(Role::Repeat));
    assert_eq!(layer.resolve(Scope::Normal, &keys("gg")), Resolution::Role(Role::Goto(Goto::First)));
}

#[test]
fn each_mode_has_its_scope() {
    assert_eq!(Scope::of(EditMode::Normal), Scope::Normal);
    assert_eq!(Scope::of(EditMode::Replace), Scope::Insert);
    assert_eq!(Scope::of(EditMode::VisualBlock), Scope::Visual);
    assert_eq!(Scope::of(EditMode::OperatorPending), Scope::OperatorPending);
    assert_eq!(Scope::OperatorPending.name(), "operator-pending");
}

#[test]
fn bound_lists_sequences_in_key_order() {
    let table = table();
    let listed: Vec<Vec<Key>> = table.bound(Scope::Normal).into_iter().map(|(keys, _)| keys).collect();
    assert_eq!(listed, vec![keys("gc"), keys("gg"), keys("w")]);
    let mut named = Table::new();
    named.bind(Scope::Insert, "<esc>", Role::Repeat);
    named.bind(Scope::Insert, "<C-w>", Role::Repeat);
    named.bind(Scope::Insert, "z", Role::Repeat);
    named.bind(Scope::Insert, "<cr>", Role::Repeat);
    let listed: Vec<Vec<Key>> = named.bound(Scope::Insert).into_iter().map(|(keys, _)| keys).collect();
    assert_eq!(listed, vec![keys("<C-w>"), keys("z"), keys("<esc>"), keys("<cr>")]);
}

#[test]
fn binding_then_unbinding_a_new_sequence_gives_the_table_back() {
    let mut table = table();
    let listed = |t: &Table| -> Vec<Vec<Key>> { t.bound(Scope::Normal).into_iter().map(|(keys, _)| keys).collect() };
    let before = listed(&table);
    table.bind(Scope::Normal, "x", Role::Repeat);
    assert_eq!(table.len(), 4);
    table.unbind(Scope::Normal, "x");
    assert_eq!(table.len(), 3);
    assert_eq!(listed(&table), before);
    assert!(parse_seq("<nosuchkey>").is_none());
    table.unbind(Scope::Normal, "<nosuchkey>");
    table.bind(Scope::Normal, "<nosuchkey>", Role::Repeat);
    assert_eq!(table.len(), 3);
    assert_eq!(listed(&table), before);
}
