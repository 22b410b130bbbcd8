use tdrace_session::modules::ModuleId;
use tdrace_session::workshop::{cursor_after_reorder, workshop_cursor, WorkshopCursorKeys};
use tdrace_session::workshop::{
    editor_return, editor_return_cursor, shows_drafts, EditorReturn, EditorReturnContext,
    WorkshopView,
};
use tdrace_session::workshop::{
    workshop_commands, CircuitKind, WorkshopCommand, WorkshopKeys,    clamp_selection, clone_prompt_step, confirm_dialog_step, is_control_char, is_white_space_char,
    list_cursor_down, list_cursor_up, promotion_default_index, trim_text, workshop_key,
    yes_no_step, CloneOutcome, ConfirmInput, ConfirmOutcome, MetadataEditor, MetadataField,
    MetadataInput, MetadataOutcome, PromotionDialog, PromotionInput, PromotionOutcome, TextField,
    WorkshopFilter, WorkshopKey, WorkshopTab,
};

fn chars(s: &str) -> Vec<char> {
    s.chars().collect()
}

fn text(v: &[char]) -> String {
    v.iter().collect()
}

fn no_keys() -> MetadataInput {
    MetadataInput { typed: vec![], backspace: false, switch_field: false, enter: false, escape: false }
}

#[test]
fn control_and_white_space_match_std() {
    for c in ['a', ' ', '\t', '\n', '\u{7f}', '\u{85}', '\u{a0}', '\u{3000}', 'é', '\u{1F600}', '\u{9f}', '\u{2028}'] {
        assert_eq!(is_control_char(c), c.is_control(), "{:?}", c);
        assert_eq!(is_white_space_char(c), c.is_whitespace(), "{:?}", c);
    }
}

#[test]
fn trim_matches_std() {
    for s in ["  Monaco  ", "\t\n", "", "Spa", " a b ", "\u{3000}Suzuka\u{a0}"] {
        assert_eq!(text(&trim_text(&chars(s))), s.trim());
    }
}

#[test]
fn typing_stops_at_the_byte_limit() {
    let mut f = TextField::new();
    for _ in 0..40 {
        f.type_char('x', 32);
    }
    assert_eq!(f.byte_len(), 32);
    // A multi-byte character typed at 31 bytes still goes in.
    let mut g = TextField::from_chars(&chars(&"y".repeat(31)));
    g.type_char('€', 32);
    assert_eq!(g.byte_len(), 34);
    g.type_char('z', 32);
    assert_eq!(g.byte_len(), 34);
    g.type_char('\n', 100);
    assert_eq!(g.byte_len(), 34);
    g.backspace();
    assert_eq!(g.byte_len(), 31);
}

#[test]
fn editor_types_into_the_active_field_and_saves_trimmed() {
    let mut e = MetadataEditor::open(&chars("Old"), &chars("desc"));
    let mut i = no_keys();
    i.typed = chars(" Ring ");
    assert!(matches!(e.frame(&i), MetadataOutcome::Editing));
    assert_eq!(text(&e.name.chars()), "Old Ring ");
    let mut i = no_keys();
    i.switch_field = true;
    e.frame(&i);
    assert_eq!(e.field, MetadataField::Description);
    let mut i = no_keys();
    i.backspace = true;
    i.enter = true;
    match e.frame(&i) {
        MetadataOutcome::Save { name, description } => {
            assert_eq!(text(&name), "Old Ring");
            assert_eq!(text(&description), "des");
        }
        _ => panic!("expected a save"),
    }
}

#[test]
fn editor_blank_name_closes_without_saving() {
    let mut e = MetadataEditor::open(&chars("  "), &chars("d"));
    let mut i = no_keys();
    i.enter = true;
    assert!(matches!(e.frame(&i), MetadataOutcome::Close));
    let mut e = MetadataEditor::open(&chars("A"), &chars("d"));
    let mut i = no_keys();
    i.escape = true;
    assert!(matches!(e.frame(&i), MetadataOutcome::Close));
}

fn quiet() -> ConfirmInput {
    ConfirmInput {
        hover_cancel: false,
        hover_confirm: false,
        click_cancel: false,
        click_confirm: false,
        nav_left: false,
        nav_right: false,
        nav_vertical: false,
        press: false,
        key_yes: false,
        key_no: false,
        pad_back: false,
    }
}

#[test]
fn delete_dialog_moves_and_decides() {
    let mut i = quiet();
    i.nav_left = true;
    assert_eq!(confirm_dialog_step(0, i), ConfirmOutcome::Open(1));
    i.press = true;
    assert_eq!(confirm_dialog_step(0, i), ConfirmOutcome::Confirmed);
    assert_eq!(confirm_dialog_step(1, i), ConfirmOutcome::Cancelled);
    let mut j = quiet();
    j.key_yes = true;
    j.key_no = true;
    assert_eq!(confirm_dialog_step(0, j), ConfirmOutcome::Confirmed);
    let mut k = quiet();
    k.hover_confirm = true;
    assert_eq!(confirm_dialog_step(0, k), ConfirmOutcome::Open(1));
    k.pad_back = true;
    assert_eq!(confirm_dialog_step(0, k), ConfirmOutcome::Cancelled);
}

#[test]
fn yes_no_and_clone_prompts() {
    assert_eq!(yes_no_step(true, true), ConfirmOutcome::Confirmed);
    assert_eq!(yes_no_step(false, true), ConfirmOutcome::Cancelled);
    assert_eq!(yes_no_step(false, false), ConfirmOutcome::Open(0));
    assert_eq!(clone_prompt_step(true, 1, true, false, true, false), CloneOutcome::OverwritePreset);
    assert_eq!(clone_prompt_step(true, 0, false, true, true, false), CloneOutcome::CloneToDrafts);
    assert_eq!(clone_prompt_step(false, 0, true, false, true, false), CloneOutcome::CloneToDrafts);
    assert_eq!(clone_prompt_step(true, 1, true, false, false, false), CloneOutcome::Open(0));
    assert_eq!(clone_prompt_step(false, 0, false, false, false, true), CloneOutcome::Cancelled);
}

fn promo() -> PromotionInput {
    PromotionInput { digit: None, nav_back: false, nav_forward: false, toggle: false, confirm: false, back: false }
}

#[test]
fn promotion_dialog_starts_on_membership_or_default() {
    let d = PromotionDialog::open([false, true, false, true], ModuleId::Classic);
    assert_eq!((d.cursor, d.mask), (1, [false, true, false, true]));
    let d = PromotionDialog::open([false; 4], ModuleId::Kart);
    assert_eq!((d.cursor, d.mask), (2, [false, false, true, false]));
    assert_eq!(promotion_default_index(ModuleId::GtChallenge), 0);
    assert_eq!(promotion_default_index(ModuleId::Gt), 3);
}

#[test]
fn promotion_dialog_ticks_and_assigns() {
    let mut d = PromotionDialog::open([true, false, false, false], ModuleId::Classic);
    let mut i = promo();
    i.digit = Some(3);
    assert_eq!(d.frame(i, ModuleId::Classic), PromotionOutcome::Open);
    assert_eq!((d.cursor, d.mask), (3, [true, false, false, true]));
    let mut i = promo();
    i.nav_forward = true;
    i.toggle = true;
    i.confirm = true;
    assert_eq!(d.frame(i, ModuleId::Classic), PromotionOutcome::Assign(vec![ModuleId::Classic]));
    let mut d = PromotionDialog { cursor: 0, mask: [true, false, false, false] };
    let mut i = promo();
    i.toggle = true;
    i.confirm = true;
    assert_eq!(d.frame(i, ModuleId::Rally), PromotionOutcome::Assign(vec![ModuleId::Rally]));
    let mut i = promo();
    i.nav_back = true;
    i.back = true;
    assert_eq!(d.frame(i, ModuleId::Rally), PromotionOutcome::Cancelled);
    assert_eq!(d.cursor, 0);
}

#[test]
fn list_cursor_wraps_and_clamps() {
    assert_eq!(list_cursor_up(0, 4), 3);
    assert_eq!(list_cursor_up(2, 4), 1);
    assert_eq!(list_cursor_up(0, 0), 0);
    assert_eq!(list_cursor_down(3, 4), 0);
    assert_eq!(list_cursor_down(1, 4), 2);
    assert_eq!(list_cursor_down(5, 0), 5);
    assert_eq!(clamp_selection(7, 3), 2);
    assert_eq!(clamp_selection(1, 3), 1);
    assert_eq!(clamp_selection(7, 0), 7);
}

#[test]
fn workshop_shortcuts_pick_tab_and_list() {
    assert_eq!(
        workshop_key(WorkshopTab::Drafts, WorkshopFilter::Drafts, 4, WorkshopKey::Module(WorkshopFilter::Kart)),
        (WorkshopTab::Main, WorkshopFilter::Kart, 0)
    );
    assert_eq!(
        workshop_key(WorkshopTab::Main, WorkshopFilter::Kart, 4, WorkshopKey::Module(WorkshopFilter::Kart)),
        (WorkshopTab::Main, WorkshopFilter::Kart, 4)
    );
    assert_eq!(
        workshop_key(WorkshopTab::Main, WorkshopFilter::Gt, 4, WorkshopKey::Drafts),
        (WorkshopTab::Drafts, WorkshopFilter::Drafts, 0)
    );
    assert_eq!(
        workshop_key(WorkshopTab::Drafts, WorkshopFilter::Drafts, 2, WorkshopKey::Toggle),
        (WorkshopTab::Main, WorkshopFilter::Classic, 0)
    );
    assert_eq!(
        workshop_key(WorkshopTab::Main, WorkshopFilter::Rally, 2, WorkshopKey::Toggle),
        (WorkshopTab::Drafts, WorkshopFilter::Drafts, 0)
    );
}

fn wk() -> WorkshopKeys {
    WorkshopKeys {
        confirm: false,
        edit: false,
        key_c: false,
        promote: false,
        ctrl: false,
        key_n: false,
        key_i: false,
        delete: false,
        back: false,
    }
}

#[test]
fn workshop_edit_and_race() {
    let mut k = wk();
    k.confirm = true;
    k.back = true;
    assert_eq!(workshop_commands(false, false, Some(CircuitKind::Preset), k), vec![WorkshopCommand::PromptClone]);
    assert_eq!(workshop_commands(true, false, Some(CircuitKind::Preset), k), vec![WorkshopCommand::EditPreset]);
    assert_eq!(workshop_commands(false, false, Some(CircuitKind::Custom), k), vec![WorkshopCommand::EditCircuit]);
    assert_eq!(workshop_commands(true, true, Some(CircuitKind::Custom), k), vec![WorkshopCommand::RaceOnWorkbench]);
    assert_eq!(workshop_commands(false, false, None, k), vec![WorkshopCommand::Back]);
}

#[test]
fn workshop_promotion_rules() {
    let mut k = wk();
    k.promote = true;
    assert_eq!(workshop_commands(false, false, Some(CircuitKind::Preset), k), vec![WorkshopCommand::Refused]);
    assert_eq!(workshop_commands(false, false, Some(CircuitKind::Custom), k), vec![WorkshopCommand::AssignModules]);
    assert_eq!(workshop_commands(true, false, Some(CircuitKind::Preset), k), vec![WorkshopCommand::ConfirmDemote]);
    assert_eq!(workshop_commands(true, false, Some(CircuitKind::Custom), k), vec![WorkshopCommand::ConfirmPromote]);
    k.ctrl = true;
    assert_eq!(workshop_commands(true, false, Some(CircuitKind::Preset), k), vec![WorkshopCommand::AssignModules]);
    assert_eq!(workshop_commands(false, false, Some(CircuitKind::Preset), k), vec![WorkshopCommand::Refused]);
}

#[test]
fn workshop_copy_new_metadata_delete() {
    let mut k = wk();
    k.key_c = true;
    k.key_i = true;
    assert_eq!(
        workshop_commands(false, false, Some(CircuitKind::Preset), k),
        vec![WorkshopCommand::CloneToDrafts, WorkshopCommand::Refused]
    );
    assert_eq!(
        workshop_commands(false, false, Some(CircuitKind::Custom), k),
        vec![WorkshopCommand::CloneToDrafts, WorkshopCommand::EditMetadata]
    );
    let mut k = wk();
    k.key_n = true;
    k.delete = true;
    k.back = true;
    assert_eq!(
        workshop_commands(false, false, Some(CircuitKind::Custom), k),
        vec![WorkshopCommand::NewCircuit, WorkshopCommand::Back]
    );
    let mut k = wk();
    k.delete = true;
    k.back = true;
    assert_eq!(workshop_commands(false, false, Some(CircuitKind::Custom), k), vec![WorkshopCommand::ConfirmDelete]);
    assert_eq!(
        workshop_commands(false, false, Some(CircuitKind::Preset), k),
        vec![WorkshopCommand::Refused, WorkshopCommand::Back]
    );
}

fn return_context(recorded: Option<WorkshopView>, customs: bool, drafts: bool) -> EditorReturnContext {
    EditorReturnContext {
        opened_from_modality_select: false,
        recorded,
        has_module_customs: customs,
        has_drafts: drafts,
        module_filter: WorkshopFilter::Rally,
    }
}

#[test]
fn leaving_the_editor() {
    let mut c = return_context(None, false, true);
    c.opened_from_modality_select = true;
    assert_eq!(editor_return(&c), EditorReturn::ModalityOptions);
    assert_eq!(
        editor_return(&return_context(None, false, true)),
        EditorReturn::Workshop { tab: WorkshopTab::Drafts, filter: WorkshopFilter::Drafts, fallback: 0 }
    );
    assert_eq!(
        editor_return(&return_context(None, true, true)),
        EditorReturn::Workshop { tab: WorkshopTab::Main, filter: WorkshopFilter::Rally, fallback: 0 }
    );
    let seen = WorkshopView { tab: WorkshopTab::Main, filter: WorkshopFilter::Kart, selected: 4 };
    assert_eq!(
        editor_return(&return_context(Some(seen), false, true)),
        EditorReturn::Workshop { tab: WorkshopTab::Main, filter: WorkshopFilter::Kart, fallback: 4 }
    );
    assert!(shows_drafts(WorkshopTab::Drafts, WorkshopFilter::Gt));
    assert!(shows_drafts(WorkshopTab::Main, WorkshopFilter::Drafts));
    assert!(!shows_drafts(WorkshopTab::Main, WorkshopFilter::Gt));
}

#[test]
fn cursor_after_leaving_the_editor() {
    let ids: Vec<String> = vec!["alpine".to_string(), "dunes".to_string(), "harbor".to_string()];
    assert_eq!(editor_return_cursor(0, &ids, &Some("harbor".to_string())), 2);
    assert_eq!(editor_return_cursor(1, &ids, &Some("quarry".to_string())), 1);
    assert_eq!(editor_return_cursor(7, &ids, &None), 2);
    assert_eq!(editor_return_cursor(7, &Vec::new(), &Some("harbor".to_string())), 0);
}

fn no_cursor_keys() -> WorkshopCursorKeys {
    WorkshopCursorKeys {
        shift_or_alt: false,
        key_up: false,
        key_down: false,
        page_up: false,
        page_down: false,
        pad_up: false,
        pad_down: false,
    }
}

#[test]
fn workshop_cursor_and_preset_order() {
    let mut k = no_cursor_keys();
    k.key_up = true;
    assert_eq!(workshop_cursor(false, k, Some(CircuitKind::Preset), 0, 4), (None, 3));
    k.shift_or_alt = true;
    assert_eq!(workshop_cursor(false, k, Some(CircuitKind::Preset), 2, 4), (None, 1));
    assert_eq!(workshop_cursor(true, k, Some(CircuitKind::Preset), 2, 4), (Some(true), 2));
    assert_eq!(workshop_cursor(true, k, Some(CircuitKind::Custom), 2, 4), (None, 2));
    let mut k = no_cursor_keys();
    k.page_down = true;
    assert_eq!(workshop_cursor(true, k, Some(CircuitKind::Preset), 2, 4), (Some(false), 2));
    let mut k = no_cursor_keys();
    k.pad_down = true;
    assert_eq!(workshop_cursor(true, k, None, 3, 4), (None, 0));
    assert_eq!(cursor_after_reorder(2, 4, true, true), 1);
    assert_eq!(cursor_after_reorder(0, 4, true, true), 0);
    assert_eq!(cursor_after_reorder(2, 4, false, true), 3);
    assert_eq!(cursor_after_reorder(3, 4, false, true), 3);
    assert_eq!(cursor_after_reorder(2, 4, false, false), 2);
}
