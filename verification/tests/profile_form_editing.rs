use tdrace_session::flow::AssistProfile;
use tdrace_session::profile_form::{
    is_name_char, ProfileForm, ProfileFormInput, ProfileFormOutcome, RosterAction, RosterEditor, RosterInput,
};
use tdrace_session::profile_form::{country_entry, roster_open_index};
use tdrace_session::workshop::TextField;

fn chars(s: &str) -> Vec<char> {
    s.chars().collect()
}

fn text(v: &[char]) -> String {
    v.iter().collect()
}

fn form(name: &str, alias: &str, field: usize) -> ProfileForm {
    ProfileForm {
        field,
        name: TextField::from_chars(&chars(name)),
        alias: TextField::from_chars(&chars(alias)),
        country: 1,
        livery: 0,
    }
}

fn quiet() -> ProfileFormInput {
    ProfileFormInput {
        next_field: false,
        prev_field: false,
        typed: vec![],
        backspace: false,
        left: false,
        right: false,
        confirm: false,
        cancel: false,
    }
}

#[test]
fn name_characters() {
    for c in ['a', 'Z', '7', ' ', '-', '_'] {
        assert!(is_name_char(c));
    }
    for c in ['!', 'é', '.', '\n'] {
        assert!(!is_name_char(c));
    }
}

#[test]
fn typing_filters_and_stops_at_sixteen() {
    let mut f = form("", "", 0);
    let mut i = quiet();
    i.typed = chars("Ana!é Lopez-Garcia_Racing");
    assert!(matches!(f.frame(&i, 5, 9), ProfileFormOutcome::Editing));
    assert_eq!(text(&f.name.chars()), "Ana Lopez-Garcia");
    assert_eq!(f.name.byte_len(), 16);
}

#[test]
fn fields_cycle_and_selectors_wrap() {
    let mut f = form("A", "B", 3);
    let mut i = quiet();
    i.next_field = true;
    f.frame(&i, 5, 9);
    assert_eq!(f.field, 0);
    let mut i = quiet();
    i.prev_field = true;
    i.prev_field = true;
    f.frame(&i, 5, 9);
    assert_eq!(f.field, 3);
    let mut i = quiet();
    i.left = true;
    f.frame(&i, 5, 9);
    assert_eq!(f.livery, 8);
    let mut f = form("A", "B", 2);
    let mut i = quiet();
    i.right = true;
    f.country = 4;
    f.frame(&i, 5, 9);
    assert_eq!(f.country, 0);
}

#[test]
fn saving_trims_and_fills_defaults() {
    let mut f = form("  Kai  ", "   ", 1);
    let mut i = quiet();
    i.confirm = true;
    i.typed = chars("x");
    i.backspace = true;
    match f.frame(&i, 5, 9) {
        ProfileFormOutcome::Save { name, alias, country, livery } => {
            assert_eq!(text(&name), "Kai");
            assert_eq!(text(&alias), "Speedster");
            assert_eq!(country, Some(0));
            assert_eq!(livery, 0);
        }
        _ => panic!("expected a save"),
    }
    let mut f = form("", "Ace", 0);
    f.country = 0;
    match f.frame(&i, 5, 9) {
        ProfileFormOutcome::Save { name, alias, country, .. } => {
            assert_eq!(text(&name), "New Racer");
            assert_eq!(text(&alias), "Ace");
            assert_eq!(country, None);
        }
        _ => panic!("expected a save"),
    }
    let mut i = quiet();
    i.cancel = true;
    assert!(matches!(f.frame(&i, 5, 9), ProfileFormOutcome::Cancel));
}

fn roster(column: usize, field: usize) -> RosterEditor {
    RosterEditor {
        selected: 1,
        column,
        field,
        name: TextField::from_chars(&chars("Max")),
        alias: TextField::from_chars(&chars("")),
        country: 0,
        livery: 2,
        assist: AssistProfile::Arcade,
    }
}

fn keys() -> RosterInput {
    RosterInput {
        back: false,
        key_n: false,
        pad_x: false,
        key_delete: false,
        key_x: false,
        tab: false,
        nav_right: false,
        arrow_up: false,
        alt_up: false,
        arrow_down: false,
        alt_down: false,
        typed: vec![],
        backspace: false,
        left: false,
        right: false,
        confirm: false,
        ctrl_s: false,
    }
}

#[test]
fn roster_back_ends_the_frame() {
    let mut r = roster(0, 0);
    let mut i = keys();
    i.back = true;
    i.key_n = true;
    let a = r.frame(&i, 3, 5, 9);
    assert_eq!(a.len(), 1);
    assert!(matches!(a[0], RosterAction::Back));
}

#[test]
fn roster_list_browsing_and_activation() {
    let mut r = roster(0, 0);
    let mut i = keys();
    i.alt_down = true;
    i.confirm = true;
    let a = r.frame(&i, 3, 5, 9);
    assert_eq!(r.selected, 2);
    assert!(matches!(a[0], RosterAction::LoadDriver(2)));
    assert!(matches!(a[1], RosterAction::SetActive(2)));
    let mut i = keys();
    i.key_x = true;
    i.key_n = true;
    let a = r.frame(&i, 3, 5, 9);
    assert!(matches!(a[0], RosterAction::NewDriver));
    assert!(matches!(a[1], RosterAction::DeleteDriver(2)));
    let a = r.frame(&i, 1, 5, 9);
    assert_eq!(a.len(), 1);
}

#[test]
fn roster_details_fields_and_save() {
    let mut r = roster(0, 0);
    let mut i = keys();
    i.nav_right = true;
    i.typed = chars(" Power!");
    r.frame(&i, 3, 5, 9);
    assert_eq!(r.column, 1);
    assert_eq!(text(&r.name.chars()), "Max Power");
    let mut i = keys();
    i.alt_down = true;
    r.frame(&i, 3, 5, 9);
    assert_eq!(r.field, 0);
    let mut i = keys();
    i.arrow_up = true;
    i.alt_up = true;
    r.frame(&i, 3, 5, 9);
    assert_eq!(r.field, 5);
    let mut i = keys();
    i.arrow_up = true;
    i.left = true;
    r.frame(&i, 3, 5, 9);
    assert_eq!((r.field, r.assist), (4, AssistProfile::Pro));
    let mut i = keys();
    i.confirm = true;
    let a = r.frame(&i, 3, 5, 9);
    match a.last() {
        Some(RosterAction::Save { name, alias, country, livery, assist }) => {
            assert_eq!(text(name), "Max Power");
            assert_eq!(text(alias), "Apex");
            assert_eq!(*country, None);
            assert_eq!(*livery, 2);
            assert_eq!(*assist, AssistProfile::Pro);
        }
        _ => panic!("expected a save"),
    }
    let mut r = roster(1, 0);
    let mut i = keys();
    i.confirm = true;
    assert!(r.frame(&i, 3, 5, 9).is_empty());
    i.ctrl_s = true;
    assert_eq!(r.frame(&i, 3, 5, 9).len(), 1);
}

#[test]
fn opening_the_roster_editor() {
    assert_eq!(roster_open_index(2, 0), None);
    assert_eq!(roster_open_index(2, 5), Some(2));
    assert_eq!(roster_open_index(9, 5), Some(4));
}

#[test]
fn country_of_a_profile() {
    let codes = vec![chars("ESP"), chars("FRA"), chars("ITA")];
    assert_eq!(country_entry(&codes, &Some(chars("fra"))), 2);
    assert_eq!(country_entry(&codes, &Some(chars("ESP"))), 1);
    assert_eq!(country_entry(&codes, &Some(chars("GER"))), 0);
    assert_eq!(country_entry(&codes, &None), 0);
}

#[test]
fn roster_never_deletes_the_last_driver() {
    let mut r = roster(0, 0);
    let mut i = keys();
    i.key_delete = true;
    let a = r.frame(&i, 1, 5, 9);
    assert!(a.is_empty());
    let mut i = keys();
    i.key_x = true;
    let a = r.frame(&i, 1, 5, 9);
    assert!(a.is_empty());
    let a = r.frame(&i, 2, 5, 9);
    assert_eq!(a.len(), 1);
    assert!(matches!(a[0], RosterAction::DeleteDriver(1)));
}
