//! The driver profile form: name, alias, country and livery, as typed and
//! picked frame by frame, and the profile it saves.
use vstd::prelude::*;
use crate::lobby::{cycle_index, wrap_next_spec, wrap_prev_spec};
use crate::workshop::{TextField, text_bytes, trim_spec, trim_text};
use crate::flow::{AssistProfile, assist_step, assist_step_spec};

verus! {

/// Fields of the form: name, alias, country, livery.
pub const FORM_FIELDS: usize = 4;

/// Most bytes a name or an alias may hold.
pub const FORM_TEXT_LIMIT: usize = 16;

/// Characters a name or an alias may take: ASCII letters and digits, the
/// space, the hyphen and the underscore.
pub open spec fn name_char_spec(c: char) -> bool {
    ('a' <= c && c <= 'z') || ('A' <= c && c <= 'Z') || ('0' <= c && c <= '9') || c == ' ' || c
        == '-' || c == '_'
}

/// Whether `c` may be typed into a name or an alias.
pub fn is_name_char(c: char) -> (r: bool)
    ensures
        r == name_char_spec(c),
{
    ('a' <= c && c <= 'z') || ('A' <= c && c <= 'Z') || ('0' <= c && c <= '9') || c == ' ' || c
        == '-' || c == '_'
}

/// Text after typing the characters of `typed` into a form field.
pub open spec fn form_typed(s: Seq<char>, typed: Seq<char>) -> Seq<char>
    decreases typed.len(),
{
    if typed.len() == 0 {
        s
    } else {
        let t = form_typed(s, typed.drop_last());
        if name_char_spec(typed.last()) && text_bytes(t) < FORM_TEXT_LIMIT {
            t.push(typed.last())
        } else {
            t
        }
    }
}

/// The driver profile form.
#[derive(Debug, Clone)]
pub struct ProfileForm {
    /// Field with the focus (0 name, 1 alias, 2 country, 3 livery).
    pub field: usize,
    pub name: TextField,
    pub alias: TextField,
    /// Country (0 none, then the countries of the registry in order).
    pub country: usize,
    pub livery: usize,
}

/// What the player did on the form during one frame.
#[derive(Debug, Clone)]
pub struct ProfileFormInput {
    /// Tab or Down.
    pub next_field: bool,
    /// Up.
    pub prev_field: bool,
    /// Characters typed, in order.
    pub typed: Vec<char>,
    pub backspace: bool,
    /// Left, A, or a gamepad left.
    pub left: bool,
    /// Right, D, or a gamepad right.
    pub right: bool,
    /// Enter, keypad Enter, gamepad confirm or A.
    pub confirm: bool,
    /// Escape, gamepad cancel or B.
    pub cancel: bool,
}

/// How a frame of the form ends.
#[derive(Debug, Clone)]
pub enum ProfileFormOutcome {
    Editing,
    /// Save the profile: trimmed name and alias (defaults when blank), the
    /// country's position in the registry if any, and the livery.
    Save { name: Vec<char>, alias: Vec<char>, country: Option<usize>, livery: usize },
    Cancel,
}

/// Name saved for a typed name: the trimmed text, or "New Racer" when blank.
pub open spec fn saved_name(s: Seq<char>) -> Seq<char> {
    if trim_spec(s).len() == 0 {
        seq!['N', 'e', 'w', ' ', 'R', 'a', 'c', 'e', 'r']
    } else {
        trim_spec(s)
    }
}

/// Alias saved for a typed alias: the trimmed text, or "Speedster" when blank.
pub open spec fn saved_alias(s: Seq<char>) -> Seq<char> {
    if trim_spec(s).len() == 0 {
        seq!['S', 'p', 'e', 'e', 'd', 's', 't', 'e', 'r']
    } else {
        trim_spec(s)
    }
}

/// Registry position of the country chosen at `idx` (0 is no country).
pub open spec fn saved_country(idx: usize, registry_len: usize) -> Option<usize> {
    if idx > 0 && idx <= registry_len {
        Some((idx - 1) as usize)
    } else {
        None
    }
}

fn step_back(c: usize, n: usize) -> (r: usize)
    requires
        n > 0,
    ensures
        r == wrap_prev_spec(c as int, n as int),
{
    if c == 0 {
        n - 1
    } else {
        c - 1
    }
}

impl ProfileForm {
    pub open spec fn wf(&self) -> bool {
        self.name.wf() && self.alias.wf() && self.field < FORM_FIELDS
    }

    fn type_into(field: &mut TextField, typed: &Vec<char>)
        requires
            old(field).wf(),
        ensures
            final(field).wf(),
            final(field)@ == form_typed(old(field)@, typed@),
    {
        let ghost start = field@;
        let mut k: usize = 0;
        while k < typed.len()
            invariant
                k <= typed@.len(),
                field.wf(),
                field@ == form_typed(start, typed@.subrange(0, k as int)),
            decreases typed@.len() - k,
        {
            let c = typed[k];
            proof {
                let t = typed@.subrange(0, k + 1);
                assert(t.drop_last() =~= typed@.subrange(0, k as int));
                assert(t.last() == c);
            }
            let ok = is_name_char(c);
            field.type_char_if(c, FORM_TEXT_LIMIT, ok);
            k = k + 1;
        }
        proof {
            assert(typed@.subrange(0, typed@.len() as int) =~= typed@);
        }
    }

    /// One frame of the form over `countries` choices (no country, then the
    /// `countries - 1` of the registry) and `liveries` liveries: Tab or Down
    /// moves to the next field and Up to the previous (round the four);
    /// typing and Backspace edit the name or the alias when focused (letters,
    /// digits, space, hyphen, underscore; up to 16 bytes); Left and Right
    /// step round the countries or liveries when focused; confirming saves,
    /// cancelling leaves.
    pub fn frame(&mut self, i: &ProfileFormInput, countries: usize, liveries: usize) -> (r: ProfileFormOutcome)
        requires
            old(self).wf(),
            countries > 0,
            liveries > 0,
        ensures
            final(self).wf(),
            ({
                let f1 = if i.next_field {
                    wrap_next_spec(old(self).field as int, FORM_FIELDS as int)
                } else {
                    old(self).field as int
                };
                let f2 = if i.prev_field {
                    wrap_prev_spec(f1, FORM_FIELDS as int)
                } else {
                    f1
                };
                let name1 = if f2 == 0 {
                    form_typed(old(self).name@, i.typed@)
                } else {
                    old(self).name@
                };
                let name2 = if f2 == 0 && i.backspace && name1.len() > 0 {
                    name1.drop_last()
                } else {
                    name1
                };
                let alias1 = if f2 == 1 {
                    form_typed(old(self).alias@, i.typed@)
                } else {
                    old(self).alias@
                };
                let alias2 = if f2 == 1 && i.backspace && alias1.len() > 0 {
                    alias1.drop_last()
                } else {
                    alias1
                };
                let c1 = if f2 == 2 && i.left {
                    wrap_prev_spec(old(self).country as int, countries as int)
                } else {
                    old(self).country as int
                };
                let c2 = if f2 == 2 && i.right {
                    wrap_next_spec(c1, countries as int)
                } else {
                    c1
                };
                let l1 = if f2 == 3 && i.left {
                    wrap_prev_spec(old(self).livery as int, liveries as int)
                } else {
                    old(self).livery as int
                };
                let l2 = if f2 == 3 && i.right {
                    wrap_next_spec(l1, liveries as int)
                } else {
                    l1
                };
                &&& final(self).field == f2
                &&& final(self).name@ == name2
                &&& final(self).alias@ == alias2
                &&& final(self).country == c2
                &&& final(self).livery == l2
                &&& i.confirm ==> (r matches ProfileFormOutcome::Save { name, alias, country, livery }
                    && name@ == saved_name(name2) && alias@ == saved_alias(alias2) && country
                    == saved_country(c2 as usize, (countries - 1) as usize) && livery == l2)
                &&& !i.confirm && i.cancel ==> r is Cancel
                &&& !i.confirm && !i.cancel ==> r is Editing
            }),
    {
        if i.next_field {
            self.field = cycle_index(self.field, FORM_FIELDS, true);
        }
        if i.prev_field {
            self.field = cycle_index(self.field, FORM_FIELDS, false);
        }
        if self.field == 0 {
            Self::type_into(&mut self.name, &i.typed);
            if i.backspace {
                self.name.backspace();
            }
        } else if self.field == 1 {
            Self::type_into(&mut self.alias, &i.typed);
            if i.backspace {
                self.alias.backspace();
            }
        }
        if self.field == 2 {
            if i.left {
                self.country = step_back(self.country, countries);
            }
            if i.right {
                self.country = cycle_index(self.country, countries, true);
            }
        }
        if self.field == 3 {
            if i.left {
                self.livery = step_back(self.livery, liveries);
            }
            if i.right {
                self.livery = cycle_index(self.livery, liveries, true);
            }
        }
        if i.confirm {
            let n = trim_text(&self.name.chars());
            let name = if n.len() == 0 {
                vec!['N', 'e', 'w', ' ', 'R', 'a', 'c', 'e', 'r']
            } else {
                n
            };
            let a = trim_text(&self.alias.chars());
            let alias = if a.len() == 0 {
                vec!['S', 'p', 'e', 'e', 'd', 's', 't', 'e', 'r']
            } else {
                a
            };
            let country = if self.country > 0 && self.country <= countries - 1 {
                Some(self.country - 1)
            } else {
                None
            };
            proof {
                assert(name@ =~= saved_name(self.name@));
                assert(alias@ =~= saved_alias(self.alias@));
            }
            return ProfileFormOutcome::Save { name, alias, country, livery: self.livery };
        }
        if i.cancel {
            ProfileFormOutcome::Cancel
        } else {
            ProfileFormOutcome::Editing
        }
    }
}

/// Typing never takes a name or an alias that fits the limit past it, and
/// never adds a character that is not a letter, digit, space, hyphen or
/// underscore.
pub proof fn lemma_form_typing_bounded(s: Seq<char>, typed: Seq<char>)
    requires
        text_bytes(s) <= FORM_TEXT_LIMIT,
        forall|k: int| 0 <= k < s.len() ==> name_char_spec(#[trigger] s[k]),
    ensures
        text_bytes(form_typed(s, typed)) <= FORM_TEXT_LIMIT,
        forall|k: int| 0 <= k < form_typed(s, typed).len() ==> name_char_spec(#[trigger] form_typed(s, typed)[k]),
    decreases typed.len(),
{
    if typed.len() > 0 {
        lemma_form_typing_bounded(s, typed.drop_last());
        let t = form_typed(s, typed.drop_last());
        let c = typed.last();
        if name_char_spec(c) && text_bytes(t) < FORM_TEXT_LIMIT {
            assert(t.push(c).drop_last() =~= t);
            assert((c as u32) < 0x80);
            let u = t.push(c);
            assert forall|k: int| 0 <= k < u.len() implies name_char_spec(#[trigger] u[k]) by {
                if k < t.len() {
                    assert(u[k] == t[k]);
                }
            }
        }
    }
}

/// Fields of the roster manager's editing column: name, alias, country,
/// livery, assist profile, save button.
pub const ROSTER_FIELDS: usize = 6;

/// The roster manager: the list of drivers on the left, the selected
/// driver's details on the right.
#[derive(Debug, Clone)]
pub struct RosterEditor {
    pub selected: usize,
    /// 0 the list, 1 the details.
    pub column: usize,
    pub field: usize,
    pub name: TextField,
    pub alias: TextField,
    pub country: usize,
    pub livery: usize,
    pub assist: AssistProfile,
}

/// What the player did in the roster manager during one frame.
#[derive(Debug, Clone)]
pub struct RosterInput {
    /// Escape, gamepad cancel, back or B.
    pub back: bool,
    pub key_n: bool,
    pub pad_x: bool,
    pub key_delete: bool,
    pub key_x: bool,
    pub tab: bool,
    /// Right arrow or a gamepad right.
    pub nav_right: bool,
    /// Up arrow.
    pub arrow_up: bool,
    /// W or a gamepad up.
    pub alt_up: bool,
    /// Down arrow.
    pub arrow_down: bool,
    /// S or a gamepad down.
    pub alt_down: bool,
    pub typed: Vec<char>,
    pub backspace: bool,
    /// Left, A, or a gamepad left.
    pub left: bool,
    /// Right, D, or a gamepad right.
    pub right: bool,
    /// Enter, keypad Enter, Space, gamepad confirm or A.
    pub confirm: bool,
    /// Control and S.
    pub ctrl_s: bool,
}

/// What a frame of the roster manager asks for, in order. The driver
/// actions may fail (no such driver, storage refusing): the frame's other
/// effects then stand.
#[derive(Debug, Clone)]
pub enum RosterAction {
    /// Back to the profile screen on the selected driver.
    Back,
    /// Add a driver and edit it; when it is added the frame ends.
    NewDriver,
    /// Remove the driver at this position (asked only while more than one
    /// driver is left); when it is removed the frame ends and the cursor goes
    /// to `roster_open_index(position, drivers left)`.
    DeleteDriver(usize),
    /// Show the details of the driver at this position.
    LoadDriver(usize),
    /// Make the driver at this position the active racer.
    SetActive(usize),
    /// Save the selected driver's details.
    Save { name: Vec<char>, alias: Vec<char>, country: Option<usize>, livery: usize, assist: AssistProfile },
}

/// Name saved by the roster manager: the trimmed text, or "Driver" when blank.
pub open spec fn roster_saved_name(s: Seq<char>) -> Seq<char> {
    if trim_spec(s).len() == 0 {
        seq!['D', 'r', 'i', 'v', 'e', 'r']
    } else {
        trim_spec(s)
    }
}

/// Alias saved by the roster manager: the trimmed text, or "Apex" when blank.
pub open spec fn roster_saved_alias(s: Seq<char>) -> Seq<char> {
    if trim_spec(s).len() == 0 {
        seq!['A', 'p', 'e', 'x']
    } else {
        trim_spec(s)
    }
}

/// Driver actions that open a frame of the roster manager: adding a driver,
/// then removing the selected one.
pub open spec fn roster_head(new_driver: bool, delete: bool, selected: usize) -> Seq<RosterAction> {
    (if new_driver {
        seq![RosterAction::NewDriver]
    } else {
        Seq::empty()
    }) + (if delete {
        seq![RosterAction::DeleteDriver(selected)]
    } else {
        Seq::empty()
    })
}

/// Actions of the driver list after the cursor keys: loading the driver the
/// cursor moved to, then making the selected driver active.
pub open spec fn roster_list_tail(moved: bool, selected: usize, confirm: bool) -> Seq<RosterAction> {
    (if moved {
        seq![RosterAction::LoadDriver(selected)]
    } else {
        Seq::empty()
    }) + (if confirm {
        seq![RosterAction::SetActive(selected)]
    } else {
        Seq::empty()
    })
}

impl RosterEditor {
    pub open spec fn wf(&self) -> bool {
        self.name.wf() && self.alias.wf() && self.column < 2 && self.field < ROSTER_FIELDS
    }

    fn list_step(&mut self, i: &RosterInput, count: usize) -> (r: Vec<RosterAction>)
        requires
            old(self).wf(),
        ensures
            final(self).wf(),
            ({
                let prev = i.arrow_up || i.alt_up;
                let next = i.arrow_down || i.alt_down;
                let sel = if prev && count > 0 {
                    wrap_prev_spec(old(self).selected as int, count as int)
                } else if next && count > 0 {
                    wrap_next_spec(old(self).selected as int, count as int)
                } else {
                    old(self).selected as int
                };
                &&& final(self).selected == sel
                &&& final(self).column == old(self).column
                &&& final(self).field == old(self).field
                &&& final(self).name@ == old(self).name@
                &&& final(self).alias@ == old(self).alias@
                &&& final(self).country == old(self).country
                &&& final(self).livery == old(self).livery
                &&& final(self).assist == old(self).assist
                &&& r@ == roster_list_tail((prev || next) && count > 0, sel as usize, i.confirm)
            }),
    {
        let mut acts: Vec<RosterAction> = Vec::new();
        let prev = i.arrow_up || i.alt_up;
        let next = i.arrow_down || i.alt_down;
        if prev && count > 0 {
            self.selected = if self.selected == 0 {
                count - 1
            } else {
                self.selected - 1
            };
            acts.push(RosterAction::LoadDriver(self.selected));
        } else if next && count > 0 {
            self.selected = cycle_index(self.selected, count, true);
            acts.push(RosterAction::LoadDriver(self.selected));
        }
        if i.confirm {
            acts.push(RosterAction::SetActive(self.selected));
        }
        acts
    }

    fn details_step(&mut self, i: &RosterInput, countries: usize, liveries: usize) -> (r: Option<RosterAction>)
        requires
            old(self).wf(),
            countries > 0,
            liveries > 0,
        ensures
            final(self).wf(),
            ({
                let up = i.arrow_up || (old(self).field > 1 && i.alt_up);
                let f1 = if up {
                    wrap_prev_spec(old(self).field as int, ROSTER_FIELDS as int)
                } else {
                    old(self).field as int
                };
                let down = i.arrow_down || (f1 > 1 && i.alt_down);
                let f2 = if down {
                    wrap_next_spec(f1, ROSTER_FIELDS as int)
                } else {
                    f1
                };
                let name1 = if f2 == 0 {
                    form_typed(old(self).name@, i.typed@)
                } else {
                    old(self).name@
                };
                let name2 = if f2 == 0 && i.backspace && name1.len() > 0 {
                    name1.drop_last()
                } else {
                    name1
                };
                let alias1 = if f2 == 1 {
                    form_typed(old(self).alias@, i.typed@)
                } else {
                    old(self).alias@
                };
                let alias2 = if f2 == 1 && i.backspace && alias1.len() > 0 {
                    alias1.drop_last()
                } else {
                    alias1
                };
                let c1 = if f2 == 2 && i.left {
                    wrap_prev_spec(old(self).country as int, countries as int)
                } else {
                    old(self).country as int
                };
                let c2 = if f2 == 2 && i.right {
                    wrap_next_spec(c1, countries as int)
                } else {
                    c1
                };
                let l1 = if f2 == 3 && i.left {
                    wrap_prev_spec(old(self).livery as int, liveries as int)
                } else {
                    old(self).livery as int
                };
                let l2 = if f2 == 3 && i.right {
                    wrap_next_spec(l1, liveries as int)
                } else {
                    l1
                };
                let a1 = if f2 == 4 && i.left {
                    assist_step_spec(old(self).assist, false)
                } else {
                    old(self).assist
                };
                let a2 = if f2 == 4 && i.right {
                    assist_step_spec(a1, true)
                } else {
                    a1
                };
                let save = if f2 >= 2 {
                    i.confirm
                } else {
                    i.ctrl_s
                };
                &&& final(self).selected == old(self).selected
                &&& final(self).column == old(self).column
                &&& final(self).field == f2
                &&& final(self).name@ == name2
                &&& final(self).alias@ == alias2
                &&& final(self).country == c2
                &&& final(self).livery == l2
                &&& final(self).assist == a2
                &&& save ==> (r matches Some(RosterAction::Save { name, alias, country, livery, assist })
                    && name@ == roster_saved_name(name2) && alias@ == roster_saved_alias(alias2)
                    && country == saved_country(c2 as usize, (countries - 1) as usize) && livery
                    == l2 && assist == a2)
                &&& !save ==> r is None
            }),
    {
        if i.arrow_up || (self.field > 1 && i.alt_up) {
            self.field = cycle_index(self.field, ROSTER_FIELDS, false);
        }
        if i.arrow_down || (self.field > 1 && i.alt_down) {
            self.field = cycle_index(self.field, ROSTER_FIELDS, true);
        }
        if self.field == 0 {
            ProfileForm::type_into(&mut self.name, &i.typed);
            if i.backspace {
                self.name.backspace();
            }
        } else if self.field == 1 {
            ProfileForm::type_into(&mut self.alias, &i.typed);
            if i.backspace {
                self.alias.backspace();
            }
        }
        if self.field == 2 {
            if i.left {
                self.country = step_back(self.country, countries);
            }
            if i.right {
                self.country = cycle_index(self.country, countries, true);
            }
        } else if self.field == 3 {
            if i.left {
                self.livery = step_back(self.livery, liveries);
            }
            if i.right {
                self.livery = cycle_index(self.livery, liveries, true);
            }
        } else if self.field == 4 {
            if i.left {
                self.assist = assist_step(self.assist, false);
            }
            if i.right {
                self.assist = assist_step(self.assist, true);
            }
        }
        let save = if self.field >= 2 {
            i.confirm
        } else {
            i.ctrl_s
        };
        if !save {
            return None;
        }
        let n = trim_text(&self.name.chars());
        let name = if n.len() == 0 {
            vec!['D', 'r', 'i', 'v', 'e', 'r']
        } else {
            n
        };
        let a = trim_text(&self.alias.chars());
        let alias = if a.len() == 0 {
            vec!['A', 'p', 'e', 'x']
        } else {
            a
        };
        let country = if self.country > 0 && self.country <= countries - 1 {
            Some(self.country - 1)
        } else {
            None
        };
        proof {
            assert(name@ =~= roster_saved_name(self.name@));
            assert(alias@ =~= roster_saved_alias(self.alias@));
        }
        Some(RosterAction::Save { name, alias, country, livery: self.livery, assist: self.assist })
    }

    /// One frame of the roster manager over `count` drivers, `countries`
    /// country choices and `liveries` liveries. Back leaves (ending the
    /// frame); N (or gamepad X on the list) adds a driver; Delete (or X on
    /// the list) removes the selected one when more than one is left; Tab
    /// switches column and Right goes from the list to the details. On the
    /// list, Up and Down step round the drivers (loading the new one) and
    /// confirming makes the selected driver active. On the details, Up and
    /// Down step round the six fields (W and S only off the text fields),
    /// typing and Backspace edit the name or the alias, Left and Right step
    /// the country, livery or assist profile, and the save keys (confirm off
    /// the text fields, Control and S on them) save the details.
    #[verifier::rlimit(40)]
    pub fn frame(&mut self, i: &RosterInput, count: usize, countries: usize, liveries: usize) -> (r: Vec<
        RosterAction,
    >)
        requires
            old(self).wf(),
            countries > 0,
            liveries > 0,
        ensures
            final(self).wf(),
            i.back ==> r@ == seq![RosterAction::Back] && final(self).column == old(self).column
                && final(self).field == old(self).field && final(self).selected == old(self).selected
                && final(self).name@ == old(self).name@ && final(self).alias@ == old(self).alias@
                && final(self).country == old(self).country && final(self).livery == old(self).livery
                && final(self).assist == old(self).assist,
            !i.back ==> ({
                let new_driver = i.key_n || (old(self).column == 0 && i.pad_x);
                let delete = (i.key_delete || (old(self).column == 0 && i.key_x)) && count > 1;
                let col = if i.tab {
                    1 - old(self).column
                } else if old(self).column == 0 && i.nav_right {
                    1
                } else {
                    old(self).column as int
                };
                let head = roster_head(new_driver, delete, old(self).selected);
                &&& final(self).column == col
                &&& col == 0 ==> {
                    let prev = i.arrow_up || i.alt_up;
                    let next = i.arrow_down || i.alt_down;
                    let sel = if prev && count > 0 {
                        wrap_prev_spec(old(self).selected as int, count as int)
                    } else if next && count > 0 {
                        wrap_next_spec(old(self).selected as int, count as int)
                    } else {
                        old(self).selected as int
                    };
                    &&& final(self).selected == sel
                    &&& final(self).field == old(self).field
                    &&& final(self).name@ == old(self).name@
                    &&& final(self).alias@ == old(self).alias@
                    &&& final(self).country == old(self).country
                    &&& final(self).livery == old(self).livery
                    &&& final(self).assist == old(self).assist
                    &&& r@ == head + roster_list_tail((prev || next) && count > 0, sel as usize, i.confirm)
                }
                &&& col == 1 ==> {
                    let up = i.arrow_up || (old(self).field > 1 && i.alt_up);
                    let f1 = if up {
                        wrap_prev_spec(old(self).field as int, ROSTER_FIELDS as int)
                    } else {
                        old(self).field as int
                    };
                    let down = i.arrow_down || (f1 > 1 && i.alt_down);
                    let f2 = if down {
                        wrap_next_spec(f1, ROSTER_FIELDS as int)
                    } else {
                        f1
                    };
                    let name1 = if f2 == 0 {
                        form_typed(old(self).name@, i.typed@)
                    } else {
                        old(self).name@
                    };
                    let name2 = if f2 == 0 && i.backspace && name1.len() > 0 {
                        name1.drop_last()
                    } else {
                        name1
                    };
                    let alias1 = if f2 == 1 {
                        form_typed(old(self).alias@, i.typed@)
                    } else {
                        old(self).alias@
                    };
                    let alias2 = if f2 == 1 && i.backspace && alias1.len() > 0 {
                        alias1.drop_last()
                    } else {
                        alias1
                    };
                    let c1 = if f2 == 2 && i.left {
                        wrap_prev_spec(old(self).country as int, countries as int)
                    } else {
                        old(self).country as int
                    };
                    let c2 = if f2 == 2 && i.right {
                        wrap_next_spec(c1, countries as int)
                    } else {
                        c1
                    };
                    let l1 = if f2 == 3 && i.left {
                        wrap_prev_spec(old(self).livery as int, liveries as int)
                    } else {
                        old(self).livery as int
                    };
                    let l2 = if f2 == 3 && i.right {
                        wrap_next_spec(l1, liveries as int)
                    } else {
                        l1
                    };
                    let a1 = if f2 == 4 && i.left {
                        assist_step_spec(old(self).assist, false)
                    } else {
                        old(self).assist
                    };
                    let a2 = if f2 == 4 && i.right {
                        assist_step_spec(a1, true)
                    } else {
                        a1
                    };
                    let save = if f2 >= 2 {
                        i.confirm
                    } else {
                        i.ctrl_s
                    };
                    &&& final(self).selected == old(self).selected
                    &&& final(self).field == f2
                    &&& final(self).name@ == name2
                    &&& final(self).alias@ == alias2
                    &&& final(self).country == c2
                    &&& final(self).livery == l2
                    &&& final(self).assist == a2
                    &&& !save ==> r@ == head
                    &&& save ==> r@.len() == head.len() + 1 && r@.take(head.len() as int) == head && (r@.last() matches RosterAction::Save { name, alias, country, livery, assist }
                        && name@ == roster_saved_name(name2) && alias@ == roster_saved_alias(alias2)
                        && country == saved_country(c2 as usize, (countries - 1) as usize) && livery
                        == l2 && assist == a2)
                }
            }),
    {
        let mut acts: Vec<RosterAction> = Vec::new();
        if i.back {
            acts.push(RosterAction::Back);
            return acts;
        }
        if i.key_n || (self.column == 0 && i.pad_x) {
            acts.push(RosterAction::NewDriver);
        }
        if (i.key_delete || (self.column == 0 && i.key_x)) && count > 1 {
            acts.push(RosterAction::DeleteDriver(self.selected));
        }
        let ghost head = acts@;
        assert(head =~= roster_head(
            i.key_n || (old(self).column == 0 && i.pad_x),
            (i.key_delete || (old(self).column == 0 && i.key_x)) && count > 1,
            old(self).selected,
        ));
        if i.tab {
            self.column = 1 - self.column;
        } else if self.column == 0 && i.nav_right {
            self.column = 1;
        }
        if self.column == 0 {
            let mut more = self.list_step(i, count);
            let ghost tail = more@;
            acts.append(&mut more);
            assert(acts@ =~= head + tail);
        } else {
            let saved = self.details_step(i, countries, liveries);
            if let Some(act) = saved {
                acts.push(act);
                assert(acts@.take(head.len() as int) =~= head);
            }
        }
        acts
    }
}

/// Profile the roster editor opens on: the chosen one, or the last profile
/// when the choice is past the end; none when there are no profiles.
pub fn roster_open_index(selected_idx: usize, profile_count: usize) -> (r: Option<usize>)
    ensures
        profile_count == 0 <==> r is None,
        r matches Some(k) ==> k == (if selected_idx < profile_count {
            selected_idx
        } else {
            (profile_count - 1) as usize
        }),
{
    if profile_count == 0 {
        None
    } else if selected_idx < profile_count {
        Some(selected_idx)
    } else {
        Some(profile_count - 1)
    }
}

/// Entry of the country picker for a profile's country code: one past the
/// place of the first registered code that matches it ignoring ASCII case,
/// or 0 (no country) when the profile has none or none matches.
pub fn country_entry(codes: &Vec<Vec<char>>, code: &Option<Vec<char>>) -> (r: usize)
    ensures
        r == 0 ==> match code {
            Some(c) => forall|m: int|
                0 <= m < codes.len() ==> !crate::series::eq_ignore_ascii_case_spec(#[trigger] codes@[m]@, c@),
            None => true,
        },
        r > 0 ==> (code matches Some(c) && r <= codes.len() && crate::series::eq_ignore_ascii_case_spec(
            codes@[r - 1]@,
            c@,
        ) && forall|m: int|
            0 <= m < r - 1 ==> !crate::series::eq_ignore_ascii_case_spec(#[trigger] codes@[m]@, c@)),
{
    match code {
        None => 0,
        Some(c) => {
            let mut k: usize = 0;
            while k < codes.len()
                invariant
                    k <= codes.len(),
                    *code == Some(*c),
                    forall|m: int|
                        0 <= m < k ==> !crate::series::eq_ignore_ascii_case_spec(#[trigger] codes@[m]@, c@),
                decreases codes.len() - k,
            {
                if crate::series::eq_ignore_ascii_case(&codes[k], c) {
                    return k + 1;
                }
                k = k + 1;
            }
            0
        },
    }
}

} // verus!
