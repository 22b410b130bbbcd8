//! The circuit workshop (track manager): its metadata editor, the
//! confirmation dialogs, the module-assignment dialog and the list cursor.
use vstd::prelude::*;
use crate::modules::ModuleId;
use crate::lobby::{cycle_index, wrap_next_spec};

verus! {

/// Control characters (general category Cc): U+0000..=U+001F and
/// U+007F..=U+009F, the code points `char::is_control` accepts.
pub open spec fn is_control_spec(c: char) -> bool {
    (c as u32) <= 0x1F || (0x7F <= (c as u32) && (c as u32) <= 0x9F)
}

/// Whether `c` is a control character (general category Cc).
pub fn is_control_char(c: char) -> (r: bool)
    ensures
        r == is_control_spec(c),
{
    let u = c as u32;
    u <= 0x1F || (0x7F <= u && u <= 0x9F)
}

/// White space (the Unicode White_Space property), the code points
/// `char::is_whitespace` accepts and `str::trim` strips.
pub open spec fn is_white_space_spec(c: char) -> bool {
    let u = c as u32;
    (0x09 <= u && u <= 0x0D) || u == 0x20 || u == 0x85 || u == 0xA0 || u == 0x1680 || (0x2000 <= u
        && u <= 0x200A) || u == 0x2028 || u == 0x2029 || u == 0x202F || u == 0x205F || u == 0x3000
}

/// Whether `c` is white space (Unicode White_Space).
pub fn is_white_space_char(c: char) -> (r: bool)
    ensures
        r == is_white_space_spec(c),
{
    let u = c as u32;
    (0x09 <= u && u <= 0x0D) || u == 0x20 || u == 0x85 || u == 0xA0 || u == 0x1680 || (0x2000 <= u
        && u <= 0x200A) || u == 0x2028 || u == 0x2029 || u == 0x202F || u == 0x205F || u == 0x3000
}

/// Bytes that `c` takes in UTF-8.
pub open spec fn utf8_len(c: char) -> nat {
    let u = c as u32;
    if u < 0x80 {
        1
    } else if u < 0x800 {
        2
    } else if u < 0x10000 {
        3
    } else {
        4
    }
}

/// Bytes that the text `s` takes in UTF-8.
pub open spec fn text_bytes(s: Seq<char>) -> nat
    decreases s.len(),
{
    if s.len() == 0 {
        0
    } else {
        text_bytes(s.drop_last()) + utf8_len(s.last())
    }
}

fn utf8_len_of(c: char) -> (r: usize)
    ensures
        r == utf8_len(c),
{
    let u = c as u32;
    if u < 0x80 {
        1
    } else if u < 0x800 {
        2
    } else if u < 0x10000 {
        3
    } else {
        4
    }
}

/// Text with leading white space removed.
pub open spec fn trim_front(s: Seq<char>) -> Seq<char>
    decreases s.len(),
{
    if s.len() > 0 && is_white_space_spec(s[0]) {
        trim_front(s.drop_first())
    } else {
        s
    }
}

/// Text with trailing white space removed.
pub open spec fn trim_back(s: Seq<char>) -> Seq<char>
    decreases s.len(),
{
    if s.len() > 0 && is_white_space_spec(s.last()) {
        trim_back(s.drop_last())
    } else {
        s
    }
}

/// Text with white space removed at both ends, as `str::trim` does.
pub open spec fn trim_spec(s: Seq<char>) -> Seq<char> {
    trim_back(trim_front(s))
}

proof fn lemma_trim_front_from(s: Seq<char>, i: int)
    requires
        0 <= i <= s.len(),
        forall|k: int| 0 <= k < i ==> is_white_space_spec(#[trigger] s[k]),
    ensures
        trim_front(s) == trim_front(s.subrange(i, s.len() as int)),
    decreases i,
{
    if i > 0 {
        assert(s.drop_first() =~= s.subrange(1, s.len() as int));
        lemma_trim_front_from(s.drop_first(), i - 1);
        assert(s.drop_first().subrange(i - 1, s.drop_first().len() as int) =~= s.subrange(
            i,
            s.len() as int,
        ));
    } else {
        assert(s.subrange(0, s.len() as int) =~= s);
    }
}

proof fn lemma_trim_back_to(s: Seq<char>, j: int)
    requires
        0 <= j <= s.len(),
        forall|k: int| j <= k < s.len() ==> is_white_space_spec(#[trigger] s[k]),
    ensures
        trim_back(s) == trim_back(s.subrange(0, j)),
    decreases s.len() - j,
{
    if j < s.len() {
        assert(s.drop_last() =~= s.subrange(0, s.len() - 1));
        lemma_trim_back_to(s.drop_last(), j);
        assert(s.drop_last().subrange(0, j) =~= s.subrange(0, j));
    } else {
        assert(s.subrange(0, j) =~= s);
    }
}

/// Removes white space at both ends of `s`, as `str::trim` does.
pub fn trim_text(s: &Vec<char>) -> (r: Vec<char>)
    ensures
        r@ == trim_spec(s@),
{
    let n = s.len();
    let mut i: usize = 0;
    while i < n && is_white_space_char(s[i])
        invariant
            n == s@.len(),
            i <= n,
            forall|k: int| 0 <= k < i ==> is_white_space_spec(#[trigger] s@[k]),
        decreases n - i,
    {
        i = i + 1;
    }
    proof {
        lemma_trim_front_from(s@, i as int);
    }
    let ghost front = s@.subrange(i as int, n as int);
    assert(i == n || !is_white_space_spec(front[0]));
    assert(trim_front(front) == front);
    let mut j: usize = n;
    while j > i && is_white_space_char(s[j - 1])
        invariant
            n == s@.len(),
            i <= j <= n,
            front == s@.subrange(i as int, n as int),
            forall|k: int| j - i <= k < front.len() ==> is_white_space_spec(#[trigger] front[k]),
        decreases j,
    {
        j = j - 1;
    }
    proof {
        lemma_trim_back_to(front, j - i);
    }
    let mut out: Vec<char> = Vec::new();
    let mut k: usize = i;
    while k < j
        invariant
            n == s@.len(),
            i <= k <= j <= n,
            out@ =~= s@.subrange(i as int, k as int),
        decreases j - k,
    {
        out.push(s[k]);
        k = k + 1;
    }
    assert(front.subrange(0, j - i) =~= s@.subrange(i as int, j as int));
    out
}

/// Most bytes a circuit name may hold before typing stops adding to it.
pub const NAME_LIMIT_BYTES: usize = 32;

/// Most bytes a circuit description may hold before typing stops adding to it.
pub const DESCRIPTION_LIMIT_BYTES: usize = 140;

/// Text after typing `c` with the given byte limit: a control character is
/// ignored, and so is any character once the text holds `limit` bytes or more.
pub open spec fn typed_char(s: Seq<char>, c: char, limit: usize) -> Seq<char> {
    if !is_control_spec(c) && text_bytes(s) < limit {
        s.push(c)
    } else {
        s
    }
}

/// Text after typing the characters of `typed` in order.
pub open spec fn typed_text(s: Seq<char>, typed: Seq<char>, limit: usize) -> Seq<char>
    decreases typed.len(),
{
    if typed.len() == 0 {
        s
    } else {
        typed_char(typed_text(s, typed.drop_last(), limit), typed.last(), limit)
    }
}

/// A text within its limit stays within three bytes past it however much
/// is typed: typing stops adding once the limit is reached.
pub proof fn lemma_typing_respects_limit(s: Seq<char>, typed: Seq<char>, limit: usize)
    requires
        text_bytes(s) <= limit + 3,
    ensures
        text_bytes(typed_text(s, typed, limit)) <= limit + 3,
    decreases typed.len(),
{
    if typed.len() > 0 {
        lemma_typing_respects_limit(s, typed.drop_last(), limit);
        let t = typed_text(s, typed.drop_last(), limit);
        if !is_control_spec(typed.last()) && text_bytes(t) < limit {
            assert(t.push(typed.last()).drop_last() =~= t);
        }
    }
}

/// A text being typed, with its length in UTF-8 bytes.
#[derive(Debug, Clone)]
pub struct TextField {
    chars: Vec<char>,
    bytes: usize,
}

impl View for TextField {
    type V = Seq<char>;

    closed spec fn view(&self) -> Seq<char> {
        self.chars@
    }
}

impl TextField {
    /// The byte count matches the text.
    pub closed spec fn wf(&self) -> bool {
        self.bytes == text_bytes(self.chars@)
    }

    /// An empty field.
    pub fn new() -> (r: TextField)
        ensures
            r.wf(),
            r@ == Seq::<char>::empty(),
    {
        TextField { chars: Vec::new(), bytes: 0 }
    }

    /// A field holding `text`.
    pub fn from_chars(text: &Vec<char>) -> (r: TextField)
        requires
            text@.len() <= usize::MAX / 4,
        ensures
            r.wf(),
            r@ == text@,
    {
        let mut f = TextField::new();
        let mut k: usize = 0;
        while k < text.len()
            invariant
                k <= text@.len() <= usize::MAX / 4,
                f.wf(),
                f@ =~= text@.subrange(0, k as int),
                f.bytes <= 4 * k,
            decreases text@.len() - k,
        {
            let c = text[k];
            let w = utf8_len_of(c);
            proof {
                assert(f@.push(c).drop_last() =~= f@);
            }
            f.chars.push(c);
            f.bytes = f.bytes + w;
            k = k + 1;
        }
        f
    }

    /// Length of the text in UTF-8 bytes.
    pub fn byte_len(&self) -> (r: usize)
        requires
            self.wf(),
        ensures
            r == text_bytes(self@),
    {
        self.bytes
    }

    /// The text, character by character.
    pub fn chars(&self) -> (r: Vec<char>)
        ensures
            r@ == self@,
    {
        self.chars.clone()
    }

    /// Types `c` when `accepted` holds and the text holds fewer than `limit`
    /// bytes; otherwise the text stays as it is.
    pub fn type_char_if(&mut self, c: char, limit: usize, accepted: bool)
        requires
            old(self).wf(),
            limit <= usize::MAX - 4,
        ensures
            final(self).wf(),
            final(self)@ == (if accepted && text_bytes(old(self)@) < limit {
                old(self)@.push(c)
            } else {
                old(self)@
            }),
    {
        if accepted && self.bytes < limit {
            let w = utf8_len_of(c);
            proof {
                assert(self.chars@.push(c).drop_last() =~= self.chars@);
            }
            self.chars.push(c);
            self.bytes = self.bytes + w;
        }
    }

    /// Types `c`: a control character is ignored, and so is any character
    /// once the text holds `limit` bytes or more.
    pub fn type_char(&mut self, c: char, limit: usize)
        requires
            old(self).wf(),
            limit <= usize::MAX - 4,
        ensures
            final(self).wf(),
            final(self)@ == typed_char(old(self)@, c, limit),
    {
        let ok = !is_control_char(c);
        self.type_char_if(c, limit, ok);
    }

    /// Removes the last character, if any.
    pub fn backspace(&mut self)
        requires
            old(self).wf(),
        ensures
            final(self).wf(),
            final(self)@ == (if old(self)@.len() > 0 {
                old(self)@.drop_last()
            } else {
                old(self)@
            }),
    {
        if self.chars.len() > 0 {
            let c = self.chars.pop().unwrap();
            let w = utf8_len_of(c);
            self.bytes = self.bytes - w;
        }
    }
}

/// Which field of the metadata editor receives the typing.
#[derive(Debug, Clone, Copy, PartialEq, Eq, Structural)]
pub enum MetadataField {
    Name,
    Description,
}

/// The metadata editor of a circuit: its name and description being typed.
#[derive(Debug, Clone)]
pub struct MetadataEditor {
    pub name: TextField,
    pub description: TextField,
    pub field: MetadataField,
}

/// What the player did in the metadata editor during one frame.
#[derive(Debug, Clone)]
pub struct MetadataInput {
    /// Characters typed, in order.
    pub typed: Vec<char>,
    pub backspace: bool,
    /// Tab, Up or Down: switch between name and description.
    pub switch_field: bool,
    /// Enter or keypad Enter: close and save.
    pub enter: bool,
    pub escape: bool,
}

/// How a frame of the metadata editor ends.
#[derive(Debug, Clone)]
pub enum MetadataOutcome {
    /// The editor stays open.
    Editing,
    /// The editor closes and the circuit takes this name and description.
    Save { name: Vec<char>, description: Vec<char> },
    /// The editor closes and nothing is saved (Escape, or a blank name).
    Close,
}

impl MetadataEditor {
    pub open spec fn wf(&self) -> bool {
        self.name.wf() && self.description.wf()
    }

    /// The editor opened on a circuit's current name and description, with
    /// the name field active.
    pub fn open(name: &Vec<char>, description: &Vec<char>) -> (r: MetadataEditor)
        requires
            name@.len() <= usize::MAX / 4,
            description@.len() <= usize::MAX / 4,
        ensures
            r.wf(),
            r.name@ == name@,
            r.description@ == description@,
            r.field == MetadataField::Name,
    {
        MetadataEditor {
            name: TextField::from_chars(name),
            description: TextField::from_chars(description),
            field: MetadataField::Name,
        }
    }

    /// One frame of the editor: the typed characters go to the active field
    /// (name up to 32 bytes, description up to 140), Backspace removes the
    /// active field's last character, then the field switches; Enter closes
    /// and saves the trimmed texts when the trimmed name is not blank, Escape
    /// closes without saving.
    pub fn frame(&mut self, input: &MetadataInput) -> (r: MetadataOutcome)
        requires
            old(self).wf(),
        ensures
            final(self).wf(),
            ({
                let typed_name = if old(self).field is Name {
                    typed_text(old(self).name@, input.typed@, NAME_LIMIT_BYTES)
                } else {
                    old(self).name@
                };
                let typed_desc = if old(self).field is Description {
                    typed_text(old(self).description@, input.typed@, DESCRIPTION_LIMIT_BYTES)
                } else {
                    old(self).description@
                };
                let name = if input.backspace && old(self).field is Name && typed_name.len() > 0 {
                    typed_name.drop_last()
                } else {
                    typed_name
                };
                let desc = if input.backspace && old(self).field is Description && typed_desc.len()
                    > 0 {
                    typed_desc.drop_last()
                } else {
                    typed_desc
                };
                &&& final(self).name@ == name
                &&& final(self).description@ == desc
                &&& final(self).field == (if input.switch_field {
                    if old(self).field is Name {
                        MetadataField::Description
                    } else {
                        MetadataField::Name
                    }
                } else {
                    old(self).field
                })
                &&& input.enter && trim_spec(name).len() > 0 ==> (r matches MetadataOutcome::Save {
                    name: n,
                    description: d,
                } && n@ == trim_spec(name) && d@ == trim_spec(desc))
                &&& input.enter && trim_spec(name).len() == 0 ==> r is Close
                &&& !input.enter && input.escape ==> r is Close
                &&& !input.enter && !input.escape ==> r is Editing
            }),
    {
        let ghost name0 = self.name@;
        let ghost desc0 = self.description@;
        let mut k: usize = 0;
        while k < input.typed.len()
            invariant
                k <= input.typed@.len(),
                self.wf(),
                self.field == old(self).field,
                self.field is Name ==> self.name@ == typed_text(name0, input.typed@.subrange(0, k as int), NAME_LIMIT_BYTES),
                self.field is Name ==> self.description@ == desc0,
                self.field is Description ==> self.description@ == typed_text(desc0, input.typed@.subrange(0, k as int), DESCRIPTION_LIMIT_BYTES),
                self.field is Description ==> self.name@ == name0,
            decreases input.typed@.len() - k,
        {
            let c = input.typed[k];
            proof {
                let t = input.typed@.subrange(0, k + 1);
                assert(t.drop_last() =~= input.typed@.subrange(0, k as int));
                assert(t.last() == c);
            }
            match self.field {
                MetadataField::Name => self.name.type_char(c, NAME_LIMIT_BYTES),
                MetadataField::Description => self.description.type_char(c, DESCRIPTION_LIMIT_BYTES),
            }
            k = k + 1;
        }
        proof {
            assert(input.typed@.subrange(0, input.typed@.len() as int) =~= input.typed@);
        }
        if input.backspace {
            match self.field {
                MetadataField::Name => self.name.backspace(),
                MetadataField::Description => self.description.backspace(),
            }
        }
        if input.switch_field {
            self.field = match self.field {
                MetadataField::Name => MetadataField::Description,
                MetadataField::Description => MetadataField::Name,
            };
        }
        if input.enter {
            let n = trim_text(&self.name.chars);
            if n.len() > 0 {
                let d = trim_text(&self.description.chars);
                return MetadataOutcome::Save { name: n, description: d };
            }
            return MetadataOutcome::Close;
        }
        if input.escape {
            MetadataOutcome::Close
        } else {
            MetadataOutcome::Editing
        }
    }
}

/// What the player did in a two-button confirmation dialog (cancel on the
/// left at cursor 0, confirm on the right at cursor 1) during one frame.
#[derive(Debug, Clone, Copy, PartialEq, Eq, Structural)]
pub struct ConfirmInput {
    pub hover_cancel: bool,
    pub hover_confirm: bool,
    pub click_cancel: bool,
    pub click_confirm: bool,
    /// Left, A, or a gamepad left.
    pub nav_left: bool,
    /// Right, D, or a gamepad right.
    pub nav_right: bool,
    /// Up, Down, W, S, Tab, or a gamepad up or down.
    pub nav_vertical: bool,
    /// Enter, keypad Enter, Space, gamepad confirm or A: press the button under the cursor.
    pub press: bool,
    /// The Y key: confirm directly.
    pub key_yes: bool,
    /// Escape or the N key: cancel directly.
    pub key_no: bool,
    /// Gamepad back or B: cancel directly.
    pub pad_back: bool,
}

/// How a frame of a confirmation dialog ends.
#[derive(Debug, Clone, Copy, PartialEq, Eq, Structural)]
pub enum ConfirmOutcome {
    /// The dialog stays open with the cursor on this button.
    Open(usize),
    Confirmed,
    Cancelled,
}

/// Cursor after hovering and moving: hovering picks a button, and any move
/// goes to the other button.
pub open spec fn confirm_cursor_spec(cursor: usize, i: ConfirmInput) -> usize {
    let a: usize = if i.hover_cancel {
        0
    } else {
        cursor
    };
    let b: usize = if i.hover_confirm {
        1
    } else {
        a
    };
    if i.nav_left || i.nav_right || i.nav_vertical {
        (1 - b) as usize
    } else {
        b
    }
}

/// One frame of the delete confirmation: the cursor moves, then the dialog
/// confirms (click on confirm, press on confirm, or Y), else cancels (click
/// on cancel, press on cancel, Escape, N, gamepad back), else stays open.
pub fn confirm_dialog_step(cursor: usize, i: ConfirmInput) -> (r: ConfirmOutcome)
    requires
        cursor <= 1,
    ensures
        ({
            let c = confirm_cursor_spec(cursor, i);
            &&& c <= 1
            &&& (i.click_confirm || (i.press && c == 1) || i.key_yes) ==> r == ConfirmOutcome::Confirmed
            &&& !(i.click_confirm || (i.press && c == 1) || i.key_yes) && (i.click_cancel || (i.press
                && c == 0) || i.key_no || i.pad_back) ==> r == ConfirmOutcome::Cancelled
            &&& !(i.click_confirm || (i.press && c == 1) || i.key_yes) && !(i.click_cancel || (
            i.press && c == 0) || i.key_no || i.pad_back) ==> r == ConfirmOutcome::Open(c)
        }),
{
    let mut c = cursor;
    if i.hover_cancel {
        c = 0;
    }
    if i.hover_confirm {
        c = 1;
    }
    if i.nav_left {
        c = if c == 0 {
            1
        } else {
            0
        };
    } else if i.nav_right {
        c = if c == 1 {
            0
        } else {
            1
        };
    } else if i.nav_vertical {
        c = 1 - c;
    }
    if i.click_confirm || (i.press && c == 1) || i.key_yes {
        ConfirmOutcome::Confirmed
    } else if i.click_cancel || (i.press && c == 0) || i.key_no || i.pad_back {
        ConfirmOutcome::Cancelled
    } else {
        ConfirmOutcome::Open(c)
    }
}

/// One frame of the promote and demote confirmations, which have no cursor:
/// `yes` (Enter, keypad Enter, Space, Y, gamepad confirm or A) confirms,
/// else `no` (Escape, N, gamepad back or B) cancels.
pub fn yes_no_step(yes: bool, no: bool) -> (r: ConfirmOutcome)
    ensures
        yes ==> r == ConfirmOutcome::Confirmed,
        !yes && no ==> r == ConfirmOutcome::Cancelled,
        !yes && !no ==> r == ConfirmOutcome::Open(0),
{
    if yes {
        ConfirmOutcome::Confirmed
    } else if no {
        ConfirmOutcome::Cancelled
    } else {
        ConfirmOutcome::Open(0)
    }
}

/// How a frame of the edit prompt for an official circuit ends.
#[derive(Debug, Clone, Copy, PartialEq, Eq, Structural)]
pub enum CloneOutcome {
    /// The prompt stays open with this choice (0 overwrite, 1 clone).
    Open(usize),
    /// Edit the official circuit in place (developer mode only).
    OverwritePreset,
    /// Copy the circuit to the drafts and edit the copy.
    CloneToDrafts,
    Cancelled,
}

/// One frame of the edit prompt for an official circuit. In developer mode
/// Up or 1 picks overwriting (0) and Down or 2 cloning (1); confirming then
/// overwrites in developer mode with choice 0 and clones otherwise; back
/// cancels. (When the copy cannot be made, the prompt carries on as in a
/// frame without confirmation.)
pub fn clone_prompt_step(dev_mode: bool, choice: usize, pick_overwrite: bool, pick_clone: bool, confirm: bool, back: bool) -> (r: CloneOutcome)
    ensures
        ({
            let c1: usize = if dev_mode && pick_overwrite {
                0
            } else {
                choice
            };
            let c2: usize = if dev_mode && pick_clone {
                1
            } else {
                c1
            };
            &&& confirm && dev_mode && c2 == 0 ==> r == CloneOutcome::OverwritePreset
            &&& confirm && !(dev_mode && c2 == 0) ==> r == CloneOutcome::CloneToDrafts
            &&& !confirm && back ==> r == CloneOutcome::Cancelled
            &&& !confirm && !back ==> r == CloneOutcome::Open(c2)
        }),
{
    let mut c = choice;
    if dev_mode {
        if pick_overwrite {
            c = 0;
        }
        if pick_clone {
            c = 1;
        }
    }
    if confirm {
        if dev_mode && c == 0 {
            CloneOutcome::OverwritePreset
        } else {
            CloneOutcome::CloneToDrafts
        }
    } else if back {
        CloneOutcome::Cancelled
    } else {
        CloneOutcome::Open(c)
    }
}

/// Module offered at position `k` of the module-assignment dialog.
pub open spec fn promotion_module(k: int) -> ModuleId {
    if k == 1 {
        ModuleId::Rally
    } else if k == 2 {
        ModuleId::Kart
    } else if k == 3 {
        ModuleId::Gt
    } else {
        ModuleId::Classic
    }
}

/// Position of the assignment dialog that starts selected for a circuit
/// listed under `m` when it belongs to no module yet.
pub open spec fn promotion_default_spec(m: ModuleId) -> usize {
    match m {
        ModuleId::Rally => 1,
        ModuleId::Kart => 2,
        ModuleId::Gt => 3,
        _ => 0,
    }
}

/// Modules ticked in `mask`, in the dialog's order.
pub open spec fn ticked_modules(mask: Seq<bool>) -> Seq<ModuleId> {
    let m0: Seq<ModuleId> = if mask[0] {
        seq![ModuleId::Classic]
    } else {
        Seq::empty()
    };
    let m1: Seq<ModuleId> = if mask[1] {
        m0.push(ModuleId::Rally)
    } else {
        m0
    };
    let m2: Seq<ModuleId> = if mask[2] {
        m1.push(ModuleId::Kart)
    } else {
        m1
    };
    if mask[3] {
        m2.push(ModuleId::Gt)
    } else {
        m2
    }
}

/// The module-assignment dialog: which modules are ticked, and the cursor.
#[derive(Debug, Clone, Copy, PartialEq, Eq)]
pub struct PromotionDialog {
    pub cursor: usize,
    pub mask: [bool; 4],
}

/// What the player did in the module-assignment dialog during one frame.
#[derive(Debug, Clone, Copy, PartialEq, Eq, Structural)]
pub struct PromotionInput {
    /// Number key 1 to 4 pressed, as a position 0 to 3.
    pub digit: Option<usize>,
    /// Up, W, Left, or a gamepad up or left.
    pub nav_back: bool,
    /// Down, S, Right, or a gamepad down or right.
    pub nav_forward: bool,
    /// Space, gamepad X or Y: tick or untick the module under the cursor.
    pub toggle: bool,
    /// Enter, keypad Enter, gamepad confirm or A.
    pub confirm: bool,
    /// Escape, gamepad back or B.
    pub back: bool,
}

/// How a frame of the module-assignment dialog ends.
#[derive(Debug, Clone, PartialEq, Eq)]
pub enum PromotionOutcome {
    Open,
    /// Assign the circuit to these modules.
    Assign(Vec<ModuleId>),
    Cancelled,
}

/// Position of the assignment dialog that starts selected for a circuit
/// listed under `m` when it belongs to no module yet: Rally 1, Kart 2, GT 3,
/// any other 0 (Classic).
pub fn promotion_default_index(m: ModuleId) -> (r: usize)
    ensures
        r == promotion_default_spec(m),
{
    match m {
        ModuleId::Rally => 1,
        ModuleId::Kart => 2,
        ModuleId::Gt => 3,
        _ => 0,
    }
}

impl PromotionDialog {
    pub open spec fn wf(&self) -> bool {
        self.cursor < 4
    }

    /// The dialog opened on a circuit that belongs to the modules ticked in
    /// `member`: a circuit in no module starts with the default module of
    /// `listed_under` ticked; the cursor starts on the first ticked module.
    pub fn open(member: [bool; 4], listed_under: ModuleId) -> (r: PromotionDialog)
        ensures
            r.wf(),
            ({
                let any = member@.contains(true);
                let d = promotion_default_spec(listed_under);
                &&& any ==> r.mask@ == member@
                &&& !any ==> r.mask@ == member@.update(d as int, true)
                &&& r.mask@[r.cursor as int]
                &&& forall|k: int| 0 <= k < r.cursor ==> !#[trigger] r.mask@[k]
            }),
    {
        let d = promotion_default_index(listed_under);
        let mut mask = member;
        let mut k: usize = 0;
        while k < 4
            invariant
                k <= 4,
                mask@ == member@,
                forall|j: int| 0 <= j < k ==> !#[trigger] member@[j],
            decreases 4 - k,
        {
            if member[k] {
                proof {
                    assert(member@.contains(true));
                }
                return PromotionDialog { cursor: k, mask };
            }
            k = k + 1;
        }
        proof {
            assert(!member@.contains(true));
        }
        mask[d] = true;
        PromotionDialog { cursor: d, mask }
    }

    /// One frame of the dialog: a number key ticks or unticks its module and
    /// moves the cursor there, else the cursor moves back or forward within
    /// the four modules; the toggle then ticks or unticks the module under
    /// the cursor. Confirming assigns the ticked modules, or `fallback` when
    /// none is ticked; back cancels.
    pub fn frame(&mut self, i: PromotionInput, fallback: ModuleId) -> (r: PromotionOutcome)
        requires
            old(self).wf(),
        ensures
            final(self).wf(),
            ({
                let (c1, m1) = match i.digit {
                    Some(k) => if k < 4 {
                        (k, old(self).mask@.update(k as int, !old(self).mask@[k as int]))
                    } else {
                        (old(self).cursor, old(self).mask@)
                    },
                    None => if i.nav_back {
                        (if old(self).cursor > 0 {
                            (old(self).cursor - 1) as usize
                        } else {
                            0
                        }, old(self).mask@)
                    } else if i.nav_forward {
                        (if old(self).cursor + 1 < 4 {
                            (old(self).cursor + 1) as usize
                        } else {
                            old(self).cursor
                        }, old(self).mask@)
                    } else {
                        (old(self).cursor, old(self).mask@)
                    },
                };
                let m2 = if i.toggle {
                    m1.update(c1 as int, !m1[c1 as int])
                } else {
                    m1
                };
                &&& final(self).cursor == c1
                &&& final(self).mask@ == m2
                &&& i.confirm && ticked_modules(m2).len() > 0 ==> (r matches PromotionOutcome::Assign(v)
                    && v@ == ticked_modules(m2))
                &&& i.confirm && ticked_modules(m2).len() == 0 ==> (r matches PromotionOutcome::Assign(v)
                    && v@ == seq![fallback])
                &&& !i.confirm && i.back ==> r is Cancelled
                &&& !i.confirm && !i.back ==> r is Open
            }),
    {
        match i.digit {
            Some(k) => {
                if k < 4 {
                    self.mask[k] = !self.mask[k];
                    self.cursor = k;
                }
            },
            None => {
                if i.nav_back {
                    if self.cursor > 0 {
                        self.cursor = self.cursor - 1;
                    }
                } else if i.nav_forward {
                    if self.cursor + 1 < 4 {
                        self.cursor = self.cursor + 1;
                    }
                }
            },
        }
        if i.toggle {
            let c = self.cursor;
            self.mask[c] = !self.mask[c];
        }
        if i.confirm {
            let mut v: Vec<ModuleId> = Vec::new();
            if self.mask[0] {
                v.push(ModuleId::Classic);
            }
            if self.mask[1] {
                v.push(ModuleId::Rally);
            }
            if self.mask[2] {
                v.push(ModuleId::Kart);
            }
            if self.mask[3] {
                v.push(ModuleId::Gt);
            }
            assert(v@ =~= ticked_modules(self.mask@));
            if v.len() == 0 {
                v.push(fallback);
            }
            PromotionOutcome::Assign(v)
        } else if i.back {
            PromotionOutcome::Cancelled
        } else {
            PromotionOutcome::Open
        }
    }
}

/// Cursor kept on a list that may have shrunk: past the end it moves to the
/// last entry; an empty list keeps it where it was.
pub fn clamp_selection(idx: usize, len: usize) -> (r: usize)
    ensures
        r == (if len > 0 && idx >= len {
            (len - 1) as usize
        } else {
            idx
        }),
        len > 0 ==> r < len,
{
    if len > 0 && idx >= len {
        len - 1
    } else {
        idx
    }
}

/// Cursor after Up in the circuit list: the previous entry, from the first
/// round to the last (0 on an empty list).
pub fn list_cursor_up(idx: usize, len: usize) -> (r: usize)
    ensures
        r == (if idx == 0 {
            if len > 0 {
                (len - 1) as usize
            } else {
                0
            }
        } else {
            (idx - 1) as usize
        }),
{
    if idx == 0 {
        if len > 0 {
            len - 1
        } else {
            0
        }
    } else {
        idx - 1
    }
}

/// Cursor after Down in the circuit list: the next entry, from the last
/// round to the first; an empty list keeps the cursor.
pub fn list_cursor_down(idx: usize, len: usize) -> (r: usize)
    ensures
        len > 0 ==> r == wrap_next_spec(idx as int, len as int),
        len == 0 ==> r == idx,
{
    if len > 0 {
        cycle_index(idx, len, true)
    } else {
        idx
    }
}

/// Tab of the circuit workshop.
#[derive(Debug, Clone, Copy, PartialEq, Eq, Structural)]
pub enum WorkshopTab {
    /// The approved circuits of a module.
    Main,
    Drafts,
    /// Developer workbench (developer mode only).
    DevWorkbench,
}

/// Circuit list shown by the workshop.
#[derive(Debug, Clone, Copy, PartialEq, Eq, Structural)]
pub enum WorkshopFilter {
    Classic,
    Rally,
    Kart,
    Gt,
    Nascar,
    Drafts,
}

/// Workshop shortcut key.
#[derive(Debug, Clone, Copy, PartialEq, Eq, Structural)]
pub enum WorkshopKey {
    /// Number keys 1 to 5: Classic, Rally, Kart, GT, NASCAR.
    Module(WorkshopFilter),
    /// Number key 9: the drafts.
    Drafts,
    /// Tab: between the approved circuits and the drafts.
    Toggle,
}

/// Tab, list and cursor after a shortcut key: a number key opens its
/// module's approved circuits (unless already shown), 9 opens the drafts
/// (unless already shown), Tab goes from the drafts to Classic and from
/// anything else to the drafts; any change puts the cursor on the first entry.
pub fn workshop_key(tab: WorkshopTab, filter: WorkshopFilter, idx: usize, key: WorkshopKey) -> (r: (
    WorkshopTab,
    WorkshopFilter,
    usize,
))
    requires
        key matches WorkshopKey::Module(f) ==> f != WorkshopFilter::Drafts,
    ensures
        key matches WorkshopKey::Module(f) ==> r == (if tab == WorkshopTab::Drafts || filter != f {
            (WorkshopTab::Main, f, 0usize)
        } else {
            (tab, filter, idx)
        }),
        key is Drafts ==> r == (if tab != WorkshopTab::Drafts || filter != WorkshopFilter::Drafts {
            (WorkshopTab::Drafts, WorkshopFilter::Drafts, 0usize)
        } else {
            (tab, filter, idx)
        }),
        key is Toggle ==> r == (if filter == WorkshopFilter::Drafts || tab == WorkshopTab::Drafts {
            (WorkshopTab::Main, WorkshopFilter::Classic, 0usize)
        } else {
            (WorkshopTab::Drafts, WorkshopFilter::Drafts, 0usize)
        }),
{
    match key {
        WorkshopKey::Module(f) => {
            if tab == WorkshopTab::Drafts || filter != f {
                (WorkshopTab::Main, f, 0)
            } else {
                (tab, filter, idx)
            }
        },
        WorkshopKey::Drafts => {
            if tab != WorkshopTab::Drafts || filter != WorkshopFilter::Drafts {
                (WorkshopTab::Drafts, WorkshopFilter::Drafts, 0)
            } else {
                (tab, filter, idx)
            }
        },
        WorkshopKey::Toggle => {
            if filter == WorkshopFilter::Drafts || tab == WorkshopTab::Drafts {
                (WorkshopTab::Main, WorkshopFilter::Classic, 0)
            } else {
                (WorkshopTab::Drafts, WorkshopFilter::Drafts, 0)
            }
        },
    }
}

/// Kind of the circuit under the workshop's cursor.
#[derive(Debug, Clone, Copy, PartialEq, Eq, Structural)]
pub enum CircuitKind {
    /// An official circuit shipped with the game.
    Preset,
    /// A circuit of the player's (custom or draft).
    Custom,
}

/// Command keys of the workshop pressed during one frame.
#[derive(Debug, Clone, Copy, PartialEq, Eq, Structural)]
pub struct WorkshopKeys {
    /// Enter, keypad Enter, Space, gamepad confirm or A.
    pub confirm: bool,
    /// E or gamepad X.
    pub edit: bool,
    pub key_c: bool,
    /// P or gamepad Y.
    pub promote: bool,
    /// Control (or Command) held.
    pub ctrl: bool,
    pub key_n: bool,
    pub key_i: bool,
    /// Delete or Backspace.
    pub delete: bool,
    /// Escape or gamepad back.
    pub back: bool,
}

/// What a frame of workshop commands asks for, in order.
#[derive(Debug, Clone, Copy, PartialEq, Eq, Structural)]
pub enum WorkshopCommand {
    /// Race the selected circuit (developer workbench).
    RaceOnWorkbench,
    /// Open the official circuit itself in the editor (developer mode).
    EditPreset,
    /// Ask whether to copy the official circuit before editing.
    PromptClone,
    /// Open the player's circuit in the editor.
    EditCircuit,
    /// Copy the circuit to the drafts; when the copy is made the frame ends.
    CloneToDrafts,
    /// The command is not allowed on an official circuit.
    Refused,
    /// Open the module-assignment dialog.
    AssignModules,
    /// Ask whether to turn the official circuit into a custom one.
    ConfirmDemote,
    /// Ask whether to make the custom circuit official.
    ConfirmPromote,
    /// Create a new circuit in the list shown (the cursor goes to it).
    NewCircuit,
    /// Open the metadata editor.
    EditMetadata,
    /// Ask whether to delete the circuit.
    ConfirmDelete,
    /// Back to the circuit menu.
    Back,
}

/// Cursor keys of the workshop pressed during one frame.
#[derive(Debug, Clone, Copy, PartialEq, Eq, Structural)]
pub struct WorkshopCursorKeys {
    /// A Shift or Alt key held.
    pub shift_or_alt: bool,
    /// Up arrow or W.
    pub key_up: bool,
    /// Down arrow or S.
    pub key_down: bool,
    pub page_up: bool,
    pub page_down: bool,
    /// Gamepad up.
    pub pad_up: bool,
    /// Gamepad down.
    pub pad_down: bool,
}

/// Result of the workshop's cursor keys: a request to move the official
/// circuit under the cursor one place up (`Some(true)`) or down
/// (`Some(false)`) in its module's order, and the cursor.
pub open spec fn workshop_cursor_spec(dev_mode: bool, k: WorkshopCursorKeys, selected: Option<CircuitKind>, idx: usize, len: usize) -> (
    Option<bool>,
    usize,
) {
    let reorder_up = dev_mode && ((k.shift_or_alt && k.key_up) || k.page_up);
    let reorder_down = dev_mode && ((k.shift_or_alt && k.key_down) || k.page_down);
    if reorder_up || reorder_down {
        (if selected == Some(CircuitKind::Preset) {
            Some(reorder_up)
        } else {
            None
        }, idx)
    } else {
        let i1: usize = if k.key_up || k.pad_up {
            if idx == 0 {
                if len > 0 {
                    (len - 1) as usize
                } else {
                    0
                }
            } else {
                (idx - 1) as usize
            }
        } else {
            idx
        };
        let i2: usize = if (k.key_down || k.pad_down) && len > 0 {
            wrap_next_spec(i1 as int, len as int) as usize
        } else {
            i1
        };
        (None, i2)
    }
}

/// The workshop's cursor keys over a list of `len` circuits, with the
/// circuit under the cursor of kind `selected` (`None` off the list). In
/// developer mode Shift or Alt with Up or Down, or Page Up or Page Down, ask
/// to move an official circuit up or down its module's order (any other
/// circuit stays where it is) and keep the cursor; otherwise Up (W, gamepad
/// up) steps the cursor back, from the first circuit to the last, and Down
/// (S, gamepad down) steps it on, from the last to the first.
pub fn workshop_cursor(dev_mode: bool, k: WorkshopCursorKeys, selected: Option<CircuitKind>, idx: usize, len: usize) -> (r: (
    Option<bool>,
    usize,
))
    ensures
        r == workshop_cursor_spec(dev_mode, k, selected, idx, len),
{
    let reorder_up = dev_mode && ((k.shift_or_alt && k.key_up) || k.page_up);
    let reorder_down = dev_mode && ((k.shift_or_alt && k.key_down) || k.page_down);
    if reorder_up || reorder_down {
        let is_preset = match selected {
            Some(CircuitKind::Preset) => true,
            _ => false,
        };
        return (if is_preset {
            Some(reorder_up)
        } else {
            None
        }, idx);
    }
    let mut i = idx;
    if k.key_up || k.pad_up {
        i = list_cursor_up(i, len);
    }
    if (k.key_down || k.pad_down) && len > 0 {
        i = list_cursor_down(i, len);
    }
    (None, i)
}

/// Cursor after a request to move an official circuit: one place up or down
/// with the circuit when it moved (staying on the list), unchanged when it
/// did not move.
pub fn cursor_after_reorder(idx: usize, len: usize, up: bool, moved: bool) -> (r: usize)
    ensures
        r == (if !moved {
            idx
        } else if up {
            if idx > 0 {
                (idx - 1) as usize
            } else {
                0
            }
        } else {
            let last: usize = if len > 0 {
                (len - 1) as usize
            } else {
                0
            };
            if idx < last {
                (idx + 1) as usize
            } else {
                last
            }
        }),
{
    if !moved {
        idx
    } else if up {
        if idx > 0 {
            idx - 1
        } else {
            0
        }
    } else {
        let last: usize = if len > 0 {
            len - 1
        } else {
            0
        };
        if idx < last {
            idx + 1
        } else {
            last
        }
    }
}

/// Whether a command may change the circuit of kind `kind` (players may not
/// change official circuits outside developer mode).
pub open spec fn may_change(kind: CircuitKind, dev_mode: bool) -> bool {
    kind is Custom || dev_mode
}

/// The commands of a frame of the workshop after its cursor keys, for the
/// circuit under the cursor (`None` on an empty list). Racing (workbench)
/// and editing end the frame; copying goes on; the module and promotion keys
/// open their dialogs (ending the frame) or are refused; a new circuit moves
/// the cursor off the list of the frame, so the metadata and delete keys find
/// no circuit after it; metadata, delete and back end the frame.
pub open spec fn workshop_commands_spec(dev_mode: bool, workbench: bool, selected: Option<CircuitKind>, k: WorkshopKeys) -> Seq<
    WorkshopCommand,
> {
    if workbench && k.confirm && selected is Some {
        seq![WorkshopCommand::RaceOnWorkbench]
    } else if ((!workbench && (k.confirm || k.edit)) || (workbench && k.edit)) && selected is Some {
        seq![
            if selected->0 is Custom {
                WorkshopCommand::EditCircuit
            } else if dev_mode {
                WorkshopCommand::EditPreset
            } else {
                WorkshopCommand::PromptClone
            },
        ]
    } else {
        let a1: Seq<WorkshopCommand> = if k.key_c && selected is Some {
            seq![WorkshopCommand::CloneToDrafts]
        } else {
            Seq::empty()
        };
        if k.promote && selected is Some && (may_change(selected->0, dev_mode) || (!k.ctrl && dev_mode)) {
            a1.push(
                if k.ctrl || !dev_mode {
                    WorkshopCommand::AssignModules
                } else if selected->0 is Preset {
                    WorkshopCommand::ConfirmDemote
                } else {
                    WorkshopCommand::ConfirmPromote
                },
            )
        } else {
            let a2 = if k.promote && selected is Some {
                a1.push(WorkshopCommand::Refused)
            } else {
                a1
            };
            let a3 = if k.key_n {
                a2.push(WorkshopCommand::NewCircuit)
            } else {
                a2
            };
            let sel = if k.key_n {
                None
            } else {
                selected
            };
            if k.key_i && sel is Some && may_change(sel->0, dev_mode) {
                a3.push(WorkshopCommand::EditMetadata)
            } else {
                let a4 = if k.key_i && sel is Some {
                    a3.push(WorkshopCommand::Refused)
                } else {
                    a3
                };
                if k.delete && sel is Some && may_change(sel->0, dev_mode) {
                    a4.push(WorkshopCommand::ConfirmDelete)
                } else {
                    let a5 = if k.delete && sel is Some {
                        a4.push(WorkshopCommand::Refused)
                    } else {
                        a4
                    };
                    if k.back {
                        a5.push(WorkshopCommand::Back)
                    } else {
                        a5
                    }
                }
            }
        }
    }
}

/// The commands of a frame of the workshop (see `workshop_commands_spec`).
pub fn workshop_commands(dev_mode: bool, workbench: bool, selected: Option<CircuitKind>, k: WorkshopKeys) -> (r: Vec<
    WorkshopCommand,
>)
    ensures
        r@ == workshop_commands_spec(dev_mode, workbench, selected, k),
{
    let mut out: Vec<WorkshopCommand> = Vec::new();
    let has = selected.is_some();
    if workbench && k.confirm && has {
        out.push(WorkshopCommand::RaceOnWorkbench);
        return out;
    }
    if ((!workbench && (k.confirm || k.edit)) || (workbench && k.edit)) && has {
        let cmd = match selected {
            Some(CircuitKind::Custom) => WorkshopCommand::EditCircuit,
            _ => if dev_mode {
                WorkshopCommand::EditPreset
            } else {
                WorkshopCommand::PromptClone
            },
        };
        out.push(cmd);
        return out;
    }
    if k.key_c && has {
        out.push(WorkshopCommand::CloneToDrafts);
    }
    let changeable = match selected {
        Some(CircuitKind::Custom) => true,
        _ => dev_mode,
    };
    if k.promote && has {
        if changeable || (!k.ctrl && dev_mode) {
            let cmd = if k.ctrl || !dev_mode {
                WorkshopCommand::AssignModules
            } else {
                match selected {
                    Some(CircuitKind::Preset) => WorkshopCommand::ConfirmDemote,
                    _ => WorkshopCommand::ConfirmPromote,
                }
            };
            out.push(cmd);
            return out;
        }
        out.push(WorkshopCommand::Refused);
    }
    let mut sel_here = has;
    if k.key_n {
        out.push(WorkshopCommand::NewCircuit);
        sel_here = false;
    }
    if k.key_i && sel_here {
        if changeable {
            out.push(WorkshopCommand::EditMetadata);
            return out;
        }
        out.push(WorkshopCommand::Refused);
    }
    if k.delete && sel_here {
        if changeable {
            out.push(WorkshopCommand::ConfirmDelete);
            return out;
        }
        out.push(WorkshopCommand::Refused);
    }
    if k.back {
        out.push(WorkshopCommand::Back);
    }
    out
}

/// A player outside developer mode never edits, deletes, renames or
/// promotes an official circuit: on one, the workshop only offers a copy or
/// refuses.
pub proof fn lemma_presets_protected(workbench: bool, k: WorkshopKeys)
    ensures
        ({
            let cmds = workshop_commands_spec(false, workbench, Some(CircuitKind::Preset), k);
            forall|j: int|
                0 <= j < cmds.len() ==> !(#[trigger] cmds[j] is EditPreset || cmds[j] is EditCircuit
                    || cmds[j] is AssignModules || cmds[j] is ConfirmDemote || cmds[j] is ConfirmPromote
                    || cmds[j] is EditMetadata || cmds[j] is ConfirmDelete)
        }),
{
}

/// Where leaving the circuit editor leads.
#[derive(Debug, Clone, Copy, PartialEq, Eq, Structural)]
pub enum EditorReturn {
    /// The options of the race-mode menu, on their third entry: the editor
    /// was opened from there.
    ModalityOptions,
    /// The workshop, on this tab and list, with the cursor at `fallback`
    /// unless the edited circuit is found in the list.
    Workshop { tab: WorkshopTab, filter: WorkshopFilter, fallback: usize },
}

/// Tab, list and cursor of the workshop.
#[derive(Debug, Clone, Copy, PartialEq, Eq, Structural)]
pub struct WorkshopView {
    pub tab: WorkshopTab,
    pub filter: WorkshopFilter,
    pub selected: usize,
}

/// What decides where leaving the circuit editor leads.
#[derive(Debug, Clone, Copy, PartialEq, Eq, Structural)]
pub struct EditorReturnContext {
    /// Whether the editor was opened from the race-mode menu.
    pub opened_from_modality_select: bool,
    /// Tab, list and cursor recorded when the workshop opened the editor.
    pub recorded: Option<WorkshopView>,
    /// Whether the active module has circuits of its own.
    pub has_module_customs: bool,
    /// Whether there are drafts.
    pub has_drafts: bool,
    /// The list of the active module's approved circuits.
    pub module_filter: WorkshopFilter,
}

/// Where leaving the editor leads: the race-mode options when it was opened
/// from there; else the recorded workshop view; else the drafts when there
/// are drafts but the module has no circuits of its own, else the module's
/// approved circuits, with the cursor on the first entry.
pub open spec fn editor_return_spec(c: EditorReturnContext) -> EditorReturn {
    if c.opened_from_modality_select {
        EditorReturn::ModalityOptions
    } else {
        match c.recorded {
            Some(v) => EditorReturn::Workshop { tab: v.tab, filter: v.filter, fallback: v.selected },
            None => if !c.has_module_customs && c.has_drafts {
                EditorReturn::Workshop { tab: WorkshopTab::Drafts, filter: WorkshopFilter::Drafts, fallback: 0 }
            } else {
                EditorReturn::Workshop { tab: WorkshopTab::Main, filter: c.module_filter, fallback: 0 }
            },
        }
    }
}

/// Where leaving the circuit editor leads.
pub fn editor_return(c: &EditorReturnContext) -> (r: EditorReturn)
    ensures
        r == editor_return_spec(*c),
{
    if c.opened_from_modality_select {
        return EditorReturn::ModalityOptions;
    }
    match c.recorded {
        Some(v) => EditorReturn::Workshop { tab: v.tab, filter: v.filter, fallback: v.selected },
        None => {
            if !c.has_module_customs && c.has_drafts {
                EditorReturn::Workshop { tab: WorkshopTab::Drafts, filter: WorkshopFilter::Drafts, fallback: 0 }
            } else {
                EditorReturn::Workshop { tab: WorkshopTab::Main, filter: c.module_filter, fallback: 0 }
            }
        },
    }
}

/// Whether the workshop shows the drafts for a tab and list: on the drafts
/// tab or with the drafts list.
pub fn shows_drafts(tab: WorkshopTab, filter: WorkshopFilter) -> (r: bool)
    ensures
        r == (tab is Drafts || filter is Drafts),
{
    match (tab, filter) {
        (WorkshopTab::Drafts, _) => true,
        (_, WorkshopFilter::Drafts) => true,
        _ => false,
    }
}

/// Whether `ids` holds `slug`.
pub open spec fn holds_id(ids: Seq<String>, slug: Seq<char>) -> bool {
    exists|k: int| 0 <= k < ids.len() && #[trigger] ids[k]@ == slug
}

/// Whether `k` is the first place of `slug` in `ids`.
pub open spec fn first_place_of(ids: Seq<String>, slug: Seq<char>, k: int) -> bool {
    &&& 0 <= k < ids.len()
    &&& ids[k]@ == slug
    &&& forall|m: int| 0 <= m < k ==> ids[m]@ != slug
}

/// First place of `slug` in `ids`, if `ids` holds it.
pub fn find_id(ids: &Vec<String>, slug: &String) -> (r: Option<usize>)
    ensures
        r matches Some(k) ==> first_place_of(ids@, slug@, k as int),
        r is None <==> !holds_id(ids@, slug@),
{
    let mut k: usize = 0;
    while k < ids.len()
        invariant
            k <= ids.len(),
            forall|m: int| 0 <= m < k ==> ids@[m]@ != slug@,
        decreases ids.len() - k,
    {
        if ids[k] == *slug {
            assert(ids@[k as int]@ == slug@);
            return Some(k);
        }
        k = k + 1;
    }
    None
}

/// Cursor on the returned-to list of circuit ids: on the edited circuit
/// when the list holds it (its first occurrence), else at `fallback`;
/// then kept within the list (0 on an empty list).
pub fn editor_return_cursor(fallback: usize, track_ids: &Vec<String>, edited: &Option<String>) -> (r: usize)
    ensures
        track_ids.len() == 0 ==> r == 0,
        track_ids.len() > 0 ==> r < track_ids.len(),
        edited matches Some(slug) ==> (holds_id(track_ids@, slug@) ==> first_place_of(track_ids@, slug@, r as int)),
        (match edited {
            Some(slug) => !holds_id(track_ids@, slug@),
            None => true,
        }) && track_ids.len() > 0 ==> r == (if fallback
            >= track_ids.len() {
            (track_ids.len() - 1) as usize
        } else {
            fallback
        }),
{
    let len = track_ids.len();
    if let Some(slug) = edited {
        if let Some(k) = find_id(track_ids, slug) {
            return k;
        }
    }
    if len == 0 {
        0
    } else if fallback >= len {
        len - 1
    } else {
        fallback
    }
}

} // verus!
