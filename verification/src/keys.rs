//! Keyboard shortcuts: which character a key press stands for, and which
//! command each key combination asks for.

use vstd::prelude::*;

verus! {

/// The modifier keys held down.
#[derive(Debug, Clone, Copy, PartialEq, Eq, Structural)]
pub struct Modifiers {
    pub ctrl: bool,
    pub shift: bool,
    pub alt: bool,
}

impl Modifiers {
    /// Modifiers with the given keys held.
    pub fn new(ctrl: bool, shift: bool, alt: bool) -> (m: Self)
        ensures
            m == (Modifiers { ctrl, shift, alt }),
    {
        Modifiers { ctrl, shift, alt }
    }

    /// No modifier held.
    pub fn none() -> (m: Self)
        ensures
            m == (Modifiers { ctrl: false, shift: false, alt: false }),
    {
        Modifiers { ctrl: false, shift: false, alt: false }
    }
}

/// A key at a place on the keyboard, whatever the layout prints on it.
#[derive(Debug, Clone, Copy, PartialEq, Eq, Structural)]
pub enum KeyCode {
    KeyA,
    KeyB,
    KeyC,
    KeyD,
    KeyE,
    KeyF,
    KeyG,
    KeyH,
    KeyI,
    KeyJ,
    KeyK,
    KeyL,
    KeyM,
    KeyN,
    KeyO,
    KeyP,
    KeyQ,
    KeyR,
    KeyS,
    KeyT,
    KeyU,
    KeyV,
    KeyW,
    KeyX,
    KeyY,
    KeyZ,
    BracketLeft,
    BracketRight,
    Period,
    Enter,
    Delete,
    Backspace,
    F13,
    /// Any other key.
    Other,
}

/// The place of the key that was pressed.
#[derive(Debug, Clone, Copy, PartialEq, Eq, Structural)]
pub enum PhysicalKey {
    Code(KeyCode),
    Unidentified,
}

/// A named key that prints no character.
#[derive(Debug, Clone, Copy, PartialEq, Eq, Structural)]
pub enum NamedKey {
    Delete,
    Backspace,
    Enter,
    /// Any other named key.
    Other,
}

/// What the keyboard layout made of a key press.
#[derive(Debug, Clone, PartialEq, Eq)]
pub enum Key {
    /// The text the layout produced.
    Character(String),
    /// A key with a name and no text.
    Named(NamedKey),
    /// A key the platform could not identify.
    Unidentified,
}

/// The ASCII character that stands for a key position: the letters and the
/// two square brackets.
pub open spec fn code_char(code: KeyCode) -> Option<char> {
    match code {
        KeyCode::KeyA => Some('a'),
        KeyCode::KeyB => Some('b'),
        KeyCode::KeyC => Some('c'),
        KeyCode::KeyD => Some('d'),
        KeyCode::KeyE => Some('e'),
        KeyCode::KeyF => Some('f'),
        KeyCode::KeyG => Some('g'),
        KeyCode::KeyH => Some('h'),
        KeyCode::KeyI => Some('i'),
        KeyCode::KeyJ => Some('j'),
        KeyCode::KeyK => Some('k'),
        KeyCode::KeyL => Some('l'),
        KeyCode::KeyM => Some('m'),
        KeyCode::KeyN => Some('n'),
        KeyCode::KeyO => Some('o'),
        KeyCode::KeyP => Some('p'),
        KeyCode::KeyQ => Some('q'),
        KeyCode::KeyR => Some('r'),
        KeyCode::KeyS => Some('s'),
        KeyCode::KeyT => Some('t'),
        KeyCode::KeyU => Some('u'),
        KeyCode::KeyV => Some('v'),
        KeyCode::KeyW => Some('w'),
        KeyCode::KeyX => Some('x'),
        KeyCode::KeyY => Some('y'),
        KeyCode::KeyZ => Some('z'),
        KeyCode::BracketLeft => Some('['),
        KeyCode::BracketRight => Some(']'),
        _ => None,
    }
}

/// An ASCII character (code point below 128).
pub open spec fn is_ascii_char(c: char) -> bool {
    (c as u32) < 128
}

/// The ASCII lower case of `c`: `A`..`Z` become `a`..`z`, all else stays.
pub open spec fn ascii_lower(c: char) -> char {
    if 'A' <= c && c <= 'Z' {
        ((c as u32) + 32) as char
    } else {
        c
    }
}

/// The character a shortcut takes the key press for: the layout's text when
/// it is one ASCII character (lower-cased), else the key's position.
pub open spec fn shortcut_char_spec(logical: Key, physical: PhysicalKey) -> Option<char> {
    let by_position = match physical {
        PhysicalKey::Code(code) => code_char(code),
        PhysicalKey::Unidentified => None,
    };
    match logical {
        Key::Character(t) => if t@.len() == 1 && is_ascii_char(t@[0]) {
            Some(ascii_lower(t@[0]))
        } else {
            by_position
        },
        _ => by_position,
    }
}

fn code_char_exec(code: KeyCode) -> (c: Option<char>)
    ensures
        c == code_char(code),
{
    match code {
        KeyCode::KeyA => Some('a'),
        KeyCode::KeyB => Some('b'),
        KeyCode::KeyC => Some('c'),
        KeyCode::KeyD => Some('d'),
        KeyCode::KeyE => Some('e'),
        KeyCode::KeyF => Some('f'),
        KeyCode::KeyG => Some('g'),
        KeyCode::KeyH => Some('h'),
        KeyCode::KeyI => Some('i'),
        KeyCode::KeyJ => Some('j'),
        KeyCode::KeyK => Some('k'),
        KeyCode::KeyL => Some('l'),
        KeyCode::KeyM => Some('m'),
        KeyCode::KeyN => Some('n'),
        KeyCode::KeyO => Some('o'),
        KeyCode::KeyP => Some('p'),
        KeyCode::KeyQ => Some('q'),
        KeyCode::KeyR => Some('r'),
        KeyCode::KeyS => Some('s'),
        KeyCode::KeyT => Some('t'),
        KeyCode::KeyU => Some('u'),
        KeyCode::KeyV => Some('v'),
        KeyCode::KeyW => Some('w'),
        KeyCode::KeyX => Some('x'),
        KeyCode::KeyY => Some('y'),
        KeyCode::KeyZ => Some('z'),
        KeyCode::BracketLeft => Some('['),
        KeyCode::BracketRight => Some(']'),
        _ => None,
    }
}

fn ascii_lower_exec(c: char) -> (r: char)
    requires
        is_ascii_char(c),
    ensures
        r == ascii_lower(c),
{
    if 'A' <= c && c <= 'Z' {
        let code: u8 = (c as u8) + 32;
        code as char
    } else {
        c
    }
}

/// The ASCII character that a shortcut should take this key press for, or
/// `None` when it is no key that a shortcut uses.
///
/// The layout's text comes first, so that a layout that moves the Latin
/// letters (Dvorak, AZERTY) still works by letter; the key position is the
/// fallback for layouts that print no Latin letter at all (Thai, Russian).
pub fn shortcut_char(logical: &Key, physical: PhysicalKey) -> (c: Option<char>)
    ensures
        c == shortcut_char_spec(*logical, physical),
{
    if let Key::Character(text) = logical {
        let s = text.as_str();
        if s.unicode_len() == 1 {
            let ch = s.get_char(0);
            if (ch as u32) < 128 {
                return Some(ascii_lower_exec(ch));
            }
        }
    }
    match physical {
        PhysicalKey::Code(code) => code_char_exec(code),
        PhysicalKey::Unidentified => None,
    }
}


/// What the user asks of the undo history.
#[derive(Debug, Clone, Copy, PartialEq, Eq, Structural)]
pub enum HistoryRequest {
    /// Ctrl+Z
    Undo,
    /// Ctrl+Y or Ctrl+Shift+Z
    Redo,
}

/// A move in the stacking order of the selected items.
#[derive(Debug, Clone, Copy, PartialEq, Eq, Structural)]
pub enum ZMove {
    Forward,
    Backward,
    ToFront,
    ToBack,
}

/// The canvas tools.
#[derive(Debug, Clone, Copy, PartialEq, Eq, Structural)]
pub enum Tool {
    Select,
    Crop,
    Picker,
    Measure,
    Text,
}

/// Keys that change how the board looks.
#[derive(Debug, Clone, Copy, PartialEq, Eq, Structural)]
pub enum AppearanceKey {
    /// `G`: the whole board in grey (a view switch, not an edit).
    ToggleBoardGrayscale,
    /// `H`: mirror the selected images (an edit of the document).
    FlipHorizontal,
}

/// What the user asks of groups.
#[derive(Debug, Clone, Copy, PartialEq, Eq, Structural)]
pub enum GroupRequest {
    /// Ctrl+G
    Group,
    /// Ctrl+Shift+G
    Ungroup,
}

/// What the user asks of saving.
#[derive(Debug, Clone, Copy, PartialEq, Eq, Structural)]
pub enum SaveRequest {
    /// Ctrl+S
    Save,
    /// Ctrl+Shift+S
    SaveAs,
}

/// Ctrl+Z undoes, Ctrl+Shift+Z and Ctrl+Y redo (also as the control
/// characters 0x1A and 0x19 that some systems send); nothing without Ctrl.
pub open spec fn history_spec(pressed: Option<char>, m: Modifiers) -> Option<HistoryRequest> {
    if !m.ctrl {
        None
    } else {
        match pressed {
            Some(c) => if c == 'z' || c == '\u{1a}' {
                Some(if m.shift { HistoryRequest::Redo } else { HistoryRequest::Undo })
            } else if c == 'y' || c == '\u{19}' {
                Some(HistoryRequest::Redo)
            } else {
                None
            },
            None => None,
        }
    }
}

/// `[`/`]` move one step back/forward, with Shift (or as `{`/`}`) all the
/// way; never with Ctrl or Alt.
pub open spec fn zorder_spec(pressed: Option<char>, m: Modifiers) -> Option<ZMove> {
    if m.ctrl || m.alt {
        None
    } else {
        match pressed {
            Some(c) => if c == '[' {
                Some(if m.shift { ZMove::ToBack } else { ZMove::Backward })
            } else if c == ']' {
                Some(if m.shift { ZMove::ToFront } else { ZMove::Forward })
            } else if c == '{' {
                Some(ZMove::ToBack)
            } else if c == '}' {
                Some(ZMove::ToFront)
            } else {
                None
            },
            None => None,
        }
    }
}

/// `V` select, `C` crop, `I` picker, `M` measure, `T` text; never with Ctrl
/// or Alt, so that Ctrl+C and Ctrl+V stay the clipboard's.
pub open spec fn tool_spec(pressed: Option<char>, m: Modifiers) -> Option<Tool> {
    if m.ctrl || m.alt {
        None
    } else {
        match pressed {
            Some(c) => if c == 'v' {
                Some(Tool::Select)
            } else if c == 'c' {
                Some(Tool::Crop)
            } else if c == 'i' {
                Some(Tool::Picker)
            } else if c == 'm' {
                Some(Tool::Measure)
            } else if c == 't' {
                Some(Tool::Text)
            } else {
                None
            },
            None => None,
        }
    }
}

/// `G` grey board, `H` flip; never with Ctrl or Alt.
pub open spec fn appearance_spec(pressed: Option<char>, m: Modifiers) -> Option<AppearanceKey> {
    if m.ctrl || m.alt {
        None
    } else {
        match pressed {
            Some(c) => if c == 'g' {
                Some(AppearanceKey::ToggleBoardGrayscale)
            } else if c == 'h' {
                Some(AppearanceKey::FlipHorizontal)
            } else {
                None
            },
            None => None,
        }
    }
}

/// Ctrl+G groups, Ctrl+Shift+G ungroups (also as the control character
/// 0x07); only with Ctrl and without Alt.
pub open spec fn group_spec(pressed: Option<char>, m: Modifiers) -> Option<GroupRequest> {
    if !m.ctrl || m.alt {
        None
    } else {
        match pressed {
            Some(c) => if c == 'g' || c == '\u{7}' {
                Some(if m.shift { GroupRequest::Ungroup } else { GroupRequest::Group })
            } else {
                None
            },
            None => None,
        }
    }
}

/// Ctrl+S saves, Ctrl+Shift+S saves as (also as the control character
/// 0x13); only with Ctrl and without Alt.
pub open spec fn save_spec(pressed: Option<char>, m: Modifiers) -> Option<SaveRequest> {
    if !m.ctrl || m.alt {
        None
    } else {
        match pressed {
            Some(c) => if c == 's' || c == '\u{13}' {
                Some(if m.shift { SaveRequest::SaveAs } else { SaveRequest::Save })
            } else {
                None
            },
            None => None,
        }
    }
}

/// Ctrl+O (or the control character 0x0F), with neither Shift nor Alt.
pub open spec fn open_spec(pressed: Option<char>, m: Modifiers) -> bool {
    m.ctrl && !m.alt && !m.shift && (pressed == Some('o') || pressed == Some('\u{f}'))
}

/// Ctrl+V (or the control character 0x16), Shift allowed.
pub open spec fn paste_spec(pressed: Option<char>, m: Modifiers) -> bool {
    m.ctrl && (pressed == Some('v') || pressed == Some('\u{16}'))
}

/// Delete, and Backspace for laptops without a Delete key.
pub open spec fn delete_spec(key: Key) -> bool {
    key == Key::Named(NamedKey::Delete) || key == Key::Named(NamedKey::Backspace)
}

/// Turns a key press into a request on the undo history.
pub fn history_shortcut(pressed: Option<char>, modifiers: Modifiers) -> (r: Option<HistoryRequest>)
    ensures
        r == history_spec(pressed, modifiers),
{
    if !modifiers.ctrl {
        return None;
    }
    match pressed {
        Some(c) => if c == 'z' || c == '\u{1a}' {
            Some(if modifiers.shift { HistoryRequest::Redo } else { HistoryRequest::Undo })
        } else if c == 'y' || c == '\u{19}' {
            Some(HistoryRequest::Redo)
        } else {
            None
        },
        None => None,
    }
}

/// Turns a key press into a move in the stacking order.
pub fn zorder_shortcut(pressed: Option<char>, modifiers: Modifiers) -> (r: Option<ZMove>)
    ensures
        r == zorder_spec(pressed, modifiers),
{
    if modifiers.ctrl || modifiers.alt {
        return None;
    }
    let all_the_way = modifiers.shift;
    match pressed {
        Some(c) => if c == '[' {
            Some(if all_the_way { ZMove::ToBack } else { ZMove::Backward })
        } else if c == ']' {
            Some(if all_the_way { ZMove::ToFront } else { ZMove::Forward })
        } else if c == '{' {
            Some(ZMove::ToBack)
        } else if c == '}' {
            Some(ZMove::ToFront)
        } else {
            None
        },
        None => None,
    }
}

/// Turns a key press into a change of tool.
pub fn tool_shortcut(pressed: Option<char>, modifiers: Modifiers) -> (r: Option<Tool>)
    ensures
        r == tool_spec(pressed, modifiers),
{
    if modifiers.ctrl || modifiers.alt {
        return None;
    }
    match pressed {
        Some(c) => if c == 'v' {
            Some(Tool::Select)
        } else if c == 'c' {
            Some(Tool::Crop)
        } else if c == 'i' {
            Some(Tool::Picker)
        } else if c == 'm' {
            Some(Tool::Measure)
        } else if c == 't' {
            Some(Tool::Text)
        } else {
            None
        },
        None => None,
    }
}

/// Turns a key press into a change of how the board looks.
pub fn appearance_shortcut(pressed: Option<char>, modifiers: Modifiers) -> (r: Option<AppearanceKey>)
    ensures
        r == appearance_spec(pressed, modifiers),
{
    if modifiers.ctrl || modifiers.alt {
        return None;
    }
    match pressed {
        Some(c) => if c == 'g' {
            Some(AppearanceKey::ToggleBoardGrayscale)
        } else if c == 'h' {
            Some(AppearanceKey::FlipHorizontal)
        } else {
            None
        },
        None => None,
    }
}

/// Turns a key press into a request on groups.
pub fn group_shortcut(pressed: Option<char>, modifiers: Modifiers) -> (r: Option<GroupRequest>)
    ensures
        r == group_spec(pressed, modifiers),
{
    if !modifiers.ctrl || modifiers.alt {
        return None;
    }
    match pressed {
        Some(c) => if c == 'g' || c == '\u{7}' {
            Some(if modifiers.shift { GroupRequest::Ungroup } else { GroupRequest::Group })
        } else {
            None
        },
        None => None,
    }
}

/// Turns a key press into a request to save.
pub fn save_shortcut(pressed: Option<char>, modifiers: Modifiers) -> (r: Option<SaveRequest>)
    ensures
        r == save_spec(pressed, modifiers),
{
    if !modifiers.ctrl || modifiers.alt {
        return None;
    }
    match pressed {
        Some(c) => if c == 's' || c == '\u{13}' {
            Some(if modifiers.shift { SaveRequest::SaveAs } else { SaveRequest::Save })
        } else {
            None
        },
        None => None,
    }
}

/// Whether the key press asks to open a board.
pub fn open_shortcut(pressed: Option<char>, modifiers: Modifiers) -> (r: bool)
    ensures
        r == open_spec(pressed, modifiers),
{
    if !modifiers.ctrl || modifiers.alt || modifiers.shift {
        return false;
    }
    match pressed {
        Some(c) => c == 'o' || c == '\u{f}',
        None => false,
    }
}

/// Whether the key press asks to paste from the clipboard.
pub fn is_paste(pressed: Option<char>, modifiers: Modifiers) -> (r: bool)
    ensures
        r == paste_spec(pressed, modifiers),
{
    if !modifiers.ctrl {
        return false;
    }
    match pressed {
        Some(c) => c == 'v' || c == '\u{16}',
        None => false,
    }
}

/// Whether the key deletes the selection.
pub fn is_delete(key: &Key) -> (r: bool)
    ensures
        r == delete_spec(*key),
{
    match key {
        Key::Named(NamedKey::Delete) => true,
        Key::Named(NamedKey::Backspace) => true,
        _ => false,
    }
}


/// Everything one key event asks the application to do.
#[derive(Debug, Clone, Copy, PartialEq, Eq, Structural)]
pub struct KeyActions {
    pub paste: bool,
    pub history: Option<HistoryRequest>,
    pub zorder: Option<ZMove>,
    pub delete: bool,
    pub appearance: Option<AppearanceKey>,
    pub save: Option<SaveRequest>,
    pub open: bool,
    pub group: Option<GroupRequest>,
    /// A tool other than the current one to switch to.
    pub tool: Option<Tool>,
}

/// No action at all.
pub open spec fn no_actions() -> KeyActions {
    KeyActions {
        paste: false,
        history: None,
        zorder: None,
        delete: false,
        appearance: None,
        save: None,
        open: false,
        group: None,
        tool: None,
    }
}

/// The actions of one key event.
///
/// A text field with the keyboard focus takes every key: letters typed
/// into a note are text, not commands. A released key does nothing. Undo,
/// redo, stacking moves and tool keys repeat while the key is held; paste,
/// delete, the look keys, save, open and grouping act once per press.
pub open spec fn key_actions_spec(
    logical: Key,
    physical: PhysicalKey,
    down: bool,
    repeat: bool,
    m: Modifiers,
    text_has_focus: bool,
    current: Tool,
) -> KeyActions {
    if text_has_focus || !down {
        no_actions()
    } else {
        let p = shortcut_char_spec(logical, physical);
        let once = !repeat;
        KeyActions {
            paste: once && paste_spec(p, m),
            history: history_spec(p, m),
            zorder: zorder_spec(p, m),
            delete: once && delete_spec(logical),
            appearance: if once { appearance_spec(p, m) } else { None },
            save: if once { save_spec(p, m) } else { None },
            open: once && open_spec(p, m),
            group: if once { group_spec(p, m) } else { None },
            tool: match tool_spec(p, m) {
                Some(t) => if t != current { Some(t) } else { None },
                None => None,
            },
        }
    }
}

impl KeyActions {
    /// Whether anything was asked for, so that a frame must be drawn.
    pub open spec fn any_spec(self) -> bool {
        self.paste || self.history is Some || self.zorder is Some || self.delete
            || self.appearance is Some || self.save is Some || self.open || self.group is Some
            || self.tool is Some
    }

    /// Whether anything was asked for, so that a frame must be drawn.
    pub fn any(&self) -> (r: bool)
        ensures
            r == self.any_spec(),
    {
        self.paste || self.history.is_some() || self.zorder.is_some() || self.delete
            || self.appearance.is_some() || self.save.is_some() || self.open
            || self.group.is_some() || self.tool.is_some()
    }
}

/// Decides what one key event asks for: the character is worked out once
/// and handed to every shortcut.
pub fn keyboard_actions(
    logical: &Key,
    physical: PhysicalKey,
    down: bool,
    repeat: bool,
    modifiers: Modifiers,
    text_has_focus: bool,
    current: Tool,
) -> (a: KeyActions)
    ensures
        a == key_actions_spec(*logical, physical, down, repeat, modifiers, text_has_focus, current),
{
    let none = KeyActions {
        paste: false,
        history: None,
        zorder: None,
        delete: false,
        appearance: None,
        save: None,
        open: false,
        group: None,
        tool: None,
    };
    if text_has_focus || !down {
        return none;
    }
    let pressed = shortcut_char(logical, physical);
    let once = !repeat;
    let tool = match tool_shortcut(pressed, modifiers) {
        Some(t) => if t != current { Some(t) } else { None },
        None => None,
    };
    KeyActions {
        paste: once && is_paste(pressed, modifiers),
        history: history_shortcut(pressed, modifiers),
        zorder: zorder_shortcut(pressed, modifiers),
        delete: once && is_delete(logical),
        appearance: if once { appearance_shortcut(pressed, modifiers) } else { None },
        save: if once { save_shortcut(pressed, modifiers) } else { None },
        open: once && open_shortcut(pressed, modifiers),
        group: if once { group_shortcut(pressed, modifiers) } else { None },
        tool,
    }
}

/// The grey-board key and the grouping key never fire on the same key
/// press: `G` is a view switch, Ctrl+G an edit, and one press never does
/// both.
pub proof fn law_grayscale_and_grouping_exclusive(pressed: Option<char>, m: Modifiers)
    ensures
        !(appearance_spec(pressed, m) is Some && group_spec(pressed, m) is Some),
{
}

/// Commands that need Ctrl (undo/redo, paste, save, open, grouping) and
/// commands of plain keys (tools, stacking order, look) never come from the
/// same key press.
pub proof fn law_ctrl_and_plain_commands_exclusive(pressed: Option<char>, m: Modifiers)
    ensures
        m.ctrl ==> tool_spec(pressed, m) is None && zorder_spec(pressed, m) is None
            && appearance_spec(pressed, m) is None,
        !m.ctrl ==> history_spec(pressed, m) is None && !paste_spec(pressed, m) && save_spec(
            pressed,
            m,
        ) is None && !open_spec(pressed, m) && group_spec(pressed, m) is None,
{
}

/// While a text field has the keyboard focus, no key event does anything.
pub proof fn law_text_focus_takes_every_key(
    logical: Key,
    physical: PhysicalKey,
    down: bool,
    repeat: bool,
    m: Modifiers,
    current: Tool,
)
    ensures
        !key_actions_spec(logical, physical, down, repeat, m, true, current).any_spec(),
{
}

/// A key held down (an auto-repeat event) never pastes, deletes, changes
/// the look, saves, opens or groups again.
pub proof fn law_repeat_acts_once(
    logical: Key,
    physical: PhysicalKey,
    down: bool,
    m: Modifiers,
    focus: bool,
    current: Tool,
)
    ensures
        ({
            let a = key_actions_spec(logical, physical, down, true, m, focus, current);
            !a.paste && !a.delete && a.appearance is None && a.save is None && !a.open
                && a.group is None
        }),
{
}

/// A tool key never asks to switch to the tool that is already in use.
pub proof fn law_tool_switch_changes_tool(
    logical: Key,
    physical: PhysicalKey,
    down: bool,
    repeat: bool,
    m: Modifiers,
    focus: bool,
    current: Tool,
)
    ensures
        key_actions_spec(logical, physical, down, repeat, m, focus, current).tool != Some(current),
{
}

/// A shortcut reads the character the layout produced before the key's
/// position: an ASCII character always wins, whatever key made it; a
/// non-ASCII character falls back to the key's position.
pub proof fn law_layout_text_before_key_position(t: String, physical: PhysicalKey)
    ensures
        t@.len() == 1 && is_ascii_char(t@[0]) ==> shortcut_char_spec(Key::Character(t), physical)
            == Some(ascii_lower(t@[0])),
        t@.len() == 1 && !is_ascii_char(t@[0]) ==> shortcut_char_spec(Key::Character(t), physical)
            == shortcut_char_spec(Key::Unidentified, physical),
{
}

/// The letter keys a shortcut reads: typing `h` or `H` reads as `h`, and a
/// layout that types no Latin letter on the `H` key (or a named key on it)
/// still reads as `h`; likewise for every letter.
pub proof fn law_letters_read_as_lower_case(t: String, physical: PhysicalKey)
    ensures
        t@ == seq!['h'] ==> shortcut_char_spec(Key::Character(t), physical) == Some('h'),
        t@ == seq!['H'] ==> shortcut_char_spec(Key::Character(t), physical) == Some('h'),
        t@ == seq!['S'] ==> shortcut_char_spec(Key::Character(t), physical) == Some('s'),
        t@ == seq!['z'] ==> shortcut_char_spec(Key::Character(t), physical) == Some('z'),
        (t@.len() != 1 || (t@[0] as u32) >= 128) && physical == PhysicalKey::Code(KeyCode::KeyH)
            ==> shortcut_char_spec(Key::Character(t), physical) == Some('h'),
        shortcut_char_spec(Key::Named(NamedKey::Other), PhysicalKey::Code(KeyCode::KeyS)) == Some(
            's',
        ),
        shortcut_char_spec(Key::Unidentified, PhysicalKey::Code(KeyCode::BracketLeft)) == Some(
            '[',
        ),
        shortcut_char_spec(Key::Unidentified, PhysicalKey::Unidentified) is None,
{
}

/// `G` greys the board and `H` mirrors, with neither Ctrl nor Alt (Shift
/// does not matter); no other key and no Ctrl or Alt chord changes the look.
pub proof fn law_look_keys(c: char, m: Modifiers)
    ensures
        !m.ctrl && !m.alt ==> appearance_spec(Some('h'), m) == Some(AppearanceKey::FlipHorizontal),
        !m.ctrl && !m.alt ==> appearance_spec(Some('g'), m) == Some(
            AppearanceKey::ToggleBoardGrayscale,
        ),
        appearance_spec(Some(c), m) is Some ==> !m.ctrl && !m.alt && (c == 'g' || c == 'h'),
        appearance_spec(None, m) is None,
{
}

/// `V` select, `C` crop, `I` picker, `M` measure, `T` text, with neither
/// Ctrl nor Alt; no other key picks a tool.
pub proof fn law_tool_keys(c: char, m: Modifiers)
    ensures
        !m.ctrl && !m.alt ==> {
            &&& tool_spec(Some('v'), m) == Some(Tool::Select)
            &&& tool_spec(Some('c'), m) == Some(Tool::Crop)
            &&& tool_spec(Some('i'), m) == Some(Tool::Picker)
            &&& tool_spec(Some('m'), m) == Some(Tool::Measure)
            &&& tool_spec(Some('t'), m) == Some(Tool::Text)
        },
        tool_spec(Some(c), m) is Some ==> !m.ctrl && !m.alt && (c == 'v' || c == 'c' || c == 'i'
            || c == 'm' || c == 't'),
{
}

/// `]` brings one step forward and `[` one step back; with Shift (or as
/// `}` and `{`) all the way to the front and back. Never with Ctrl or Alt.
pub proof fn law_stacking_keys(c: char, m: Modifiers)
    ensures
        !m.ctrl && !m.alt && !m.shift ==> zorder_spec(Some(']'), m) == Some(ZMove::Forward)
            && zorder_spec(Some('['), m) == Some(ZMove::Backward),
        !m.ctrl && !m.alt && m.shift ==> zorder_spec(Some(']'), m) == Some(ZMove::ToFront)
            && zorder_spec(Some('['), m) == Some(ZMove::ToBack),
        !m.ctrl && !m.alt ==> zorder_spec(Some('}'), m) == Some(ZMove::ToFront) && zorder_spec(
            Some('{'),
            m,
        ) == Some(ZMove::ToBack),
        zorder_spec(Some(c), m) is Some ==> !m.ctrl && !m.alt && (c == '[' || c == ']' || c
            == '{' || c == '}'),
{
}

/// Ctrl+Z undoes, Ctrl+Shift+Z and Ctrl+Y redo (Alt does not matter);
/// nothing else touches the history.
pub proof fn law_history_keys(c: char, m: Modifiers)
    ensures
        m.ctrl && !m.shift ==> history_spec(Some('z'), m) == Some(HistoryRequest::Undo),
        m.ctrl && m.shift ==> history_spec(Some('z'), m) == Some(HistoryRequest::Redo),
        m.ctrl ==> history_spec(Some('y'), m) == Some(HistoryRequest::Redo),
        history_spec(Some(c), m) is Some ==> m.ctrl && (c == 'z' || c == 'y' || c == '\u{1a}'
            || c == '\u{19}'),
{
}

/// Ctrl+S saves and Ctrl+Shift+S saves as, without Alt; nothing else asks
/// to save.
pub proof fn law_save_keys(c: char, m: Modifiers)
    ensures
        m.ctrl && !m.alt && !m.shift ==> save_spec(Some('s'), m) == Some(SaveRequest::Save),
        m.ctrl && !m.alt && m.shift ==> save_spec(Some('s'), m) == Some(SaveRequest::SaveAs),
        save_spec(Some(c), m) is Some ==> m.ctrl && !m.alt && (c == 's' || c == '\u{13}'),
{
}

/// Ctrl+G groups and Ctrl+Shift+G ungroups, without Alt; nothing else.
pub proof fn law_group_keys(c: char, m: Modifiers)
    ensures
        m.ctrl && !m.alt && !m.shift ==> group_spec(Some('g'), m) == Some(GroupRequest::Group),
        m.ctrl && !m.alt && m.shift ==> group_spec(Some('g'), m) == Some(GroupRequest::Ungroup),
        group_spec(Some(c), m) is Some ==> m.ctrl && !m.alt && (c == 'g' || c == '\u{7}'),
{
}

/// Ctrl+O opens (not with Shift or Alt), Ctrl+V pastes (Shift allowed),
/// Delete and Backspace delete; nothing else does any of these.
pub proof fn law_open_paste_delete_keys(c: char, m: Modifiers, k: Key)
    ensures
        m.ctrl && !m.alt && !m.shift ==> open_spec(Some('o'), m),
        open_spec(Some(c), m) ==> m.ctrl && !m.alt && !m.shift && (c == 'o' || c == '\u{f}'),
        m.ctrl ==> paste_spec(Some('v'), m),
        paste_spec(Some(c), m) ==> m.ctrl && (c == 'v' || c == '\u{16}'),
        delete_spec(Key::Named(NamedKey::Delete)),
        delete_spec(Key::Named(NamedKey::Backspace)),
        delete_spec(k) ==> k == Key::Named(NamedKey::Delete) || k == Key::Named(
            NamedKey::Backspace,
        ),
{
}

/// A fresh key press outside a text field asks for exactly what the
/// shortcut tables say of the character it reads as: in particular `H`
/// mirrors, Ctrl+Shift+S saves as, and a tool key switches to another tool.
pub proof fn law_a_press_does_what_the_tables_say(
    logical: Key,
    physical: PhysicalKey,
    m: Modifiers,
    current: Tool,
)
    ensures
        ({
            let p = shortcut_char_spec(logical, physical);
            let a = key_actions_spec(logical, physical, true, false, m, false, current);
            &&& a.paste == paste_spec(p, m)
            &&& a.history == history_spec(p, m)
            &&& a.zorder == zorder_spec(p, m)
            &&& a.delete == delete_spec(logical)
            &&& a.appearance == appearance_spec(p, m)
            &&& a.save == save_spec(p, m)
            &&& a.open == open_spec(p, m)
            &&& a.group == group_spec(p, m)
            &&& (tool_spec(p, m) is Some && tool_spec(p, m) != Some(current) ==> a.tool == tool_spec(
                p,
                m,
            ))
            &&& (tool_spec(p, m) == Some(current) ==> a.tool is None)
            &&& (tool_spec(p, m) is None ==> a.tool is None)
            &&& (p == Some('h') && !m.ctrl && !m.alt ==> a.appearance == Some(
                AppearanceKey::FlipHorizontal,
            ))
            &&& (p == Some('s') && m.ctrl && m.shift && !m.alt ==> a.save == Some(
                SaveRequest::SaveAs,
            ))
        }),
{
}

} // verus!
