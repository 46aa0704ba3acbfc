use vstd::prelude::*;

verus! {

/// Modifier keys of a shortcut.
#[derive(Debug, Clone, Copy, PartialEq, Eq, Hash, Structural)]
pub enum Modifier {
    Ctrl,
    Shift,
    Alt,
    Logo,
}

/// A shortcut: a key, given by its numeric key code, and its modifiers. The
/// code of a key that has a character (letters, digits, space) is that
/// character's code, capital letters for letter keys: `Space` is 32, `1` is
/// 49, `B` is 66.
#[derive(Debug, Clone)]
pub struct Hotkey {
    pub key: u32,
    pub modifiers: Vec<Modifier>,
}

/// Shortcut settings: whether shortcuts are on, and the action each is bound to.
#[derive(Debug, Clone)]
pub struct HotkeyConfig {
    pub enabled: bool,
    pub bindings: Vec<(String, Hotkey)>,
}

/// The built-in shortcuts, as (action, key code), each held with `Ctrl`:
/// `Ctrl+Space` starts or pauses the pomodoro, `Ctrl+B` starts a break,
/// `Ctrl+1`, `Ctrl+2` and `Ctrl+3` switch to the overview, the application
/// statistics and the pomodoro view, `Ctrl+Q` quits.
pub open spec fn default_shortcuts() -> Seq<(Seq<char>, u32)> {
    seq![
        ("toggle_pomodoro"@, 32u32),
        ("start_break"@, 66u32),
        ("show_overview"@, 49u32),
        ("show_app_stats"@, 50u32),
        ("show_pomodoro"@, 51u32),
        ("quit"@, 81u32),
    ]
}

/// `b` binds exactly the built-in shortcuts, in their order.
pub open spec fn is_default_bindings(b: Seq<(String, Hotkey)>) -> bool {
    &&& b.len() == default_shortcuts().len()
    &&& forall|i: int| 0 <= i < b.len() ==> {
        &&& (#[trigger] b[i]).0@ == default_shortcuts()[i].0
        &&& b[i].1.key == default_shortcuts()[i].1
        &&& b[i].1.modifiers@ == seq![Modifier::Ctrl]
    }
}

fn ctrl_binding(action: &str, key: u32) -> (r: (String, Hotkey))
    ensures
        r.0@ == action@,
        r.1.key == key,
        r.1.modifiers@ == seq![Modifier::Ctrl],
{
    let mut modifiers: Vec<Modifier> = Vec::new();
    modifiers.push(Modifier::Ctrl);
    (String::from_str(action), Hotkey { key, modifiers })
}

impl HotkeyConfig {
    /// The built-in bindings: the six `Ctrl` shortcuts of
    /// `default_shortcuts`.
    pub fn default_bindings() -> (b: Vec<(String, Hotkey)>)
        ensures
            is_default_bindings(b@),
    {
        let mut b: Vec<(String, Hotkey)> = Vec::new();
        b.push(ctrl_binding("toggle_pomodoro", 32));
        b.push(ctrl_binding("start_break", 66));
        b.push(ctrl_binding("show_overview", 49));
        b.push(ctrl_binding("show_app_stats", 50));
        b.push(ctrl_binding("show_pomodoro", 51));
        b.push(ctrl_binding("quit", 81));
        assert forall|i: int| 0 <= i < b@.len() implies {
            &&& (#[trigger] b@[i]).0@ == default_shortcuts()[i].0
            &&& b@[i].1.key == default_shortcuts()[i].1
            &&& b@[i].1.modifiers@ == seq![Modifier::Ctrl]
        } by {
            if i == 0 {} else if i == 1 {} else if i == 2 {} else if i == 3 {} else if i == 4 {} else {}
        }
        b
    }
}

impl Default for HotkeyConfig {
    /// Shortcuts switched on, with the built-in bindings.
    fn default() -> (c: HotkeyConfig)
        ensures
            c.enabled,
            is_default_bindings(c.bindings@),
    {
        HotkeyConfig { enabled: true, bindings: HotkeyConfig::default_bindings() }
    }
}

/// The message for a key code that names no key.
pub open spec fn invalid_key_text() -> Seq<char> {
    "Invalid key value"@
}

/// Reads a stored key code: codes 0 to 255 name keys, others are refused.
pub fn key_from_code(value: u32) -> (r: Result<u32, String>)
    ensures
        value <= 255 ==> (r matches Ok(v) && v == value),
        value > 255 ==> (r matches Err(m) && m@ == invalid_key_text()),
{
    if value <= 255 {
        Ok(value)
    } else {
        Err(String::from_str("Invalid key value"))
    }
}

/// Holds the shortcut settings in use.
pub struct HotkeyManager {
    config: HotkeyConfig,
}

impl HotkeyManager {
    pub closed spec fn spec_config(&self) -> HotkeyConfig {
        self.config
    }

    pub fn new(config: HotkeyConfig) -> (m: HotkeyManager)
        ensures
            m.spec_config() == config,
    {
        HotkeyManager { config }
    }
}

} // verus!
