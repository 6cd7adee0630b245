//! Global keyboard shortcuts: identifiers, bindings, their configuration,
//! and the grammar of binding strings such as `Ctrl+Alt+M`.
//!
//! Registering the shortcuts with the operating system happens outside this
//! library, which parses the binding strings into modifiers and a key and
//! decides what a pressed shortcut asks the application to do.
//!
//! | Action        | Default binding |
//! |---------------|-----------------|
//! | Toggle feed   | Ctrl+Alt+M      |
//! | Pause/Resume  | Ctrl+Alt+P      |
//! | Take snapshot | Ctrl+Alt+S      |
use vstd::prelude::*;
use crate::app_core::events::Command;
use crate::text::{lowercase, owned, split_on, split_seq, str_eq, to_lower, trim, trimmed};

verus! {

/// The global shortcuts.
#[derive(Debug, Clone, Copy, PartialEq, Eq, Hash, Structural)]
pub enum HotkeyId {
    /// Turn the feed on or off.
    ToggleFeed,
    /// Freeze or resume the display.
    PauseResume,
    /// Take a snapshot.
    TakeSnapshot,
}

/// The display name of a shortcut.
pub open spec fn hotkey_name(id: HotkeyId) -> Seq<char> {
    match id {
        HotkeyId::ToggleFeed => "Toggle Feed"@,
        HotkeyId::PauseResume => "Pause/Resume"@,
        HotkeyId::TakeSnapshot => "Take Snapshot"@,
    }
}

/// The default binding of a shortcut.
pub open spec fn hotkey_default(id: HotkeyId) -> Seq<char> {
    match id {
        HotkeyId::ToggleFeed => "Ctrl+Alt+M"@,
        HotkeyId::PauseResume => "Ctrl+Alt+P"@,
        HotkeyId::TakeSnapshot => "Ctrl+Alt+S"@,
    }
}

impl HotkeyId {
    /// Every shortcut, in a fixed order.
    pub fn all() -> (r: Vec<HotkeyId>)
        ensures
            r@ == seq![HotkeyId::ToggleFeed, HotkeyId::PauseResume, HotkeyId::TakeSnapshot],
    {
        let mut v: Vec<HotkeyId> = Vec::new();
        v.push(HotkeyId::ToggleFeed);
        v.push(HotkeyId::PauseResume);
        v.push(HotkeyId::TakeSnapshot);
        v
    }

    /// The display name of this shortcut.
    pub fn display_name(&self) -> (r: &'static str)
        ensures
            r@ == hotkey_name(*self),
    {
        match self {
            HotkeyId::ToggleFeed => "Toggle Feed",
            HotkeyId::PauseResume => "Pause/Resume",
            HotkeyId::TakeSnapshot => "Take Snapshot",
        }
    }

    /// The default binding of this shortcut.
    pub fn default_binding(&self) -> (r: &'static str)
        ensures
            r@ == hotkey_default(*self),
    {
        match self {
            HotkeyId::ToggleFeed => "Ctrl+Alt+M",
            HotkeyId::PauseResume => "Ctrl+Alt+P",
            HotkeyId::TakeSnapshot => "Ctrl+Alt+S",
        }
    }
}

/// One shortcut's binding.
#[derive(Debug)]
pub struct HotkeyBinding {
    /// The shortcut.
    pub id: HotkeyId,
    /// The key combination, such as `Ctrl+Alt+M`.
    pub binding: String,
    /// Whether the shortcut is active.
    pub enabled: bool,
}

impl Clone for HotkeyBinding {
    fn clone(&self) -> (r: Self)
        ensures
            r == *self,
    {
        HotkeyBinding { id: self.id, binding: self.binding.clone(), enabled: self.enabled }
    }
}

impl HotkeyBinding {
    /// An active binding.
    pub fn new(id: HotkeyId, binding: &str) -> (r: Self)
        ensures
            r.id == id,
            r.binding@ == binding@,
            r.enabled,
    {
        HotkeyBinding { id, binding: owned(binding), enabled: true }
    }

    /// An inactive binding.
    pub fn disabled(id: HotkeyId, binding: &str) -> (r: Self)
        ensures
            r.id == id,
            r.binding@ == binding@,
            !r.enabled,
    {
        HotkeyBinding { id, binding: owned(binding), enabled: false }
    }
}

/// The configuration of all shortcuts.
#[derive(Debug)]
pub struct HotkeyConfig {
    /// The bindings.
    pub bindings: Vec<HotkeyBinding>,
    /// Whether global shortcuts are used at all.
    pub enabled: bool,
}

/// Whether `k` is the first position holding a binding for `id`.
pub open spec fn is_first_binding(s: Seq<HotkeyBinding>, id: HotkeyId, k: int) -> bool {
    &&& 0 <= k < s.len()
    &&& s[k].id == id
    &&& forall|j: int| 0 <= j < k ==> (#[trigger] s[j]).id != id
}

/// The position of the first binding for `id`, if there is one.
pub open spec fn binding_index(s: Seq<HotkeyBinding>, id: HotkeyId) -> Option<int> {
    if exists|k: int| is_first_binding(s, id, k) {
        Some(choose|k: int| is_first_binding(s, id, k))
    } else {
        None
    }
}

/// Whether the bindings are the defaults: each shortcut, in order, with its
/// default binding, active.
pub open spec fn is_default_bindings(s: Seq<HotkeyBinding>) -> bool {
    &&& s.len() == 3
    &&& s[0].id == HotkeyId::ToggleFeed && s[1].id == HotkeyId::PauseResume && s[2].id == HotkeyId::TakeSnapshot
    &&& forall|i: int| 0 <= i < 3 ==> (#[trigger] s[i]).binding@ == hotkey_default(s[i].id) && s[i].enabled
}

/// The bindings to register: none when shortcuts are off, else the active
/// ones in order.
pub open spec fn bindings_to_register_spec(enabled: bool, s: Seq<HotkeyBinding>) -> Seq<HotkeyBinding> {
    if enabled {
        s.filter(|b: HotkeyBinding| b.enabled)
    } else {
        Seq::empty()
    }
}

impl Clone for HotkeyConfig {
    fn clone(&self) -> (r: Self)
        ensures
            r.bindings@ == self.bindings@,
            r.enabled == self.enabled,
    {
        let mut v: Vec<HotkeyBinding> = Vec::new();
        let mut i: usize = 0;
        while i < self.bindings.len()
            invariant
                i <= self.bindings@.len(),
                v@ == self.bindings@.subrange(0, i as int),
            decreases self.bindings.len() - i,
        {
            v.push(self.bindings[i].clone());
            i = i + 1;
        }
        assert(v@ =~= self.bindings@);
        HotkeyConfig { bindings: v, enabled: self.enabled }
    }
}

impl Default for HotkeyConfig {
    fn default() -> (r: Self)
        ensures
            is_default_bindings(r.bindings@),
            r.enabled,
    {
        let ids = HotkeyId::all();
        let mut v: Vec<HotkeyBinding> = Vec::new();
        let mut i: usize = 0;
        while i < ids.len()
            invariant
                ids@ == seq![HotkeyId::ToggleFeed, HotkeyId::PauseResume, HotkeyId::TakeSnapshot],
                i <= 3,
                v@.len() == i,
                forall|j: int| 0 <= j < i ==> (#[trigger] v@[j]).id == ids@[j] && v@[j].binding@ == hotkey_default(ids@[j]) && v@[j].enabled,
            decreases ids.len() - i,
        {
            let id = ids[i];
            v.push(HotkeyBinding::new(id, id.default_binding()));
            i = i + 1;
        }
        HotkeyConfig { bindings: v, enabled: true }
    }
}

impl HotkeyConfig {
    fn find_binding(&self, id: HotkeyId) -> (r: Option<usize>)
        ensures
            r matches Some(k) ==> is_first_binding(self.bindings@, id, k as int),
            r is None ==> forall|j: int| 0 <= j < self.bindings@.len() ==> (#[trigger] self.bindings@[j]).id != id,
            r matches Some(k) ==> binding_index(self.bindings@, id) == Some(k as int),
            r is None ==> binding_index(self.bindings@, id) is None,
    {
        let mut i: usize = 0;
        while i < self.bindings.len()
            invariant
                i <= self.bindings@.len(),
                forall|j: int| 0 <= j < i ==> (#[trigger] self.bindings@[j]).id != id,
            decreases self.bindings.len() - i,
        {
            if self.bindings[i].id == id {
                proof {
                    assert(is_first_binding(self.bindings@, id, i as int));
                    let c = choose|k: int| is_first_binding(self.bindings@, id, k);
                    assert(is_first_binding(self.bindings@, id, c));
                    if c < i {
                        assert(self.bindings@[c].id != id);
                    }
                    if c > i {
                        assert(self.bindings@[i as int].id != id);
                    }
                }
                return Some(i);
            }
            i = i + 1;
        }
        None
    }

    /// The first binding of a shortcut, if it has one.
    pub fn get_binding(&self, id: HotkeyId) -> (r: Option<&HotkeyBinding>)
        ensures
            r == match binding_index(self.bindings@, id) {
                Some(k) => Some(&self.bindings@[k]),
                None => None,
            },
    {
        match self.find_binding(id) {
            Some(k) => Some(&self.bindings[k]),
            None => None,
        }
    }

    /// Changes the key combination of a shortcut's first binding; a shortcut
    /// without a binding is left as it is.
    pub fn set_binding(&mut self, id: HotkeyId, binding: String)
        ensures
            final(self).enabled == old(self).enabled,
            match binding_index(old(self).bindings@, id) {
                Some(k) => final(self).bindings@ == old(self).bindings@.update(k, HotkeyBinding {
                    id: old(self).bindings@[k].id,
                    binding,
                    enabled: old(self).bindings@[k].enabled,
                }),
                None => final(self).bindings@ == old(self).bindings@,
            },
    {
        match self.find_binding(id) {
            Some(k) => {
                let b = HotkeyBinding { id: self.bindings[k].id, binding, enabled: self.bindings[k].enabled };
                self.bindings.set(k, b);
            },
            None => {},
        }
    }

    /// Turns a shortcut's first binding on or off; a shortcut without a
    /// binding is left as it is.
    pub fn set_enabled(&mut self, id: HotkeyId, enabled: bool)
        ensures
            final(self).enabled == old(self).enabled,
            match binding_index(old(self).bindings@, id) {
                Some(k) => final(self).bindings@ == old(self).bindings@.update(k, HotkeyBinding {
                    id: old(self).bindings@[k].id,
                    binding: old(self).bindings@[k].binding,
                    enabled,
                }),
                None => final(self).bindings@ == old(self).bindings@,
            },
    {
        match self.find_binding(id) {
            Some(k) => {
                let b = HotkeyBinding { id: self.bindings[k].id, binding: self.bindings[k].binding.clone(), enabled };
                self.bindings.set(k, b);
            },
            None => {},
        }
    }

    /// Restores every default.
    pub fn reset_to_defaults(&mut self)
        ensures
            is_default_bindings(final(self).bindings@),
            final(self).enabled,
    {
        *self = HotkeyConfig::default();
    }

    /// The bindings to register with the system: none when shortcuts are
    /// off, otherwise the active ones, in order.
    pub fn bindings_to_register(&self) -> (r: Vec<HotkeyBinding>)
        ensures
            r@ == bindings_to_register_spec(self.enabled, self.bindings@),
    {
        let mut out: Vec<HotkeyBinding> = Vec::new();
        if !self.enabled {
            return out;
        }
        let mut i: usize = 0;
        while i < self.bindings.len()
            invariant
                self.enabled,
                i <= self.bindings@.len(),
                out@ == self.bindings@.subrange(0, i as int).filter(|b: HotkeyBinding| b.enabled),
            decreases self.bindings.len() - i,
        {
            proof {
                let t = self.bindings@.subrange(0, i as int + 1);
                assert(t.drop_last() =~= self.bindings@.subrange(0, i as int));
                reveal(Seq::filter);
            }
            if self.bindings[i].enabled {
                out.push(self.bindings[i].clone());
            }
            i = i + 1;
        }
        assert(self.bindings@.subrange(0, self.bindings@.len() as int) =~= self.bindings@);
        out
    }
}

/// Rewriting one binding without changing its shortcut moves no shortcut's
/// first binding.
proof fn lemma_update_keeps_index(s: Seq<HotkeyBinding>, k: int, nb: HotkeyBinding, id: HotkeyId)
    requires
        0 <= k < s.len(),
        nb.id == s[k].id,
    ensures
        binding_index(s.update(k, nb), id) == binding_index(s, id),
{
    let s2 = s.update(k, nb);
    assert forall|j: int| is_first_binding(s2, id, j) == is_first_binding(s, id, j) by {
        if 0 <= j < s.len() {
            assert forall|i: int| 0 <= i < j implies (s2[i].id == s[i].id) by {}
        }
    }
    let p2 = |j: int| is_first_binding(s2, id, j);
    let p1 = |j: int| is_first_binding(s, id, j);
    assert(p2 =~= p1);
}

/// What is set is what is read back: after `set_binding` for a shortcut
/// that has a binding, `get_binding` gives the new combination, keeping the
/// binding's place and activity, and every other shortcut reads as before.
pub proof fn lemma_set_binding_then_get(s: Seq<HotkeyBinding>, id: HotkeyId, binding: String, other: HotkeyId)
    requires
        binding_index(s, id) is Some,
    ensures
        ({
            let k = binding_index(s, id)->0;
            let s2 = s.update(k, HotkeyBinding { id: s[k].id, binding, enabled: s[k].enabled });
            &&& binding_index(s2, id) == Some(k)
            &&& s2[k].binding == binding
            &&& s2[k].enabled == s[k].enabled
            &&& binding_index(s2, other) == binding_index(s, other)
            &&& other != id ==> (binding_index(s, other) matches Some(j) ==> s2[j] == s[j])
        }),
{
    let k = binding_index(s, id)->0;
    let c = choose|j: int| is_first_binding(s, id, j);
    assert(is_first_binding(s, id, c));
    let nb = HotkeyBinding { id: s[k].id, binding, enabled: s[k].enabled };
    lemma_update_keeps_index(s, k, nb, id);
    lemma_update_keeps_index(s, k, nb, other);
    if other != id {
        if binding_index(s, other) is Some {
            let j = binding_index(s, other)->0;
            let cj = choose|t: int| is_first_binding(s, other, t);
            assert(is_first_binding(s, other, cj));
            assert(s[j].id == other);
        }
    }
}

/// Turning a shortcut on or off is read back the same way, and keeps its
/// key combination.
pub proof fn lemma_set_enabled_then_get(s: Seq<HotkeyBinding>, id: HotkeyId, enabled: bool, other: HotkeyId)
    requires
        binding_index(s, id) is Some,
    ensures
        ({
            let k = binding_index(s, id)->0;
            let s2 = s.update(k, HotkeyBinding { id: s[k].id, binding: s[k].binding, enabled });
            &&& binding_index(s2, id) == Some(k)
            &&& s2[k].enabled == enabled
            &&& s2[k].binding == s[k].binding
            &&& binding_index(s2, other) == binding_index(s, other)
        }),
{
    let k = binding_index(s, id)->0;
    let c = choose|j: int| is_first_binding(s, id, j);
    assert(is_first_binding(s, id, c));
    let nb = HotkeyBinding { id: s[k].id, binding: s[k].binding, enabled };
    lemma_update_keeps_index(s, k, nb, id);
    lemma_update_keeps_index(s, k, nb, other);
}

/// The command a pressed shortcut sends: the feed toggle is left to the
/// user interface, which knows whether the feed is on.
pub open spec fn hotkey_command_spec(id: HotkeyId) -> Option<Command> {
    match id {
        HotkeyId::ToggleFeed => None,
        HotkeyId::PauseResume => Some(Command::PauseDisplay),
        HotkeyId::TakeSnapshot => Some(Command::TakeSnapshot { to_clipboard: false }),
    }
}

/// The command a pressed shortcut sends, if any.
pub fn hotkey_command(id: HotkeyId) -> (r: Option<Command>)
    ensures
        r == hotkey_command_spec(id),
{
    match id {
        HotkeyId::ToggleFeed => None,
        HotkeyId::PauseResume => Some(Command::PauseDisplay),
        HotkeyId::TakeSnapshot => Some(Command::TakeSnapshot { to_clipboard: false }),
    }
}

/// Errors of the shortcut system.
#[derive(Debug)]
pub enum HotkeyError {
    /// The shortcut manager could not start.
    Initialization(String),
    /// A shortcut could not be registered.
    Registration(String),
    /// A binding string is not valid.
    Parse(String),
    /// Two shortcuts clash.
    Conflict(String),
    /// The platform has no global shortcuts.
    Unsupported(String),
}

/// The text of a shortcut error.
pub open spec fn hotkey_error_text(e: HotkeyError) -> Seq<char> {
    match e {
        HotkeyError::Initialization(m) => "Failed to initialize hotkey manager: "@ + m@,
        HotkeyError::Registration(m) => "Failed to register hotkey: "@ + m@,
        HotkeyError::Parse(m) => "Failed to parse hotkey binding: "@ + m@,
        HotkeyError::Conflict(m) => "Hotkey conflict: "@ + m@,
        HotkeyError::Unsupported(m) => "Platform not supported: "@ + m@,
    }
}

impl HotkeyError {
    /// The error as text.
    pub fn to_display_string(&self) -> (r: String)
        ensures
            r@ == hotkey_error_text(*self),
    {
        let (prefix, m) = match self {
            HotkeyError::Initialization(m) => ("Failed to initialize hotkey manager: ", m),
            HotkeyError::Registration(m) => ("Failed to register hotkey: ", m),
            HotkeyError::Parse(m) => ("Failed to parse hotkey binding: ", m),
            HotkeyError::Conflict(m) => ("Hotkey conflict: ", m),
            HotkeyError::Unsupported(m) => ("Platform not supported: ", m),
        };
        let mut s = owned(prefix);
        s.append(m.as_str());
        s
    }
}

/// A key that a shortcut can use.
#[derive(Debug, Clone, Copy, PartialEq, Eq, Hash, Structural)]
pub enum KeyCode {
    KeyA,
    KeyB,
    KeyC,
    KeyD,
    KeyE,
    KeyF,
    KeyG,
    KeyH,
    KeyI,
    KeyJ,
    KeyK,
    KeyL,
    KeyM,
    KeyN,
    KeyO,
    KeyP,
    KeyQ,
    KeyR,
    KeyS,
    KeyT,
    KeyU,
    KeyV,
    KeyW,
    KeyX,
    KeyY,
    KeyZ,
    Space,
    Enter,
    Escape,
    Tab,
    Backspace,
    Delete,
    Home,
    End,
    PageUp,
    PageDown,
    ArrowUp,
    ArrowDown,
    ArrowLeft,
    ArrowRight,
    F1,
    F2,
    F3,
    F4,
    F5,
    F6,
    F7,
    F8,
    F9,
    F10,
    F11,
    F12,
}

/// The key of a lowercase ASCII letter.
pub open spec fn letter_key_spec(c: char) -> KeyCode {
    if c == 'a' {
        KeyCode::KeyA
    } else if c == 'b' {
        KeyCode::KeyB
    } else if c == 'c' {
        KeyCode::KeyC
    } else if c == 'd' {
        KeyCode::KeyD
    } else if c == 'e' {
        KeyCode::KeyE
    } else if c == 'f' {
        KeyCode::KeyF
    } else if c == 'g' {
        KeyCode::KeyG
    } else if c == 'h' {
        KeyCode::KeyH
    } else if c == 'i' {
        KeyCode::KeyI
    } else if c == 'j' {
        KeyCode::KeyJ
    } else if c == 'k' {
        KeyCode::KeyK
    } else if c == 'l' {
        KeyCode::KeyL
    } else if c == 'm' {
        KeyCode::KeyM
    } else if c == 'n' {
        KeyCode::KeyN
    } else if c == 'o' {
        KeyCode::KeyO
    } else if c == 'p' {
        KeyCode::KeyP
    } else if c == 'q' {
        KeyCode::KeyQ
    } else if c == 'r' {
        KeyCode::KeyR
    } else if c == 's' {
        KeyCode::KeyS
    } else if c == 't' {
        KeyCode::KeyT
    } else if c == 'u' {
        KeyCode::KeyU
    } else if c == 'v' {
        KeyCode::KeyV
    } else if c == 'w' {
        KeyCode::KeyW
    } else if c == 'x' {
        KeyCode::KeyX
    } else if c == 'y' {
        KeyCode::KeyY
    } else {
        KeyCode::KeyZ
    }
}

fn letter_key(c: char) -> (r: KeyCode)
    requires
        'a' <= c <= 'z',
    ensures
        r == letter_key_spec(c),
{
    if c == 'a' {
        KeyCode::KeyA
    } else if c == 'b' {
        KeyCode::KeyB
    } else if c == 'c' {
        KeyCode::KeyC
    } else if c == 'd' {
        KeyCode::KeyD
    } else if c == 'e' {
        KeyCode::KeyE
    } else if c == 'f' {
        KeyCode::KeyF
    } else if c == 'g' {
        KeyCode::KeyG
    } else if c == 'h' {
        KeyCode::KeyH
    } else if c == 'i' {
        KeyCode::KeyI
    } else if c == 'j' {
        KeyCode::KeyJ
    } else if c == 'k' {
        KeyCode::KeyK
    } else if c == 'l' {
        KeyCode::KeyL
    } else if c == 'm' {
        KeyCode::KeyM
    } else if c == 'n' {
        KeyCode::KeyN
    } else if c == 'o' {
        KeyCode::KeyO
    } else if c == 'p' {
        KeyCode::KeyP
    } else if c == 'q' {
        KeyCode::KeyQ
    } else if c == 'r' {
        KeyCode::KeyR
    } else if c == 's' {
        KeyCode::KeyS
    } else if c == 't' {
        KeyCode::KeyT
    } else if c == 'u' {
        KeyCode::KeyU
    } else if c == 'v' {
        KeyCode::KeyV
    } else if c == 'w' {
        KeyCode::KeyW
    } else if c == 'x' {
        KeyCode::KeyX
    } else if c == 'y' {
        KeyCode::KeyY
    } else {
        KeyCode::KeyZ
    }
}

/// The key named by a lowercase key name: a single letter, or one of the
/// names of the special keys.
pub open spec fn key_code_for(l: Seq<char>) -> Option<KeyCode> {
    if l.len() == 1 && 'a' <= l[0] <= 'z' {
        Some(letter_key_spec(l[0]))
    } else if l == "space"@ {
        Some(KeyCode::Space)
    } else if l == "enter"@ || l == "return"@ {
        Some(KeyCode::Enter)
    } else if l == "escape"@ || l == "esc"@ {
        Some(KeyCode::Escape)
    } else if l == "tab"@ {
        Some(KeyCode::Tab)
    } else if l == "backspace"@ {
        Some(KeyCode::Backspace)
    } else if l == "delete"@ || l == "del"@ {
        Some(KeyCode::Delete)
    } else if l == "home"@ {
        Some(KeyCode::Home)
    } else if l == "end"@ {
        Some(KeyCode::End)
    } else if l == "pageup"@ || l == "pgup"@ {
        Some(KeyCode::PageUp)
    } else if l == "pagedown"@ || l == "pgdn"@ {
        Some(KeyCode::PageDown)
    } else if l == "up"@ || l == "arrowup"@ {
        Some(KeyCode::ArrowUp)
    } else if l == "down"@ || l == "arrowdown"@ {
        Some(KeyCode::ArrowDown)
    } else if l == "left"@ || l == "arrowleft"@ {
        Some(KeyCode::ArrowLeft)
    } else if l == "right"@ || l == "arrowright"@ {
        Some(KeyCode::ArrowRight)
    } else if l == "f1"@ {
        Some(KeyCode::F1)
    } else if l == "f2"@ {
        Some(KeyCode::F2)
    } else if l == "f3"@ {
        Some(KeyCode::F3)
    } else if l == "f4"@ {
        Some(KeyCode::F4)
    } else if l == "f5"@ {
        Some(KeyCode::F5)
    } else if l == "f6"@ {
        Some(KeyCode::F6)
    } else if l == "f7"@ {
        Some(KeyCode::F7)
    } else if l == "f8"@ {
        Some(KeyCode::F8)
    } else if l == "f9"@ {
        Some(KeyCode::F9)
    } else if l == "f10"@ {
        Some(KeyCode::F10)
    } else if l == "f11"@ {
        Some(KeyCode::F11)
    } else if l == "f12"@ {
        Some(KeyCode::F12)
    } else {
        None
    }
}

/// Each key name reads as the key of that name: a single lowercase letter
/// as its letter key, and every named key (with its short forms, such as
/// `del` for Delete or `pgup` for Page Up) as that key.
pub proof fn lemma_key_names()
    ensures
        key_code_for(seq!['a']) == Some(KeyCode::KeyA),
        key_code_for(seq!['b']) == Some(KeyCode::KeyB),
        key_code_for(seq!['c']) == Some(KeyCode::KeyC),
        key_code_for(seq!['d']) == Some(KeyCode::KeyD),
        key_code_for(seq!['e']) == Some(KeyCode::KeyE),
        key_code_for(seq!['f']) == Some(KeyCode::KeyF),
        key_code_for(seq!['g']) == Some(KeyCode::KeyG),
        key_code_for(seq!['h']) == Some(KeyCode::KeyH),
        key_code_for(seq!['i']) == Some(KeyCode::KeyI),
        key_code_for(seq!['j']) == Some(KeyCode::KeyJ),
        key_code_for(seq!['k']) == Some(KeyCode::KeyK),
        key_code_for(seq!['l']) == Some(KeyCode::KeyL),
        key_code_for(seq!['m']) == Some(KeyCode::KeyM),
        key_code_for(seq!['n']) == Some(KeyCode::KeyN),
        key_code_for(seq!['o']) == Some(KeyCode::KeyO),
        key_code_for(seq!['p']) == Some(KeyCode::KeyP),
        key_code_for(seq!['q']) == Some(KeyCode::KeyQ),
        key_code_for(seq!['r']) == Some(KeyCode::KeyR),
        key_code_for(seq!['s']) == Some(KeyCode::KeyS),
        key_code_for(seq!['t']) == Some(KeyCode::KeyT),
        key_code_for(seq!['u']) == Some(KeyCode::KeyU),
        key_code_for(seq!['v']) == Some(KeyCode::KeyV),
        key_code_for(seq!['w']) == Some(KeyCode::KeyW),
        key_code_for(seq!['x']) == Some(KeyCode::KeyX),
        key_code_for(seq!['y']) == Some(KeyCode::KeyY),
        key_code_for(seq!['z']) == Some(KeyCode::KeyZ),
        key_code_for("space"@) == Some(KeyCode::Space),
        key_code_for("enter"@) == Some(KeyCode::Enter),
        key_code_for("return"@) == Some(KeyCode::Enter),
        key_code_for("escape"@) == Some(KeyCode::Escape),
        key_code_for("esc"@) == Some(KeyCode::Escape),
        key_code_for("tab"@) == Some(KeyCode::Tab),
        key_code_for("backspace"@) == Some(KeyCode::Backspace),
        key_code_for("delete"@) == Some(KeyCode::Delete),
        key_code_for("del"@) == Some(KeyCode::Delete),
        key_code_for("home"@) == Some(KeyCode::Home),
        key_code_for("end"@) == Some(KeyCode::End),
        key_code_for("pageup"@) == Some(KeyCode::PageUp),
        key_code_for("pgup"@) == Some(KeyCode::PageUp),
        key_code_for("pagedown"@) == Some(KeyCode::PageDown),
        key_code_for("pgdn"@) == Some(KeyCode::PageDown),
        key_code_for("up"@) == Some(KeyCode::ArrowUp),
        key_code_for("arrowup"@) == Some(KeyCode::ArrowUp),
        key_code_for("down"@) == Some(KeyCode::ArrowDown),
        key_code_for("arrowdown"@) == Some(KeyCode::ArrowDown),
        key_code_for("left"@) == Some(KeyCode::ArrowLeft),
        key_code_for("arrowleft"@) == Some(KeyCode::ArrowLeft),
        key_code_for("right"@) == Some(KeyCode::ArrowRight),
        key_code_for("arrowright"@) == Some(KeyCode::ArrowRight),
        key_code_for("f1"@) == Some(KeyCode::F1),
        key_code_for("f2"@) == Some(KeyCode::F2),
        key_code_for("f3"@) == Some(KeyCode::F3),
        key_code_for("f4"@) == Some(KeyCode::F4),
        key_code_for("f5"@) == Some(KeyCode::F5),
        key_code_for("f6"@) == Some(KeyCode::F6),
        key_code_for("f7"@) == Some(KeyCode::F7),
        key_code_for("f8"@) == Some(KeyCode::F8),
        key_code_for("f9"@) == Some(KeyCode::F9),
        key_code_for("f10"@) == Some(KeyCode::F10),
        key_code_for("f11"@) == Some(KeyCode::F11),
        key_code_for("f12"@) == Some(KeyCode::F12),
{
    key_name_space();
    key_name_enter();
    key_name_return();
    key_name_escape();
    key_name_esc();
    key_name_tab();
    key_name_backspace();
    key_name_delete();
    key_name_del();
    key_name_home();
    key_name_end();
    key_name_pageup();
    key_name_pgup();
    key_name_pagedown();
    key_name_pgdn();
    key_name_up();
    key_name_arrowup();
    key_name_down();
    key_name_arrowdown();
    key_name_left();
    key_name_arrowleft();
    key_name_right();
    key_name_arrowright();
    key_name_f1();
    key_name_f2();
    key_name_f3();
    key_name_f4();
    key_name_f5();
    key_name_f6();
    key_name_f7();
    key_name_f8();
    key_name_f9();
    key_name_f10();
    key_name_f11();
    key_name_f12();
}

proof fn key_name_space()
    ensures
        key_code_for("space"@) == Some(KeyCode::Space),
{
    reveal_strlit("space");
}

proof fn key_name_enter()
    ensures
        key_code_for("enter"@) == Some(KeyCode::Enter),
{
    reveal_strlit("space");
    reveal_strlit("enter");
}

proof fn key_name_return()
    ensures
        key_code_for("return"@) == Some(KeyCode::Enter),
{
    reveal_strlit("space");
    reveal_strlit("enter");
    reveal_strlit("return");
}

proof fn key_name_escape()
    ensures
        key_code_for("escape"@) == Some(KeyCode::Escape),
{
    reveal_strlit("space");
    reveal_strlit("enter");
    reveal_strlit("return");
    reveal_strlit("escape");
}

proof fn key_name_esc()
    ensures
        key_code_for("esc"@) == Some(KeyCode::Escape),
{
    reveal_strlit("space");
    reveal_strlit("enter");
    reveal_strlit("return");
    reveal_strlit("escape");
    reveal_strlit("esc");
}

proof fn key_name_tab()
    ensures
        key_code_for("tab"@) == Some(KeyCode::Tab),
{
    reveal_strlit("space");
    reveal_strlit("enter");
    reveal_strlit("return");
    reveal_strlit("escape");
    reveal_strlit("esc");
    reveal_strlit("tab");
}

proof fn key_name_backspace()
    ensures
        key_code_for("backspace"@) == Some(KeyCode::Backspace),
{
    reveal_strlit("space");
    reveal_strlit("enter");
    reveal_strlit("return");
    reveal_strlit("escape");
    reveal_strlit("esc");
    reveal_strlit("tab");
    reveal_strlit("backspace");
}

proof fn key_name_delete()
    ensures
        key_code_for("delete"@) == Some(KeyCode::Delete),
{
    reveal_strlit("space");
    reveal_strlit("enter");
    reveal_strlit("return");
    reveal_strlit("escape");
    reveal_strlit("esc");
    reveal_strlit("tab");
    reveal_strlit("backspace");
    reveal_strlit("delete");
}

proof fn key_name_del()
    ensures
        key_code_for("del"@) == Some(KeyCode::Delete),
{
    reveal_strlit("space");
    reveal_strlit("enter");
    reveal_strlit("return");
    reveal_strlit("escape");
    reveal_strlit("esc");
    reveal_strlit("tab");
    reveal_strlit("backspace");
    reveal_strlit("delete");
    reveal_strlit("del");
}

proof fn key_name_home()
    ensures
        key_code_for("home"@) == Some(KeyCode::Home),
{
    reveal_strlit("space");
    reveal_strlit("enter");
    reveal_strlit("return");
    reveal_strlit("escape");
    reveal_strlit("esc");
    reveal_strlit("tab");
    reveal_strlit("backspace");
    reveal_strlit("delete");
    reveal_strlit("del");
    reveal_strlit("home");
}

proof fn key_name_end()
    ensures
        key_code_for("end"@) == Some(KeyCode::End),
{
    reveal_strlit("space");
    reveal_strlit("enter");
    reveal_strlit("return");
    reveal_strlit("escape");
    reveal_strlit("esc");
    reveal_strlit("tab");
    reveal_strlit("backspace");
    reveal_strlit("delete");
    reveal_strlit("del");
    reveal_strlit("home");
    reveal_strlit("end");
    assert("end"@[1] != "esc"@[1]);
}

proof fn key_name_pageup()
    ensures
        key_code_for("pageup"@) == Some(KeyCode::PageUp),
{
    reveal_strlit("space");
    reveal_strlit("enter");
    reveal_strlit("return");
    reveal_strlit("escape");
    reveal_strlit("esc");
    reveal_strlit("tab");
    reveal_strlit("backspace");
    reveal_strlit("delete");
    reveal_strlit("del");
    reveal_strlit("home");
    reveal_strlit("end");
    reveal_strlit("pageup");
}

proof fn key_name_pgup()
    ensures
        key_code_for("pgup"@) == Some(KeyCode::PageUp),
{
    reveal_strlit("space");
    reveal_strlit("enter");
    reveal_strlit("return");
    reveal_strlit("escape");
    reveal_strlit("esc");
    reveal_strlit("tab");
    reveal_strlit("backspace");
    reveal_strlit("delete");
    reveal_strlit("del");
    reveal_strlit("home");
    reveal_strlit("end");
    reveal_strlit("pageup");
    reveal_strlit("pgup");
}

proof fn key_name_pagedown()
    ensures
        key_code_for("pagedown"@) == Some(KeyCode::PageDown),
{
    reveal_strlit("space");
    reveal_strlit("enter");
    reveal_strlit("return");
    reveal_strlit("escape");
    reveal_strlit("esc");
    reveal_strlit("tab");
    reveal_strlit("backspace");
    reveal_strlit("delete");
    reveal_strlit("del");
    reveal_strlit("home");
    reveal_strlit("end");
    reveal_strlit("pageup");
    reveal_strlit("pgup");
    reveal_strlit("pagedown");
}

proof fn key_name_pgdn()
    ensures
        key_code_for("pgdn"@) == Some(KeyCode::PageDown),
{
    reveal_strlit("space");
    reveal_strlit("enter");
    reveal_strlit("return");
    reveal_strlit("escape");
    reveal_strlit("esc");
    reveal_strlit("tab");
    reveal_strlit("backspace");
    reveal_strlit("delete");
    reveal_strlit("del");
    reveal_strlit("home");
    reveal_strlit("end");
    reveal_strlit("pageup");
    reveal_strlit("pgup");
    reveal_strlit("pagedown");
    reveal_strlit("pgdn");
    assert("pgdn"@[2] != "pgup"@[2]);
}

proof fn key_name_up()
    ensures
        key_code_for("up"@) == Some(KeyCode::ArrowUp),
{
    reveal_strlit("space");
    reveal_strlit("enter");
    reveal_strlit("return");
    reveal_strlit("escape");
    reveal_strlit("esc");
    reveal_strlit("tab");
    reveal_strlit("backspace");
    reveal_strlit("delete");
    reveal_strlit("del");
    reveal_strlit("home");
    reveal_strlit("end");
    reveal_strlit("pageup");
    reveal_strlit("pgup");
    reveal_strlit("pagedown");
    reveal_strlit("pgdn");
    reveal_strlit("up");
}

proof fn key_name_arrowup()
    ensures
        key_code_for("arrowup"@) == Some(KeyCode::ArrowUp),
{
    reveal_strlit("space");
    reveal_strlit("enter");
    reveal_strlit("return");
    reveal_strlit("escape");
    reveal_strlit("esc");
    reveal_strlit("tab");
    reveal_strlit("backspace");
    reveal_strlit("delete");
    reveal_strlit("del");
    reveal_strlit("home");
    reveal_strlit("end");
    reveal_strlit("pageup");
    reveal_strlit("pgup");
    reveal_strlit("pagedown");
    reveal_strlit("pgdn");
    reveal_strlit("up");
    reveal_strlit("arrowup");
}

proof fn key_name_down()
    ensures
        key_code_for("down"@) == Some(KeyCode::ArrowDown),
{
    reveal_strlit("space");
    reveal_strlit("enter");
    reveal_strlit("return");
    reveal_strlit("escape");
    reveal_strlit("esc");
    reveal_strlit("tab");
    reveal_strlit("backspace");
    reveal_strlit("delete");
    reveal_strlit("del");
    reveal_strlit("home");
    reveal_strlit("end");
    reveal_strlit("pageup");
    reveal_strlit("pgup");
    reveal_strlit("pagedown");
    reveal_strlit("pgdn");
    reveal_strlit("up");
    reveal_strlit("arrowup");
    reveal_strlit("down");
}

proof fn key_name_arrowdown()
    ensures
        key_code_for("arrowdown"@) == Some(KeyCode::ArrowDown),
{
    reveal_strlit("space");
    reveal_strlit("enter");
    reveal_strlit("return");
    reveal_strlit("escape");
    reveal_strlit("esc");
    reveal_strlit("tab");
    reveal_strlit("backspace");
    reveal_strlit("delete");
    reveal_strlit("del");
    reveal_strlit("home");
    reveal_strlit("end");
    reveal_strlit("pageup");
    reveal_strlit("pgup");
    reveal_strlit("pagedown");
    reveal_strlit("pgdn");
    reveal_strlit("up");
    reveal_strlit("arrowup");
    reveal_strlit("down");
    reveal_strlit("arrowdown");
}

proof fn key_name_left()
    ensures
        key_code_for("left"@) == Some(KeyCode::ArrowLeft),
{
    reveal_strlit("space");
    reveal_strlit("enter");
    reveal_strlit("return");
    reveal_strlit("escape");
    reveal_strlit("esc");
    reveal_strlit("tab");
    reveal_strlit("backspace");
    reveal_strlit("delete");
    reveal_strlit("del");
    reveal_strlit("home");
    reveal_strlit("end");
    reveal_strlit("pageup");
    reveal_strlit("pgup");
    reveal_strlit("pagedown");
    reveal_strlit("pgdn");
    reveal_strlit("up");
    reveal_strlit("arrowup");
    reveal_strlit("down");
    reveal_strlit("arrowdown");
    reveal_strlit("left");
}

proof fn key_name_arrowleft()
    ensures
        key_code_for("arrowleft"@) == Some(KeyCode::ArrowLeft),
{
    reveal_strlit("space");
    reveal_strlit("enter");
    reveal_strlit("return");
    reveal_strlit("escape");
    reveal_strlit("esc");
    reveal_strlit("tab");
    reveal_strlit("backspace");
    reveal_strlit("delete");
    reveal_strlit("del");
    reveal_strlit("home");
    reveal_strlit("end");
    reveal_strlit("pageup");
    reveal_strlit("pgup");
    reveal_strlit("pagedown");
    reveal_strlit("pgdn");
    reveal_strlit("up");
    reveal_strlit("arrowup");
    reveal_strlit("down");
    reveal_strlit("arrowdown");
    reveal_strlit("left");
    reveal_strlit("arrowleft");
    assert("arrowleft"@[5] != "arrowdown"@[5]);
}

proof fn key_name_right()
    ensures
        key_code_for("right"@) == Some(KeyCode::ArrowRight),
{
    reveal_strlit("space");
    reveal_strlit("enter");
    reveal_strlit("return");
    reveal_strlit("escape");
    reveal_strlit("esc");
    reveal_strlit("tab");
    reveal_strlit("backspace");
    reveal_strlit("delete");
    reveal_strlit("del");
    reveal_strlit("home");
    reveal_strlit("end");
    reveal_strlit("pageup");
    reveal_strlit("pgup");
    reveal_strlit("pagedown");
    reveal_strlit("pgdn");
    reveal_strlit("up");
    reveal_strlit("arrowup");
    reveal_strlit("down");
    reveal_strlit("arrowdown");
    reveal_strlit("left");
    reveal_strlit("arrowleft");
    reveal_strlit("right");
}

proof fn key_name_arrowright()
    ensures
        key_code_for("arrowright"@) == Some(KeyCode::ArrowRight),
{
    reveal_strlit("space");
    reveal_strlit("enter");
    reveal_strlit("return");
    reveal_strlit("escape");
    reveal_strlit("esc");
    reveal_strlit("tab");
    reveal_strlit("backspace");
    reveal_strlit("delete");
    reveal_strlit("del");
    reveal_strlit("home");
    reveal_strlit("end");
    reveal_strlit("pageup");
    reveal_strlit("pgup");
    reveal_strlit("pagedown");
    reveal_strlit("pgdn");
    reveal_strlit("up");
    reveal_strlit("arrowup");
    reveal_strlit("down");
    reveal_strlit("arrowdown");
    reveal_strlit("left");
    reveal_strlit("arrowleft");
    reveal_strlit("right");
    reveal_strlit("arrowright");
}

proof fn key_name_f1()
    ensures
        key_code_for("f1"@) == Some(KeyCode::F1),
{
    reveal_strlit("space");
    reveal_strlit("enter");
    reveal_strlit("return");
    reveal_strlit("escape");
    reveal_strlit("esc");
    reveal_strlit("tab");
    reveal_strlit("backspace");
    reveal_strlit("delete");
    reveal_strlit("del");
    reveal_strlit("home");
    reveal_strlit("end");
    reveal_strlit("pageup");
    reveal_strlit("pgup");
    reveal_strlit("pagedown");
    reveal_strlit("pgdn");
    reveal_strlit("up");
    reveal_strlit("arrowup");
    reveal_strlit("down");
    reveal_strlit("arrowdown");
    reveal_strlit("left");
    reveal_strlit("arrowleft");
    reveal_strlit("right");
    reveal_strlit("arrowright");
    reveal_strlit("f1");
}

proof fn key_name_f2()
    ensures
        key_code_for("f2"@) == Some(KeyCode::F2),
{
    reveal_strlit("space");
    reveal_strlit("enter");
    reveal_strlit("return");
    reveal_strlit("escape");
    reveal_strlit("esc");
    reveal_strlit("tab");
    reveal_strlit("backspace");
    reveal_strlit("delete");
    reveal_strlit("del");
    reveal_strlit("home");
    reveal_strlit("end");
    reveal_strlit("pageup");
    reveal_strlit("pgup");
    reveal_strlit("pagedown");
    reveal_strlit("pgdn");
    reveal_strlit("up");
    reveal_strlit("arrowup");
    reveal_strlit("down");
    reveal_strlit("arrowdown");
    reveal_strlit("left");
    reveal_strlit("arrowleft");
    reveal_strlit("right");
    reveal_strlit("arrowright");
    reveal_strlit("f1");
    reveal_strlit("f2");
    assert("f2"@[1] != "f1"@[1]);
}

proof fn key_name_f3()
    ensures
        key_code_for("f3"@) == Some(KeyCode::F3),
{
    reveal_strlit("space");
    reveal_strlit("enter");
    reveal_strlit("return");
    reveal_strlit("escape");
    reveal_strlit("esc");
    reveal_strlit("tab");
    reveal_strlit("backspace");
    reveal_strlit("delete");
    reveal_strlit("del");
    reveal_strlit("home");
    reveal_strlit("end");
    reveal_strlit("pageup");
    reveal_strlit("pgup");
    reveal_strlit("pagedown");
    reveal_strlit("pgdn");
    reveal_strlit("up");
    reveal_strlit("arrowup");
    reveal_strlit("down");
    reveal_strlit("arrowdown");
    reveal_strlit("left");
    reveal_strlit("arrowleft");
    reveal_strlit("right");
    reveal_strlit("arrowright");
    reveal_strlit("f1");
    reveal_strlit("f2");
    reveal_strlit("f3");
    assert("f3"@[1] != "f1"@[1]);
    assert("f3"@[1] != "f2"@[1]);
}

proof fn key_name_f4()
    ensures
        key_code_for("f4"@) == Some(KeyCode::F4),
{
    reveal_strlit("space");
    reveal_strlit("enter");
    reveal_strlit("return");
    reveal_strlit("escape");
    reveal_strlit("esc");
    reveal_strlit("tab");
    reveal_strlit("backspace");
    reveal_strlit("delete");
    reveal_strlit("del");
    reveal_strlit("home");
    reveal_strlit("end");
    reveal_strlit("pageup");
    reveal_strlit("pgup");
    reveal_strlit("pagedown");
    reveal_strlit("pgdn");
    reveal_strlit("up");
    reveal_strlit("arrowup");
    reveal_strlit("down");
    reveal_strlit("arrowdown");
    reveal_strlit("left");
    reveal_strlit("arrowleft");
    reveal_strlit("right");
    reveal_strlit("arrowright");
    reveal_strlit("f1");
    reveal_strlit("f2");
    reveal_strlit("f3");
    reveal_strlit("f4");
    assert("f4"@[1] != "f1"@[1]);
    assert("f4"@[1] != "f2"@[1]);
    assert("f4"@[1] != "f3"@[1]);
}

proof fn key_name_f5()
    ensures
        key_code_for("f5"@) == Some(KeyCode::F5),
{
    reveal_strlit("space");
    reveal_strlit("enter");
    reveal_strlit("return");
    reveal_strlit("escape");
    reveal_strlit("esc");
    reveal_strlit("tab");
    reveal_strlit("backspace");
    reveal_strlit("delete");
    reveal_strlit("del");
    reveal_strlit("home");
    reveal_strlit("end");
    reveal_strlit("pageup");
    reveal_strlit("pgup");
    reveal_strlit("pagedown");
    reveal_strlit("pgdn");
    reveal_strlit("up");
    reveal_strlit("arrowup");
    reveal_strlit("down");
    reveal_strlit("arrowdown");
    reveal_strlit("left");
    reveal_strlit("arrowleft");
    reveal_strlit("right");
    reveal_strlit("arrowright");
    reveal_strlit("f1");
    reveal_strlit("f2");
    reveal_strlit("f3");
    reveal_strlit("f4");
    reveal_strlit("f5");
    assert("f5"@[1] != "f1"@[1]);
    assert("f5"@[1] != "f2"@[1]);
    assert("f5"@[1] != "f3"@[1]);
    assert("f5"@[1] != "f4"@[1]);
}

proof fn key_name_f6()
    ensures
        key_code_for("f6"@) == Some(KeyCode::F6),
{
    reveal_strlit("space");
    reveal_strlit("enter");
    reveal_strlit("return");
    reveal_strlit("escape");
    reveal_strlit("esc");
    reveal_strlit("tab");
    reveal_strlit("backspace");
    reveal_strlit("delete");
    reveal_strlit("del");
    reveal_strlit("home");
    reveal_strlit("end");
    reveal_strlit("pageup");
    reveal_strlit("pgup");
    reveal_strlit("pagedown");
    reveal_strlit("pgdn");
    reveal_strlit("up");
    reveal_strlit("arrowup");
    reveal_strlit("down");
    reveal_strlit("arrowdown");
    reveal_strlit("left");
    reveal_strlit("arrowleft");
    reveal_strlit("right");
    reveal_strlit("arrowright");
    reveal_strlit("f1");
    reveal_strlit("f2");
    reveal_strlit("f3");
    reveal_strlit("f4");
    reveal_strlit("f5");
    reveal_strlit("f6");
    assert("f6"@[1] != "f1"@[1]);
    assert("f6"@[1] != "f2"@[1]);
    assert("f6"@[1] != "f3"@[1]);
    assert("f6"@[1] != "f4"@[1]);
    assert("f6"@[1] != "f5"@[1]);
}

proof fn key_name_f7()
    ensures
        key_code_for("f7"@) == Some(KeyCode::F7),
{
    reveal_strlit("space");
    reveal_strlit("enter");
    reveal_strlit("return");
    reveal_strlit("escape");
    reveal_strlit("esc");
    reveal_strlit("tab");
    reveal_strlit("backspace");
    reveal_strlit("delete");
    reveal_strlit("del");
    reveal_strlit("home");
    reveal_strlit("end");
    reveal_strlit("pageup");
    reveal_strlit("pgup");
    reveal_strlit("pagedown");
    reveal_strlit("pgdn");
    reveal_strlit("up");
    reveal_strlit("arrowup");
    reveal_strlit("down");
    reveal_strlit("arrowdown");
    reveal_strlit("left");
    reveal_strlit("arrowleft");
    reveal_strlit("right");
    reveal_strlit("arrowright");
    reveal_strlit("f1");
    reveal_strlit("f2");
    reveal_strlit("f3");
    reveal_strlit("f4");
    reveal_strlit("f5");
    reveal_strlit("f6");
    reveal_strlit("f7");
    assert("f7"@[1] != "f1"@[1]);
    assert("f7"@[1] != "f2"@[1]);
    assert("f7"@[1] != "f3"@[1]);
    assert("f7"@[1] != "f4"@[1]);
    assert("f7"@[1] != "f5"@[1]);
    assert("f7"@[1] != "f6"@[1]);
}

proof fn key_name_f8()
    ensures
        key_code_for("f8"@) == Some(KeyCode::F8),
{
    reveal_strlit("space");
    reveal_strlit("enter");
    reveal_strlit("return");
    reveal_strlit("escape");
    reveal_strlit("esc");
    reveal_strlit("tab");
    reveal_strlit("backspace");
    reveal_strlit("delete");
    reveal_strlit("del");
    reveal_strlit("home");
    reveal_strlit("end");
    reveal_strlit("pageup");
    reveal_strlit("pgup");
    reveal_strlit("pagedown");
    reveal_strlit("pgdn");
    reveal_strlit("up");
    reveal_strlit("arrowup");
    reveal_strlit("down");
    reveal_strlit("arrowdown");
    reveal_strlit("left");
    reveal_strlit("arrowleft");
    reveal_strlit("right");
    reveal_strlit("arrowright");
    reveal_strlit("f1");
    reveal_strlit("f2");
    reveal_strlit("f3");
    reveal_strlit("f4");
    reveal_strlit("f5");
    reveal_strlit("f6");
    reveal_strlit("f7");
    reveal_strlit("f8");
    assert("f8"@[1] != "f1"@[1]);
    assert("f8"@[1] != "f2"@[1]);
    assert("f8"@[1] != "f3"@[1]);
    assert("f8"@[1] != "f4"@[1]);
    assert("f8"@[1] != "f5"@[1]);
    assert("f8"@[1] != "f6"@[1]);
    assert("f8"@[1] != "f7"@[1]);
}

proof fn key_name_f9()
    ensures
        key_code_for("f9"@) == Some(KeyCode::F9),
{
    reveal_strlit("space");
    reveal_strlit("enter");
    reveal_strlit("return");
    reveal_strlit("escape");
    reveal_strlit("esc");
    reveal_strlit("tab");
    reveal_strlit("backspace");
    reveal_strlit("delete");
    reveal_strlit("del");
    reveal_strlit("home");
    reveal_strlit("end");
    reveal_strlit("pageup");
    reveal_strlit("pgup");
    reveal_strlit("pagedown");
    reveal_strlit("pgdn");
    reveal_strlit("up");
    reveal_strlit("arrowup");
    reveal_strlit("down");
    reveal_strlit("arrowdown");
    reveal_strlit("left");
    reveal_strlit("arrowleft");
    reveal_strlit("right");
    reveal_strlit("arrowright");
    reveal_strlit("f1");
    reveal_strlit("f2");
    reveal_strlit("f3");
    reveal_strlit("f4");
    reveal_strlit("f5");
    reveal_strlit("f6");
    reveal_strlit("f7");
    reveal_strlit("f8");
    reveal_strlit("f9");
    assert("f9"@[1] != "f1"@[1]);
    assert("f9"@[1] != "f2"@[1]);
    assert("f9"@[1] != "f3"@[1]);
    assert("f9"@[1] != "f4"@[1]);
    assert("f9"@[1] != "f5"@[1]);
    assert("f9"@[1] != "f6"@[1]);
    assert("f9"@[1] != "f7"@[1]);
    assert("f9"@[1] != "f8"@[1]);
}

proof fn key_name_f10()
    ensures
        key_code_for("f10"@) == Some(KeyCode::F10),
{
    reveal_strlit("space");
    reveal_strlit("enter");
    reveal_strlit("return");
    reveal_strlit("escape");
    reveal_strlit("esc");
    reveal_strlit("tab");
    reveal_strlit("backspace");
    reveal_strlit("delete");
    reveal_strlit("del");
    reveal_strlit("home");
    reveal_strlit("end");
    reveal_strlit("pageup");
    reveal_strlit("pgup");
    reveal_strlit("pagedown");
    reveal_strlit("pgdn");
    reveal_strlit("up");
    reveal_strlit("arrowup");
    reveal_strlit("down");
    reveal_strlit("arrowdown");
    reveal_strlit("left");
    reveal_strlit("arrowleft");
    reveal_strlit("right");
    reveal_strlit("arrowright");
    reveal_strlit("f1");
    reveal_strlit("f2");
    reveal_strlit("f3");
    reveal_strlit("f4");
    reveal_strlit("f5");
    reveal_strlit("f6");
    reveal_strlit("f7");
    reveal_strlit("f8");
    reveal_strlit("f9");
    reveal_strlit("f10");
}

proof fn key_name_f11()
    ensures
        key_code_for("f11"@) == Some(KeyCode::F11),
{
    reveal_strlit("space");
    reveal_strlit("enter");
    reveal_strlit("return");
    reveal_strlit("escape");
    reveal_strlit("esc");
    reveal_strlit("tab");
    reveal_strlit("backspace");
    reveal_strlit("delete");
    reveal_strlit("del");
    reveal_strlit("home");
    reveal_strlit("end");
    reveal_strlit("pageup");
    reveal_strlit("pgup");
    reveal_strlit("pagedown");
    reveal_strlit("pgdn");
    reveal_strlit("up");
    reveal_strlit("arrowup");
    reveal_strlit("down");
    reveal_strlit("arrowdown");
    reveal_strlit("left");
    reveal_strlit("arrowleft");
    reveal_strlit("right");
    reveal_strlit("arrowright");
    reveal_strlit("f1");
    reveal_strlit("f2");
    reveal_strlit("f3");
    reveal_strlit("f4");
    reveal_strlit("f5");
    reveal_strlit("f6");
    reveal_strlit("f7");
    reveal_strlit("f8");
    reveal_strlit("f9");
    reveal_strlit("f10");
    reveal_strlit("f11");
    assert("f11"@[2] != "f10"@[2]);
}

proof fn key_name_f12()
    ensures
        key_code_for("f12"@) == Some(KeyCode::F12),
{
    reveal_strlit("space");
    reveal_strlit("enter");
    reveal_strlit("return");
    reveal_strlit("escape");
    reveal_strlit("esc");
    reveal_strlit("tab");
    reveal_strlit("backspace");
    reveal_strlit("delete");
    reveal_strlit("del");
    reveal_strlit("home");
    reveal_strlit("end");
    reveal_strlit("pageup");
    reveal_strlit("pgup");
    reveal_strlit("pagedown");
    reveal_strlit("pgdn");
    reveal_strlit("up");
    reveal_strlit("arrowup");
    reveal_strlit("down");
    reveal_strlit("arrowdown");
    reveal_strlit("left");
    reveal_strlit("arrowleft");
    reveal_strlit("right");
    reveal_strlit("arrowright");
    reveal_strlit("f1");
    reveal_strlit("f2");
    reveal_strlit("f3");
    reveal_strlit("f4");
    reveal_strlit("f5");
    reveal_strlit("f6");
    reveal_strlit("f7");
    reveal_strlit("f8");
    reveal_strlit("f9");
    reveal_strlit("f10");
    reveal_strlit("f11");
    reveal_strlit("f12");
    assert("f12"@[2] != "f10"@[2]);
    assert("f12"@[2] != "f11"@[2]);
}

fn special_key(l: &str) -> (r: Option<KeyCode>)
    ensures
        !(l@.len() == 1 && 'a' <= l@[0] <= 'z') ==> r == key_code_for(l@),
{
    if str_eq(l, "space") {
        Some(KeyCode::Space)
    } else if str_eq(l, "enter") || str_eq(l, "return") {
        Some(KeyCode::Enter)
    } else if str_eq(l, "escape") || str_eq(l, "esc") {
        Some(KeyCode::Escape)
    } else if str_eq(l, "tab") {
        Some(KeyCode::Tab)
    } else if str_eq(l, "backspace") {
        Some(KeyCode::Backspace)
    } else if str_eq(l, "delete") || str_eq(l, "del") {
        Some(KeyCode::Delete)
    } else if str_eq(l, "home") {
        Some(KeyCode::Home)
    } else if str_eq(l, "end") {
        Some(KeyCode::End)
    } else if str_eq(l, "pageup") || str_eq(l, "pgup") {
        Some(KeyCode::PageUp)
    } else if str_eq(l, "pagedown") || str_eq(l, "pgdn") {
        Some(KeyCode::PageDown)
    } else if str_eq(l, "up") || str_eq(l, "arrowup") {
        Some(KeyCode::ArrowUp)
    } else if str_eq(l, "down") || str_eq(l, "arrowdown") {
        Some(KeyCode::ArrowDown)
    } else if str_eq(l, "left") || str_eq(l, "arrowleft") {
        Some(KeyCode::ArrowLeft)
    } else if str_eq(l, "right") || str_eq(l, "arrowright") {
        Some(KeyCode::ArrowRight)
    } else if str_eq(l, "f1") {
        Some(KeyCode::F1)
    } else if str_eq(l, "f2") {
        Some(KeyCode::F2)
    } else if str_eq(l, "f3") {
        Some(KeyCode::F3)
    } else if str_eq(l, "f4") {
        Some(KeyCode::F4)
    } else if str_eq(l, "f5") {
        Some(KeyCode::F5)
    } else if str_eq(l, "f6") {
        Some(KeyCode::F6)
    } else if str_eq(l, "f7") {
        Some(KeyCode::F7)
    } else if str_eq(l, "f8") {
        Some(KeyCode::F8)
    } else if str_eq(l, "f9") {
        Some(KeyCode::F9)
    } else if str_eq(l, "f10") {
        Some(KeyCode::F10)
    } else if str_eq(l, "f11") {
        Some(KeyCode::F11)
    } else if str_eq(l, "f12") {
        Some(KeyCode::F12)
    } else {
        None
    }
}

/// The message of the error for an unknown key name.
pub open spec fn unknown_key_text(name: Seq<char>) -> Seq<char> {
    "Unknown key: "@ + name
}

/// Parses a key name, in any letter case: a letter, `Space`, `Enter` or
/// `Return`, `Escape` or `Esc`, `Tab`, `Backspace`, `Delete` or `Del`, `Home`,
/// `End`, `PageUp` or `PgUp`, `PageDown` or `PgDn`, the arrows (`Up` or
/// `ArrowUp`, ...) and `F1` to `F12`.
pub fn parse_key_code(s: &str) -> (r: Result<KeyCode, HotkeyError>)
    ensures
        match key_code_for(lowercase(s@)) {
            Some(k) => r == Ok::<KeyCode, HotkeyError>(k),
            None => r matches Err(HotkeyError::Parse(m)) && m@ == unknown_key_text(s@),
        },
{
    let lower = to_lower(s);
    let l = lower.as_str();
    if l.unicode_len() == 1 {
        let c = l.get_char(0);
        if 'a' <= c && c <= 'z' {
            return Ok(letter_key(c));
        }
    }
    match special_key(l) {
        Some(k) => Ok(k),
        None => {
            let mut m = owned("Unknown key: ");
            m.append(s);
            Err(HotkeyError::Parse(m))
        },
    }
}

/// Modifier keys of a shortcut.
#[derive(Debug, Clone, Copy, PartialEq, Eq, Structural)]
pub struct HotkeyModifiers {
    pub control: bool,
    pub alt: bool,
    pub shift: bool,
    /// Command, Windows or Super.
    pub meta: bool,
}

/// A parsed binding: modifiers and a key.
#[derive(Debug, Clone, Copy, PartialEq, Eq, Structural)]
pub struct ParsedHotkey {
    pub modifiers: HotkeyModifiers,
    pub key: KeyCode,
}

/// No modifier.
pub open spec fn no_modifiers() -> HotkeyModifiers {
    HotkeyModifiers { control: false, alt: false, shift: false, meta: false }
}

/// The effect of one `+`-separated part of a binding on what was parsed so
/// far: a modifier name adds that modifier, anything else is the key (a later
/// key replaces an earlier one); an unknown key is an error.
pub open spec fn apply_part(m: HotkeyModifiers, k: Option<KeyCode>, part: Seq<char>) -> Result<(HotkeyModifiers, Option<KeyCode>), Seq<char>> {
    let t = trimmed(part);
    let l = lowercase(t);
    if l == "ctrl"@ || l == "control"@ {
        Ok((HotkeyModifiers { control: true, ..m }, k))
    } else if l == "alt"@ || l == "option"@ {
        Ok((HotkeyModifiers { alt: true, ..m }, k))
    } else if l == "shift"@ {
        Ok((HotkeyModifiers { shift: true, ..m }, k))
    } else if l == "cmd"@ || l == "command"@ || l == "meta"@ || l == "super"@ {
        Ok((HotkeyModifiers { meta: true, ..m }, k))
    } else {
        match key_code_for(lowercase(t)) {
            Some(c) => Ok((m, Some(c))),
            None => Err(unknown_key_text(t)),
        }
    }
}

/// The parts of a binding, parsed from left to right and stopping at the
/// first error.
pub open spec fn parse_parts(parts: Seq<Seq<char>>) -> Result<(HotkeyModifiers, Option<KeyCode>), Seq<char>>
    decreases parts.len(),
{
    if parts.len() == 0 {
        Ok((no_modifiers(), None))
    } else {
        match parse_parts(parts.drop_last()) {
            Ok((m, k)) => apply_part(m, k, parts.last()),
            Err(e) => Err(e),
        }
    }
}

/// The message of the error for a binding without a key.
pub open spec fn no_key_text() -> Seq<char> {
    "No key specified"@
}

/// What a binding string parses to: its `+`-separated parts, each trimmed,
/// read as modifiers and a key.
pub open spec fn parse_hotkey_spec(s: Seq<char>) -> Result<ParsedHotkey, Seq<char>> {
    match parse_parts(split_seq(s, '+')) {
        Ok((m, Some(k))) => Ok(ParsedHotkey { modifiers: m, key: k }),
        Ok((_, None)) => Err(no_key_text()),
        Err(e) => Err(e),
    }
}

/// Parses a binding string such as `Ctrl+Alt+M`; modifier and key names are
/// case-insensitive and may be surrounded by white space.
pub fn parse_hotkey_string(s: &str) -> (r: Result<ParsedHotkey, HotkeyError>)
    ensures
        match parse_hotkey_spec(s@) {
            Ok(p) => r == Ok::<ParsedHotkey, HotkeyError>(p),
            Err(msg) => r matches Err(HotkeyError::Parse(m)) && m@ == msg,
        },
{
    let parts = split_on(s, '+');
    let ghost views = parts@.map_values(|p: String| p@);
    let mut modifiers = HotkeyModifiers { control: false, alt: false, shift: false, meta: false };
    let mut key: Option<KeyCode> = None;
    let mut i: usize = 0;
    while i < parts.len()
        invariant
            views == parts@.map_values(|p: String| p@),
            views == split_seq(s@, '+'),
            i <= parts@.len(),
            parse_parts(views.take(i as int)) == Ok::<(HotkeyModifiers, Option<KeyCode>), Seq<char>>((modifiers, key)),
        decreases parts.len() - i,
    {
        assert(views.take(i as int + 1).drop_last() =~= views.take(i as int));
        let t = trim(parts[i].as_str());
        let l = to_lower(t.as_str());
        let lv = l.as_str();
        if str_eq(lv, "ctrl") || str_eq(lv, "control") {
            modifiers = HotkeyModifiers { control: true, ..modifiers };
        } else if str_eq(lv, "alt") || str_eq(lv, "option") {
            modifiers = HotkeyModifiers { alt: true, ..modifiers };
        } else if str_eq(lv, "shift") {
            modifiers = HotkeyModifiers { shift: true, ..modifiers };
        } else if str_eq(lv, "cmd") || str_eq(lv, "command") || str_eq(lv, "meta") || str_eq(lv, "super") {
            modifiers = HotkeyModifiers { meta: true, ..modifiers };
        } else {
            match parse_key_code(t.as_str()) {
                Ok(k) => {
                    key = Some(k);
                },
                Err(e) => {
                    proof {
                        assert(views[i as int] == parts@[i as int]@);
                        assert(views.take(i as int + 1).last() == views[i as int]);
                        assert(apply_part(modifiers, key, views[i as int]) == Err::<(HotkeyModifiers, Option<KeyCode>), Seq<char>>(unknown_key_text(t@)));
                        assert(parse_parts(views.take(i as int + 1)) == Err::<(HotkeyModifiers, Option<KeyCode>), Seq<char>>(unknown_key_text(t@)));
                        lemma_parse_parts_stops(views, i as int + 1);
                        assert(views.take(parts@.len() as int) =~= views);
                    }
                    return Err(e);
                },
            }
        }
        i = i + 1;
    }
    assert(views.take(parts@.len() as int) =~= views);
    match key {
        Some(k) => Ok(ParsedHotkey { modifiers, key: k }),
        None => Err(HotkeyError::Parse(owned("No key specified"))),
    }
}

/// Once the parts parsed so far end in an error, the error stands whatever
/// parts follow.
pub proof fn lemma_parse_parts_stops(parts: Seq<Seq<char>>, i: int)
    requires
        0 <= i <= parts.len(),
        parse_parts(parts.take(i)) is Err,
    ensures
        parse_parts(parts) == parse_parts(parts.take(i)),
    decreases parts.len() - i,
{
    if i < parts.len() {
        assert(parts.take(i + 1).drop_last() =~= parts.take(i));
        lemma_parse_parts_stops(parts, i + 1);
    } else {
        assert(parts.take(i) =~= parts);
    }
}

} // verus!
