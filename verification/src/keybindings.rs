//! Configurable keyboard-to-command mapping.
//!
//! Bindings map the name of a [`KeyCode`] (see [`KeyCode::to_string`]) to
//! a command name (e.g. `"PlayPause"`, `"Next"`). Each key name has at most
//! one binding: [`KeyBindings::insert`] replaces an existing one.

use vstd::prelude::*;
use crate::playlist_view::{lowered, ascii_lower};
use crate::text::text_is;
use crate::command::PlayerCommand;

verus! {

/// A keyboard key that can be bound to a player action.
#[derive(Debug, Clone, Copy, PartialEq, Eq, Structural, Hash)]
pub enum KeyCode {
    /// Space bar.
    Space,
    /// Enter / Return key.
    Enter,
    /// Up arrow.
    ArrowUp,
    /// Down arrow.
    ArrowDown,
    /// Left arrow.
    ArrowLeft,
    /// Right arrow.
    ArrowRight,
    /// The `N` key.
    KeyN,
    /// The `P` key.
    KeyP,
    /// The `M` key.
    KeyM,
    /// The `R` key.
    KeyR,
    /// The `S` key.
    KeyS,
}

/// The name a key is bound under.
pub open spec fn key_name(k: KeyCode) -> Seq<char> {
    match k {
        KeyCode::Space => "Space"@,
        KeyCode::Enter => "Enter"@,
        KeyCode::ArrowUp => "ArrowUp"@,
        KeyCode::ArrowDown => "ArrowDown"@,
        KeyCode::ArrowLeft => "ArrowLeft"@,
        KeyCode::ArrowRight => "ArrowRight"@,
        KeyCode::KeyN => "N"@,
        KeyCode::KeyP => "P"@,
        KeyCode::KeyM => "M"@,
        KeyCode::KeyR => "R"@,
        KeyCode::KeyS => "S"@,
    }
}

impl KeyCode {
    /// Returns the string representation used in the bindings map.
    pub fn to_string(&self) -> (s: String)
        ensures
            s@ == key_name(*self),
    {
        match self {
            KeyCode::Space => String::from_str("Space"),
            KeyCode::Enter => String::from_str("Enter"),
            KeyCode::ArrowUp => String::from_str("ArrowUp"),
            KeyCode::ArrowDown => String::from_str("ArrowDown"),
            KeyCode::ArrowLeft => String::from_str("ArrowLeft"),
            KeyCode::ArrowRight => String::from_str("ArrowRight"),
            KeyCode::KeyN => String::from_str("N"),
            KeyCode::KeyP => String::from_str("P"),
            KeyCode::KeyM => String::from_str("M"),
            KeyCode::KeyR => String::from_str("R"),
            KeyCode::KeyS => String::from_str("S"),
        }
    }
}

/// The command name bound to `key`: the value of the first pair with that
/// key name.
pub open spec fn binding_of(b: Seq<(String, String)>, key: Seq<char>) -> Option<Seq<char>>
    decreases b.len(),
{
    if b.len() == 0 {
        None
    } else if b[0].0@ == key {
        Some(b[0].1@)
    } else {
        binding_of(b.drop_first(), key)
    }
}

/// The command a command name stands for. `PlayPause` stands for no single
/// command (it toggles), nor does an unknown name.
pub open spec fn command_named(name: Seq<char>) -> Option<PlayerCommand> {
    if name == "Play"@ {
        Some(PlayerCommand::Play)
    } else if name == "Pause"@ {
        Some(PlayerCommand::Pause)
    } else if name == "Next"@ {
        Some(PlayerCommand::Next)
    } else if name == "Previous"@ {
        Some(PlayerCommand::Prev)
    } else if name == "Stop"@ {
        Some(PlayerCommand::Stop)
    } else if name == "Shuffle"@ {
        Some(PlayerCommand::AleatoryFullRandom)
    } else if name == "Repeat"@ {
        Some(PlayerCommand::ToggleRepeat)
    } else if name == "RepeatOne"@ {
        Some(PlayerCommand::ToggleRepeatOne)
    } else {
        None
    }
}

/// The binding each key has in [`KeyBindings::default`].
pub open spec fn default_binding(key: Seq<char>) -> Option<Seq<char>> {
    if key == "Space"@ || key == "Enter"@ {
        Some("PlayPause"@)
    } else if key == "ArrowRight"@ {
        Some("Next"@)
    } else if key == "ArrowLeft"@ {
        Some("Previous"@)
    } else if key == "M"@ {
        Some("Shuffle"@)
    } else if key == "R"@ {
        Some("Repeat"@)
    } else if key == "S"@ {
        Some("Stop"@)
    } else if key == "N"@ {
        Some("Play"@)
    } else if key == "P"@ {
        Some("Pause"@)
    } else {
        None
    }
}


proof fn lemma_binding_skip(b: Seq<(String, String)>, key: Seq<char>, i: int)
    requires
        0 <= i < b.len(),
        b[i].0@ != key,
    ensures
        binding_of(b.skip(i), key) == binding_of(b.skip(i + 1), key),
{
    assert(b.skip(i).drop_first() =~= b.skip(i + 1));
}

proof fn lemma_binding_push(b: Seq<(String, String)>, p: (String, String), key: Seq<char>)
    ensures
        binding_of(b.push(p), key) == (match binding_of(b, key) {
            Some(v) => Some(v),
            None => if p.0@ == key {
                Some(p.1@)
            } else {
                None
            },
        }),
    decreases b.len(),
{
    if b.len() > 0 {
        assert(b.push(p).drop_first() =~= b.drop_first().push(p));
        lemma_binding_push(b.drop_first(), p, key);
    } else {
        assert(b.push(p).drop_first() =~= Seq::<(String, String)>::empty());
        reveal_with_fuel(binding_of, 2);
    }
}

proof fn lemma_binding_update(b: Seq<(String, String)>, i: int, p: (String, String), key: Seq<char>)
    requires
        0 <= i < b.len(),
        p.0@ == b[i].0@,
        forall|j: int| 0 <= j < i ==> b[j].0@ != b[i].0@,
    ensures
        binding_of(b.update(i, p), key) == (if key == p.0@ {
            Some(p.1@)
        } else {
            binding_of(b, key)
        }),
    decreases b.len(),
{
    if i > 0 {
        assert(b.update(i, p).drop_first() =~= b.drop_first().update(i - 1, p));
        lemma_binding_update(b.drop_first(), i - 1, p, key);
    } else {
        assert(b.update(i, p).drop_first() =~= b.drop_first());
    }
}

/// A mapping from keyboard keys to player commands.
///
/// The default bindings are:
///
/// | Key | Command |
/// |-----|---------|
/// | `Space`, `Enter` | `PlayPause` (toggle) |
/// | `ArrowRight` | `Next` |
/// | `ArrowLeft` | `Previous` |
/// | `M` | `Shuffle` |
/// | `R` | `Repeat` |
/// | `S` | `Stop` |
/// | `N` | `Play` |
/// | `P` | `Pause` |
#[derive(Debug, Clone)]
pub struct KeyBindings {
    /// Key name and command name pairs.
    pub bindings: Vec<(String, String)>,
}

impl KeyBindings {
    /// No bindings at all.
    pub fn new() -> (r: KeyBindings)
        ensures
            forall|k: Seq<char>| binding_of(r.bindings@, k) is None,
    {
        KeyBindings { bindings: Vec::new() }
    }

    /// The command name bound to `key`, if any.
    pub fn lookup(&self, key: &String) -> (r: Option<&String>)
        ensures
            match r {
                Some(v) => binding_of(self.bindings@, key@) == Some(v@),
                None => binding_of(self.bindings@, key@) is None,
            },
    {
        let mut i: usize = 0;
        assert(self.bindings@.skip(0) =~= self.bindings@);
        while i < self.bindings.len()
            invariant
                i <= self.bindings@.len(),
                binding_of(self.bindings@, key@) == binding_of(self.bindings@.skip(i as int), key@),
            decreases self.bindings@.len() - i,
        {
            if self.bindings[i].0 == *key {
                return Some(&self.bindings[i].1);
            }
            proof { lemma_binding_skip(self.bindings@, key@, i as int); }
            i = i + 1;
        }
        None
    }

    /// Binds `key` to `command`, replacing any earlier binding of `key`.
    pub fn insert(&mut self, key: String, command: String)
        ensures
            forall|k: Seq<char>|
                binding_of(final(self).bindings@, k) == (if k == key@ {
                    Some(command@)
                } else {
                    binding_of(old(self).bindings@, k)
                }),
    {
        let mut i: usize = 0;
        while i < self.bindings.len()
            invariant
                i <= self.bindings@.len(),
                self.bindings@ == old(self).bindings@,
                forall|j: int| 0 <= j < i ==> self.bindings@[j].0@ != key@,
            decreases self.bindings@.len() - i,
        {
            if self.bindings[i].0 == key {
                let ghost b = self.bindings@;
                let ghost p = (key, command);
                self.bindings.set(i, (key, command));
                proof {
                    assert forall|k: Seq<char>| binding_of(self.bindings@, k) == (if k == p.0@ {
                        Some(p.1@)
                    } else {
                        binding_of(b, k)
                    }) by {
                        lemma_binding_update(b, i as int, p, k);
                    }
                }
                return;
            }
            i = i + 1;
        }
        let ghost b = self.bindings@;
        let ghost p = (key, command);
        self.bindings.push((key, command));
        proof {
            assert forall|k: Seq<char>| binding_of(self.bindings@, k) == (if k == p.0@ {
                Some(p.1@)
            } else {
                binding_of(b, k)
            }) by {
                lemma_binding_push(b, p, k);
                lemma_no_binding(b, key@);
            }
        }
    }

    /// Looks up the [`PlayerCommand`] bound to `key`.
    ///
    /// Returns `None` when the key is unbound, bound to an unknown name, or
    /// bound to the special `PlayPause` action (which the caller handles
    /// with [`is_play_pause_key`](Self::is_play_pause_key)).
    pub fn get_command(&self, key: &KeyCode) -> (r: Option<PlayerCommand>)
        ensures
            r == (match binding_of(self.bindings@, key_name(*key)) {
                Some(name) => command_named(name),
                None => None,
            }),
    {
        let key_str = key.to_string();
        let command_str = match self.lookup(&key_str) {
            Some(c) => c,
            None => return None,
        };
        if text_is(command_str, "Play") {
            Some(PlayerCommand::Play)
        } else if text_is(command_str, "Pause") {
            Some(PlayerCommand::Pause)
        } else if text_is(command_str, "Next") {
            Some(PlayerCommand::Next)
        } else if text_is(command_str, "Previous") {
            Some(PlayerCommand::Prev)
        } else if text_is(command_str, "Stop") {
            Some(PlayerCommand::Stop)
        } else if text_is(command_str, "Shuffle") {
            Some(PlayerCommand::AleatoryFullRandom)
        } else if text_is(command_str, "Repeat") {
            Some(PlayerCommand::ToggleRepeat)
        } else if text_is(command_str, "RepeatOne") {
            Some(PlayerCommand::ToggleRepeatOne)
        } else {
            None
        }
    }

    /// Returns `true` when `key` is bound to the `PlayPause` toggle action.
    pub fn is_play_pause_key(&self, key: &KeyCode) -> (r: bool)
        ensures
            r == (binding_of(self.bindings@, key_name(*key)) == Some("PlayPause"@)),
    {
        let key_str = key.to_string();
        match self.lookup(&key_str) {
            Some(cmd) => text_is(cmd, "PlayPause"),
            None => false,
        }
    }

    /// The command a key press sends: the play/pause toggle resolves to
    /// `Pause` while playing and `Play` otherwise; other keys send the
    /// command they are bound to, if any.
    pub fn command_for_key(&self, key: &KeyCode, is_playing: bool) -> (r: Option<PlayerCommand>)
        ensures
            r == key_command_spec(self.bindings@, *key, is_playing),
    {
        if self.is_play_pause_key(key) {
            Some(if is_playing { PlayerCommand::Pause } else { PlayerCommand::Play })
        } else {
            self.get_command(key)
        }
    }
}


/// The command a key press sends under bindings `b`: the play/pause toggle
/// resolves to `Pause` while playing and `Play` otherwise; other keys send
/// the command they are bound to, if any.
pub open spec fn key_command_spec(b: Seq<(String, String)>, key: KeyCode, is_playing: bool) -> Option<PlayerCommand> {
    if binding_of(b, key_name(key)) == Some("PlayPause"@) {
        Some(if is_playing { PlayerCommand::Pause } else { PlayerCommand::Play })
    } else {
        match binding_of(b, key_name(key)) {
            Some(name) => command_named(name),
            None => None,
        }
    }
}

/// One input event, as far as key bindings care.
#[derive(Debug)]
pub enum InputEvent {
    /// A key went down (one of the keys bindings can name).
    KeyPress(KeyCode),
    /// Text was typed.
    Text(String),
    /// Anything else (key releases, unmapped keys, pointer events).
    Other,
}

/// The command one event sends.
pub open spec fn event_command(b: Seq<(String, String)>, e: InputEvent, is_playing: bool) -> Option<PlayerCommand> {
    match e {
        InputEvent::KeyPress(k) => key_command_spec(b, k, is_playing),
        InputEvent::Text(t) => match key_for_text_spec(t@) {
            Some(k) => key_command_spec(b, k, is_playing),
            None => None,
        },
        InputEvent::Other => None,
    }
}

/// The command of the first event that sends one.
pub open spec fn first_command(b: Seq<(String, String)>, events: Seq<InputEvent>, is_playing: bool) -> Option<
    PlayerCommand,
>
    decreases events.len(),
{
    if events.len() == 0 {
        None
    } else {
        match event_command(b, events[0], is_playing) {
            Some(c) => Some(c),
            None => first_command(b, events.drop_first(), is_playing),
        }
    }
}

impl KeyBindings {
    /// The command the events of one frame send: that of the first event
    /// which sends one.
    pub fn command_for_events(&self, events: &Vec<InputEvent>, is_playing: bool) -> (r: Option<PlayerCommand>)
        ensures
            r == first_command(self.bindings@, events@, is_playing),
    {
        let mut i: usize = 0;
        proof { assert(events@.subrange(0, events@.len() as int) =~= events@); }
        while i < events.len()
            invariant
                i <= events@.len(),
                first_command(self.bindings@, events@, is_playing) == first_command(
                    self.bindings@,
                    events@.subrange(i as int, events@.len() as int),
                    is_playing,
                ),
            decreases events@.len() - i,
        {
            let ghost rest = events@.subrange(i as int, events@.len() as int);
            assert(rest[0] == events@[i as int]);
            assert(rest.drop_first() =~= events@.subrange(i + 1, events@.len() as int));
            let found = match &events[i] {
                InputEvent::KeyPress(k) => self.command_for_key(k, is_playing),
                InputEvent::Text(t) => match key_for_text(t.as_str()) {
                    Some(k) => self.command_for_key(&k, is_playing),
                    None => None,
                },
                InputEvent::Other => None,
            };
            if found.is_some() {
                return found;
            }
            i = i + 1;
        }
        proof {
            assert(events@.subrange(i as int, events@.len() as int).len() == 0);
        }
        None
    }
}

impl Default for KeyBindings {
    /// The default bindings (see the table on [`KeyBindings`]).
    fn default() -> (r: KeyBindings)
        ensures
            forall|k: Seq<char>| binding_of(r.bindings@, k) == default_binding(k),
    {
        let mut b = KeyBindings::new();
        let ghost s0 = b.bindings@;
        b.insert(String::from_str("Space"), String::from_str("PlayPause"));
        let ghost s1 = b.bindings@;
        b.insert(String::from_str("ArrowRight"), String::from_str("Next"));
        let ghost s2 = b.bindings@;
        b.insert(String::from_str("ArrowLeft"), String::from_str("Previous"));
        let ghost s3 = b.bindings@;
        b.insert(String::from_str("M"), String::from_str("Shuffle"));
        let ghost s4 = b.bindings@;
        b.insert(String::from_str("R"), String::from_str("Repeat"));
        let ghost s5 = b.bindings@;
        b.insert(String::from_str("S"), String::from_str("Stop"));
        let ghost s6 = b.bindings@;
        b.insert(String::from_str("N"), String::from_str("Play"));
        let ghost s7 = b.bindings@;
        b.insert(String::from_str("P"), String::from_str("Pause"));
        let ghost s8 = b.bindings@;
        b.insert(String::from_str("Enter"), String::from_str("PlayPause"));
        let ghost s9 = b.bindings@;
        proof {
            reveal_strlit("Space");
            reveal_strlit("ArrowRight");
            reveal_strlit("ArrowLeft");
            reveal_strlit("M");
            reveal_strlit("R");
            reveal_strlit("S");
            reveal_strlit("N");
            reveal_strlit("P");
            reveal_strlit("Enter");
            assert forall|k: Seq<char>| binding_of(b.bindings@, k) == default_binding(k) by {
                assert(binding_of(s9, k) == (if k == "Enter"@ { Some("PlayPause"@) } else { binding_of(s8, k) }));
                assert(binding_of(s8, k) == (if k == "P"@ { Some("Pause"@) } else { binding_of(s7, k) }));
                assert(binding_of(s7, k) == (if k == "N"@ { Some("Play"@) } else { binding_of(s6, k) }));
                assert(binding_of(s6, k) == (if k == "S"@ { Some("Stop"@) } else { binding_of(s5, k) }));
                assert(binding_of(s5, k) == (if k == "R"@ { Some("Repeat"@) } else { binding_of(s4, k) }));
                assert(binding_of(s4, k) == (if k == "M"@ { Some("Shuffle"@) } else { binding_of(s3, k) }));
                assert(binding_of(s3, k) == (if k == "ArrowLeft"@ { Some("Previous"@) } else { binding_of(s2, k) }));
                assert(binding_of(s2, k) == (if k == "ArrowRight"@ { Some("Next"@) } else { binding_of(s1, k) }));
                assert(binding_of(s1, k) == (if k == "Space"@ { Some("PlayPause"@) } else { binding_of(s0, k) }));
                assert(binding_of(s0, k) is None);
                assert("Space"@ != "ArrowRight"@) by { assert("Space"@.len() != "ArrowRight"@.len()); }
                assert("Space"@ != "ArrowLeft"@) by { assert("Space"@.len() != "ArrowLeft"@.len()); }
                assert("Space"@ != "M"@) by { assert("Space"@.len() != "M"@.len()); }
                assert("Space"@ != "R"@) by { assert("Space"@.len() != "R"@.len()); }
                assert("Space"@ != "S"@) by { assert("Space"@.len() != "S"@.len()); }
                assert("Space"@ != "N"@) by { assert("Space"@.len() != "N"@.len()); }
                assert("Space"@ != "P"@) by { assert("Space"@.len() != "P"@.len()); }
                assert("Space"@ != "Enter"@) by { assert("Space"@[0] != "Enter"@[0]); }
                assert("ArrowRight"@ != "ArrowLeft"@) by { assert("ArrowRight"@.len() != "ArrowLeft"@.len()); }
                assert("ArrowRight"@ != "M"@) by { assert("ArrowRight"@.len() != "M"@.len()); }
                assert("ArrowRight"@ != "R"@) by { assert("ArrowRight"@.len() != "R"@.len()); }
                assert("ArrowRight"@ != "S"@) by { assert("ArrowRight"@.len() != "S"@.len()); }
                assert("ArrowRight"@ != "N"@) by { assert("ArrowRight"@.len() != "N"@.len()); }
                assert("ArrowRight"@ != "P"@) by { assert("ArrowRight"@.len() != "P"@.len()); }
                assert("ArrowRight"@ != "Enter"@) by { assert("ArrowRight"@.len() != "Enter"@.len()); }
                assert("ArrowLeft"@ != "M"@) by { assert("ArrowLeft"@.len() != "M"@.len()); }
                assert("ArrowLeft"@ != "R"@) by { assert("ArrowLeft"@.len() != "R"@.len()); }
                assert("ArrowLeft"@ != "S"@) by { assert("ArrowLeft"@.len() != "S"@.len()); }
                assert("ArrowLeft"@ != "N"@) by { assert("ArrowLeft"@.len() != "N"@.len()); }
                assert("ArrowLeft"@ != "P"@) by { assert("ArrowLeft"@.len() != "P"@.len()); }
                assert("ArrowLeft"@ != "Enter"@) by { assert("ArrowLeft"@.len() != "Enter"@.len()); }
                assert("M"@ != "R"@) by { assert("M"@[0] != "R"@[0]); }
                assert("M"@ != "S"@) by { assert("M"@[0] != "S"@[0]); }
                assert("M"@ != "N"@) by { assert("M"@[0] != "N"@[0]); }
                assert("M"@ != "P"@) by { assert("M"@[0] != "P"@[0]); }
                assert("M"@ != "Enter"@) by { assert("M"@.len() != "Enter"@.len()); }
                assert("R"@ != "S"@) by { assert("R"@[0] != "S"@[0]); }
                assert("R"@ != "N"@) by { assert("R"@[0] != "N"@[0]); }
                assert("R"@ != "P"@) by { assert("R"@[0] != "P"@[0]); }
                assert("R"@ != "Enter"@) by { assert("R"@.len() != "Enter"@.len()); }
                assert("S"@ != "N"@) by { assert("S"@[0] != "N"@[0]); }
                assert("S"@ != "P"@) by { assert("S"@[0] != "P"@[0]); }
                assert("S"@ != "Enter"@) by { assert("S"@.len() != "Enter"@.len()); }
                assert("N"@ != "P"@) by { assert("N"@[0] != "P"@[0]); }
                assert("N"@ != "Enter"@) by { assert("N"@.len() != "Enter"@.len()); }
                assert("P"@ != "Enter"@) by { assert("P"@.len() != "Enter"@.len()); }
            }
        }
        b
    }
}


/// Different keys are bound under different names, so each key has its
/// own binding.
pub proof fn lemma_key_names_distinct(a: KeyCode, b: KeyCode)
    requires
        a != b,
    ensures
        key_name(a) != key_name(b),
{
    reveal_strlit("Space");
    reveal_strlit("Enter");
    reveal_strlit("ArrowUp");
    reveal_strlit("ArrowDown");
    reveal_strlit("ArrowLeft");
    reveal_strlit("ArrowRight");
    reveal_strlit("N");
    reveal_strlit("P");
    reveal_strlit("M");
    reveal_strlit("R");
    reveal_strlit("S");
    assert("Space"@ != "Enter"@) by { assert("Space"@[0] != "Enter"@[0]); }
    assert("Space"@ != "ArrowUp"@) by { assert("Space"@.len() != "ArrowUp"@.len()); }
    assert("Space"@ != "ArrowDown"@) by { assert("Space"@.len() != "ArrowDown"@.len()); }
    assert("Space"@ != "ArrowLeft"@) by { assert("Space"@.len() != "ArrowLeft"@.len()); }
    assert("Space"@ != "ArrowRight"@) by { assert("Space"@.len() != "ArrowRight"@.len()); }
    assert("Space"@ != "N"@) by { assert("Space"@.len() != "N"@.len()); }
    assert("Space"@ != "P"@) by { assert("Space"@.len() != "P"@.len()); }
    assert("Space"@ != "M"@) by { assert("Space"@.len() != "M"@.len()); }
    assert("Space"@ != "R"@) by { assert("Space"@.len() != "R"@.len()); }
    assert("Space"@ != "S"@) by { assert("Space"@.len() != "S"@.len()); }
    assert("Enter"@ != "ArrowUp"@) by { assert("Enter"@.len() != "ArrowUp"@.len()); }
    assert("Enter"@ != "ArrowDown"@) by { assert("Enter"@.len() != "ArrowDown"@.len()); }
    assert("Enter"@ != "ArrowLeft"@) by { assert("Enter"@.len() != "ArrowLeft"@.len()); }
    assert("Enter"@ != "ArrowRight"@) by { assert("Enter"@.len() != "ArrowRight"@.len()); }
    assert("Enter"@ != "N"@) by { assert("Enter"@.len() != "N"@.len()); }
    assert("Enter"@ != "P"@) by { assert("Enter"@.len() != "P"@.len()); }
    assert("Enter"@ != "M"@) by { assert("Enter"@.len() != "M"@.len()); }
    assert("Enter"@ != "R"@) by { assert("Enter"@.len() != "R"@.len()); }
    assert("Enter"@ != "S"@) by { assert("Enter"@.len() != "S"@.len()); }
    assert("ArrowUp"@ != "ArrowDown"@) by { assert("ArrowUp"@.len() != "ArrowDown"@.len()); }
    assert("ArrowUp"@ != "ArrowLeft"@) by { assert("ArrowUp"@.len() != "ArrowLeft"@.len()); }
    assert("ArrowUp"@ != "ArrowRight"@) by { assert("ArrowUp"@.len() != "ArrowRight"@.len()); }
    assert("ArrowUp"@ != "N"@) by { assert("ArrowUp"@.len() != "N"@.len()); }
    assert("ArrowUp"@ != "P"@) by { assert("ArrowUp"@.len() != "P"@.len()); }
    assert("ArrowUp"@ != "M"@) by { assert("ArrowUp"@.len() != "M"@.len()); }
    assert("ArrowUp"@ != "R"@) by { assert("ArrowUp"@.len() != "R"@.len()); }
    assert("ArrowUp"@ != "S"@) by { assert("ArrowUp"@.len() != "S"@.len()); }
    assert("ArrowDown"@ != "ArrowLeft"@) by { assert("ArrowDown"@[5] != "ArrowLeft"@[5]); }
    assert("ArrowDown"@ != "ArrowRight"@) by { assert("ArrowDown"@.len() != "ArrowRight"@.len()); }
    assert("ArrowDown"@ != "N"@) by { assert("ArrowDown"@.len() != "N"@.len()); }
    assert("ArrowDown"@ != "P"@) by { assert("ArrowDown"@.len() != "P"@.len()); }
    assert("ArrowDown"@ != "M"@) by { assert("ArrowDown"@.len() != "M"@.len()); }
    assert("ArrowDown"@ != "R"@) by { assert("ArrowDown"@.len() != "R"@.len()); }
    assert("ArrowDown"@ != "S"@) by { assert("ArrowDown"@.len() != "S"@.len()); }
    assert("ArrowLeft"@ != "ArrowRight"@) by { assert("ArrowLeft"@.len() != "ArrowRight"@.len()); }
    assert("ArrowLeft"@ != "N"@) by { assert("ArrowLeft"@.len() != "N"@.len()); }
    assert("ArrowLeft"@ != "P"@) by { assert("ArrowLeft"@.len() != "P"@.len()); }
    assert("ArrowLeft"@ != "M"@) by { assert("ArrowLeft"@.len() != "M"@.len()); }
    assert("ArrowLeft"@ != "R"@) by { assert("ArrowLeft"@.len() != "R"@.len()); }
    assert("ArrowLeft"@ != "S"@) by { assert("ArrowLeft"@.len() != "S"@.len()); }
    assert("ArrowRight"@ != "N"@) by { assert("ArrowRight"@.len() != "N"@.len()); }
    assert("ArrowRight"@ != "P"@) by { assert("ArrowRight"@.len() != "P"@.len()); }
    assert("ArrowRight"@ != "M"@) by { assert("ArrowRight"@.len() != "M"@.len()); }
    assert("ArrowRight"@ != "R"@) by { assert("ArrowRight"@.len() != "R"@.len()); }
    assert("ArrowRight"@ != "S"@) by { assert("ArrowRight"@.len() != "S"@.len()); }
    assert("N"@ != "P"@) by { assert("N"@[0] != "P"@[0]); }
    assert("N"@ != "M"@) by { assert("N"@[0] != "M"@[0]); }
    assert("N"@ != "R"@) by { assert("N"@[0] != "R"@[0]); }
    assert("N"@ != "S"@) by { assert("N"@[0] != "S"@[0]); }
    assert("P"@ != "M"@) by { assert("P"@[0] != "M"@[0]); }
    assert("P"@ != "R"@) by { assert("P"@[0] != "R"@[0]); }
    assert("P"@ != "S"@) by { assert("P"@[0] != "S"@[0]); }
    assert("M"@ != "R"@) by { assert("M"@[0] != "R"@[0]); }
    assert("M"@ != "S"@) by { assert("M"@[0] != "S"@[0]); }
    assert("R"@ != "S"@) by { assert("R"@[0] != "S"@[0]); }
}

/// A key bound to the play/pause toggle never yields a command of its own:
/// the caller decides between `Play` and `Pause`.
pub proof fn lemma_play_pause_has_no_command()
    ensures
        command_named("PlayPause"@) is None,
{
    reveal_strlit("PlayPause");
    reveal_strlit("Play");
    reveal_strlit("Pause");
    reveal_strlit("Next");
    reveal_strlit("Previous");
    reveal_strlit("Stop");
    reveal_strlit("Shuffle");
    reveal_strlit("Repeat");
    reveal_strlit("RepeatOne");
    assert("PlayPause"@ != "Play"@) by { assert("PlayPause"@.len() != "Play"@.len()); }
    assert("PlayPause"@ != "Pause"@) by { assert("PlayPause"@.len() != "Pause"@.len()); }
    assert("PlayPause"@ != "Next"@) by { assert("PlayPause"@.len() != "Next"@.len()); }
    assert("PlayPause"@ != "Previous"@) by { assert("PlayPause"@.len() != "Previous"@.len()); }
    assert("PlayPause"@ != "Stop"@) by { assert("PlayPause"@.len() != "Stop"@.len()); }
    assert("PlayPause"@ != "Shuffle"@) by { assert("PlayPause"@.len() != "Shuffle"@.len()); }
    assert("PlayPause"@ != "Repeat"@) by { assert("PlayPause"@.len() != "Repeat"@.len()); }
    assert("PlayPause"@ != "RepeatOne"@) by { assert("PlayPause"@[0] != "RepeatOne"@[0]); }
}

proof fn lemma_no_binding(b: Seq<(String, String)>, key: Seq<char>)
    requires
        forall|j: int| 0 <= j < b.len() ==> b[j].0@ != key,
    ensures
        binding_of(b, key) is None,
    decreases b.len(),
{
    if b.len() > 0 {
        assert forall|j: int| 0 <= j < b.drop_first().len() implies b.drop_first()[j].0@ != key by {
            assert(b.drop_first()[j] == b[j + 1]);
        }
        lemma_no_binding(b.drop_first(), key);
    }
}

/// The key a one-character text entry stands for: `N`, `P`, `M`, `R` or
/// `S` in either case.
pub open spec fn key_for_text_spec(text: Seq<char>) -> Option<KeyCode> {
    if text.len() != 1 {
        None
    } else if text[0] == 'n' || text[0] == 'N' {
        Some(KeyCode::KeyN)
    } else if text[0] == 'p' || text[0] == 'P' {
        Some(KeyCode::KeyP)
    } else if text[0] == 'm' || text[0] == 'M' {
        Some(KeyCode::KeyM)
    } else if text[0] == 'r' || text[0] == 'R' {
        Some(KeyCode::KeyR)
    } else if text[0] == 's' || text[0] == 'S' {
        Some(KeyCode::KeyS)
    } else {
        None
    }
}

/// The letter key a typed text stands for, if it is a single letter key.
pub fn key_for_text(text: &str) -> (r: Option<KeyCode>)
    ensures
        r == key_for_text_spec(text@),
{
    if text.unicode_len() != 1 {
        return None;
    }
    let c = text.get_char(0);
    if c == 'n' || c == 'N' {
        Some(KeyCode::KeyN)
    } else if c == 'p' || c == 'P' {
        Some(KeyCode::KeyP)
    } else if c == 'm' || c == 'M' {
        Some(KeyCode::KeyM)
    } else if c == 'r' || c == 'R' {
        Some(KeyCode::KeyR)
    } else if c == 's' || c == 'S' {
        Some(KeyCode::KeyS)
    } else {
        None
    }
}


/// The letter keys a typed character can stand for.
pub open spec fn is_letter_key(k: KeyCode) -> bool {
    k is KeyN || k is KeyP || k is KeyM || k is KeyR || k is KeyS
}

/// Typing a single character stands for a letter key exactly when the
/// character is that key's letter in either case: upper- and lower-case
/// letters give the same key, and no other character gives one.
pub proof fn lemma_typed_letters_ignore_case(t: Seq<char>, k: KeyCode)
    requires
        t.len() == 1,
    ensures
        key_for_text_spec(t) == Some(k) <==> (is_letter_key(k) && lowered(key_name(k)) == lowered(t)),
{
    reveal_strlit("N");
    reveal_strlit("P");
    reveal_strlit("M");
    reveal_strlit("R");
    reveal_strlit("S");
    assert(lowered(t) =~= seq![ascii_lower(t[0])]);
    assert(lowered("N"@) =~= seq!['n']);
    assert(lowered("P"@) =~= seq!['p']);
    assert(lowered("M"@) =~= seq!['m']);
    assert(lowered("R"@) =~= seq!['r']);
    assert(lowered("S"@) =~= seq!['s']);
    if lowered(key_name(k)) == lowered(t) && is_letter_key(k) {
        assert(lowered(key_name(k))[0] == lowered(t)[0]);
    }
    if key_for_text_spec(t) == Some(k) {
        assert(lowered(key_name(k)) =~= lowered(t));
    }
}

} // verus!
