use vstd::prelude::*;

use crate::action::{AppAction, EditorAction, EditorBufferAction, EditorCursorAction, EditorEditAction};
use crate::key::Key;
use crate::mode::EditorMode;
use crate::vec2::UVec2;

verus! {

/// The modes in which a key binding applies.
#[derive(Clone, Copy, Debug, PartialEq, Eq, Structural, Hash)]
pub enum KeyConfigType {
    All,
    Normal,
    Visual,
    NormalAndVisual,
    Insert,
    Command,
}

/// Whether a binding of type `t` applies in `mode`.
pub open spec fn type_applies(t: KeyConfigType, mode: EditorMode) -> bool {
    match t {
        KeyConfigType::All => true,
        KeyConfigType::Normal => mode is Normal,
        KeyConfigType::Visual => mode is Visual,
        KeyConfigType::NormalAndVisual => mode is Normal || mode is Visual,
        KeyConfigType::Insert => mode is Insert,
        KeyConfigType::Command => mode is Command,
    }
}

/// A key binding: a type, a sequence of keys, and the action they trigger.
pub struct KeyBinding {
    pub config_type: KeyConfigType,
    pub keys: Vec<Key>,
    pub action: AppAction,
}

/// The bindings as sequences.
pub open spec fn binding_views(b: Seq<KeyBinding>) -> Seq<(KeyConfigType, Seq<Key>, AppAction)> {
    Seq::new(b.len(), |i: int| (b[i].config_type, b[i].keys@, b[i].action))
}

/// The action bound to `keys` in `mode`: that of the last binding registered for them.
pub open spec fn binding_lookup(b: Seq<(KeyConfigType, Seq<Key>, AppAction)>, mode: EditorMode, keys: Seq<Key>) -> Option<AppAction>
    decreases b.len(),
{
    if b.len() == 0 {
        None
    } else if type_applies(b.last().0, mode) && b.last().1 == keys {
        Some(b.last().2)
    } else {
        binding_lookup(b.drop_last(), mode, keys)
    }
}

/// A binding registered last decides its keys in the modes it applies to.
pub proof fn law_binding_last_wins(b: Seq<(KeyConfigType, Seq<Key>, AppAction)>, t: KeyConfigType, keys: Seq<Key>, action: AppAction, mode: EditorMode)
    requires
        type_applies(t, mode),
    ensures
        binding_lookup(b.push((t, keys, action)), mode, keys) == Some(action),
{
    assert(b.push((t, keys, action)).last() == (t, keys, action));
}

/// Registering a binding leaves the action of other keys, and of modes it does not apply
/// to, as it was.
pub proof fn law_binding_keeps_others(
    b: Seq<(KeyConfigType, Seq<Key>, AppAction)>,
    t: KeyConfigType,
    keys: Seq<Key>,
    action: AppAction,
    mode: EditorMode,
    other: Seq<Key>,
)
    requires
        other != keys || !type_applies(t, mode),
    ensures
        binding_lookup(b.push((t, keys, action)), mode, other) == binding_lookup(b, mode, other),
{
    assert(b.push((t, keys, action)).drop_last() =~= b);
}

/// A command registered last decides what its name runs.
pub proof fn law_command_last_wins(c: Seq<(Seq<char>, Seq<AppAction>)>, name: Seq<char>, actions: Seq<AppAction>)
    ensures
        command_lookup(c.push((name, actions)), name) == Some(actions),
{
    assert(c.push((name, actions)).last() == (name, actions));
}

/// Registering a command leaves other names as they were.
pub proof fn law_command_keeps_others(c: Seq<(Seq<char>, Seq<AppAction>)>, name: Seq<char>, actions: Seq<AppAction>, other: Seq<char>)
    requires
        other != name,
    ensures
        command_lookup(c.push((name, actions)), other) == command_lookup(c, other),
{
    assert(c.push((name, actions)).drop_last() =~= c);
}

/// Whether `keys` is exactly `other`.
pub fn keys_eq(keys: &Vec<Key>, other: &Vec<Key>) -> (r: bool)
    ensures
        r == (keys@ == other@),
{
    if keys.len() != other.len() {
        return false;
    }
    let mut i: usize = 0;
    while i < keys.len()
        invariant
            0 <= i <= keys@.len(),
            keys@.len() == other@.len(),
            forall|k: int| 0 <= k < i ==> keys@[k] == other@[k],
        decreases keys@.len() - i,
    {
        if keys[i] != other[i] {
            return false;
        }
        i = i + 1;
    }
    assert(keys@ =~= other@);
    true
}

/// Whether a binding of type `t` applies in `mode`.
pub fn type_applies_exec(t: KeyConfigType, mode: &EditorMode) -> (r: bool)
    ensures
        r == type_applies(t, *mode),
{
    match t {
        KeyConfigType::All => true,
        KeyConfigType::Normal => matches!(mode, EditorMode::Normal),
        KeyConfigType::Visual => matches!(mode, EditorMode::Visual { .. }),
        KeyConfigType::NormalAndVisual => matches!(mode, EditorMode::Normal) || matches!(mode, EditorMode::Visual { .. }),
        KeyConfigType::Insert => matches!(mode, EditorMode::Insert { .. }),
        KeyConfigType::Command => matches!(mode, EditorMode::Command),
    }
}

/// The key bindings of the editor, in the order registered.
pub struct KeyConfig {
    bindings: Vec<KeyBinding>,
}

impl View for KeyConfig {
    type V = Seq<(KeyConfigType, Seq<Key>, AppAction)>;

    closed spec fn view(&self) -> Seq<(KeyConfigType, Seq<Key>, AppAction)> {
        binding_views(self.bindings@)
    }
}

impl KeyConfig {
    /// No bindings.
    pub fn new() -> (r: Self)
        ensures
            r@ == Seq::<(KeyConfigType, Seq<Key>, AppAction)>::empty(),
    {
        let r = KeyConfig { bindings: Vec::new() };
        assert(r@ =~= Seq::<(KeyConfigType, Seq<Key>, AppAction)>::empty());
        r
    }

    /// Binds `keys` to `action` in the modes of `config_type`; it takes the place of an
    /// earlier binding of the same keys.
    pub fn register(&mut self, config_type: KeyConfigType, keys: Vec<Key>, action: AppAction)
        ensures
            final(self)@ == old(self)@.push((config_type, keys@, action)),
    {
        let b = KeyBinding { config_type, keys, action };
        self.bindings.push(b);
        assert(self@ =~= old(self)@.push((config_type, b.keys@, action)));
    }

    /// The action bound to `keys` in `mode`.
    pub fn get_action(&self, mode: &EditorMode, keys: &Vec<Key>) -> (r: Option<AppAction>)
        ensures
            r == binding_lookup(self@, *mode, keys@),
    {
        let mut i = self.bindings.len();
        assert(self@.take(i as int) =~= self@);
        while i > 0
            invariant
                i <= self.bindings@.len(),
                binding_lookup(self@, *mode, keys@) == binding_lookup(self@.take(i as int), *mode, keys@),
            decreases i,
        {
            let b = &self.bindings[i - 1];
            assert(self@.take(i as int).drop_last() =~= self@.take(i - 1));
            if type_applies_exec(b.config_type, mode) && keys_eq(&b.keys, keys) {
                return Some(b.action);
            }
            i = i - 1;
        }
        None
    }
}

/// The commands of the editor: each name with the actions it runs.
pub struct CommandManager {
    commands: Vec<(String, Vec<AppAction>)>,
}

/// The commands as sequences.
pub open spec fn command_views(c: Seq<(String, Vec<AppAction>)>) -> Seq<(Seq<char>, Seq<AppAction>)> {
    Seq::new(c.len(), |i: int| (c[i].0@, c[i].1@))
}

/// The actions of the command `name`: those of the last registration of the name.
pub open spec fn command_lookup(c: Seq<(Seq<char>, Seq<AppAction>)>, name: Seq<char>) -> Option<Seq<AppAction>>
    decreases c.len(),
{
    if c.len() == 0 {
        None
    } else if c.last().0 == name {
        Some(c.last().1)
    } else {
        command_lookup(c.drop_last(), name)
    }
}

impl View for CommandManager {
    type V = Seq<(Seq<char>, Seq<AppAction>)>;

    closed spec fn view(&self) -> Seq<(Seq<char>, Seq<AppAction>)> {
        command_views(self.commands@)
    }
}

impl CommandManager {
    /// No commands.
    pub fn new() -> (r: Self)
        ensures
            r@ == Seq::<(Seq<char>, Seq<AppAction>)>::empty(),
    {
        let r = CommandManager { commands: Vec::new() };
        assert(r@ =~= Seq::<(Seq<char>, Seq<AppAction>)>::empty());
        r
    }

    /// Makes `name` run `actions`; it takes the place of an earlier command of that name.
    pub fn register(&mut self, name: &str, actions: Vec<AppAction>)
        ensures
            final(self)@ == old(self)@.push((name@, actions@)),
    {
        let entry = (String::from_str(name), actions);
        self.commands.push(entry);
        assert(self@ =~= old(self)@.push((name@, entry.1@)));
    }

    /// The actions of the command `name`.
    pub fn get_action(&self, name: &str) -> (r: Option<&Vec<AppAction>>)
        ensures
            match r {
                Some(v) => command_lookup(self@, name@) == Some(v@),
                None => command_lookup(self@, name@) is None,
            },
    {
        let target = crate::text::str_chars(name);
        let mut i = self.commands.len();
        assert(self@.take(i as int) =~= self@);
        while i > 0
            invariant
                i <= self.commands@.len(),
                target@ == name@,
                command_lookup(self@, name@) == command_lookup(self@.take(i as int), name@),
            decreases i,
        {
            let entry = &self.commands[i - 1];
            assert(self@.take(i as int).drop_last() =~= self@.take(i - 1));
            if crate::file_type::chars_eq_str(&target, entry.0.as_str()) {
                return Some(&entry.1);
            }
            i = i - 1;
        }
        None
    }
}

/// The key bindings the editor registers.
pub open spec fn default_keybindings() -> Seq<(KeyConfigType, Seq<Key>, AppAction)> {
    seq![
        (KeyConfigType::All, seq![Key::Ctrl('c')], AppAction::EditorAction(EditorAction::SetMode(EditorMode::Normal))),
        (KeyConfigType::All, seq![Key::Esc], AppAction::EditorAction(EditorAction::SetMode(EditorMode::Normal))),
        (KeyConfigType::Normal, seq![Key::Char(':')], AppAction::EditorAction(EditorAction::SetMode(EditorMode::Command))),
        (KeyConfigType::Normal, seq![Key::Char('i')], AppAction::EditorAction(EditorAction::SetMode(EditorMode::Insert { append: false }))),
        (KeyConfigType::Normal, seq![Key::Char('a')], AppAction::EditorAction(EditorAction::SetMode(EditorMode::Insert { append: true }))),
        (KeyConfigType::Normal, seq![Key::Char('v')], AppAction::EditorAction(EditorAction::SetMode(EditorMode::Visual { start: UVec2 { x: 0, y: 0 } }))),
        (KeyConfigType::NormalAndVisual, seq![Key::Char('h')], AppAction::EditorAction(EditorAction::Buffer(EditorBufferAction::Cursor(EditorCursorAction::Left)))),
        (KeyConfigType::NormalAndVisual, seq![Key::Char('j')], AppAction::EditorAction(EditorAction::Buffer(EditorBufferAction::Cursor(EditorCursorAction::Down)))),
        (KeyConfigType::NormalAndVisual, seq![Key::Char('k')], AppAction::EditorAction(EditorAction::Buffer(EditorBufferAction::Cursor(EditorCursorAction::Up)))),
        (KeyConfigType::NormalAndVisual, seq![Key::Char('l')], AppAction::EditorAction(EditorAction::Buffer(EditorBufferAction::Cursor(EditorCursorAction::Right)))),
        (KeyConfigType::NormalAndVisual, seq![Key::Char('0')], AppAction::EditorAction(EditorAction::Buffer(EditorBufferAction::Cursor(EditorCursorAction::LineStart)))),
        (KeyConfigType::NormalAndVisual, seq![Key::Char('$')], AppAction::EditorAction(EditorAction::Buffer(EditorBufferAction::Cursor(EditorCursorAction::LineEnd)))),
        (KeyConfigType::NormalAndVisual, seq![Key::Char('g'), Key::Char('g')], AppAction::EditorAction(EditorAction::Buffer(EditorBufferAction::Cursor(EditorCursorAction::Top)))),
        (KeyConfigType::NormalAndVisual, seq![Key::Char('G')], AppAction::EditorAction(EditorAction::Buffer(EditorBufferAction::Cursor(EditorCursorAction::Bottom)))),
        (KeyConfigType::NormalAndVisual, seq![Key::Char('w')], AppAction::EditorAction(EditorAction::Buffer(EditorBufferAction::Cursor(EditorCursorAction::NextWord)))),
        (KeyConfigType::NormalAndVisual, seq![Key::Char('b')], AppAction::EditorAction(EditorAction::Buffer(EditorBufferAction::Cursor(EditorCursorAction::BackWord)))),
        (KeyConfigType::Normal, seq![Key::Char('d'), Key::Char('d')], AppAction::EditorAction(EditorAction::Buffer(EditorBufferAction::Edit(EditorEditAction::DeleteLine)))),
        (KeyConfigType::Normal, seq![Key::Char('y'), Key::Char('y')], AppAction::EditorAction(EditorAction::Buffer(EditorBufferAction::Edit(EditorEditAction::YankLine)))),
        (KeyConfigType::Normal, seq![Key::Char('p')], AppAction::EditorAction(EditorAction::Buffer(EditorBufferAction::Edit(EditorEditAction::Paste)))),
        (KeyConfigType::Visual, seq![Key::Char('d')], AppAction::EditorAction(EditorAction::Buffer(EditorBufferAction::Edit(EditorEditAction::DeleteSelection)))),
        (KeyConfigType::Visual, seq![Key::Char('y')], AppAction::EditorAction(EditorAction::Buffer(EditorBufferAction::Edit(EditorEditAction::YankSelection)))),
    ]
}

/// The commands the editor registers.
pub open spec fn default_commands() -> Seq<(Seq<char>, Seq<AppAction>)> {
    seq![
        ("q"@, seq![AppAction::Quit]),
        ("w"@, seq![AppAction::EditorAction(EditorAction::Buffer(EditorBufferAction::Save))]),
        ("x"@, seq![AppAction::EditorAction(EditorAction::Buffer(EditorBufferAction::Save)), AppAction::Quit]),
        ("wq"@, seq![AppAction::EditorAction(EditorAction::Buffer(EditorBufferAction::Save)), AppAction::Quit]),
    ]
}

/// Registers the editor's key bindings: modes, cursor movements and edits.
#[verifier::rlimit(50)]
pub fn register_keybindings(key_config: &mut KeyConfig)
    ensures
        final(key_config)@ == old(key_config)@ + default_keybindings(),
{
    key_config.register(KeyConfigType::All, vec![Key::Ctrl('c')], AppAction::EditorAction(EditorAction::SetMode(EditorMode::Normal)));
    key_config.register(KeyConfigType::All, vec![Key::Esc], AppAction::EditorAction(EditorAction::SetMode(EditorMode::Normal)));
    key_config.register(KeyConfigType::Normal, vec![Key::Char(':')], AppAction::EditorAction(EditorAction::SetMode(EditorMode::Command)));
    key_config.register(KeyConfigType::Normal, vec![Key::Char('i')], AppAction::EditorAction(EditorAction::SetMode(EditorMode::Insert { append: false })));
    key_config.register(KeyConfigType::Normal, vec![Key::Char('a')], AppAction::EditorAction(EditorAction::SetMode(EditorMode::Insert { append: true })));
    key_config.register(KeyConfigType::Normal, vec![Key::Char('v')], AppAction::EditorAction(EditorAction::SetMode(EditorMode::Visual { start: UVec2 { x: 0, y: 0 } })));
    key_config.register(KeyConfigType::NormalAndVisual, vec![Key::Char('h')], AppAction::EditorAction(EditorAction::Buffer(EditorBufferAction::Cursor(EditorCursorAction::Left))));
    key_config.register(KeyConfigType::NormalAndVisual, vec![Key::Char('j')], AppAction::EditorAction(EditorAction::Buffer(EditorBufferAction::Cursor(EditorCursorAction::Down))));
    key_config.register(KeyConfigType::NormalAndVisual, vec![Key::Char('k')], AppAction::EditorAction(EditorAction::Buffer(EditorBufferAction::Cursor(EditorCursorAction::Up))));
    key_config.register(KeyConfigType::NormalAndVisual, vec![Key::Char('l')], AppAction::EditorAction(EditorAction::Buffer(EditorBufferAction::Cursor(EditorCursorAction::Right))));
    key_config.register(KeyConfigType::NormalAndVisual, vec![Key::Char('0')], AppAction::EditorAction(EditorAction::Buffer(EditorBufferAction::Cursor(EditorCursorAction::LineStart))));
    key_config.register(KeyConfigType::NormalAndVisual, vec![Key::Char('$')], AppAction::EditorAction(EditorAction::Buffer(EditorBufferAction::Cursor(EditorCursorAction::LineEnd))));
    key_config.register(KeyConfigType::NormalAndVisual, vec![Key::Char('g'), Key::Char('g')], AppAction::EditorAction(EditorAction::Buffer(EditorBufferAction::Cursor(EditorCursorAction::Top))));
    key_config.register(KeyConfigType::NormalAndVisual, vec![Key::Char('G')], AppAction::EditorAction(EditorAction::Buffer(EditorBufferAction::Cursor(EditorCursorAction::Bottom))));
    key_config.register(KeyConfigType::NormalAndVisual, vec![Key::Char('w')], AppAction::EditorAction(EditorAction::Buffer(EditorBufferAction::Cursor(EditorCursorAction::NextWord))));
    key_config.register(KeyConfigType::NormalAndVisual, vec![Key::Char('b')], AppAction::EditorAction(EditorAction::Buffer(EditorBufferAction::Cursor(EditorCursorAction::BackWord))));
    key_config.register(KeyConfigType::Normal, vec![Key::Char('d'), Key::Char('d')], AppAction::EditorAction(EditorAction::Buffer(EditorBufferAction::Edit(EditorEditAction::DeleteLine))));
    key_config.register(KeyConfigType::Normal, vec![Key::Char('y'), Key::Char('y')], AppAction::EditorAction(EditorAction::Buffer(EditorBufferAction::Edit(EditorEditAction::YankLine))));
    key_config.register(KeyConfigType::Normal, vec![Key::Char('p')], AppAction::EditorAction(EditorAction::Buffer(EditorBufferAction::Edit(EditorEditAction::Paste))));
    key_config.register(KeyConfigType::Visual, vec![Key::Char('d')], AppAction::EditorAction(EditorAction::Buffer(EditorBufferAction::Edit(EditorEditAction::DeleteSelection))));
    key_config.register(KeyConfigType::Visual, vec![Key::Char('y')], AppAction::EditorAction(EditorAction::Buffer(EditorBufferAction::Edit(EditorEditAction::YankSelection))));
    assert(key_config@ =~~= old(key_config)@ + default_keybindings());
}

/// Registers the editor's commands: `q` quits, `w` saves, `x` and `wq` save and quit.
pub fn register_commands(cmd_manager: &mut CommandManager)
    ensures
        final(cmd_manager)@ == old(cmd_manager)@ + default_commands(),
{
    cmd_manager.register("q", vec![AppAction::Quit]);
    cmd_manager.register("w", vec![AppAction::EditorAction(EditorAction::Buffer(EditorBufferAction::Save))]);
    cmd_manager.register("x", vec![AppAction::EditorAction(EditorAction::Buffer(EditorBufferAction::Save)), AppAction::Quit]);
    cmd_manager.register("wq", vec![AppAction::EditorAction(EditorAction::Buffer(EditorBufferAction::Save)), AppAction::Quit]);
    assert(cmd_manager@ =~~= old(cmd_manager)@ + default_commands());
}


/// Looking keys up in bindings `b` followed by bindings `s`: what `s` binds them to, and
/// else what `b` does.
pub proof fn lemma_lookup_append(
    b: Seq<(KeyConfigType, Seq<Key>, AppAction)>,
    s: Seq<(KeyConfigType, Seq<Key>, AppAction)>,
    mode: EditorMode,
    keys: Seq<Key>,
)
    ensures
        binding_lookup(b + s, mode, keys) == match binding_lookup(s, mode, keys) {
            Some(a) => Some(a),
            None => binding_lookup(b, mode, keys),
        },
    decreases s.len(),
{
    if s.len() == 0 {
        assert(b + s =~= b);
    } else {
        assert((b + s).last() == s.last());
        assert((b + s).drop_last() =~= b + s.drop_last());
        lemma_lookup_append(b, s.drop_last(), mode, keys);
    }
}


/// Single keys that differ make differing key sequences.
pub proof fn lemma_single_keys_differ(a: Key, b: Key)
    requires
        a != b,
    ensures
        seq![a] != seq![b],
{
    assert(seq![a][0] == a);
    assert(seq![b][0] == b);
}

/// Key sequences of different lengths differ.
pub proof fn lemma_key_lengths_differ(a: Seq<Key>, b: Seq<Key>)
    requires
        a.len() != b.len(),
    ensures
        a != b,
{
}

/// Pairs of keys that differ make differing key sequences.
pub proof fn lemma_key_pairs_differ(a0: Key, a1: Key, b0: Key, b1: Key)
    requires
        a0 != b0 || a1 != b1,
    ensures
        seq![a0, a1] != seq![b0, b1],
{
    assert(seq![a0, a1][0] == a0 && seq![a0, a1][1] == a1);
    assert(seq![b0, b1][0] == b0 && seq![b0, b1][1] == b1);
}

/// What the editor's bindings alone give for seq![Key::Ctrl('c')] in normal mode.
proof fn lemma_normal_mode_default_1()
    ensures
        binding_lookup(default_keybindings(), EditorMode::Normal, seq![Key::Ctrl('c')]) == Some(AppAction::EditorAction(EditorAction::SetMode(EditorMode::Normal))),
{
    reveal_with_fuel(binding_lookup, 22);
    lemma_single_keys_differ(Key::Ctrl('c'), Key::Esc);
    lemma_single_keys_differ(Key::Ctrl('c'), Key::Char(':'));
    lemma_single_keys_differ(Key::Ctrl('c'), Key::Char('i'));
    lemma_single_keys_differ(Key::Ctrl('c'), Key::Char('a'));
    lemma_single_keys_differ(Key::Ctrl('c'), Key::Char('v'));
    lemma_single_keys_differ(Key::Ctrl('c'), Key::Char('h'));
    lemma_single_keys_differ(Key::Ctrl('c'), Key::Char('j'));
    lemma_single_keys_differ(Key::Ctrl('c'), Key::Char('k'));
    lemma_single_keys_differ(Key::Ctrl('c'), Key::Char('l'));
    lemma_single_keys_differ(Key::Ctrl('c'), Key::Char('0'));
    lemma_single_keys_differ(Key::Ctrl('c'), Key::Char('$'));
    lemma_single_keys_differ(Key::Ctrl('c'), Key::Char('G'));
    lemma_single_keys_differ(Key::Ctrl('c'), Key::Char('w'));
    lemma_single_keys_differ(Key::Ctrl('c'), Key::Char('b'));
    lemma_single_keys_differ(Key::Ctrl('c'), Key::Char('p'));
}

/// What the editor's bindings alone give for seq![Key::Esc] in normal mode.
proof fn lemma_normal_mode_default_2()
    ensures
        binding_lookup(default_keybindings(), EditorMode::Normal, seq![Key::Esc]) == Some(AppAction::EditorAction(EditorAction::SetMode(EditorMode::Normal))),
{
    reveal_with_fuel(binding_lookup, 22);
    lemma_single_keys_differ(Key::Esc, Key::Char(':'));
    lemma_single_keys_differ(Key::Esc, Key::Char('i'));
    lemma_single_keys_differ(Key::Esc, Key::Char('a'));
    lemma_single_keys_differ(Key::Esc, Key::Char('v'));
    lemma_single_keys_differ(Key::Esc, Key::Char('h'));
    lemma_single_keys_differ(Key::Esc, Key::Char('j'));
    lemma_single_keys_differ(Key::Esc, Key::Char('k'));
    lemma_single_keys_differ(Key::Esc, Key::Char('l'));
    lemma_single_keys_differ(Key::Esc, Key::Char('0'));
    lemma_single_keys_differ(Key::Esc, Key::Char('$'));
    lemma_single_keys_differ(Key::Esc, Key::Char('G'));
    lemma_single_keys_differ(Key::Esc, Key::Char('w'));
    lemma_single_keys_differ(Key::Esc, Key::Char('b'));
    lemma_single_keys_differ(Key::Esc, Key::Char('p'));
}

/// What the editor's bindings alone give for seq![Key::Char(':')] in normal mode.
proof fn lemma_normal_mode_default_3()
    ensures
        binding_lookup(default_keybindings(), EditorMode::Normal, seq![Key::Char(':')]) == Some(AppAction::EditorAction(EditorAction::SetMode(EditorMode::Command))),
{
    reveal_with_fuel(binding_lookup, 22);
    lemma_single_keys_differ(Key::Char(':'), Key::Char('i'));
    lemma_single_keys_differ(Key::Char(':'), Key::Char('a'));
    lemma_single_keys_differ(Key::Char(':'), Key::Char('v'));
    lemma_single_keys_differ(Key::Char(':'), Key::Char('h'));
    lemma_single_keys_differ(Key::Char(':'), Key::Char('j'));
    lemma_single_keys_differ(Key::Char(':'), Key::Char('k'));
    lemma_single_keys_differ(Key::Char(':'), Key::Char('l'));
    lemma_single_keys_differ(Key::Char(':'), Key::Char('0'));
    lemma_single_keys_differ(Key::Char(':'), Key::Char('$'));
    lemma_single_keys_differ(Key::Char(':'), Key::Char('G'));
    lemma_single_keys_differ(Key::Char(':'), Key::Char('w'));
    lemma_single_keys_differ(Key::Char(':'), Key::Char('b'));
    lemma_single_keys_differ(Key::Char(':'), Key::Char('p'));
}

/// What the editor's bindings alone give for seq![Key::Char('i')] in normal mode.
proof fn lemma_normal_mode_default_4()
    ensures
        binding_lookup(default_keybindings(), EditorMode::Normal, seq![Key::Char('i')]) == Some(AppAction::EditorAction(EditorAction::SetMode(EditorMode::Insert { append: false }))),
{
    reveal_with_fuel(binding_lookup, 22);
    lemma_single_keys_differ(Key::Char('i'), Key::Char('a'));
    lemma_single_keys_differ(Key::Char('i'), Key::Char('v'));
    lemma_single_keys_differ(Key::Char('i'), Key::Char('h'));
    lemma_single_keys_differ(Key::Char('i'), Key::Char('j'));
    lemma_single_keys_differ(Key::Char('i'), Key::Char('k'));
    lemma_single_keys_differ(Key::Char('i'), Key::Char('l'));
    lemma_single_keys_differ(Key::Char('i'), Key::Char('0'));
    lemma_single_keys_differ(Key::Char('i'), Key::Char('$'));
    lemma_single_keys_differ(Key::Char('i'), Key::Char('G'));
    lemma_single_keys_differ(Key::Char('i'), Key::Char('w'));
    lemma_single_keys_differ(Key::Char('i'), Key::Char('b'));
    lemma_single_keys_differ(Key::Char('i'), Key::Char('p'));
}

/// What the editor's bindings alone give for seq![Key::Char('a')] in normal mode.
proof fn lemma_normal_mode_default_5()
    ensures
        binding_lookup(default_keybindings(), EditorMode::Normal, seq![Key::Char('a')]) == Some(AppAction::EditorAction(EditorAction::SetMode(EditorMode::Insert { append: true }))),
{
    reveal_with_fuel(binding_lookup, 22);
    lemma_single_keys_differ(Key::Char('a'), Key::Char('v'));
    lemma_single_keys_differ(Key::Char('a'), Key::Char('h'));
    lemma_single_keys_differ(Key::Char('a'), Key::Char('j'));
    lemma_single_keys_differ(Key::Char('a'), Key::Char('k'));
    lemma_single_keys_differ(Key::Char('a'), Key::Char('l'));
    lemma_single_keys_differ(Key::Char('a'), Key::Char('0'));
    lemma_single_keys_differ(Key::Char('a'), Key::Char('$'));
    lemma_single_keys_differ(Key::Char('a'), Key::Char('G'));
    lemma_single_keys_differ(Key::Char('a'), Key::Char('w'));
    lemma_single_keys_differ(Key::Char('a'), Key::Char('b'));
    lemma_single_keys_differ(Key::Char('a'), Key::Char('p'));
}

/// What the editor's bindings alone give for seq![Key::Char('v')] in normal mode.
proof fn lemma_normal_mode_default_6()
    ensures
        binding_lookup(default_keybindings(), EditorMode::Normal, seq![Key::Char('v')]) == Some(AppAction::EditorAction(EditorAction::SetMode(EditorMode::Visual { start: UVec2 { x: 0, y: 0 } }))),
{
    reveal_with_fuel(binding_lookup, 22);
    lemma_single_keys_differ(Key::Char('v'), Key::Char('h'));
    lemma_single_keys_differ(Key::Char('v'), Key::Char('j'));
    lemma_single_keys_differ(Key::Char('v'), Key::Char('k'));
    lemma_single_keys_differ(Key::Char('v'), Key::Char('l'));
    lemma_single_keys_differ(Key::Char('v'), Key::Char('0'));
    lemma_single_keys_differ(Key::Char('v'), Key::Char('$'));
    lemma_single_keys_differ(Key::Char('v'), Key::Char('G'));
    lemma_single_keys_differ(Key::Char('v'), Key::Char('w'));
    lemma_single_keys_differ(Key::Char('v'), Key::Char('b'));
    lemma_single_keys_differ(Key::Char('v'), Key::Char('p'));
}

/// What the editor's bindings alone give for seq![Key::Char('h')] in normal mode.
proof fn lemma_normal_mode_default_7()
    ensures
        binding_lookup(default_keybindings(), EditorMode::Normal, seq![Key::Char('h')]) == Some(AppAction::EditorAction(EditorAction::Buffer(EditorBufferAction::Cursor(EditorCursorAction::Left)))),
{
    reveal_with_fuel(binding_lookup, 22);
    lemma_single_keys_differ(Key::Char('h'), Key::Char('j'));
    lemma_single_keys_differ(Key::Char('h'), Key::Char('k'));
    lemma_single_keys_differ(Key::Char('h'), Key::Char('l'));
    lemma_single_keys_differ(Key::Char('h'), Key::Char('0'));
    lemma_single_keys_differ(Key::Char('h'), Key::Char('$'));
    lemma_single_keys_differ(Key::Char('h'), Key::Char('G'));
    lemma_single_keys_differ(Key::Char('h'), Key::Char('w'));
    lemma_single_keys_differ(Key::Char('h'), Key::Char('b'));
    lemma_single_keys_differ(Key::Char('h'), Key::Char('p'));
}

/// What the editor's bindings alone give for seq![Key::Char('j')] in normal mode.
proof fn lemma_normal_mode_default_8()
    ensures
        binding_lookup(default_keybindings(), EditorMode::Normal, seq![Key::Char('j')]) == Some(AppAction::EditorAction(EditorAction::Buffer(EditorBufferAction::Cursor(EditorCursorAction::Down)))),
{
    reveal_with_fuel(binding_lookup, 22);
    lemma_single_keys_differ(Key::Char('j'), Key::Char('k'));
    lemma_single_keys_differ(Key::Char('j'), Key::Char('l'));
    lemma_single_keys_differ(Key::Char('j'), Key::Char('0'));
    lemma_single_keys_differ(Key::Char('j'), Key::Char('$'));
    lemma_single_keys_differ(Key::Char('j'), Key::Char('G'));
    lemma_single_keys_differ(Key::Char('j'), Key::Char('w'));
    lemma_single_keys_differ(Key::Char('j'), Key::Char('b'));
    lemma_single_keys_differ(Key::Char('j'), Key::Char('p'));
}

/// What the editor's bindings alone give for seq![Key::Char('k')] in normal mode.
proof fn lemma_normal_mode_default_9()
    ensures
        binding_lookup(default_keybindings(), EditorMode::Normal, seq![Key::Char('k')]) == Some(AppAction::EditorAction(EditorAction::Buffer(EditorBufferAction::Cursor(EditorCursorAction::Up)))),
{
    reveal_with_fuel(binding_lookup, 22);
    lemma_single_keys_differ(Key::Char('k'), Key::Char('l'));
    lemma_single_keys_differ(Key::Char('k'), Key::Char('0'));
    lemma_single_keys_differ(Key::Char('k'), Key::Char('$'));
    lemma_single_keys_differ(Key::Char('k'), Key::Char('G'));
    lemma_single_keys_differ(Key::Char('k'), Key::Char('w'));
    lemma_single_keys_differ(Key::Char('k'), Key::Char('b'));
    lemma_single_keys_differ(Key::Char('k'), Key::Char('p'));
}

/// What the editor's bindings alone give for seq![Key::Char('l')] in normal mode.
proof fn lemma_normal_mode_default_10()
    ensures
        binding_lookup(default_keybindings(), EditorMode::Normal, seq![Key::Char('l')]) == Some(AppAction::EditorAction(EditorAction::Buffer(EditorBufferAction::Cursor(EditorCursorAction::Right)))),
{
    reveal_with_fuel(binding_lookup, 22);
    lemma_single_keys_differ(Key::Char('l'), Key::Char('0'));
    lemma_single_keys_differ(Key::Char('l'), Key::Char('$'));
    lemma_single_keys_differ(Key::Char('l'), Key::Char('G'));
    lemma_single_keys_differ(Key::Char('l'), Key::Char('w'));
    lemma_single_keys_differ(Key::Char('l'), Key::Char('b'));
    lemma_single_keys_differ(Key::Char('l'), Key::Char('p'));
}

/// What the editor's bindings alone give for seq![Key::Char('0')] in normal mode.
proof fn lemma_normal_mode_default_11()
    ensures
        binding_lookup(default_keybindings(), EditorMode::Normal, seq![Key::Char('0')]) == Some(AppAction::EditorAction(EditorAction::Buffer(EditorBufferAction::Cursor(EditorCursorAction::LineStart)))),
{
    reveal_with_fuel(binding_lookup, 22);
    lemma_single_keys_differ(Key::Char('0'), Key::Char('$'));
    lemma_single_keys_differ(Key::Char('0'), Key::Char('G'));
    lemma_single_keys_differ(Key::Char('0'), Key::Char('w'));
    lemma_single_keys_differ(Key::Char('0'), Key::Char('b'));
    lemma_single_keys_differ(Key::Char('0'), Key::Char('p'));
}

/// What the editor's bindings alone give for seq![Key::Char('$')] in normal mode.
proof fn lemma_normal_mode_default_12()
    ensures
        binding_lookup(default_keybindings(), EditorMode::Normal, seq![Key::Char('$')]) == Some(AppAction::EditorAction(EditorAction::Buffer(EditorBufferAction::Cursor(EditorCursorAction::LineEnd)))),
{
    reveal_with_fuel(binding_lookup, 22);
    lemma_single_keys_differ(Key::Char('$'), Key::Char('G'));
    lemma_single_keys_differ(Key::Char('$'), Key::Char('w'));
    lemma_single_keys_differ(Key::Char('$'), Key::Char('b'));
    lemma_single_keys_differ(Key::Char('$'), Key::Char('p'));
}

/// What the editor's bindings alone give for seq![Key::Char('g'), Key::Char('g')] in normal mode.
proof fn lemma_normal_mode_default_13()
    ensures
        binding_lookup(default_keybindings(), EditorMode::Normal, seq![Key::Char('g'), Key::Char('g')]) == Some(AppAction::EditorAction(EditorAction::Buffer(EditorBufferAction::Cursor(EditorCursorAction::Top)))),
{
    reveal_with_fuel(binding_lookup, 22);
    lemma_key_pairs_differ(Key::Char('g'), Key::Char('g'), Key::Char('d'), Key::Char('d'));
    lemma_key_pairs_differ(Key::Char('g'), Key::Char('g'), Key::Char('y'), Key::Char('y'));
}

/// What the editor's bindings alone give for seq![Key::Char('G')] in normal mode.
proof fn lemma_normal_mode_default_14()
    ensures
        binding_lookup(default_keybindings(), EditorMode::Normal, seq![Key::Char('G')]) == Some(AppAction::EditorAction(EditorAction::Buffer(EditorBufferAction::Cursor(EditorCursorAction::Bottom)))),
{
    reveal_with_fuel(binding_lookup, 22);
    lemma_single_keys_differ(Key::Char('G'), Key::Char('w'));
    lemma_single_keys_differ(Key::Char('G'), Key::Char('b'));
    lemma_single_keys_differ(Key::Char('G'), Key::Char('p'));
}

/// What the editor's bindings alone give for seq![Key::Char('w')] in normal mode.
proof fn lemma_normal_mode_default_15()
    ensures
        binding_lookup(default_keybindings(), EditorMode::Normal, seq![Key::Char('w')]) == Some(AppAction::EditorAction(EditorAction::Buffer(EditorBufferAction::Cursor(EditorCursorAction::NextWord)))),
{
    reveal_with_fuel(binding_lookup, 22);
    lemma_single_keys_differ(Key::Char('w'), Key::Char('b'));
    lemma_single_keys_differ(Key::Char('w'), Key::Char('p'));
}

/// What the editor's bindings alone give for seq![Key::Char('b')] in normal mode.
proof fn lemma_normal_mode_default_16()
    ensures
        binding_lookup(default_keybindings(), EditorMode::Normal, seq![Key::Char('b')]) == Some(AppAction::EditorAction(EditorAction::Buffer(EditorBufferAction::Cursor(EditorCursorAction::BackWord)))),
{
    reveal_with_fuel(binding_lookup, 22);
    lemma_single_keys_differ(Key::Char('b'), Key::Char('p'));
}

/// What the editor's bindings alone give for seq![Key::Char('d'), Key::Char('d')] in normal mode.
proof fn lemma_normal_mode_default_17()
    ensures
        binding_lookup(default_keybindings(), EditorMode::Normal, seq![Key::Char('d'), Key::Char('d')]) == Some(AppAction::EditorAction(EditorAction::Buffer(EditorBufferAction::Edit(EditorEditAction::DeleteLine)))),
{
    reveal_with_fuel(binding_lookup, 22);
    lemma_key_pairs_differ(Key::Char('d'), Key::Char('d'), Key::Char('y'), Key::Char('y'));
}

/// What the editor's bindings alone give for seq![Key::Char('y'), Key::Char('y')] in normal mode.
proof fn lemma_normal_mode_default_18()
    ensures
        binding_lookup(default_keybindings(), EditorMode::Normal, seq![Key::Char('y'), Key::Char('y')]) == Some(AppAction::EditorAction(EditorAction::Buffer(EditorBufferAction::Edit(EditorEditAction::YankLine)))),
{
    reveal_with_fuel(binding_lookup, 22);
}

/// What the editor's bindings alone give for seq![Key::Char('p')] in normal mode.
proof fn lemma_normal_mode_default_19()
    ensures
        binding_lookup(default_keybindings(), EditorMode::Normal, seq![Key::Char('p')]) == Some(AppAction::EditorAction(EditorAction::Buffer(EditorBufferAction::Edit(EditorEditAction::Paste)))),
{
    reveal_with_fuel(binding_lookup, 22);
}

/// What the editor's bindings alone give for seq![Key::Ctrl('c')] in visual mode.
proof fn lemma_visual_mode_default_1(start: UVec2)
    ensures
        binding_lookup(default_keybindings(), EditorMode::Visual { start }, seq![Key::Ctrl('c')]) == Some(AppAction::EditorAction(EditorAction::SetMode(EditorMode::Normal))),
{
    reveal_with_fuel(binding_lookup, 22);
    lemma_single_keys_differ(Key::Ctrl('c'), Key::Esc);
    lemma_single_keys_differ(Key::Ctrl('c'), Key::Char('h'));
    lemma_single_keys_differ(Key::Ctrl('c'), Key::Char('j'));
    lemma_single_keys_differ(Key::Ctrl('c'), Key::Char('k'));
    lemma_single_keys_differ(Key::Ctrl('c'), Key::Char('l'));
    lemma_single_keys_differ(Key::Ctrl('c'), Key::Char('0'));
    lemma_single_keys_differ(Key::Ctrl('c'), Key::Char('$'));
    lemma_single_keys_differ(Key::Ctrl('c'), Key::Char('G'));
    lemma_single_keys_differ(Key::Ctrl('c'), Key::Char('w'));
    lemma_single_keys_differ(Key::Ctrl('c'), Key::Char('b'));
    lemma_single_keys_differ(Key::Ctrl('c'), Key::Char('d'));
    lemma_single_keys_differ(Key::Ctrl('c'), Key::Char('y'));
}

/// What the editor's bindings alone give for seq![Key::Esc] in visual mode.
proof fn lemma_visual_mode_default_2(start: UVec2)
    ensures
        binding_lookup(default_keybindings(), EditorMode::Visual { start }, seq![Key::Esc]) == Some(AppAction::EditorAction(EditorAction::SetMode(EditorMode::Normal))),
{
    reveal_with_fuel(binding_lookup, 22);
    lemma_single_keys_differ(Key::Esc, Key::Char('h'));
    lemma_single_keys_differ(Key::Esc, Key::Char('j'));
    lemma_single_keys_differ(Key::Esc, Key::Char('k'));
    lemma_single_keys_differ(Key::Esc, Key::Char('l'));
    lemma_single_keys_differ(Key::Esc, Key::Char('0'));
    lemma_single_keys_differ(Key::Esc, Key::Char('$'));
    lemma_single_keys_differ(Key::Esc, Key::Char('G'));
    lemma_single_keys_differ(Key::Esc, Key::Char('w'));
    lemma_single_keys_differ(Key::Esc, Key::Char('b'));
    lemma_single_keys_differ(Key::Esc, Key::Char('d'));
    lemma_single_keys_differ(Key::Esc, Key::Char('y'));
}

/// What the editor's bindings alone give for seq![Key::Char('h')] in visual mode.
proof fn lemma_visual_mode_default_3(start: UVec2)
    ensures
        binding_lookup(default_keybindings(), EditorMode::Visual { start }, seq![Key::Char('h')]) == Some(AppAction::EditorAction(EditorAction::Buffer(EditorBufferAction::Cursor(EditorCursorAction::Left)))),
{
    reveal_with_fuel(binding_lookup, 22);
    lemma_single_keys_differ(Key::Char('h'), Key::Char('j'));
    lemma_single_keys_differ(Key::Char('h'), Key::Char('k'));
    lemma_single_keys_differ(Key::Char('h'), Key::Char('l'));
    lemma_single_keys_differ(Key::Char('h'), Key::Char('0'));
    lemma_single_keys_differ(Key::Char('h'), Key::Char('$'));
    lemma_single_keys_differ(Key::Char('h'), Key::Char('G'));
    lemma_single_keys_differ(Key::Char('h'), Key::Char('w'));
    lemma_single_keys_differ(Key::Char('h'), Key::Char('b'));
    lemma_single_keys_differ(Key::Char('h'), Key::Char('d'));
    lemma_single_keys_differ(Key::Char('h'), Key::Char('y'));
}

/// What the editor's bindings alone give for seq![Key::Char('j')] in visual mode.
proof fn lemma_visual_mode_default_4(start: UVec2)
    ensures
        binding_lookup(default_keybindings(), EditorMode::Visual { start }, seq![Key::Char('j')]) == Some(AppAction::EditorAction(EditorAction::Buffer(EditorBufferAction::Cursor(EditorCursorAction::Down)))),
{
    reveal_with_fuel(binding_lookup, 22);
    lemma_single_keys_differ(Key::Char('j'), Key::Char('k'));
    lemma_single_keys_differ(Key::Char('j'), Key::Char('l'));
    lemma_single_keys_differ(Key::Char('j'), Key::Char('0'));
    lemma_single_keys_differ(Key::Char('j'), Key::Char('$'));
    lemma_single_keys_differ(Key::Char('j'), Key::Char('G'));
    lemma_single_keys_differ(Key::Char('j'), Key::Char('w'));
    lemma_single_keys_differ(Key::Char('j'), Key::Char('b'));
    lemma_single_keys_differ(Key::Char('j'), Key::Char('d'));
    lemma_single_keys_differ(Key::Char('j'), Key::Char('y'));
}

/// What the editor's bindings alone give for seq![Key::Char('k')] in visual mode.
proof fn lemma_visual_mode_default_5(start: UVec2)
    ensures
        binding_lookup(default_keybindings(), EditorMode::Visual { start }, seq![Key::Char('k')]) == Some(AppAction::EditorAction(EditorAction::Buffer(EditorBufferAction::Cursor(EditorCursorAction::Up)))),
{
    reveal_with_fuel(binding_lookup, 22);
    lemma_single_keys_differ(Key::Char('k'), Key::Char('l'));
    lemma_single_keys_differ(Key::Char('k'), Key::Char('0'));
    lemma_single_keys_differ(Key::Char('k'), Key::Char('$'));
    lemma_single_keys_differ(Key::Char('k'), Key::Char('G'));
    lemma_single_keys_differ(Key::Char('k'), Key::Char('w'));
    lemma_single_keys_differ(Key::Char('k'), Key::Char('b'));
    lemma_single_keys_differ(Key::Char('k'), Key::Char('d'));
    lemma_single_keys_differ(Key::Char('k'), Key::Char('y'));
}

/// What the editor's bindings alone give for seq![Key::Char('l')] in visual mode.
proof fn lemma_visual_mode_default_6(start: UVec2)
    ensures
        binding_lookup(default_keybindings(), EditorMode::Visual { start }, seq![Key::Char('l')]) == Some(AppAction::EditorAction(EditorAction::Buffer(EditorBufferAction::Cursor(EditorCursorAction::Right)))),
{
    reveal_with_fuel(binding_lookup, 22);
    lemma_single_keys_differ(Key::Char('l'), Key::Char('0'));
    lemma_single_keys_differ(Key::Char('l'), Key::Char('$'));
    lemma_single_keys_differ(Key::Char('l'), Key::Char('G'));
    lemma_single_keys_differ(Key::Char('l'), Key::Char('w'));
    lemma_single_keys_differ(Key::Char('l'), Key::Char('b'));
    lemma_single_keys_differ(Key::Char('l'), Key::Char('d'));
    lemma_single_keys_differ(Key::Char('l'), Key::Char('y'));
}

/// What the editor's bindings alone give for seq![Key::Char('0')] in visual mode.
proof fn lemma_visual_mode_default_7(start: UVec2)
    ensures
        binding_lookup(default_keybindings(), EditorMode::Visual { start }, seq![Key::Char('0')]) == Some(AppAction::EditorAction(EditorAction::Buffer(EditorBufferAction::Cursor(EditorCursorAction::LineStart)))),
{
    reveal_with_fuel(binding_lookup, 22);
    lemma_single_keys_differ(Key::Char('0'), Key::Char('$'));
    lemma_single_keys_differ(Key::Char('0'), Key::Char('G'));
    lemma_single_keys_differ(Key::Char('0'), Key::Char('w'));
    lemma_single_keys_differ(Key::Char('0'), Key::Char('b'));
    lemma_single_keys_differ(Key::Char('0'), Key::Char('d'));
    lemma_single_keys_differ(Key::Char('0'), Key::Char('y'));
}

/// What the editor's bindings alone give for seq![Key::Char('$')] in visual mode.
proof fn lemma_visual_mode_default_8(start: UVec2)
    ensures
        binding_lookup(default_keybindings(), EditorMode::Visual { start }, seq![Key::Char('$')]) == Some(AppAction::EditorAction(EditorAction::Buffer(EditorBufferAction::Cursor(EditorCursorAction::LineEnd)))),
{
    reveal_with_fuel(binding_lookup, 22);
    lemma_single_keys_differ(Key::Char('$'), Key::Char('G'));
    lemma_single_keys_differ(Key::Char('$'), Key::Char('w'));
    lemma_single_keys_differ(Key::Char('$'), Key::Char('b'));
    lemma_single_keys_differ(Key::Char('$'), Key::Char('d'));
    lemma_single_keys_differ(Key::Char('$'), Key::Char('y'));
}

/// What the editor's bindings alone give for seq![Key::Char('g'), Key::Char('g')] in visual mode.
proof fn lemma_visual_mode_default_9(start: UVec2)
    ensures
        binding_lookup(default_keybindings(), EditorMode::Visual { start }, seq![Key::Char('g'), Key::Char('g')]) == Some(AppAction::EditorAction(EditorAction::Buffer(EditorBufferAction::Cursor(EditorCursorAction::Top)))),
{
    reveal_with_fuel(binding_lookup, 22);
}

/// What the editor's bindings alone give for seq![Key::Char('G')] in visual mode.
proof fn lemma_visual_mode_default_10(start: UVec2)
    ensures
        binding_lookup(default_keybindings(), EditorMode::Visual { start }, seq![Key::Char('G')]) == Some(AppAction::EditorAction(EditorAction::Buffer(EditorBufferAction::Cursor(EditorCursorAction::Bottom)))),
{
    reveal_with_fuel(binding_lookup, 22);
    lemma_single_keys_differ(Key::Char('G'), Key::Char('w'));
    lemma_single_keys_differ(Key::Char('G'), Key::Char('b'));
    lemma_single_keys_differ(Key::Char('G'), Key::Char('d'));
    lemma_single_keys_differ(Key::Char('G'), Key::Char('y'));
}

/// What the editor's bindings alone give for seq![Key::Char('w')] in visual mode.
proof fn lemma_visual_mode_default_11(start: UVec2)
    ensures
        binding_lookup(default_keybindings(), EditorMode::Visual { start }, seq![Key::Char('w')]) == Some(AppAction::EditorAction(EditorAction::Buffer(EditorBufferAction::Cursor(EditorCursorAction::NextWord)))),
{
    reveal_with_fuel(binding_lookup, 22);
    lemma_single_keys_differ(Key::Char('w'), Key::Char('b'));
    lemma_single_keys_differ(Key::Char('w'), Key::Char('d'));
    lemma_single_keys_differ(Key::Char('w'), Key::Char('y'));
}

/// What the editor's bindings alone give for seq![Key::Char('b')] in visual mode.
proof fn lemma_visual_mode_default_12(start: UVec2)
    ensures
        binding_lookup(default_keybindings(), EditorMode::Visual { start }, seq![Key::Char('b')]) == Some(AppAction::EditorAction(EditorAction::Buffer(EditorBufferAction::Cursor(EditorCursorAction::BackWord)))),
{
    reveal_with_fuel(binding_lookup, 22);
    lemma_single_keys_differ(Key::Char('b'), Key::Char('d'));
    lemma_single_keys_differ(Key::Char('b'), Key::Char('y'));
}

/// What the editor's bindings alone give for seq![Key::Char('d')] in visual mode.
proof fn lemma_visual_mode_default_13(start: UVec2)
    ensures
        binding_lookup(default_keybindings(), EditorMode::Visual { start }, seq![Key::Char('d')]) == Some(AppAction::EditorAction(EditorAction::Buffer(EditorBufferAction::Edit(EditorEditAction::DeleteSelection)))),
{
    reveal_with_fuel(binding_lookup, 22);
    lemma_single_keys_differ(Key::Char('d'), Key::Char('y'));
}

/// What the editor's bindings alone give for seq![Key::Char('y')] in visual mode.
proof fn lemma_visual_mode_default_14(start: UVec2)
    ensures
        binding_lookup(default_keybindings(), EditorMode::Visual { start }, seq![Key::Char('y')]) == Some(AppAction::EditorAction(EditorAction::Buffer(EditorBufferAction::Edit(EditorEditAction::YankSelection)))),
{
    reveal_with_fuel(binding_lookup, 22);
}

/// What the editor's bindings alone give for seq![Key::Ctrl('c')] in insert mode.
proof fn lemma_insert_mode_default_1(append: bool)
    ensures
        binding_lookup(default_keybindings(), EditorMode::Insert { append }, seq![Key::Ctrl('c')]) == Some(AppAction::EditorAction(EditorAction::SetMode(EditorMode::Normal))),
{
    reveal_with_fuel(binding_lookup, 22);
    lemma_single_keys_differ(Key::Ctrl('c'), Key::Esc);
}

/// What the editor's bindings alone give for seq![Key::Esc] in insert mode.
proof fn lemma_insert_mode_default_2(append: bool)
    ensures
        binding_lookup(default_keybindings(), EditorMode::Insert { append }, seq![Key::Esc]) == Some(AppAction::EditorAction(EditorAction::SetMode(EditorMode::Normal))),
{
    reveal_with_fuel(binding_lookup, 22);
}

/// The editor's bindings alone bind no typed character in insert mode.
proof fn lemma_insert_mode_typing_free(append: bool, c: char)
    ensures
        binding_lookup(default_keybindings(), EditorMode::Insert { append }, seq![Key::Char(c)]) is None,
{
    reveal_with_fuel(binding_lookup, 22);
    lemma_single_keys_differ(Key::Char(c), Key::Ctrl('c'));
    lemma_single_keys_differ(Key::Char(c), Key::Esc);
}

/// What the editor's bindings alone give for seq![Key::Ctrl('c')] in command mode.
proof fn lemma_command_mode_default_1()
    ensures
        binding_lookup(default_keybindings(), EditorMode::Command, seq![Key::Ctrl('c')]) == Some(AppAction::EditorAction(EditorAction::SetMode(EditorMode::Normal))),
{
    reveal_with_fuel(binding_lookup, 22);
    lemma_single_keys_differ(Key::Ctrl('c'), Key::Esc);
}

/// What the editor's bindings alone give for seq![Key::Esc] in command mode.
proof fn lemma_command_mode_default_2()
    ensures
        binding_lookup(default_keybindings(), EditorMode::Command, seq![Key::Esc]) == Some(AppAction::EditorAction(EditorAction::SetMode(EditorMode::Normal))),
{
    reveal_with_fuel(binding_lookup, 22);
}

/// The editor's bindings alone bind no typed character in command mode.
proof fn lemma_command_mode_typing_free(c: char)
    ensures
        binding_lookup(default_keybindings(), EditorMode::Command, seq![Key::Char(c)]) is None,
{
    reveal_with_fuel(binding_lookup, 22);
    lemma_single_keys_differ(Key::Char(c), Key::Ctrl('c'));
    lemma_single_keys_differ(Key::Char(c), Key::Esc);
}

/// Keys that no binding of `b` takes in `mode` are bound to nothing.
pub proof fn lemma_lookup_none(b: Seq<(KeyConfigType, Seq<Key>, AppAction)>, mode: EditorMode, keys: Seq<Key>)
    requires
        forall|i: int| 0 <= i < b.len() ==> !(type_applies(#[trigger] b[i].0, mode) && b[i].1 == keys),
    ensures
        binding_lookup(b, mode, keys) is None,
    decreases b.len(),
{
    if b.len() > 0 {
        assert(b.last() == b[b.len() - 1]);
        assert forall|i: int| 0 <= i < b.drop_last().len() implies !(type_applies(#[trigger] b.drop_last()[i].0, mode)
            && b.drop_last()[i].1 == keys) by {
            assert(b.drop_last()[i] == b[i]);
        }
        lemma_lookup_none(b.drop_last(), mode, keys);
    }
}

/// The editor's bindings alone bind `Key::Char('d')` to nothing in this mode: it waits for the next key.

proof fn lemma_normal_mode_d_waits()
    ensures
        binding_lookup(default_keybindings(), EditorMode::Normal, seq![Key::Char('d')]) is None,
{
    let d = default_keybindings();
    lemma_single_keys_differ(Key::Char('d'), Key::Ctrl('c'));
    assert(!(type_applies(d[0].0, EditorMode::Normal) && d[0].1 == seq![Key::Char('d')]));
    lemma_single_keys_differ(Key::Char('d'), Key::Esc);
    assert(!(type_applies(d[1].0, EditorMode::Normal) && d[1].1 == seq![Key::Char('d')]));
    lemma_single_keys_differ(Key::Char('d'), Key::Char(':'));
    assert(!(type_applies(d[2].0, EditorMode::Normal) && d[2].1 == seq![Key::Char('d')]));
    lemma_single_keys_differ(Key::Char('d'), Key::Char('i'));
    assert(!(type_applies(d[3].0, EditorMode::Normal) && d[3].1 == seq![Key::Char('d')]));
    lemma_single_keys_differ(Key::Char('d'), Key::Char('a'));
    assert(!(type_applies(d[4].0, EditorMode::Normal) && d[4].1 == seq![Key::Char('d')]));
    lemma_single_keys_differ(Key::Char('d'), Key::Char('v'));
    assert(!(type_applies(d[5].0, EditorMode::Normal) && d[5].1 == seq![Key::Char('d')]));
    lemma_single_keys_differ(Key::Char('d'), Key::Char('h'));
    assert(!(type_applies(d[6].0, EditorMode::Normal) && d[6].1 == seq![Key::Char('d')]));
    lemma_single_keys_differ(Key::Char('d'), Key::Char('j'));
    assert(!(type_applies(d[7].0, EditorMode::Normal) && d[7].1 == seq![Key::Char('d')]));
    lemma_single_keys_differ(Key::Char('d'), Key::Char('k'));
    assert(!(type_applies(d[8].0, EditorMode::Normal) && d[8].1 == seq![Key::Char('d')]));
    lemma_single_keys_differ(Key::Char('d'), Key::Char('l'));
    assert(!(type_applies(d[9].0, EditorMode::Normal) && d[9].1 == seq![Key::Char('d')]));
    lemma_single_keys_differ(Key::Char('d'), Key::Char('0'));
    assert(!(type_applies(d[10].0, EditorMode::Normal) && d[10].1 == seq![Key::Char('d')]));
    lemma_single_keys_differ(Key::Char('d'), Key::Char('$'));
    assert(!(type_applies(d[11].0, EditorMode::Normal) && d[11].1 == seq![Key::Char('d')]));
    lemma_key_lengths_differ(seq![Key::Char('d')], seq![Key::Char('g'), Key::Char('g')]);
    assert(!(type_applies(d[12].0, EditorMode::Normal) && d[12].1 == seq![Key::Char('d')]));
    lemma_single_keys_differ(Key::Char('d'), Key::Char('G'));
    assert(!(type_applies(d[13].0, EditorMode::Normal) && d[13].1 == seq![Key::Char('d')]));
    lemma_single_keys_differ(Key::Char('d'), Key::Char('w'));
    assert(!(type_applies(d[14].0, EditorMode::Normal) && d[14].1 == seq![Key::Char('d')]));
    lemma_single_keys_differ(Key::Char('d'), Key::Char('b'));
    assert(!(type_applies(d[15].0, EditorMode::Normal) && d[15].1 == seq![Key::Char('d')]));
    lemma_key_lengths_differ(seq![Key::Char('d')], seq![Key::Char('d'), Key::Char('d')]);
    assert(!(type_applies(d[16].0, EditorMode::Normal) && d[16].1 == seq![Key::Char('d')]));
    lemma_key_lengths_differ(seq![Key::Char('d')], seq![Key::Char('y'), Key::Char('y')]);
    assert(!(type_applies(d[17].0, EditorMode::Normal) && d[17].1 == seq![Key::Char('d')]));
    lemma_single_keys_differ(Key::Char('d'), Key::Char('p'));
    assert(!(type_applies(d[18].0, EditorMode::Normal) && d[18].1 == seq![Key::Char('d')]));
    assert(!(type_applies(d[19].0, EditorMode::Normal) && d[19].1 == seq![Key::Char('d')]));
    assert(!(type_applies(d[20].0, EditorMode::Normal) && d[20].1 == seq![Key::Char('d')]));
    assert forall|i: int| 0 <= i < d.len() implies !(type_applies(#[trigger] d[i].0, EditorMode::Normal) && d[i].1 == seq![Key::Char('d')]) by {
        assert(0 <= i < 21);
    }
    lemma_lookup_none(d, EditorMode::Normal, seq![Key::Char('d')]);
}

/// The editor's bindings alone bind `Key::Char('y')` to nothing in this mode: it waits for the next key.
proof fn lemma_normal_mode_y_waits()
    ensures
        binding_lookup(default_keybindings(), EditorMode::Normal, seq![Key::Char('y')]) is None,
{
    let d = default_keybindings();
    lemma_single_keys_differ(Key::Char('y'), Key::Ctrl('c'));
    assert(!(type_applies(d[0].0, EditorMode::Normal) && d[0].1 == seq![Key::Char('y')]));
    lemma_single_keys_differ(Key::Char('y'), Key::Esc);
    assert(!(type_applies(d[1].0, EditorMode::Normal) && d[1].1 == seq![Key::Char('y')]));
    lemma_single_keys_differ(Key::Char('y'), Key::Char(':'));
    assert(!(type_applies(d[2].0, EditorMode::Normal) && d[2].1 == seq![Key::Char('y')]));
    lemma_single_keys_differ(Key::Char('y'), Key::Char('i'));
    assert(!(type_applies(d[3].0, EditorMode::Normal) && d[3].1 == seq![Key::Char('y')]));
    lemma_single_keys_differ(Key::Char('y'), Key::Char('a'));
    assert(!(type_applies(d[4].0, EditorMode::Normal) && d[4].1 == seq![Key::Char('y')]));
    lemma_single_keys_differ(Key::Char('y'), Key::Char('v'));
    assert(!(type_applies(d[5].0, EditorMode::Normal) && d[5].1 == seq![Key::Char('y')]));
    lemma_single_keys_differ(Key::Char('y'), Key::Char('h'));
    assert(!(type_applies(d[6].0, EditorMode::Normal) && d[6].1 == seq![Key::Char('y')]));
    lemma_single_keys_differ(Key::Char('y'), Key::Char('j'));
    assert(!(type_applies(d[7].0, EditorMode::Normal) && d[7].1 == seq![Key::Char('y')]));
    lemma_single_keys_differ(Key::Char('y'), Key::Char('k'));
    assert(!(type_applies(d[8].0, EditorMode::Normal) && d[8].1 == seq![Key::Char('y')]));
    lemma_single_keys_differ(Key::Char('y'), Key::Char('l'));
    assert(!(type_applies(d[9].0, EditorMode::Normal) && d[9].1 == seq![Key::Char('y')]));
    lemma_single_keys_differ(Key::Char('y'), Key::Char('0'));
    assert(!(type_applies(d[10].0, EditorMode::Normal) && d[10].1 == seq![Key::Char('y')]));
    lemma_single_keys_differ(Key::Char('y'), Key::Char('$'));
    assert(!(type_applies(d[11].0, EditorMode::Normal) && d[11].1 == seq![Key::Char('y')]));
    lemma_key_lengths_differ(seq![Key::Char('y')], seq![Key::Char('g'), Key::Char('g')]);
    assert(!(type_applies(d[12].0, EditorMode::Normal) && d[12].1 == seq![Key::Char('y')]));
    lemma_single_keys_differ(Key::Char('y'), Key::Char('G'));
    assert(!(type_applies(d[13].0, EditorMode::Normal) && d[13].1 == seq![Key::Char('y')]));
    lemma_single_keys_differ(Key::Char('y'), Key::Char('w'));
    assert(!(type_applies(d[14].0, EditorMode::Normal) && d[14].1 == seq![Key::Char('y')]));
    lemma_single_keys_differ(Key::Char('y'), Key::Char('b'));
    assert(!(type_applies(d[15].0, EditorMode::Normal) && d[15].1 == seq![Key::Char('y')]));
    lemma_key_lengths_differ(seq![Key::Char('y')], seq![Key::Char('d'), Key::Char('d')]);
    assert(!(type_applies(d[16].0, EditorMode::Normal) && d[16].1 == seq![Key::Char('y')]));
    lemma_key_lengths_differ(seq![Key::Char('y')], seq![Key::Char('y'), Key::Char('y')]);
    assert(!(type_applies(d[17].0, EditorMode::Normal) && d[17].1 == seq![Key::Char('y')]));
    lemma_single_keys_differ(Key::Char('y'), Key::Char('p'));
    assert(!(type_applies(d[18].0, EditorMode::Normal) && d[18].1 == seq![Key::Char('y')]));
    assert(!(type_applies(d[19].0, EditorMode::Normal) && d[19].1 == seq![Key::Char('y')]));
    assert(!(type_applies(d[20].0, EditorMode::Normal) && d[20].1 == seq![Key::Char('y')]));
    assert forall|i: int| 0 <= i < d.len() implies !(type_applies(#[trigger] d[i].0, EditorMode::Normal) && d[i].1 == seq![Key::Char('y')]) by {
        assert(0 <= i < 21);
    }
    lemma_lookup_none(d, EditorMode::Normal, seq![Key::Char('y')]);
}

/// The editor's bindings alone bind `Key::Char('g')` to nothing in this mode: it waits for the next key.
proof fn lemma_normal_mode_g_waits()
    ensures
        binding_lookup(default_keybindings(), EditorMode::Normal, seq![Key::Char('g')]) is None,
{
    let d = default_keybindings();
    lemma_single_keys_differ(Key::Char('g'), Key::Ctrl('c'));
    assert(!(type_applies(d[0].0, EditorMode::Normal) && d[0].1 == seq![Key::Char('g')]));
    lemma_single_keys_differ(Key::Char('g'), Key::Esc);
    assert(!(type_applies(d[1].0, EditorMode::Normal) && d[1].1 == seq![Key::Char('g')]));
    lemma_single_keys_differ(Key::Char('g'), Key::Char(':'));
    assert(!(type_applies(d[2].0, EditorMode::Normal) && d[2].1 == seq![Key::Char('g')]));
    lemma_single_keys_differ(Key::Char('g'), Key::Char('i'));
    assert(!(type_applies(d[3].0, EditorMode::Normal) && d[3].1 == seq![Key::Char('g')]));
    lemma_single_keys_differ(Key::Char('g'), Key::Char('a'));
    assert(!(type_applies(d[4].0, EditorMode::Normal) && d[4].1 == seq![Key::Char('g')]));
    lemma_single_keys_differ(Key::Char('g'), Key::Char('v'));
    assert(!(type_applies(d[5].0, EditorMode::Normal) && d[5].1 == seq![Key::Char('g')]));
    lemma_single_keys_differ(Key::Char('g'), Key::Char('h'));
    assert(!(type_applies(d[6].0, EditorMode::Normal) && d[6].1 == seq![Key::Char('g')]));
    lemma_single_keys_differ(Key::Char('g'), Key::Char('j'));
    assert(!(type_applies(d[7].0, EditorMode::Normal) && d[7].1 == seq![Key::Char('g')]));
    lemma_single_keys_differ(Key::Char('g'), Key::Char('k'));
    assert(!(type_applies(d[8].0, EditorMode::Normal) && d[8].1 == seq![Key::Char('g')]));
    lemma_single_keys_differ(Key::Char('g'), Key::Char('l'));
    assert(!(type_applies(d[9].0, EditorMode::Normal) && d[9].1 == seq![Key::Char('g')]));
    lemma_single_keys_differ(Key::Char('g'), Key::Char('0'));
    assert(!(type_applies(d[10].0, EditorMode::Normal) && d[10].1 == seq![Key::Char('g')]));
    lemma_single_keys_differ(Key::Char('g'), Key::Char('$'));
    assert(!(type_applies(d[11].0, EditorMode::Normal) && d[11].1 == seq![Key::Char('g')]));
    lemma_key_lengths_differ(seq![Key::Char('g')], seq![Key::Char('g'), Key::Char('g')]);
    assert(!(type_applies(d[12].0, EditorMode::Normal) && d[12].1 == seq![Key::Char('g')]));
    lemma_single_keys_differ(Key::Char('g'), Key::Char('G'));
    assert(!(type_applies(d[13].0, EditorMode::Normal) && d[13].1 == seq![Key::Char('g')]));
    lemma_single_keys_differ(Key::Char('g'), Key::Char('w'));
    assert(!(type_applies(d[14].0, EditorMode::Normal) && d[14].1 == seq![Key::Char('g')]));
    lemma_single_keys_differ(Key::Char('g'), Key::Char('b'));
    assert(!(type_applies(d[15].0, EditorMode::Normal) && d[15].1 == seq![Key::Char('g')]));
    lemma_key_lengths_differ(seq![Key::Char('g')], seq![Key::Char('d'), Key::Char('d')]);
    assert(!(type_applies(d[16].0, EditorMode::Normal) && d[16].1 == seq![Key::Char('g')]));
    lemma_key_lengths_differ(seq![Key::Char('g')], seq![Key::Char('y'), Key::Char('y')]);
    assert(!(type_applies(d[17].0, EditorMode::Normal) && d[17].1 == seq![Key::Char('g')]));
    lemma_single_keys_differ(Key::Char('g'), Key::Char('p'));
    assert(!(type_applies(d[18].0, EditorMode::Normal) && d[18].1 == seq![Key::Char('g')]));
    assert(!(type_applies(d[19].0, EditorMode::Normal) && d[19].1 == seq![Key::Char('g')]));
    assert(!(type_applies(d[20].0, EditorMode::Normal) && d[20].1 == seq![Key::Char('g')]));
    assert forall|i: int| 0 <= i < d.len() implies !(type_applies(#[trigger] d[i].0, EditorMode::Normal) && d[i].1 == seq![Key::Char('g')]) by {
        assert(0 <= i < 21);
    }
    lemma_lookup_none(d, EditorMode::Normal, seq![Key::Char('g')]);
}

/// The editor's bindings alone bind `Key::Char('g')` to nothing in this mode: it waits for the next key.
proof fn lemma_visual_mode_g_waits(start: UVec2)
    ensures
        binding_lookup(default_keybindings(), EditorMode::Visual { start }, seq![Key::Char('g')]) is None,
{
    let d = default_keybindings();
    lemma_single_keys_differ(Key::Char('g'), Key::Ctrl('c'));
    assert(!(type_applies(d[0].0, EditorMode::Visual { start }) && d[0].1 == seq![Key::Char('g')]));
    lemma_single_keys_differ(Key::Char('g'), Key::Esc);
    assert(!(type_applies(d[1].0, EditorMode::Visual { start }) && d[1].1 == seq![Key::Char('g')]));
    assert(!(type_applies(d[2].0, EditorMode::Visual { start }) && d[2].1 == seq![Key::Char('g')]));
    assert(!(type_applies(d[3].0, EditorMode::Visual { start }) && d[3].1 == seq![Key::Char('g')]));
    assert(!(type_applies(d[4].0, EditorMode::Visual { start }) && d[4].1 == seq![Key::Char('g')]));
    assert(!(type_applies(d[5].0, EditorMode::Visual { start }) && d[5].1 == seq![Key::Char('g')]));
    lemma_single_keys_differ(Key::Char('g'), Key::Char('h'));
    assert(!(type_applies(d[6].0, EditorMode::Visual { start }) && d[6].1 == seq![Key::Char('g')]));
    lemma_single_keys_differ(Key::Char('g'), Key::Char('j'));
    assert(!(type_applies(d[7].0, EditorMode::Visual { start }) && d[7].1 == seq![Key::Char('g')]));
    lemma_single_keys_differ(Key::Char('g'), Key::Char('k'));
    assert(!(type_applies(d[8].0, EditorMode::Visual { start }) && d[8].1 == seq![Key::Char('g')]));
    lemma_single_keys_differ(Key::Char('g'), Key::Char('l'));
    assert(!(type_applies(d[9].0, EditorMode::Visual { start }) && d[9].1 == seq![Key::Char('g')]));
    lemma_single_keys_differ(Key::Char('g'), Key::Char('0'));
    assert(!(type_applies(d[10].0, EditorMode::Visual { start }) && d[10].1 == seq![Key::Char('g')]));
    lemma_single_keys_differ(Key::Char('g'), Key::Char('$'));
    assert(!(type_applies(d[11].0, EditorMode::Visual { start }) && d[11].1 == seq![Key::Char('g')]));
    lemma_key_lengths_differ(seq![Key::Char('g')], seq![Key::Char('g'), Key::Char('g')]);
    assert(!(type_applies(d[12].0, EditorMode::Visual { start }) && d[12].1 == seq![Key::Char('g')]));
    lemma_single_keys_differ(Key::Char('g'), Key::Char('G'));
    assert(!(type_applies(d[13].0, EditorMode::Visual { start }) && d[13].1 == seq![Key::Char('g')]));
    lemma_single_keys_differ(Key::Char('g'), Key::Char('w'));
    assert(!(type_applies(d[14].0, EditorMode::Visual { start }) && d[14].1 == seq![Key::Char('g')]));
    lemma_single_keys_differ(Key::Char('g'), Key::Char('b'));
    assert(!(type_applies(d[15].0, EditorMode::Visual { start }) && d[15].1 == seq![Key::Char('g')]));
    assert(!(type_applies(d[16].0, EditorMode::Visual { start }) && d[16].1 == seq![Key::Char('g')]));
    assert(!(type_applies(d[17].0, EditorMode::Visual { start }) && d[17].1 == seq![Key::Char('g')]));
    assert(!(type_applies(d[18].0, EditorMode::Visual { start }) && d[18].1 == seq![Key::Char('g')]));
    lemma_single_keys_differ(Key::Char('g'), Key::Char('d'));
    assert(!(type_applies(d[19].0, EditorMode::Visual { start }) && d[19].1 == seq![Key::Char('g')]));
    lemma_single_keys_differ(Key::Char('g'), Key::Char('y'));
    assert(!(type_applies(d[20].0, EditorMode::Visual { start }) && d[20].1 == seq![Key::Char('g')]));
    assert forall|i: int| 0 <= i < d.len() implies !(type_applies(#[trigger] d[i].0, EditorMode::Visual { start }) && d[i].1 == seq![Key::Char('g')]) by {
        assert(0 <= i < 21);
    }
    lemma_lookup_none(d, EditorMode::Visual { start }, seq![Key::Char('g')]);
}

/// In normal mode, whatever bindings were registered before the editor's: `Ctrl-c` and
/// `Esc` stay in normal mode, `:` enters command mode, `i` and `a` insert before and after
/// the cursor, `v` starts a selection; `h`, `j`, `k`, `l` move left, down, up and right, `0`
/// and `$` to the start and end of the line, `gg` and `G` to the first and last line, `w`
/// and `b` to the next and back word; `dd` deletes the line, `yy` yanks it, `p` pastes;
/// `d`, `y` and `g` alone are bound to nothing new, waiting for the second key.
pub proof fn law_normal_mode_keys(b: Seq<(KeyConfigType, Seq<Key>, AppAction)>)
    ensures
        binding_lookup(b + default_keybindings(), EditorMode::Normal, seq![Key::Ctrl('c')]) == Some(AppAction::EditorAction(EditorAction::SetMode(EditorMode::Normal))),
        binding_lookup(b + default_keybindings(), EditorMode::Normal, seq![Key::Esc]) == Some(AppAction::EditorAction(EditorAction::SetMode(EditorMode::Normal))),
        binding_lookup(b + default_keybindings(), EditorMode::Normal, seq![Key::Char(':')]) == Some(AppAction::EditorAction(EditorAction::SetMode(EditorMode::Command))),
        binding_lookup(b + default_keybindings(), EditorMode::Normal, seq![Key::Char('i')]) == Some(AppAction::EditorAction(EditorAction::SetMode(EditorMode::Insert { append: false }))),
        binding_lookup(b + default_keybindings(), EditorMode::Normal, seq![Key::Char('a')]) == Some(AppAction::EditorAction(EditorAction::SetMode(EditorMode::Insert { append: true }))),
        binding_lookup(b + default_keybindings(), EditorMode::Normal, seq![Key::Char('v')]) == Some(AppAction::EditorAction(EditorAction::SetMode(EditorMode::Visual { start: UVec2 { x: 0, y: 0 } }))),
        binding_lookup(b + default_keybindings(), EditorMode::Normal, seq![Key::Char('h')]) == Some(AppAction::EditorAction(EditorAction::Buffer(EditorBufferAction::Cursor(EditorCursorAction::Left)))),
        binding_lookup(b + default_keybindings(), EditorMode::Normal, seq![Key::Char('j')]) == Some(AppAction::EditorAction(EditorAction::Buffer(EditorBufferAction::Cursor(EditorCursorAction::Down)))),
        binding_lookup(b + default_keybindings(), EditorMode::Normal, seq![Key::Char('k')]) == Some(AppAction::EditorAction(EditorAction::Buffer(EditorBufferAction::Cursor(EditorCursorAction::Up)))),
        binding_lookup(b + default_keybindings(), EditorMode::Normal, seq![Key::Char('l')]) == Some(AppAction::EditorAction(EditorAction::Buffer(EditorBufferAction::Cursor(EditorCursorAction::Right)))),
        binding_lookup(b + default_keybindings(), EditorMode::Normal, seq![Key::Char('0')]) == Some(AppAction::EditorAction(EditorAction::Buffer(EditorBufferAction::Cursor(EditorCursorAction::LineStart)))),
        binding_lookup(b + default_keybindings(), EditorMode::Normal, seq![Key::Char('$')]) == Some(AppAction::EditorAction(EditorAction::Buffer(EditorBufferAction::Cursor(EditorCursorAction::LineEnd)))),
        binding_lookup(b + default_keybindings(), EditorMode::Normal, seq![Key::Char('g'), Key::Char('g')]) == Some(AppAction::EditorAction(EditorAction::Buffer(EditorBufferAction::Cursor(EditorCursorAction::Top)))),
        binding_lookup(b + default_keybindings(), EditorMode::Normal, seq![Key::Char('G')]) == Some(AppAction::EditorAction(EditorAction::Buffer(EditorBufferAction::Cursor(EditorCursorAction::Bottom)))),
        binding_lookup(b + default_keybindings(), EditorMode::Normal, seq![Key::Char('w')]) == Some(AppAction::EditorAction(EditorAction::Buffer(EditorBufferAction::Cursor(EditorCursorAction::NextWord)))),
        binding_lookup(b + default_keybindings(), EditorMode::Normal, seq![Key::Char('b')]) == Some(AppAction::EditorAction(EditorAction::Buffer(EditorBufferAction::Cursor(EditorCursorAction::BackWord)))),
        binding_lookup(b + default_keybindings(), EditorMode::Normal, seq![Key::Char('d'), Key::Char('d')]) == Some(AppAction::EditorAction(EditorAction::Buffer(EditorBufferAction::Edit(EditorEditAction::DeleteLine)))),
        binding_lookup(b + default_keybindings(), EditorMode::Normal, seq![Key::Char('y'), Key::Char('y')]) == Some(AppAction::EditorAction(EditorAction::Buffer(EditorBufferAction::Edit(EditorEditAction::YankLine)))),
        binding_lookup(b + default_keybindings(), EditorMode::Normal, seq![Key::Char('p')]) == Some(AppAction::EditorAction(EditorAction::Buffer(EditorBufferAction::Edit(EditorEditAction::Paste)))),
        binding_lookup(b + default_keybindings(), EditorMode::Normal, seq![Key::Char('d')]) == binding_lookup(b, EditorMode::Normal, seq![Key::Char('d')]),
        binding_lookup(b + default_keybindings(), EditorMode::Normal, seq![Key::Char('y')]) == binding_lookup(b, EditorMode::Normal, seq![Key::Char('y')]),
        binding_lookup(b + default_keybindings(), EditorMode::Normal, seq![Key::Char('g')]) == binding_lookup(b, EditorMode::Normal, seq![Key::Char('g')]),
{
    lemma_normal_mode_d_waits();
    lemma_lookup_append(b, default_keybindings(), EditorMode::Normal, seq![Key::Char('d')]);
    lemma_normal_mode_y_waits();
    lemma_lookup_append(b, default_keybindings(), EditorMode::Normal, seq![Key::Char('y')]);
    lemma_normal_mode_g_waits();
    lemma_lookup_append(b, default_keybindings(), EditorMode::Normal, seq![Key::Char('g')]);
    lemma_normal_mode_default_1();
    lemma_lookup_append(b, default_keybindings(), EditorMode::Normal, seq![Key::Ctrl('c')]);
    lemma_normal_mode_default_2();
    lemma_lookup_append(b, default_keybindings(), EditorMode::Normal, seq![Key::Esc]);
    lemma_normal_mode_default_3();
    lemma_lookup_append(b, default_keybindings(), EditorMode::Normal, seq![Key::Char(':')]);
    lemma_normal_mode_default_4();
    lemma_lookup_append(b, default_keybindings(), EditorMode::Normal, seq![Key::Char('i')]);
    lemma_normal_mode_default_5();
    lemma_lookup_append(b, default_keybindings(), EditorMode::Normal, seq![Key::Char('a')]);
    lemma_normal_mode_default_6();
    lemma_lookup_append(b, default_keybindings(), EditorMode::Normal, seq![Key::Char('v')]);
    lemma_normal_mode_default_7();
    lemma_lookup_append(b, default_keybindings(), EditorMode::Normal, seq![Key::Char('h')]);
    lemma_normal_mode_default_8();
    lemma_lookup_append(b, default_keybindings(), EditorMode::Normal, seq![Key::Char('j')]);
    lemma_normal_mode_default_9();
    lemma_lookup_append(b, default_keybindings(), EditorMode::Normal, seq![Key::Char('k')]);
    lemma_normal_mode_default_10();
    lemma_lookup_append(b, default_keybindings(), EditorMode::Normal, seq![Key::Char('l')]);
    lemma_normal_mode_default_11();
    lemma_lookup_append(b, default_keybindings(), EditorMode::Normal, seq![Key::Char('0')]);
    lemma_normal_mode_default_12();
    lemma_lookup_append(b, default_keybindings(), EditorMode::Normal, seq![Key::Char('$')]);
    lemma_normal_mode_default_13();
    lemma_lookup_append(b, default_keybindings(), EditorMode::Normal, seq![Key::Char('g'), Key::Char('g')]);
    lemma_normal_mode_default_14();
    lemma_lookup_append(b, default_keybindings(), EditorMode::Normal, seq![Key::Char('G')]);
    lemma_normal_mode_default_15();
    lemma_lookup_append(b, default_keybindings(), EditorMode::Normal, seq![Key::Char('w')]);
    lemma_normal_mode_default_16();
    lemma_lookup_append(b, default_keybindings(), EditorMode::Normal, seq![Key::Char('b')]);
    lemma_normal_mode_default_17();
    lemma_lookup_append(b, default_keybindings(), EditorMode::Normal, seq![Key::Char('d'), Key::Char('d')]);
    lemma_normal_mode_default_18();
    lemma_lookup_append(b, default_keybindings(), EditorMode::Normal, seq![Key::Char('y'), Key::Char('y')]);
    lemma_normal_mode_default_19();
    lemma_lookup_append(b, default_keybindings(), EditorMode::Normal, seq![Key::Char('p')]);
}

/// In visual mode, whatever bindings were registered before the editor's: `Ctrl-c` and
/// `Esc` return to normal mode; the cursor keys move as in normal mode; `d` deletes the
/// selection and `y` yanks it; `g` alone waits for the second key.
pub proof fn law_visual_mode_keys(b: Seq<(KeyConfigType, Seq<Key>, AppAction)>, start: UVec2)
    ensures
        binding_lookup(b + default_keybindings(), EditorMode::Visual { start }, seq![Key::Ctrl('c')]) == Some(AppAction::EditorAction(EditorAction::SetMode(EditorMode::Normal))),
        binding_lookup(b + default_keybindings(), EditorMode::Visual { start }, seq![Key::Esc]) == Some(AppAction::EditorAction(EditorAction::SetMode(EditorMode::Normal))),
        binding_lookup(b + default_keybindings(), EditorMode::Visual { start }, seq![Key::Char('h')]) == Some(AppAction::EditorAction(EditorAction::Buffer(EditorBufferAction::Cursor(EditorCursorAction::Left)))),
        binding_lookup(b + default_keybindings(), EditorMode::Visual { start }, seq![Key::Char('j')]) == Some(AppAction::EditorAction(EditorAction::Buffer(EditorBufferAction::Cursor(EditorCursorAction::Down)))),
        binding_lookup(b + default_keybindings(), EditorMode::Visual { start }, seq![Key::Char('k')]) == Some(AppAction::EditorAction(EditorAction::Buffer(EditorBufferAction::Cursor(EditorCursorAction::Up)))),
        binding_lookup(b + default_keybindings(), EditorMode::Visual { start }, seq![Key::Char('l')]) == Some(AppAction::EditorAction(EditorAction::Buffer(EditorBufferAction::Cursor(EditorCursorAction::Right)))),
        binding_lookup(b + default_keybindings(), EditorMode::Visual { start }, seq![Key::Char('0')]) == Some(AppAction::EditorAction(EditorAction::Buffer(EditorBufferAction::Cursor(EditorCursorAction::LineStart)))),
        binding_lookup(b + default_keybindings(), EditorMode::Visual { start }, seq![Key::Char('$')]) == Some(AppAction::EditorAction(EditorAction::Buffer(EditorBufferAction::Cursor(EditorCursorAction::LineEnd)))),
        binding_lookup(b + default_keybindings(), EditorMode::Visual { start }, seq![Key::Char('g'), Key::Char('g')]) == Some(AppAction::EditorAction(EditorAction::Buffer(EditorBufferAction::Cursor(EditorCursorAction::Top)))),
        binding_lookup(b + default_keybindings(), EditorMode::Visual { start }, seq![Key::Char('G')]) == Some(AppAction::EditorAction(EditorAction::Buffer(EditorBufferAction::Cursor(EditorCursorAction::Bottom)))),
        binding_lookup(b + default_keybindings(), EditorMode::Visual { start }, seq![Key::Char('w')]) == Some(AppAction::EditorAction(EditorAction::Buffer(EditorBufferAction::Cursor(EditorCursorAction::NextWord)))),
        binding_lookup(b + default_keybindings(), EditorMode::Visual { start }, seq![Key::Char('b')]) == Some(AppAction::EditorAction(EditorAction::Buffer(EditorBufferAction::Cursor(EditorCursorAction::BackWord)))),
        binding_lookup(b + default_keybindings(), EditorMode::Visual { start }, seq![Key::Char('d')]) == Some(AppAction::EditorAction(EditorAction::Buffer(EditorBufferAction::Edit(EditorEditAction::DeleteSelection)))),
        binding_lookup(b + default_keybindings(), EditorMode::Visual { start }, seq![Key::Char('y')]) == Some(AppAction::EditorAction(EditorAction::Buffer(EditorBufferAction::Edit(EditorEditAction::YankSelection)))),
        binding_lookup(b + default_keybindings(), EditorMode::Visual { start }, seq![Key::Char('g')]) == binding_lookup(b, EditorMode::Visual { start }, seq![Key::Char('g')]),
{
    lemma_visual_mode_g_waits(start);
    lemma_lookup_append(b, default_keybindings(), EditorMode::Visual { start }, seq![Key::Char('g')]);
    lemma_visual_mode_default_1(start);
    lemma_lookup_append(b, default_keybindings(), EditorMode::Visual { start }, seq![Key::Ctrl('c')]);
    lemma_visual_mode_default_2(start);
    lemma_lookup_append(b, default_keybindings(), EditorMode::Visual { start }, seq![Key::Esc]);
    lemma_visual_mode_default_3(start);
    lemma_lookup_append(b, default_keybindings(), EditorMode::Visual { start }, seq![Key::Char('h')]);
    lemma_visual_mode_default_4(start);
    lemma_lookup_append(b, default_keybindings(), EditorMode::Visual { start }, seq![Key::Char('j')]);
    lemma_visual_mode_default_5(start);
    lemma_lookup_append(b, default_keybindings(), EditorMode::Visual { start }, seq![Key::Char('k')]);
    lemma_visual_mode_default_6(start);
    lemma_lookup_append(b, default_keybindings(), EditorMode::Visual { start }, seq![Key::Char('l')]);
    lemma_visual_mode_default_7(start);
    lemma_lookup_append(b, default_keybindings(), EditorMode::Visual { start }, seq![Key::Char('0')]);
    lemma_visual_mode_default_8(start);
    lemma_lookup_append(b, default_keybindings(), EditorMode::Visual { start }, seq![Key::Char('$')]);
    lemma_visual_mode_default_9(start);
    lemma_lookup_append(b, default_keybindings(), EditorMode::Visual { start }, seq![Key::Char('g'), Key::Char('g')]);
    lemma_visual_mode_default_10(start);
    lemma_lookup_append(b, default_keybindings(), EditorMode::Visual { start }, seq![Key::Char('G')]);
    lemma_visual_mode_default_11(start);
    lemma_lookup_append(b, default_keybindings(), EditorMode::Visual { start }, seq![Key::Char('w')]);
    lemma_visual_mode_default_12(start);
    lemma_lookup_append(b, default_keybindings(), EditorMode::Visual { start }, seq![Key::Char('b')]);
    lemma_visual_mode_default_13(start);
    lemma_lookup_append(b, default_keybindings(), EditorMode::Visual { start }, seq![Key::Char('d')]);
    lemma_visual_mode_default_14(start);
    lemma_lookup_append(b, default_keybindings(), EditorMode::Visual { start }, seq![Key::Char('y')]);
}

/// In insert mode, whatever bindings were registered before the editor's: `Ctrl-c` and
/// `Esc` return to normal mode, and a typed character is bound to nothing new.
pub proof fn law_insert_mode_keys(b: Seq<(KeyConfigType, Seq<Key>, AppAction)>, append: bool, c: char)
    ensures
        binding_lookup(b + default_keybindings(), EditorMode::Insert { append }, seq![Key::Ctrl('c')]) == Some(AppAction::EditorAction(EditorAction::SetMode(EditorMode::Normal))),
        binding_lookup(b + default_keybindings(), EditorMode::Insert { append }, seq![Key::Esc]) == Some(AppAction::EditorAction(EditorAction::SetMode(EditorMode::Normal))),
        binding_lookup(b + default_keybindings(), EditorMode::Insert { append }, seq![Key::Char(c)]) == binding_lookup(b, EditorMode::Insert { append }, seq![Key::Char(c)]),
{
    lemma_insert_mode_default_1(append);
    lemma_lookup_append(b, default_keybindings(), EditorMode::Insert { append }, seq![Key::Ctrl('c')]);
    lemma_insert_mode_default_2(append);
    lemma_lookup_append(b, default_keybindings(), EditorMode::Insert { append }, seq![Key::Esc]);
    lemma_insert_mode_typing_free(append, c);
    lemma_lookup_append(b, default_keybindings(), EditorMode::Insert { append }, seq![Key::Char(c)]);
}

/// In command mode, whatever bindings were registered before the editor's: `Ctrl-c` and
/// `Esc` return to normal mode, and a typed character is bound to nothing new.
pub proof fn law_command_mode_keys(b: Seq<(KeyConfigType, Seq<Key>, AppAction)>, c: char)
    ensures
        binding_lookup(b + default_keybindings(), EditorMode::Command, seq![Key::Ctrl('c')]) == Some(AppAction::EditorAction(EditorAction::SetMode(EditorMode::Normal))),
        binding_lookup(b + default_keybindings(), EditorMode::Command, seq![Key::Esc]) == Some(AppAction::EditorAction(EditorAction::SetMode(EditorMode::Normal))),
        binding_lookup(b + default_keybindings(), EditorMode::Command, seq![Key::Char(c)]) == binding_lookup(b, EditorMode::Command, seq![Key::Char(c)]),
{
    lemma_command_mode_default_1();
    lemma_lookup_append(b, default_keybindings(), EditorMode::Command, seq![Key::Ctrl('c')]);
    lemma_command_mode_default_2();
    lemma_lookup_append(b, default_keybindings(), EditorMode::Command, seq![Key::Esc]);
    lemma_command_mode_typing_free(c);
    lemma_lookup_append(b, default_keybindings(), EditorMode::Command, seq![Key::Char(c)]);
}


/// Looking a name up in commands `c` followed by commands `s`: what `s` runs for it, and
/// else what `c` does.
pub proof fn lemma_command_lookup_append(c: Seq<(Seq<char>, Seq<AppAction>)>, s: Seq<(Seq<char>, Seq<AppAction>)>, name: Seq<char>)
    ensures
        command_lookup(c + s, name) == match command_lookup(s, name) {
            Some(a) => Some(a),
            None => command_lookup(c, name),
        },
    decreases s.len(),
{
    if s.len() == 0 {
        assert(c + s =~= c);
    } else {
        assert((c + s).last() == s.last());
        assert((c + s).drop_last() =~= c + s.drop_last());
        lemma_command_lookup_append(c, s.drop_last(), name);
    }
}

/// The editor's commands, whatever commands were registered before them: `q` quits, `w`
/// saves, and `x` and `wq` save and then quit.
pub proof fn law_editor_commands(c: Seq<(Seq<char>, Seq<AppAction>)>)
    ensures
        command_lookup(c + default_commands(), "q"@) == Some(seq![AppAction::Quit]),
        command_lookup(c + default_commands(), "w"@)
            == Some(seq![AppAction::EditorAction(EditorAction::Buffer(EditorBufferAction::Save))]),
        command_lookup(c + default_commands(), "x"@)
            == Some(seq![AppAction::EditorAction(EditorAction::Buffer(EditorBufferAction::Save)), AppAction::Quit]),
        command_lookup(c + default_commands(), "wq"@)
            == Some(seq![AppAction::EditorAction(EditorAction::Buffer(EditorBufferAction::Save)), AppAction::Quit]),
{
    reveal_strlit("q");
    reveal_strlit("w");
    reveal_strlit("x");
    reveal_strlit("wq");
    assert("q"@[0] != "w"@[0]);
    assert("q"@[0] != "x"@[0]);
    assert("w"@[0] != "x"@[0]);
    let d = default_commands();
    assert(d.len() == 4 && d[3].0 == "wq"@ && d[2].0 == "x"@ && d[1].0 == "w"@ && d[0].0 == "q"@);
    assert(d.drop_last().drop_last() =~= seq![d[0], d[1]]);
    assert(command_lookup(d, "w"@) == Some(d[1].1)) by {
        reveal_with_fuel(command_lookup, 5);
        assert("x"@ != "w"@);
        assert("wq"@ != "w"@);
    }
    reveal_with_fuel(command_lookup, 5);
    lemma_command_lookup_append(c, default_commands(), "q"@);
    lemma_command_lookup_append(c, default_commands(), "w"@);
    lemma_command_lookup_append(c, default_commands(), "x"@);
    lemma_command_lookup_append(c, default_commands(), "wq"@);
}
} // verus!
