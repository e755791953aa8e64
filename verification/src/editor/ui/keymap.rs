use vstd::prelude::*;

use crate::key::Key;
use crate::mode::EditorMode;

verus! {

/// The map that bindings registered in order make: a later one replaces an earlier one
/// for the same mode and key.
pub open spec fn keymap_of(entries: Seq<((EditorMode, Key), Seq<char>)>) -> Map<(EditorMode, Key), Seq<char>>
    decreases entries.len(),
{
    if entries.len() == 0 {
        Map::empty()
    } else {
        keymap_of(entries.drop_last()).insert(entries.last().0, entries.last().1)
    }
}

/// The names of the actions bound to keys in each mode.
pub struct Keymap {
    entries: Vec<((EditorMode, Key), String)>,
}

impl View for Keymap {
    type V = Map<(EditorMode, Key), Seq<char>>;

    closed spec fn view(&self) -> Map<(EditorMode, Key), Seq<char>> {
        keymap_of(Seq::new(self.entries@.len(), |i: int| (self.entries@[i].0, self.entries@[i].1@)))
    }
}

impl Keymap {
    /// An empty keymap.
    pub fn new() -> (r: Self)
        ensures
            r@ == Map::<(EditorMode, Key), Seq<char>>::empty(),
    {
        Keymap { entries: Vec::new() }
    }

    /// Binds `key` to the action named `action` in normal mode.
    pub fn nmap(&mut self, key: Key, action: &str)
        ensures
            final(self)@ == old(self)@.insert((EditorMode::Normal, key), action@),
    {
        let ghost old_entries = Seq::new(self.entries@.len(), |i: int| (self.entries@[i].0, self.entries@[i].1@));
        self.entries.push(((EditorMode::Normal, key), String::from_str(action)));
        let ghost new_entries = Seq::new(self.entries@.len(), |i: int| (self.entries@[i].0, self.entries@[i].1@));
        assert(new_entries.drop_last() =~= old_entries);
    }

    /// The default bindings: `h`, `j`, `k`, `l` move the cursor.
    pub fn set_default_keymap(&mut self)
        ensures
            final(self)@ == old(self)@.insert((EditorMode::Normal, Key::Char('h')), "cursor.left"@).insert(
                (EditorMode::Normal, Key::Char('j')),
                "cursor.down"@,
            ).insert((EditorMode::Normal, Key::Char('k')), "cursor.up"@).insert(
                (EditorMode::Normal, Key::Char('l')),
                "cursor.right"@,
            ),
    {
        self.nmap(Key::Char('h'), "cursor.left");
        self.nmap(Key::Char('j'), "cursor.down");
        self.nmap(Key::Char('k'), "cursor.up");
        self.nmap(Key::Char('l'), "cursor.right");
    }

    /// The name of the action bound to `key` in `mode`, if any.
    pub fn get(&self, mode: EditorMode, key: Key) -> (r: Option<String>)
        ensures
            match r {
                Some(s) => self@.contains_key((mode, key)) && self@[(mode, key)] == s@,
                None => !self@.contains_key((mode, key)),
            },
    {
        let ghost es = Seq::new(self.entries@.len(), |i: int| (self.entries@[i].0, self.entries@[i].1@));
        let mut i = self.entries.len();
        assert(es.take(i as int) =~= es);
        while i > 0
            invariant
                i <= self.entries@.len(),
                es == Seq::new(self.entries@.len(), |i: int| (self.entries@[i].0, self.entries@[i].1@)),
                forall|k: int| i <= k < es.len() ==> es[k].0 != (mode, key),
                keymap_of(es).contains_key((mode, key)) == keymap_of(es.take(i as int)).contains_key((mode, key)),
                keymap_of(es).contains_key((mode, key)) ==> keymap_of(es)[(mode, key)] == keymap_of(es.take(i as int))[(mode, key)],
            decreases i,
        {
            let e = &self.entries[i - 1];
            assert(es.take(i as int).drop_last() =~= es.take(i - 1));
            if e.0.0 == mode && e.0.1 == key {
                return Some(e.1.clone());
            }
            i = i - 1;
        }
        assert(es.take(0) =~= Seq::<((EditorMode, Key), Seq<char>)>::empty());
        None
    }
}

} // verus!
