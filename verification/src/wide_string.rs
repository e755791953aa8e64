use vstd::prelude::*;

use crate::text::{str_chars, string_push};

verus! {

/// A string held as a sequence of characters, so that positions count characters.
#[derive(Debug)]
pub struct WideString {
    value: Vec<char>,
}

impl View for WideString {
    type V = Seq<char>;

    closed spec fn view(&self) -> Seq<char> {
        self.value@
    }
}

impl Clone for WideString {
    fn clone(&self) -> (r: Self)
        ensures
            r@ == self@,
    {
        WideString { value: self.value.clone() }
    }
}

impl WideString {
    /// The empty string.
    pub fn new() -> (r: Self)
        ensures
            r@ == Seq::<char>::empty(),
    {
        WideString { value: Vec::new() }
    }

    /// A wide string holding the characters of `chars`.
    pub fn from_chars(chars: Vec<char>) -> (r: Self)
        ensures
            r@ == chars@,
    {
        WideString { value: chars }
    }

    /// A wide string holding the characters of `s`.
    pub fn from_str(s: &str) -> (r: Self)
        ensures
            r@ == s@,
    {
        WideString { value: str_chars(s) }
    }

    /// A wide string holding the characters of `s`.
    pub fn from_string(s: String) -> (r: Self)
        ensures
            r@ == s@,
    {
        WideString { value: str_chars(s.as_str()) }
    }

    /// Inserts `ch` so that it stands at `index`.
    pub fn insert(&mut self, index: usize, ch: char)
        requires
            index <= old(self)@.len(),
        ensures
            final(self)@ == old(self)@.insert(index as int, ch),
    {
        self.value.insert(index, ch);
    }

    /// Inserts the characters of `string` so that the first stands at `index`.
    pub fn insert_str(&mut self, index: usize, string: String)
        requires
            index <= old(self)@.len(),
        ensures
            final(self)@ == old(self)@.take(index as int) + string@ + old(self)@.skip(index as int),
    {
        let chars = str_chars(string.as_str());
        let ghost orig = self@;
        let mut offset: usize = 0;
        while offset < chars.len()
            invariant
                0 <= offset <= chars@.len(),
                index <= orig.len(),
                chars@ == string@,
                self@ == orig.take(index as int) + chars@.take(offset as int) + orig.skip(index as int),
            decreases chars@.len() - offset,
        {
            let ch = chars[offset];
            let _n = self.value.len();
            assert(index + offset <= _n);
            self.value.insert(index + offset, ch);
            assert(chars@.take(offset + 1) =~= chars@.take(offset as int).push(ch));
            assert(self@ =~= orig.take(index as int) + chars@.take(offset + 1) + orig.skip(index as int));
            offset = offset + 1;
        }
        assert(chars@.take(chars@.len() as int) =~= chars@);
    }

    /// The characters from `start` up to, not including, `end`.
    pub fn get_range(&self, start: usize, end: usize) -> (r: WideString)
        requires
            start <= end <= self@.len(),
        ensures
            r@ == self@.subrange(start as int, end as int),
    {
        let mut out: Vec<char> = Vec::new();
        let mut i = start;
        while i < end
            invariant
                start <= i <= end <= self@.len(),
                out@ == self@.subrange(start as int, i as int),
            decreases end - i,
        {
            out.push(self.value[i]);
            assert(out@ =~= self@.subrange(start as int, i + 1));
            i = i + 1;
        }
        WideString { value: out }
    }

    /// Removes and returns the character at `index`.
    pub fn remove(&mut self, index: usize) -> (r: char)
        requires
            index < old(self)@.len(),
        ensures
            r == old(self)@[index as int],
            final(self)@ == old(self)@.remove(index as int),
    {
        self.value.remove(index)
    }

    /// The number of characters.
    pub fn len(&self) -> (r: usize)
        ensures
            r == self@.len(),
    {
        self.value.len()
    }

    /// The character at `index`.
    pub fn get_char(&self, index: usize) -> (r: char)
        requires
            index < self@.len(),
        ensures
            r == self@[index as int],
    {
        self.value[index]
    }

    /// The characters before `index` and those from `index` on.
    pub fn split_at(&self, index: usize) -> (r: (WideString, WideString))
        requires
            index <= self@.len(),
        ensures
            r.0@ == self@.take(index as int),
            r.1@ == self@.skip(index as int),
    {
        let a = self.get_range(0, index);
        let b = self.get_range(index, self.len());
        assert(a@ =~= self@.take(index as int));
        assert(b@ =~= self@.skip(index as int));
        (a, b)
    }

    /// The characters of `self` followed by those of `other`.
    pub fn concat(&self, other: &WideString) -> (r: WideString)
        ensures
            r@ == self@ + other@,
    {
        let mut out = self.value.clone();
        let mut i: usize = 0;
        while i < other.value.len()
            invariant
                0 <= i <= other@.len(),
                out@ == self@ + other@.take(i as int),
            decreases other@.len() - i,
        {
            out.push(other.value[i]);
            assert(out@ =~= self@ + other@.take(i + 1));
            i = i + 1;
        }
        assert(other@.take(other@.len() as int) =~= other@);
        WideString { value: out }
    }

    /// The characters as a `String`.
    pub fn to_string(&self) -> (r: String)
        ensures
            r@ == self@,
    {
        let mut s = String::new();
        let mut i: usize = 0;
        while i < self.value.len()
            invariant
                0 <= i <= self@.len(),
                s@ == self@.take(i as int),
            decreases self@.len() - i,
        {
            string_push(&mut s, self.value[i]);
            assert(s@ =~= self@.take(i + 1));
            i = i + 1;
        }
        assert(self@.take(self@.len() as int) =~= self@);
        s
    }
}

/// Removing the character just inserted at `i` gives back the string.
pub proof fn law_remove_undoes_insert(s: Seq<char>, i: int, c: char)
    requires
        0 <= i <= s.len(),
    ensures
        s.insert(i, c).remove(i) == s,
{
    assert(s.insert(i, c).remove(i) =~= s);
}

/// The two parts of a string split at `i`, put back together, give the string.
pub proof fn law_concat_undoes_split(s: Seq<char>, i: int)
    requires
        0 <= i <= s.len(),
    ensures
        s.take(i) + s.skip(i) == s,
{
    assert(s.take(i) + s.skip(i) =~= s);
}

} // verus!
