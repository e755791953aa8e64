use vstd::prelude::*;

use crate::editor::buf::buf::{BufferView, EditorBuffer};

verus! {

/// The buffers held by a manager, and which is current.
pub struct ManagerView {
    pub buffers: Seq<EditorBuffer>,
    pub current: Option<usize>,
}

/// The buffers among `opened` that did open, in order.
pub open spec fn opened_buffers(opened: Seq<Option<EditorBuffer>>) -> Seq<EditorBuffer>
    decreases opened.len(),
{
    if opened.len() == 0 {
        seq![]
    } else {
        match opened.last() {
            Some(b) => opened_buffers(opened.drop_last()).push(b),
            None => opened_buffers(opened.drop_last()),
        }
    }
}

/// Whether the current index, if any, names a buffer.
pub open spec fn current_ok(m: ManagerView) -> bool {
    m.current matches Some(i) ==> i < m.buffers.len()
}

/// An action on the set of open buffers.
#[derive(Debug)]
pub enum EditorBufferManagerAction {
    /// Open the file at the path.
    Open(String),
    CloseCurrent,
    Close(usize),
}

/// The open buffers and the index of the current one.
pub struct EditorBufferManager {
    buffers: Vec<EditorBuffer>,
    current_index: Option<usize>,
}

impl View for EditorBufferManager {
    type V = ManagerView;

    closed spec fn view(&self) -> ManagerView {
        ManagerView { buffers: self.buffers@, current: self.current_index }
    }
}

impl EditorBufferManager {
    /// A manager of the buffers that opened, in order; the first is current.
    pub fn new(opened: Vec<Option<EditorBuffer>>) -> (r: Self)
        ensures
            r@.buffers == opened_buffers(opened@),
            r@.current == (if opened_buffers(opened@).len() == 0 { None } else { Some(0usize) }),
    {
        let mut buffers: Vec<EditorBuffer> = Vec::new();
        let ghost all = opened@;
        let mut opened = opened;
        let mut rest: Vec<Option<EditorBuffer>> = Vec::new();
        // Take the results from the back, then put the opened ones in order.
        while opened.len() > 0
            invariant
                all == opened@ + rest@.reverse(),
                opened_buffers(all) == opened_buffers(opened@) + opened_buffers(rest@.reverse()),
            decreases opened@.len(),
        {
            let ghost before = opened@;
            let ghost rest_before = rest@;
            let item = opened.pop().unwrap();
            rest.push(item);
            proof {
                assert(rest@.reverse() =~= seq![item] + rest_before.reverse());
                assert(before =~= opened@.push(item));
                lemma_opened_concat(opened@, seq![item], rest_before.reverse());
                lemma_opened_concat(before, seq![], rest_before.reverse());
                assert(before + Seq::<Option<EditorBuffer>>::empty() =~= before);
                assert(opened@ + seq![item] =~= before);
                assert(opened@ + (seq![item] + rest_before.reverse()) =~= before + rest_before.reverse());
            }
        }
        while rest.len() > 0
            invariant
                opened_buffers(all) == buffers@ + opened_buffers(rest@.reverse()),
            decreases rest@.len(),
        {
            let ghost rest_before = rest@;
            let item = rest.pop().unwrap();
            proof {
                assert(rest_before.reverse() =~= seq![item] + rest@.reverse());
                lemma_opened_concat(seq![item], rest@.reverse(), seq![]);
                assert(seq![item] + rest@.reverse() + Seq::<Option<EditorBuffer>>::empty() =~= seq![item] + rest@.reverse());
                assert(rest@.reverse() + Seq::<Option<EditorBuffer>>::empty() =~= rest@.reverse());
                assert(opened_buffers(seq![item]) == (match item { Some(b) => seq![b], None => Seq::<EditorBuffer>::empty() })) by {
                    assert(seq![item].drop_last() =~= Seq::<Option<EditorBuffer>>::empty());
                    assert(opened_buffers(Seq::<Option<EditorBuffer>>::empty()) == Seq::<EditorBuffer>::empty());
                    assert(seq![item].last() == item);
                    if let Some(b) = item {
                        assert(Seq::<EditorBuffer>::empty().push(b) =~= seq![b]);
                    }
                }
            }
            match item {
                Some(b) => {
                    let ghost bv = buffers@;
                    buffers.push(b);
                    assert(buffers@ + opened_buffers(rest@.reverse()) =~= bv + (seq![b] + opened_buffers(rest@.reverse())));
                },
                None => {
                    assert(Seq::<EditorBuffer>::empty() + opened_buffers(rest@.reverse()) =~= opened_buffers(rest@.reverse()));
                },
            }
        }
        assert(rest@.reverse() =~= Seq::<Option<EditorBuffer>>::empty());
        assert(buffers@ + Seq::<EditorBuffer>::empty() =~= buffers@);
        let current_index = if buffers.len() == 0 { None } else { Some(0) };
        EditorBufferManager { buffers, current_index }
    }

    /// Makes buffer `index` current, if there is one.
    pub fn set_current(&mut self, index: usize)
        ensures
            final(self)@.buffers == old(self)@.buffers,
            final(self)@.current == (if index < old(self)@.buffers.len() { Some(index) } else { old(self)@.current }),
    {
        if self.buffers.len() > index {
            self.current_index = Some(index);
        }
    }

    /// Adds `buffer` and makes it current.
    pub fn open(&mut self, buffer: EditorBuffer)
        ensures
            final(self)@.buffers == old(self)@.buffers.push(buffer),
            final(self)@.current == Some((old(self)@.buffers.len()) as usize),
    {
        self.buffers.push(buffer);
        let n = self.buffers.len();
        self.set_current(n - 1);
    }

    /// Carries out `action`. Closing is done here; opening needs the file read, so the path
    /// is given back for the caller to read the file and `open` the buffer.
    pub fn on_action(&mut self, action: EditorBufferManagerAction) -> (r: Option<String>)
        requires
            action matches EditorBufferManagerAction::Close(i) ==> i < old(self)@.buffers.len(),
            action is CloseCurrent ==> current_ok(old(self)@),
        ensures
            match action {
                EditorBufferManagerAction::Open(path) => r == Some(path) && final(self)@ == old(self)@,
                EditorBufferManagerAction::CloseCurrent => r is None && final(self)@ == (ManagerView {
                    buffers: match old(self)@.current {
                        Some(i) => old(self)@.buffers.remove(i as int),
                        None => old(self)@.buffers,
                    },
                    current: old(self)@.current,
                }),
                EditorBufferManagerAction::Close(i) => r is None && final(self)@ == (ManagerView {
                    buffers: old(self)@.buffers.remove(i as int),
                    current: old(self)@.current,
                }),
            },
    {
        match action {
            EditorBufferManagerAction::Open(path) => Some(path),
            EditorBufferManagerAction::CloseCurrent => {
                self.close_current();
                None
            },
            EditorBufferManagerAction::Close(index) => {
                self.close(index);
                None
            },
        }
    }

    /// Removes buffer `index`; the current index stays as it is.
    pub fn close(&mut self, index: usize)
        requires
            index < old(self)@.buffers.len(),
        ensures
            final(self)@.buffers == old(self)@.buffers.remove(index as int),
            final(self)@.current == old(self)@.current,
    {
        self.buffers.remove(index);
    }

    /// Removes the current buffer, if there is one; the current index stays as it is.
    pub fn close_current(&mut self)
        requires
            current_ok(old(self)@),
        ensures
            final(self)@.buffers == (match old(self)@.current {
                Some(i) => old(self)@.buffers.remove(i as int),
                None => old(self)@.buffers,
            }),
            final(self)@.current == old(self)@.current,
    {
        if let Some(index) = self.current_index {
            self.close(index);
        }
    }

    /// All buffers.
    pub fn get_all(&self) -> (r: &Vec<EditorBuffer>)
        ensures
            r@ == self@.buffers,
    {
        &self.buffers
    }

    /// The current buffer, if any.
    pub fn get_current(&self) -> (r: Option<&EditorBuffer>)
        requires
            current_ok(self@),
        ensures
            match self@.current {
                Some(i) => r == Some(&self@.buffers[i as int]),
                None => r is None,
            },
    {
        match self.current_index {
            None => None,
            Some(index) => Some(&self.buffers[index]),
        }
    }

    /// The index of the current buffer, if any.
    pub fn get_current_index(&self) -> (r: Option<usize>)
        ensures
            r == self@.current,
    {
        self.current_index
    }

    /// Buffer `index`, to change it.
    pub fn get_mut(&mut self, index: usize) -> (r: &mut EditorBuffer)
        requires
            index < old(self)@.buffers.len(),
        ensures
            *r == old(self)@.buffers[index as int],
            final(self)@.buffers == old(self)@.buffers.update(index as int, *final(r)),
            final(self)@.current == old(self)@.current,
    {
        &mut self.buffers[index]
    }
}

/// The buffers that opened among two runs of results are those of each run.
pub proof fn lemma_opened_concat(a: Seq<Option<EditorBuffer>>, b: Seq<Option<EditorBuffer>>, c: Seq<Option<EditorBuffer>>)
    ensures
        opened_buffers(a + b + c) == opened_buffers(a) + opened_buffers(b + c),
    decreases b.len() + c.len(),
{
    if c.len() > 0 {
        lemma_opened_concat(a, b, c.drop_last());
        assert((a + b + c).drop_last() =~= a + b + c.drop_last());
        assert((b + c).drop_last() =~= b + c.drop_last());
    } else if b.len() > 0 {
        lemma_opened_concat(a, b.drop_last(), seq![]);
        assert((a + b + c).drop_last() =~= a + b.drop_last() + Seq::<Option<EditorBuffer>>::empty());
        assert((b + c).drop_last() =~= b.drop_last() + Seq::<Option<EditorBuffer>>::empty());
        assert(b.drop_last() + Seq::<Option<EditorBuffer>>::empty() =~= b.drop_last());
        assert(b + c =~= b);
    } else {
        assert(a + b + c =~= a);
        assert(b + c =~= Seq::<Option<EditorBuffer>>::empty());
        assert(opened_buffers(a) + Seq::<EditorBuffer>::empty() =~= opened_buffers(a));
    }
}

/// A buffer just opened is the current one.
pub proof fn law_open_makes_current(m: ManagerView, b: EditorBuffer)
    requires
        m.buffers.len() < usize::MAX,
    ensures
        ({
            let n = ManagerView { buffers: m.buffers.push(b), current: Some(m.buffers.len() as usize) };
            current_ok(n) && n.buffers[n.current->Some_0 as int] == b
        }),
{
}

} // verus!
