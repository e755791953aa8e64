use vstd::prelude::*;

verus! {

#[verifier::external_type_specification]
#[verifier::external_body]
pub struct ExClipboard(arboard::Clipboard);

#[verifier::external_type_specification]
#[verifier::external_body]
pub struct ExClipboardError(arboard::Error);

/// Opens the system clipboard.
/// Trusted: calls `arboard::Clipboard::new`; whether it succeeds depends on the system, so
/// nothing is stated of the result.
#[verifier::external_body]
fn clipboard_new() -> (r: Result<arboard::Clipboard, arboard::Error>) {
    arboard::Clipboard::new()
}

/// Places `text` on the clipboard.
/// Trusted: calls `arboard::Clipboard::set_text`; whether it succeeds depends on the
/// system, so nothing is stated of the result.
#[verifier::external_body]
fn clipboard_set_text(clipboard: &mut arboard::Clipboard, text: String) -> (r: Result<(), arboard::Error>) {
    clipboard.set_text(text)
}

/// Reads the text on the clipboard.
/// Trusted: calls `arboard::Clipboard::get_text`; what it returns is whatever the system
/// clipboard holds, so nothing is stated of the result.
#[verifier::external_body]
fn clipboard_get_text(clipboard: &mut arboard::Clipboard) -> (r: Result<String, arboard::Error>) {
    clipboard.get_text()
}

/// What the editor knows of its clipboard: whether there is a system clipboard to use, and
/// the texts it has placed there, in order, each one the system took.
pub struct ClipboardView {
    pub present: bool,
    pub sent: Seq<Seq<char>>,
}

/// The editor's access to the system clipboard, with a record of the texts placed on it.
pub struct EditorClipboard {
    system: Option<arboard::Clipboard>,
    sent: Ghost<Seq<Seq<char>>>,
}

impl View for EditorClipboard {
    type V = ClipboardView;

    closed spec fn view(&self) -> ClipboardView {
        ClipboardView { present: self.system is Some, sent: self.sent@ }
    }
}

impl EditorClipboard {
    /// The system clipboard, where the system offers one; otherwise none.
    pub fn open() -> (r: Self)
        ensures
            r@.sent == Seq::<Seq<char>>::empty(),
    {
        let system = match clipboard_new() {
            Ok(c) => Some(c),
            Err(_) => None,
        };
        EditorClipboard { system, sent: Ghost(Seq::empty()) }
    }

    /// No clipboard: every use of it fails.
    pub fn none() -> (r: Self)
        ensures
            !r@.present,
            r@.sent == Seq::<Seq<char>>::empty(),
    {
        EditorClipboard { system: None, sent: Ghost(Seq::empty()) }
    }

    /// Places `text` on the clipboard: `None` where there is no clipboard, else what the
    /// system answered. A text the system took is added to the record.
    pub fn set_text(&mut self, text: String) -> (r: Option<Result<(), arboard::Error>>)
        ensures
            r is None <==> !old(self)@.present,
            final(self)@.present == old(self)@.present,
            r matches Some(Ok(_)) ==> final(self)@.sent == old(self)@.sent.push(text@),
            !(r matches Some(Ok(_))) ==> final(self)@.sent == old(self)@.sent,
    {
        let ghost t = text@;
        match &mut self.system {
            Some(c) => {
                let r = clipboard_set_text(c, text);
                if r.is_ok() {
                    self.sent = Ghost(self.sent@.push(t));
                }
                Some(r)
            },
            None => None,
        }
    }

    /// The text on the clipboard: `None` where there is no clipboard, else what the system
    /// answered.
    pub fn get_text(&mut self) -> (r: Option<Result<String, arboard::Error>>)
        ensures
            r is None <==> !old(self)@.present,
            final(self)@ == old(self)@,
    {
        match &mut self.system {
            Some(c) => Some(clipboard_get_text(c)),
            None => None,
        }
    }
}

} // verus!
