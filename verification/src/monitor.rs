//! The clipboard monitor's decisions. Each poll of the clipboard is an
//! event; the monitor answers with the clip to store, if any.
use crate::digest::content_hash_spec;
use crate::history::ClipEntry;
use vstd::prelude::*;

verus! {

/// Whether a poll that read `read` stores a clip, given the last stored text.
pub open spec fn stores(last: Seq<char>, read: Option<Seq<char>>) -> bool {
    match read {
        Some(text) => text != last && text.len() > 0,
        None => false,
    }
}

/// The last stored text after a poll that read `read`.
pub open spec fn next_last(last: Seq<char>, read: Option<Seq<char>>) -> Seq<char> {
    if stores(last, read) {
        read.unwrap()
    } else {
        last
    }
}

/// The text that a poll read, if it read one.
pub open spec fn text_of(read: Option<String>) -> Option<Seq<char>> {
    match read {
        Some(t) => Some(t@),
        None => None,
    }
}

/// Watches the clipboard text and stores each new non-empty text once.
pub struct ClipboardMonitor {
    last_content: String,
}

impl View for ClipboardMonitor {
    type V = Seq<char>;

    /// The last stored text.
    closed spec fn view(&self) -> Seq<char> {
        self.last_content@
    }
}

impl ClipboardMonitor {
    /// A monitor that has stored nothing yet.
    pub fn new() -> (monitor: ClipboardMonitor)
        ensures
            monitor@ == Seq::<char>::empty(),
    {
        ClipboardMonitor { last_content: String::new() }
    }

    /// Handles one poll: `read` is the clipboard text, or `None` when it
    /// could not be read. Returns the clip to store when the text is not
    /// empty and differs from the last stored text.
    pub fn observe(&mut self, read: Option<String>) -> (stored: Option<ClipEntry>)
        ensures
            stored is Some <==> stores(old(self)@, text_of(read)),
            stored matches Some(e) ==> e@.content == read.unwrap()@ && e@.content_hash
                == content_hash_spec(read.unwrap()@),
            final(self)@ == next_last(old(self)@, text_of(read)),
    {
        match read {
            Some(content) => {
                if content != self.last_content && !content.as_str().is_empty() {
                    let entry = ClipEntry::new(content.clone());
                    self.last_content = content;
                    Some(entry)
                } else {
                    None
                }
            },
            None => None,
        }
    }
}

/// Law: polling the same text again right after it was stored stores
/// nothing.
pub proof fn law_unchanged_clipboard_stores_once(last: Seq<char>, text: Seq<char>)
    requires
        stores(last, Some(text)),
    ensures
        !stores(next_last(last, Some(text)), Some(text)),
        next_last(next_last(last, Some(text)), Some(text)) == text,
{
}

/// Law: an empty text and an unreadable clipboard are never stored and
/// leave the monitor as it was.
pub proof fn law_nothing_stored_without_text(last: Seq<char>)
    ensures
        !stores(last, None),
        !stores(last, Some(Seq::<char>::empty())),
        next_last(last, None) == last,
        next_last(last, Some(Seq::<char>::empty())) == last,
{
}

/// Law: a poll stores exactly the texts that are not empty and differ from
/// the last stored text, and then remembers that text.
pub proof fn law_new_text_is_stored(last: Seq<char>, text: Seq<char>)
    ensures
        stores(last, Some(text)) <==> (text != last && text.len() > 0),
        (text != last && text.len() > 0) ==> next_last(last, Some(text)) == text,
        !(text != last && text.len() > 0) ==> next_last(last, Some(text)) == last,
{
}

} // verus!
