//! The selected node: kept in memory and in a one-line file.
//!
//! Selecting a node sets the memory at once and yields the text to write
//! to the file. Reading returns the memory if it holds a node, and
//! otherwise the file's text, trimmed, which then fills the memory.
use crate::supervisor::opt_view;
use vstd::prelude::*;

verus! {

/// Whether `c` has the Unicode White_Space property.
pub open spec fn is_white_space(c: char) -> bool {
    ('\u{9}' <= c && c <= '\u{d}') || c == ' ' || c == '\u{85}' || c == '\u{a0}' || c == '\u{1680}'
        || ('\u{2000}' <= c && c <= '\u{200a}') || c == '\u{2028}' || c == '\u{2029}'
        || c == '\u{202f}' || c == '\u{205f}' || c == '\u{3000}'
}

/// `s` without its leading white space.
pub open spec fn trim_start(s: Seq<char>) -> Seq<char>
    decreases s.len(),
{
    if s.len() > 0 && is_white_space(s[0]) {
        trim_start(s.drop_first())
    } else {
        s
    }
}

/// `s` without its trailing white space.
pub open spec fn trim_end(s: Seq<char>) -> Seq<char>
    decreases s.len(),
{
    if s.len() > 0 && is_white_space(s.last()) {
        trim_end(s.drop_last())
    } else {
        s
    }
}

/// `s` without leading or trailing white space.
pub open spec fn trimmed(s: Seq<char>) -> Seq<char> {
    trim_end(trim_start(s))
}

/// Relies on str::trim: removes leading and trailing characters that have
/// the White_Space property.
#[verifier::external_body]
fn trim(s: &str) -> (r: &str)
    ensures
        r@ == trimmed(s@),
{
    s.trim()
}

/// The in-memory half of the selection.
pub struct SelectionStore {
    selected: Option<String>,
}

impl View for SelectionStore {
    type V = Option<Seq<char>>;

    closed spec fn view(&self) -> Option<Seq<char>> {
        opt_view(self.selected)
    }
}

/// What a read of the selection returns, and the memory after it, given the
/// memory before and the file's text (`None` where it could not be read).
pub open spec fn resolved(memory: Option<Seq<char>>, file_text: Option<Seq<char>>) -> (Option<Seq<char>>, Option<Seq<char>>) {
    match memory {
        Some(node) => (Some(node), memory),
        None => match file_text {
            Some(text) => if trimmed(text).len() == 0 {
                (None, None)
            } else {
                (Some(trimmed(text)), Some(trimmed(text)))
            },
            None => (None, None),
        },
    }
}

impl SelectionStore {
    /// A store with nothing in memory, as after a restart.
    pub fn new() -> (r: Self)
        ensures
            r@ is None,
    {
        SelectionStore { selected: None }
    }

    /// Whether a read must consult the file.
    pub fn needs_file(&self) -> (r: bool)
        ensures
            r == self@ is None,
    {
        self.selected.is_none()
    }
}

/// Selects `node_file` and returns the text to write to the file. The
/// memory holds the node even where that write fails.
pub fn select_node(store: &mut SelectionStore, node_file: &str) -> (text: String)
    ensures
        final(store)@ == Some(node_file@),
        text@ == node_file@,
{
    store.selected = Some(String::from_str(node_file));
    String::from_str(node_file)
}

/// The selected node: the memory's if it holds one; otherwise the file's
/// text, trimmed, where that is not empty, which is then kept in memory.
/// `file_text` is consulted only where the memory is empty.
pub fn get_selected_node(store: &mut SelectionStore, file_text: Option<&str>) -> (r: Option<String>)
    ensures
        (opt_view(r), final(store)@) == resolved(old(store)@, match file_text {
            Some(t) => Some(t@),
            None => None,
        }),
{
    match &store.selected {
        Some(node) => {
            return Some(node.clone());
        },
        None => {},
    }
    match file_text {
        Some(text) => {
            let node = trim(text);
            if node.is_empty() {
                None
            } else {
                store.selected = Some(String::from_str(node));
                Some(String::from_str(node))
            }
        },
        None => None,
    }
}

/// A node whose name has no white space at either end, once selected and
/// written, is what a store started afresh reads back from the file.
pub proof fn lemma_selection_survives_restart(node: Seq<char>)
    requires
        node.len() > 0,
        !is_white_space(node[0]),
        !is_white_space(node.last()),
    ensures
        resolved(None, Some(node)) == (Some(node), Some(node)),
{
    assert(trim_start(node) == node);
    assert(trim_end(node) == node);
}

} // verus!
