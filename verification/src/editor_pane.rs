//! An editor pane: its tabs, path, breadcrumb symbols and buffer, with the
//! buffer-search toggle.

use crate::buffer::Buffer;
use crate::buffer::Symbol;
use crate::elements::Tab;
use vstd::prelude::*;

verus! {

/// One editor pane as displayed.
pub struct EditorPane {
    pub tabs: Vec<Tab>,
    pub path: String,
    pub symbols: Vec<Symbol>,
    pub buffer: Buffer,
    pub is_buffer_search_open: bool,
}

impl EditorPane {
    /// A pane over the given tabs, path, symbols and buffer, with the
    /// buffer search closed.
    pub fn new(tabs: Vec<Tab>, path: String, symbols: Vec<Symbol>, buffer: Buffer) -> (pane:
        EditorPane)
        ensures
            pane.tabs == tabs,
            pane.path@ == path@,
            pane.symbols == symbols,
            pane.buffer == buffer,
            !pane.is_buffer_search_open,
    {
        EditorPane { tabs, path, symbols, buffer, is_buffer_search_open: false }
    }

    /// Open the buffer search if it is closed, and close it if it is open;
    /// everything else stays.
    pub fn toggle_buffer_search(&mut self)
        ensures
            final(self).is_buffer_search_open == !old(self).is_buffer_search_open,
            final(self).tabs == old(self).tabs,
            final(self).path == old(self).path,
            final(self).symbols == old(self).symbols,
            final(self).buffer == old(self).buffer,
    {
        self.is_buffer_search_open = !self.is_buffer_search_open;
    }
}

} // verus!
