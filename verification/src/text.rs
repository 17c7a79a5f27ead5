//! The text pane: one string, shown as a label.

use vstd::prelude::*;

verus! {

/// The content of the text pane.
pub struct Text {
    data: String,
}

impl View for Text {
    type V = Seq<char>;

    /// The characters that the pane shows.
    closed spec fn view(&self) -> Seq<char> {
        self.data@
    }
}

impl Text {
    /// A pane that shows `data`.
    pub fn new(data: String) -> (text: Self)
        ensures
            text@ == data@,
    {
        Self { data }
    }

    /// Replaces what the pane shows by `data`.
    pub fn print(&mut self, data: String)
        ensures
            final(self)@ == data@,
    {
        self.data = data;
    }

    /// What the pane shows.
    pub fn as_str(&self) -> (shown: &str)
        ensures
            shown@ == self@,
    {
        self.data.as_str()
    }
}

} // verus!
