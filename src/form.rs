//! State of the caller-side request form: the prompt being typed and where
//! the generated result is to be written.

use vstd::prelude::*;
use vstd::string::StringExecFns;

verus! {

/// The prompt text as typed.
pub struct UserTextInput {
    pub content: String,
}

impl UserTextInput {
    pub fn new() -> (r: UserTextInput)
        ensures
            r.content@ == Seq::<char>::empty(),
    {
        UserTextInput { content: String::new() }
    }

    /// Replaces the prompt with the edited text.
    pub fn edit(&mut self, text: String)
        ensures
            final(self).content@ == text@,
    {
        self.content = text;
    }
}

/// The output file path as typed.
pub struct AgentTextInput {
    pub content: String,
}

impl AgentTextInput {
    pub fn new() -> (r: AgentTextInput)
        ensures
            r.content@ == Seq::<char>::empty(),
    {
        AgentTextInput { content: String::new() }
    }

    /// Replaces the path with the edited text.
    pub fn edit(&mut self, path: String)
        ensures
            final(self).content@ == path@,
    {
        self.content = path;
    }
}

/// The output location as a folder picked in a dialog and a file name typed
/// beside it.
pub struct AgentOutputContainer {
    pub filepath: String,
    pub separator_text: String,
    pub filename: String,
}

impl AgentOutputContainer {
    /// No folder picked yet, no file name.
    pub fn new() -> (r: AgentOutputContainer)
        ensures
            r.filepath@ == "Select a folder..."@,
            r.separator_text@ == "/"@,
            r.filename@ == Seq::<char>::empty(),
    {
        AgentOutputContainer {
            filepath: String::from_str("Select a folder..."),
            separator_text: String::from_str("/"),
            filename: String::new(),
        }
    }

    /// Records the folder picked in the dialog.
    pub fn select_folder(&mut self, folder: String)
        ensures
            final(self).filepath@ == folder@,
            final(self).separator_text@ == old(self).separator_text@,
            final(self).filename@ == old(self).filename@,
    {
        self.filepath = folder;
    }

    /// Records the edited file name.
    pub fn rename(&mut self, name: String)
        ensures
            final(self).filename@ == name@,
            final(self).filepath@ == old(self).filepath@,
            final(self).separator_text@ == old(self).separator_text@,
    {
        self.filename = name;
    }
}

} // verus!
