//! A list of repositories loaded from a server, with an error popup.

use vstd::prelude::*;

verus! {

/// A JSON document as parsed by serde_json; carried through unread.
#[verifier::external_type_specification]
#[verifier::external_body]
pub struct ExJsonValue(serde_json::Value);

/// What the list reacts to.
pub enum Message {
    ReposLoaded(serde_json::Value),
    Error(String),
    Exit,
}

/// The list's state.
pub struct App {
    pub gitea_data: Option<serde_json::Value>,
    pub error: Option<String>,
    pub exit: bool,
}

impl Default for App {
    fn default() -> (r: Self)
        ensures
            r.gitea_data is None,
            r.error is None,
            !r.exit,
    {
        App { gitea_data: None, error: None, exit: false }
    }
}

impl App {
    /// Loaded data replaces the shown data and clears any error; an error
    /// is shown until data loads; exit asks to leave.
    pub fn update(&mut self, message: Message)
        ensures
            match message {
                Message::ReposLoaded(data) => final(self).gitea_data == Some(data)
                    && final(self).error is None && final(self).exit == old(self).exit,
                Message::Error(err) => final(self).error == Some(err) && final(self).gitea_data
                    == old(self).gitea_data && final(self).exit == old(self).exit,
                Message::Exit => final(self).exit && final(self).gitea_data == old(self).gitea_data
                    && final(self).error == old(self).error,
            },
    {
        match message {
            Message::ReposLoaded(repo_data) => {
                self.gitea_data = Some(repo_data);
                self.error = None;
            },
            Message::Error(err) => self.error = Some(err),
            Message::Exit => self.exit = true,
        }
    }
}

} // verus!
