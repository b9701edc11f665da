//! A two-field form (title and body) that files an issue: the editing modes,
//! the field focus, the check before submitting, and the popups shown.

use vstd::prelude::*;
use vstd::string::*;
use crate::ui::key::{Key, KeyPress};

verus! {

/// An issue to file.
pub struct Issue {
    pub title: String,
    pub body: String,
}

impl Issue {
    /// An issue with the given title and body.
    pub fn new(title: String, body: String) -> (r: Self)
        ensures
            r.title == title,
            r.body == body,
    {
        Self { title, body }
    }
}

/// The field that has the focus.
#[derive(Debug, Clone, Copy, PartialEq, Eq, Structural)]
pub enum ActiveField {
    Title,
    Body,
}

impl ActiveField {
    /// Moves the focus to the other field.
    pub fn toggle(&mut self)
        ensures
            *final(self) == (match *old(self) {
                ActiveField::Title => ActiveField::Body,
                ActiveField::Body => ActiveField::Title,
            }),
    {
        *self = match self {
            Self::Title => Self::Body,
            Self::Body => Self::Title,
        }
    }
}

/// Whether keys move around the form or edit the focused field.
#[derive(Debug, Clone, Copy, PartialEq, Eq, Structural)]
pub enum Mode {
    Normal,
    Edit,
}

/// A message shown over the form until the next event.
pub enum Popup {
    Success(String),
    Error(String),
}

impl Popup {
    /// The text of the popup.
    pub fn text(&self) -> (r: String)
        ensures
            r@ == (match self {
                Popup::Success(msg) => "Success: "@ + msg@,
                Popup::Error(msg) => "Error: "@ + msg@,
            }),
    {
        match self {
            Popup::Success(msg) => {
                let mut s = String::from_str("Success: ");
                s.append(msg.as_str());
                s
            },
            Popup::Error(msg) => {
                let mut s = String::from_str("Error: ");
                s.append(msg.as_str());
                s
            },
        }
    }
}

/// What the form reacts to.
pub enum Message {
    Key(KeyPress),
    IssueCreated(String),
    Error(String),
}

/// What the caller must do after the form has handled a message.
pub enum Action {
    /// Nothing more.
    Nothing,
    /// Give this key to the text of the focused field.
    Input(ActiveField, KeyPress),
    /// File this issue and empty both fields.
    Submit(Issue),
}

/// The lines of a field joined with `sep` between consecutive lines.
pub open spec fn join_lines(lines: Seq<Seq<char>>, sep: Seq<char>) -> Seq<char>
    decreases lines.len(),
{
    if lines.len() == 0 {
        Seq::empty()
    } else if lines.len() == 1 {
        lines[0]
    } else {
        join_lines(lines.drop_last(), sep) + sep + lines.last()
    }
}

/// The text of a field from its lines: joined by line breaks when the field
/// holds several lines, run together when it holds one.
pub fn field_value(lines: &Vec<String>, multiline: bool) -> (r: String)
    ensures
        r@ == join_lines(
            lines@.map_values(|l: String| l@),
            if multiline { "\n"@ } else { ""@ },
        ),
{
    let separator: &str = if multiline {
        "\n"
    } else {
        ""
    };
    let ghost views = lines@.map_values(|l: String| l@);
    let mut res = String::new();
    for i in 0..lines.len()
        invariant
            views == lines@.map_values(|l: String| l@),
            separator@ == (if multiline { "\n"@ } else { ""@ }),
            res@ == join_lines(views.take(i as int), separator@),
    {
        if i != 0 {
            res.append(separator);
            res.append(lines[i].as_str());
            assert(views.take((i + 1) as int).drop_last() =~= views.take(i as int));
        } else {
            res.append(lines[i].as_str());
            assert(res@ =~= join_lines(views.take(1), separator@));
        }
    }
    assert(views.take(lines@.len() as int) =~= views);
    res
}

/// The text of the error popup shown when a field is empty.
pub open spec fn empty_field_error() -> Seq<char> {
    "One or more required fields were empty"@
}

/// The issue with the given title and body, or an error when either is empty.
pub fn build_issue(title: String, body: String) -> (r: Result<Issue, String>)
    ensures
        (title@.len() == 0 || body@.len() == 0) ==> (r matches Err(e) && e@ == empty_field_error()),
        (title@.len() > 0 && body@.len() > 0) ==> (r matches Ok(issue) && issue.title == title
            && issue.body == body),
{
    if title.as_str().is_empty() || body.as_str().is_empty() {
        return Err(String::from_str("One or more required fields were empty"));
    }
    Ok(Issue::new(title, body))
}

/// The other field.
pub open spec fn other_field(f: ActiveField) -> ActiveField {
    match f {
        ActiveField::Title => ActiveField::Body,
        ActiveField::Body => ActiveField::Title,
    }
}

/// The effect of a key in edit mode: Esc or Ctrl-C leaves edit mode, Enter
/// on the one-line title does nothing, and any other key goes to the
/// focused field.
pub open spec fn edit_key_effect(before: App, after: App, key: KeyPress, r: Action) -> bool {
    &&& after.active_field == before.active_field
    &&& after.exit == before.exit
    &&& after.popup is None
    &&& if (key.code == Key::Char('c') && key.ctrl) || key.code == Key::Esc {
        after.mode == Mode::Normal && r is Nothing
    } else if key.code == Key::Enter && before.active_field == ActiveField::Title {
        after.mode == Mode::Edit && r is Nothing
    } else {
        after.mode == Mode::Edit && r == Action::Input(before.active_field, key)
    }
}

/// The effect of a key in normal mode, given the texts of the two fields.
pub open spec fn normal_key_effect(
    before: App,
    after: App,
    key: KeyPress,
    title: String,
    body: String,
    r: Action,
) -> bool {
    let k = key.code;
    if k == Key::Tab {
        after == App { active_field: other_field(before.active_field), popup: None, ..before }
            && r is Nothing
    } else if k == Key::Char('i') {
        after == App { mode: Mode::Edit, popup: None, ..before } && r is Nothing
    } else if k == Key::Char('j') {
        after == App { active_field: ActiveField::Body, popup: None, ..before } && r is Nothing
    } else if k == Key::Char('k') {
        after == App { active_field: ActiveField::Title, popup: None, ..before } && r is Nothing
    } else if k == Key::Enter {
        &&& after.active_field == before.active_field
        &&& after.mode == before.mode
        &&& after.exit == before.exit
        &&& if title@.len() == 0 || body@.len() == 0 {
            after.popup matches Some(Popup::Error(m)) && m@ == empty_field_error() && r is Nothing
        } else {
            after.popup is None && r == Action::Submit(Issue { title, body })
        }
    } else if k == Key::Esc {
        after == App { exit: true, popup: None, ..before } && r is Nothing
    } else {
        after == App { popup: None, ..before } && r is Nothing
    }
}

/// The effect of a key on the form in its current mode.
pub open spec fn key_effect(
    before: App,
    after: App,
    key: KeyPress,
    title: String,
    body: String,
    r: Action,
) -> bool {
    match before.mode {
        Mode::Edit => edit_key_effect(before, after, key, r),
        Mode::Normal => normal_key_effect(before, after, key, title, body, r),
    }
}

/// In edit mode only Esc and Ctrl-C leave for normal mode; Enter on the
/// one-line title is ignored; every other key, a plain `c` among them, goes
/// to the focused field and the form stays in edit mode. The focus never
/// moves while editing.
pub proof fn lemma_edit_mode_keys(
    before: App,
    after: App,
    key: KeyPress,
    title: String,
    body: String,
    r: Action,
)
    requires
        before.mode == Mode::Edit,
        key_effect(before, after, key, title, body, r),
    ensures
        (key.code == Key::Esc || (key.code == Key::Char('c') && key.ctrl)) ==> after.mode
            == Mode::Normal && r is Nothing,
        key.code == Key::Enter && before.active_field == ActiveField::Title ==> after.mode
            == Mode::Edit && r is Nothing,
        key.code != Key::Esc && !(key.code == Key::Char('c') && key.ctrl) && !(key.code
            == Key::Enter && before.active_field == ActiveField::Title) ==> after.mode == Mode::Edit
            && r == Action::Input(before.active_field, key),
        after.active_field == before.active_field,
        after.exit == before.exit,
{
}

/// In normal mode Enter files the issue exactly when both texts are
/// non-empty, and otherwise shows the empty-field error; Tab moves the focus
/// to the other field; `i` starts editing; Esc asks to exit.
pub proof fn lemma_normal_mode_keys(
    before: App,
    after: App,
    key: KeyPress,
    title: String,
    body: String,
    r: Action,
)
    requires
        before.mode == Mode::Normal,
        key_effect(before, after, key, title, body, r),
    ensures
        key.code == Key::Enter && title@.len() > 0 && body@.len() > 0 ==> r == Action::Submit(
            Issue { title, body },
        ),
        key.code == Key::Enter && (title@.len() == 0 || body@.len() == 0) ==> r is Nothing
            && after.popup is Some,
        key.code == Key::Tab ==> after.active_field != before.active_field && after.mode
            == Mode::Normal && r is Nothing,
        key.code == Key::Char('i') ==> after.mode == Mode::Edit && after.active_field
            == before.active_field && r is Nothing,
        key.code == Key::Esc ==> after.exit && r is Nothing,
        key.code != Key::Esc ==> after.exit == before.exit,
        key.code != Key::Char('i') ==> after.mode == Mode::Normal,
{
}

/// The form's state.
pub struct App {
    pub active_field: ActiveField,
    pub mode: Mode,
    pub popup: Option<Popup>,
    pub exit: bool,
}

impl App {
    /// A form in normal mode with the title focused.
    pub fn new() -> (r: Self)
        ensures
            r.active_field == ActiveField::Title,
            r.mode == Mode::Normal,
            r.popup is None,
            !r.exit,
    {
        App { active_field: ActiveField::Title, mode: Mode::Normal, popup: None, exit: false }
    }

    /// Handles a message. Any popup is dismissed first. In edit mode, Esc or
    /// Ctrl-C returns to normal mode and other keys go to the focused field
    /// (Enter is ignored by the one-line title). In normal mode, Tab switches
    /// fields, `i` starts editing, `j` and `k` focus the body and the title,
    /// Enter submits the current field texts `title` and `body`, and Esc
    /// asks to exit.
    pub fn update(&mut self, message: Message, title: String, body: String) -> (r: Action)
        ensures
            match message {
                Message::IssueCreated(msg) => final(self).popup matches Some(Popup::Success(m))
                    && m == msg && r is Nothing && final(self).mode == old(self).mode
                    && final(self).active_field == old(self).active_field
                    && final(self).exit == old(self).exit,
                Message::Error(err) => final(self).popup matches Some(Popup::Error(m)) && m == err
                    && r is Nothing && final(self).mode == old(self).mode
                    && final(self).active_field == old(self).active_field
                    && final(self).exit == old(self).exit,
                Message::Key(key) => key_effect(*old(self), *final(self), key, title, body, r),
            },
    {
        self.popup = None;
        match message {
            Message::IssueCreated(msg) => {
                self.popup = Some(Popup::Success(msg));
                Action::Nothing
            },
            Message::Error(err) => {
                self.popup = Some(Popup::Error(err));
                Action::Nothing
            },
            Message::Key(key) => match self.mode {
                Mode::Edit => self.update_edit(key),
                Mode::Normal => self.update_normal(key, title, body),
            },
        }
    }

    fn update_edit(&mut self, key: KeyPress) -> (r: Action)
        requires
            old(self).mode == Mode::Edit,
            old(self).popup is None,
        ensures
            edit_key_effect(App { popup: None, ..*old(self) }, *final(self), key, r),
    {
        if (key.code == Key::Char('c') && key.ctrl) || key.code == Key::Esc {
            self.mode = Mode::Normal;
            Action::Nothing
        } else if key.code == Key::Enter && self.active_field == ActiveField::Title {
            Action::Nothing
        } else {
            Action::Input(self.active_field, key)
        }
    }

    fn update_normal(&mut self, key: KeyPress, title: String, body: String) -> (r: Action)
        requires
            old(self).mode == Mode::Normal,
            old(self).popup is None,
        ensures
            normal_key_effect(*old(self), *final(self), key, title, body, r),
    {
        match key.code {
            Key::Tab => {
                self.active_field.toggle();
                Action::Nothing
            },
            Key::Char('i') => {
                self.mode = Mode::Edit;
                Action::Nothing
            },
            Key::Char('j') => {
                self.active_field = ActiveField::Body;
                Action::Nothing
            },
            Key::Char('k') => {
                self.active_field = ActiveField::Title;
                Action::Nothing
            },
            Key::Enter => match build_issue(title, body) {
                Ok(issue) => Action::Submit(issue),
                Err(msg) => {
                    self.popup = Some(Popup::Error(msg));
                    Action::Nothing
                },
            },
            Key::Esc => {
                self.exit = true;
                Action::Nothing
            },
            _ => Action::Nothing,
        }
    }
}

} // verus!
