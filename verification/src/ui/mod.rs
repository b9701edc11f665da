//! Terminal user interfaces: the keys they react to and the state machines
//! of the small interactive programs.

pub mod key;
pub mod gauge;
pub mod tabs;
pub mod popup;
pub mod side_window;
pub mod issue_form;
pub mod repo_list;
