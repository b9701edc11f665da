use rs1553_net::ui::gauge;
use rs1553_net::ui::issue_form::{self, build_issue, field_value, Action, ActiveField, Mode, Popup};
use rs1553_net::ui::key::{modifier_labels, Key, KeyPress};
use rs1553_net::ui::popup;
use rs1553_net::ui::repo_list;
use rs1553_net::ui::side_window;
use rs1553_net::ui::tabs::{self, tab_text};

#[test]
fn gauge_counts_up_to_100() {
    let mut app = gauge::App::default();
    for _ in 0..14 {
        app.update(gauge::Message::Increment);
    }
    assert_eq!(app.count, 98);
    app.update(gauge::Message::Increment);
    assert_eq!(app.count, 100);
    app.update(gauge::Message::Increment);
    assert_eq!(app.count, 100);
    app.update(gauge::Message::Reset);
    assert_eq!(app.count, 0);
    assert!(!app.exit);
    app.update(gauge::Message::Exit);
    assert!(app.exit);
    assert_eq!(gauge::message_for_key(Key::Char('r')), gauge::Message::Reset);
    assert_eq!(gauge::message_for_key(Key::Enter), gauge::Message::Exit);
}

#[test]
fn tabs_wrap_around() {
    let mut app = tabs::App { titles: vec!["Tab 1", "Tab 2", "Tab 3"], selected_tab: 0 };
    app.previous_tab();
    assert_eq!(app.selected_tab, 2);
    app.next_tab();
    assert_eq!(app.selected_tab, 0);
    app.next_tab();
    app.next_tab();
    assert_eq!(app.selected_tab, 2);
    assert!(app.handle_key(Key::Right));
    assert_eq!(app.selected_tab, 0);
    assert!(app.handle_key(Key::Char('h')));
    assert_eq!(app.selected_tab, 2);
    assert!(app.handle_key(Key::Tab));
    assert_eq!(app.selected_tab, 2);
    assert!(!app.handle_key(Key::Char('q')));
    assert!(!app.handle_key(Key::Esc));
    assert_eq!(tab_text(1), "Second tab also has text");
}

#[test]
fn toggles() {
    let mut p = popup::App::default();
    p.toggle_popup();
    assert!(p.show_popup);
    p.toggle_popup();
    assert!(!p.show_popup);
    let mut s = side_window::App::new();
    s.toggle_side_window();
    assert!(s.show_side_win);
}

fn key(code: Key) -> issue_form::Message {
    issue_form::Message::Key(KeyPress { code, ctrl: false })
}

#[test]
fn issue_form_modes_and_focus() {
    let mut app = issue_form::App::new();
    let e = String::new;
    assert!(matches!(app.update(key(Key::Tab), e(), e()), Action::Nothing));
    assert_eq!(app.active_field, ActiveField::Body);
    app.update(key(Key::Char('k')), e(), e());
    assert_eq!(app.active_field, ActiveField::Title);
    app.update(key(Key::Char('i')), e(), e());
    assert_eq!(app.mode, Mode::Edit);
    match app.update(key(Key::Char('x')), e(), e()) {
        Action::Input(field, k) => {
            assert_eq!(field, ActiveField::Title);
            assert_eq!(k.code, Key::Char('x'));
        }
        _ => panic!("expected input"),
    }
    // Enter does nothing in the one-line title
    assert!(matches!(app.update(key(Key::Enter), e(), e()), Action::Nothing));
    app.update(
        issue_form::Message::Key(KeyPress { code: Key::Char('c'), ctrl: true }),
        e(),
        e(),
    );
    assert_eq!(app.mode, Mode::Normal);
    app.update(key(Key::Char('j')), e(), e());
    app.update(key(Key::Char('i')), e(), e());
    assert!(matches!(app.update(key(Key::Enter), e(), e()), Action::Input(ActiveField::Body, _)));
    app.update(key(Key::Esc), e(), e());
    assert_eq!(app.mode, Mode::Normal);
    app.update(key(Key::Esc), e(), e());
    assert!(app.exit);
}

#[test]
fn issue_form_submit() {
    let mut app = issue_form::App::new();
    let r = app.update(key(Key::Enter), String::from("title"), String::new());
    assert!(matches!(r, Action::Nothing));
    match &app.popup {
        Some(p) => assert_eq!(p.text(), "Error: One or more required fields were empty"),
        None => panic!("expected a popup"),
    }
    let r = app.update(key(Key::Enter), String::from("title"), String::from("body"));
    assert!(app.popup.is_none());
    match r {
        Action::Submit(issue) => {
            assert_eq!(issue.title, "title");
            assert_eq!(issue.body, "body");
        }
        _ => panic!("expected a submission"),
    }
    app.update(issue_form::Message::IssueCreated(String::from("done")), String::new(), String::new());
    assert!(matches!(&app.popup, Some(Popup::Success(m)) if m == "done"));
    app.update(issue_form::Message::Error(String::from("no")), String::new(), String::new());
    assert_eq!(app.popup.as_ref().unwrap().text(), "Error: no");
    assert!(build_issue(String::new(), String::from("b")).is_err());
}

#[test]
fn field_values_join_lines() {
    let lines = vec![String::from("a"), String::from("bc"), String::from("")];
    assert_eq!(field_value(&lines, true), "a\nbc\n");
    assert_eq!(field_value(&lines, false), "abc");
    assert_eq!(field_value(&Vec::new(), true), "");
}

#[test]
fn repo_list_updates() {
    let mut app = repo_list::App::default();
    app.update(repo_list::Message::Error(String::from("boom")));
    assert_eq!(app.error.as_deref(), Some("boom"));
    app.update(repo_list::Message::ReposLoaded(serde_json::Value::Null));
    assert!(app.error.is_none());
    assert_eq!(app.gitea_data, Some(serde_json::Value::Null));
    app.update(repo_list::Message::Exit);
    assert!(app.exit);
}

#[test]
fn active_field_toggles() {
    let mut f = ActiveField::Title;
    f.toggle();
    assert_eq!(f, ActiveField::Body);
    f.toggle();
    assert_eq!(f, ActiveField::Title);
    let i = issue_form::Issue::new(String::from("t"), String::from("b"));
    assert_eq!(i.title, "t");
}

#[test]
fn modifier_names_in_order() {
    assert_eq!(modifier_labels(true, false, true), vec!["CTRL", "Shift"]);
    assert_eq!(modifier_labels(false, true, false), vec!["Alt"]);
    assert!(modifier_labels(false, false, false).is_empty());
}
