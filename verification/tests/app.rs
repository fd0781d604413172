use tiling_exceptions::app::{
    Action, App, ListRow, ListView, ManageView, Message, PopupId, Views, WindowView,
};
use tiling_exceptions::rules::ExceptionRule;
use tiling_exceptions::toplevel::ToplevelInfo;

fn toplevel(title: &str, app_id: &str) -> ToplevelInfo {
    ToplevelInfo { title: title.to_string(), app_id: app_id.to_string() }
}

fn two_windows() -> Vec<ToplevelInfo> {
    vec![toplevel("Firefox", "org.mozilla.firefox"), toplevel("zsh", "com.system76.CosmicTerm")]
}

fn app_with_two_windows() -> App {
    let mut app = App::default();
    app.set_toplevels(Some(two_windows()));
    app
}

#[test]
fn default_view_is_main() {
    assert_eq!(Views::default(), Views::Main);
}

#[test]
fn init_starts_empty_and_asks_for_a_refresh() {
    let (app, first) = App::init();
    assert_eq!(app.popup(), None);
    assert_eq!(app.active_view(), Views::Main);
    assert!(app.apps_info().is_empty());
    assert_eq!(first, Message::RefreshToplevels);
}

#[test]
fn refresh_message_asks_for_the_windows() {
    let mut app = app_with_two_windows();
    let action = app.update(Message::RefreshToplevels, PopupId(9));
    assert_eq!(action, Action::RefreshToplevels);
    assert_eq!(app.apps_info(), &two_windows());
    assert_eq!(app.popup(), None);
}

#[test]
fn set_toplevels_replaces_the_snapshot() {
    let mut app = app_with_two_windows();
    app.update(Message::TogglePopup, PopupId(2));
    app.update(Message::ChangeView(1), PopupId(0));
    assert_eq!(app.active_view(), Views::Manage(1));
    app.set_toplevels(Some(vec![toplevel("only", "one")]));
    assert_eq!(app.apps_info(), &vec![toplevel("only", "one")]);
    assert_eq!(app.active_view(), Views::Main);
    assert_eq!(app.popup(), Some(PopupId(2)));
    app.set_toplevels(None);
    assert!(app.apps_info().is_empty());
    assert_eq!(app.active_view(), Views::Main);
}

#[test]
fn toggle_opens_then_closes_the_popup() {
    let mut app = app_with_two_windows();
    let opened = app.update(Message::TogglePopup, PopupId(7));
    assert_eq!(opened, Action::OpenPopup(PopupId(7)));
    assert_eq!(app.popup(), Some(PopupId(7)));
    app.update(Message::ChangeView(1), PopupId(8));
    assert_eq!(app.active_view(), Views::Manage(1));
    let closed = app.update(Message::TogglePopup, PopupId(8));
    assert_eq!(closed, Action::DestroyPopup(PopupId(7)));
    assert_eq!(app.popup(), None);
    assert_eq!(app.active_view(), Views::Main);
    assert_eq!(app.apps_info(), &two_windows());
}

#[test]
fn popup_closed_forgets_only_the_open_popup() {
    let mut app = App::default();
    app.update(Message::TogglePopup, PopupId(3));
    let other = app.update(Message::PopupClosed(PopupId(4)), PopupId(5));
    assert_eq!(other, Action::Idle);
    assert_eq!(app.popup(), Some(PopupId(3)));
    let same = app.update(Message::PopupClosed(PopupId(3)), PopupId(5));
    assert_eq!(same, Action::Idle);
    assert_eq!(app.popup(), None);
    let none = app.update(Message::PopupClosed(PopupId(3)), PopupId(5));
    assert_eq!(none, Action::Idle);
    assert_eq!(app.popup(), None);
}

#[test]
fn change_view_switches_between_list_and_details() {
    let mut app = app_with_two_windows();
    assert_eq!(app.update(Message::ChangeView(1), PopupId(0)), Action::Idle);
    assert_eq!(app.active_view(), Views::Manage(1));
    assert_eq!(app.update(Message::ChangeView(0), PopupId(0)), Action::Idle);
    assert_eq!(app.active_view(), Views::Main);
}

#[test]
fn back_to_main_shows_the_list() {
    let mut app = app_with_two_windows();
    app.update(Message::ChangeView(0), PopupId(0));
    assert_eq!(app.update(Message::BackToMain, PopupId(0)), Action::Idle);
    assert_eq!(app.active_view(), Views::Main);
}

#[test]
fn add_messages_ask_for_an_append() {
    let mut app = app_with_two_windows();
    let by_title = app.update(Message::AddWithTitle("Firefox".to_string()), PopupId(0));
    assert_eq!(
        by_title,
        Action::AppendRule(ExceptionRule {
            app_id: ".*".to_string(),
            title: "Firefox".to_string(),
            enabled: true,
        })
    );
    let by_id = app.update(Message::AddWithAPPID("org.mozilla.firefox".to_string()), PopupId(0));
    assert_eq!(
        by_id,
        Action::AppendRule(ExceptionRule {
            app_id: "org.mozilla.firefox".to_string(),
            title: String::new(),
            enabled: true,
        })
    );
    assert_eq!(app.active_view(), Views::Main);
    assert_eq!(app.apps_info(), &two_windows());
}

#[test]
fn on_close_requested_reports_the_popup() {
    let app = App::default();
    assert_eq!(app.on_close_requested(PopupId(11)), Some(Message::PopupClosed(PopupId(11))));
}

#[test]
fn list_view_has_one_row_per_window() {
    let app = app_with_two_windows();
    let list = app.list_view();
    assert_eq!(
        list,
        ListView {
            refresh: Message::RefreshToplevels,
            rows: vec![
                ListRow { on_press: Message::ChangeView(0), title: "Firefox".to_string() },
                ListRow { on_press: Message::ChangeView(1), title: "zsh".to_string() },
            ],
        }
    );
}

#[test]
fn list_view_of_no_windows_has_no_rows() {
    let list = App::default().list_view();
    assert_eq!(list.refresh, Message::RefreshToplevels);
    assert!(list.rows.is_empty());
}

#[test]
fn manage_view_carries_the_chosen_window() {
    let app = app_with_two_windows();
    let details = app.manage_view(1);
    assert_eq!(
        details,
        ManageView {
            title: "zsh".to_string(),
            app_id: "com.system76.CosmicTerm".to_string(),
            back: Message::BackToMain,
            add_with_title: Message::AddWithTitle("zsh".to_string()),
            add_with_app_id: Message::AddWithAPPID("com.system76.CosmicTerm".to_string()),
        }
    );
}

#[test]
fn view_window_follows_the_active_view() {
    let mut app = app_with_two_windows();
    assert_eq!(app.view_window(PopupId(0)), WindowView::List(app.list_view()));
    app.update(Message::ChangeView(0), PopupId(0));
    assert_eq!(app.view_window(PopupId(0)), WindowView::Manage(app.manage_view(0)));
}

#[test]
fn details_of_a_window_outside_the_snapshot_are_not_chosen() {
    let mut app = app_with_two_windows();
    assert_eq!(app.update(Message::ChangeView(2), PopupId(0)), Action::Idle);
    assert_eq!(app.active_view(), Views::Main);
    assert_eq!(app.view_window(PopupId(0)), WindowView::List(app.list_view()));
    let mut empty = App::default();
    empty.update(Message::ChangeView(0), PopupId(0));
    assert_eq!(empty.active_view(), Views::Main);
}

#[test]
fn refresh_to_fewer_windows_shows_the_list() {
    let mut app = app_with_two_windows();
    app.update(Message::ChangeView(1), PopupId(0));
    assert_eq!(app.active_view(), Views::Manage(1));
    app.set_toplevels(Some(vec![toplevel("only", "one")]));
    assert_eq!(app.active_view(), Views::Main);
    let view = app.view_window(PopupId(0));
    assert_eq!(view, WindowView::List(app.list_view()));
    app.update(Message::ChangeView(0), PopupId(0));
    app.set_toplevels(Some(Vec::new()));
    assert_eq!(app.active_view(), Views::Main);
    assert_eq!(app.view_window(PopupId(0)), WindowView::List(app.list_view()));
}
