//! The applet's state and how it answers each message.
//!
//! The state is a plain value. [`App::update`] maps a state and a message
//! to the next state and to the one thing the surrounding program has to
//! do; the views are plain descriptions of what to draw and of the
//! message each control sends.

use crate::rules::{app_id_rule, append, appended, match_any, new_rule, rule_views, title_rule};
use crate::rules::{ExceptionRule, RuleView, StoredRules};
use crate::toplevel::{refresh_toplevels, snapshot_of, toplevel_views};
use crate::toplevel::{ToplevelInfo, ToplevelView};
use vstd::prelude::*;

verus! {

/// The identity of a popup window, as the surrounding program numbers it.
#[derive(Clone, Copy, Debug, PartialEq, Eq, Structural)]
pub struct PopupId(pub u64);

/// What the popup shows.
#[derive(Clone, Copy, Debug, PartialEq, Eq, Structural)]
pub enum Views {
    /// The list of open windows.
    Main,
    /// The details of the window at this place in the snapshot.
    Manage(usize),
}

impl Default for Views {
    fn default() -> (view: Views)
        ensures
            view == Views::Main,
    {
        Views::Main
    }
}

/// What the user or the window system asked for.
#[derive(Clone, Debug, PartialEq, Eq)]
pub enum Message {
    TogglePopup,
    PopupClosed(PopupId),
    RefreshToplevels,
    ChangeView(usize),
    BackToMain,
    AddWithTitle(String),
    AddWithAPPID(String),
}

/// The mathematical value of a [`Message`].
pub enum MessageView {
    TogglePopup,
    PopupClosed(PopupId),
    RefreshToplevels,
    ChangeView(usize),
    BackToMain,
    AddWithTitle(Seq<char>),
    AddWithAPPID(Seq<char>),
}

impl View for Message {
    type V = MessageView;

    open spec fn view(&self) -> MessageView {
        match *self {
            Message::TogglePopup => MessageView::TogglePopup,
            Message::PopupClosed(id) => MessageView::PopupClosed(id),
            Message::RefreshToplevels => MessageView::RefreshToplevels,
            Message::ChangeView(index) => MessageView::ChangeView(index),
            Message::BackToMain => MessageView::BackToMain,
            Message::AddWithTitle(title) => MessageView::AddWithTitle(title@),
            Message::AddWithAPPID(app_id) => MessageView::AddWithAPPID(app_id@),
        }
    }
}

/// What the surrounding program has to do after an update.
#[derive(Clone, Debug, PartialEq, Eq)]
pub enum Action {
    /// Nothing.
    Idle,
    /// Close this popup.
    DestroyPopup(PopupId),
    /// Open a popup under this identity.
    OpenPopup(PopupId),
    /// Ask the compositor for its windows and hand the answer to
    /// [`App::set_toplevels`].
    RefreshToplevels,
    /// Append this record to the persisted list.
    AppendRule(ExceptionRule),
}

/// The mathematical value of an [`Action`].
pub enum ActionView {
    Idle,
    DestroyPopup(PopupId),
    OpenPopup(PopupId),
    RefreshToplevels,
    AppendRule(RuleView),
}

impl View for Action {
    type V = ActionView;

    open spec fn view(&self) -> ActionView {
        match *self {
            Action::Idle => ActionView::Idle,
            Action::DestroyPopup(id) => ActionView::DestroyPopup(id),
            Action::OpenPopup(id) => ActionView::OpenPopup(id),
            Action::RefreshToplevels => ActionView::RefreshToplevels,
            Action::AppendRule(rule) => ActionView::AppendRule(rule@),
        }
    }
}

/// The applet's state.
pub struct App {
    popup: Option<PopupId>,
    active_view: Views,
    apps_info: Vec<ToplevelInfo>,
}

impl App {
    /// A details view always points into the snapshot.
    #[verifier::type_invariant]
    spec fn points_into_snapshot(self) -> bool {
        self.active_view matches Views::Manage(index) ==> index < self.apps_info@.len()
    }
}

/// The mathematical value of an [`App`].
pub struct AppView {
    /// The popup that is open, if one is.
    pub popup: Option<PopupId>,
    /// What the popup shows.
    pub active_view: Views,
    /// The last snapshot of the open windows.
    pub apps_info: Seq<ToplevelView>,
}

impl View for App {
    type V = AppView;

    closed spec fn view(&self) -> AppView {
        AppView {
            popup: self.popup,
            active_view: self.active_view,
            apps_info: toplevel_views(self.apps_info@),
        }
    }
}

/// The state at start: no popup, the list view, an empty snapshot.
pub open spec fn initial() -> AppView {
    AppView { popup: None, active_view: Views::Main, apps_info: Seq::<ToplevelView>::empty() }
}

/// The state and the action that follow a message. `new_id` is the
/// identity that a popup gets if the message opens one.
pub open spec fn step(pre: AppView, message: MessageView, new_id: PopupId) -> (
    AppView,
    ActionView,
) {
    match message {
        MessageView::TogglePopup => match pre.popup {
            Some(open) => (
                AppView { popup: None, active_view: Views::Main, ..pre },
                ActionView::DestroyPopup(open),
            ),
            None => (AppView { popup: Some(new_id), ..pre }, ActionView::OpenPopup(new_id)),
        },
        MessageView::PopupClosed(id) => (
            if pre.popup == Some(id) {
                AppView { popup: None, ..pre }
            } else {
                pre
            },
            ActionView::Idle,
        ),
        MessageView::RefreshToplevels => (pre, ActionView::RefreshToplevels),
        MessageView::ChangeView(index) => (
            AppView {
                active_view: match pre.active_view {
                    Views::Main => if index < pre.apps_info.len() {
                        Views::Manage(index)
                    } else {
                        Views::Main
                    },
                    Views::Manage(_) => Views::Main,
                },
                ..pre
            },
            ActionView::Idle,
        ),
        MessageView::BackToMain => (AppView { active_view: Views::Main, ..pre }, ActionView::Idle),
        MessageView::AddWithTitle(title) => (
            pre,
            if title.len() > 0 {
                ActionView::AppendRule(title_rule(title))
            } else {
                ActionView::Idle
            },
        ),
        MessageView::AddWithAPPID(app_id) => (
            pre,
            if app_id.len() > 0 && app_id != match_any() {
                ActionView::AppendRule(app_id_rule(app_id))
            } else {
                ActionView::Idle
            },
        ),
    }
}

/// The state after a refresh has been answered: the snapshot is the one
/// the listing gives, and the popup shows the list, since no place in
/// the earlier snapshot means anything in the new one.
pub open spec fn refreshed(pre: AppView, listing: Option<Vec<ToplevelInfo>>) -> AppView {
    AppView { active_view: Views::Main, apps_info: snapshot_of(listing), ..pre }
}

/// A message never changes the snapshot: only a refresh that has been
/// answered replaces it.
pub proof fn step_keeps_snapshot(pre: AppView, message: MessageView, new_id: PopupId)
    ensures
        step(pre, message, new_id).0.apps_info == pre.apps_info,
{
}

/// A record that a message asks to append is enabled and matches by
/// exactly one of its two fields: never by both, and never by none. A
/// message whose text gives no such record (an empty title, an empty
/// application id, or one that reads as the match-any pattern) asks for
/// nothing, and no message that adds a rule changes the state.
pub proof fn step_appends_discriminating_rule(pre: AppView, message: MessageView, new_id: PopupId)
    ensures
        step(pre, message, new_id).1 matches ActionView::AppendRule(rule) ==> {
            &&& rule.enabled
            &&& rule.discriminating()
            &&& !(rule.by_title() && rule.by_app_id())
            &&& rule.app_id.len() > 0
        },
        step(pre, message, new_id).1 is AppendRule <==> {
            ||| message matches MessageView::AddWithTitle(title) && title.len() > 0
            ||| message matches MessageView::AddWithAPPID(app_id) && app_id.len() > 0 && app_id
                != match_any()
        },
        (message is AddWithTitle || message is AddWithAPPID) ==> step(pre, message, new_id).0
            == pre,
{
}

/// A details view never points past the snapshot: a message keeps this
/// true, and a refresh makes it true of any state.
pub proof fn details_view_stays_in_snapshot(
    pre: AppView,
    message: MessageView,
    new_id: PopupId,
    listing: Option<Vec<ToplevelInfo>>,
)
    ensures
        pre.showable() ==> step(pre, message, new_id).0.showable(),
        refreshed(pre, listing).showable(),
        initial().showable(),
{
}

/// A popup is open after a message exactly where the message opened it,
/// or where it was open before and the message did not close it.
pub proof fn step_tracks_popup(pre: AppView, message: MessageView, new_id: PopupId)
    ensures
        step(pre, message, new_id).1 matches ActionView::OpenPopup(id) ==> pre.popup is None
            && id == new_id && step(pre, message, new_id).0.popup == Some(id),
        step(pre, message, new_id).1 matches ActionView::DestroyPopup(id) ==> pre.popup == Some(id)
            && step(pre, message, new_id).0.popup is None && step(
            pre,
            message,
            new_id,
        ).0.active_view == Views::Main,
{
}

impl AppView {
    /// The active view can be drawn: a details view points into the
    /// snapshot.
    pub open spec fn showable(self) -> bool {
        self.active_view matches Views::Manage(index) ==> index < self.apps_info.len()
    }
}

/// One line of the list view.
#[derive(Clone, Debug, PartialEq, Eq)]
pub struct ListRow {
    /// What the line's button sends.
    pub on_press: Message,
    /// The window's title.
    pub title: String,
}

/// The mathematical value of a [`ListRow`].
pub struct ListRowView {
    pub on_press: MessageView,
    pub title: Seq<char>,
}

impl View for ListRow {
    type V = ListRowView;

    open spec fn view(&self) -> ListRowView {
        ListRowView { on_press: self.on_press@, title: self.title@ }
    }
}

/// The values of a list of lines, in the list's order.
pub open spec fn row_views(rows: Seq<ListRow>) -> Seq<ListRowView> {
    Seq::new(rows.len(), |i: int| rows[i]@)
}

/// The lines that a snapshot is listed as: one per window, in the
/// snapshot's order, each with the window's title and a button that asks
/// for the details of the window at that place.
pub open spec fn list_rows(windows: Seq<ToplevelView>) -> Seq<ListRowView> {
    Seq::new(
        windows.len(),
        |i: int| ListRowView { on_press: MessageView::ChangeView(i as usize), title: windows[i].title },
    )
}

/// The list view: a refresh button above one line per window.
#[derive(Clone, Debug, PartialEq, Eq)]
pub struct ListView {
    /// What the refresh button sends.
    pub refresh: Message,
    /// The lines.
    pub rows: Vec<ListRow>,
}

/// The details view of one window.
#[derive(Clone, Debug, PartialEq, Eq)]
pub struct ManageView {
    /// The window's title.
    pub title: String,
    /// The window's application id.
    pub app_id: String,
    /// What the back button sends.
    pub back: Message,
    /// What the button that adds a rule by title sends.
    pub add_with_title: Message,
    /// What the button that adds a rule by application id sends.
    pub add_with_app_id: Message,
}

/// The mathematical value of a [`ManageView`].
pub struct ManageViewModel {
    pub title: Seq<char>,
    pub app_id: Seq<char>,
    pub back: MessageView,
    pub add_with_title: MessageView,
    pub add_with_app_id: MessageView,
}

impl View for ManageView {
    type V = ManageViewModel;

    open spec fn view(&self) -> ManageViewModel {
        ManageViewModel {
            title: self.title@,
            app_id: self.app_id@,
            back: self.back@,
            add_with_title: self.add_with_title@,
            add_with_app_id: self.add_with_app_id@,
        }
    }
}

/// The details view of a window: its two fields, and buttons that carry
/// the title and the application id.
pub open spec fn manage_of(window: ToplevelView) -> ManageViewModel {
    ManageViewModel {
        title: window.title,
        app_id: window.app_id,
        back: MessageView::BackToMain,
        add_with_title: MessageView::AddWithTitle(window.title),
        add_with_app_id: MessageView::AddWithAPPID(window.app_id),
    }
}

/// What the popup draws.
#[derive(Clone, Debug, PartialEq, Eq)]
pub enum WindowView {
    List(ListView),
    Manage(ManageView),
}

/// The mathematical value of a [`WindowView`].
pub enum WindowViewModel {
    List { refresh: MessageView, rows: Seq<ListRowView> },
    Manage(ManageViewModel),
}

impl View for WindowView {
    type V = WindowViewModel;

    open spec fn view(&self) -> WindowViewModel {
        match *self {
            WindowView::List(list) => WindowViewModel::List {
                refresh: list.refresh@,
                rows: row_views(list.rows@),
            },
            WindowView::Manage(details) => WindowViewModel::Manage(details@),
        }
    }
}

/// What the popup draws in a state whose active view is showable.
pub open spec fn window_of(state: AppView) -> WindowViewModel {
    match state.active_view {
        Views::Main => WindowViewModel::List {
            refresh: MessageView::RefreshToplevels,
            rows: list_rows(state.apps_info),
        },
        Views::Manage(index) => WindowViewModel::Manage(manage_of(state.apps_info[index as int])),
    }
}

impl Default for App {
    fn default() -> (app: App)
        ensures
            app@ == initial(),
            app@.showable(),
    {
        let apps_info: Vec<ToplevelInfo> = Vec::new();
        assert(toplevel_views(apps_info@) =~= Seq::<ToplevelView>::empty());
        App { popup: None, active_view: Views::Main, apps_info }
    }
}

impl App {
    /// The state at start, and the message to handle first: a refresh.
    pub fn init() -> (start: (App, Message))
        ensures
            start.0@ == initial(),
            start.0@.showable(),
            start.1@ == MessageView::RefreshToplevels,
    {
        (App::default(), Message::RefreshToplevels)
    }

    /// The popup that is open, if one is.
    pub fn popup(&self) -> (popup: Option<PopupId>)
        ensures
            popup == self@.popup,
    {
        self.popup
    }

    /// What the popup shows: in every state a details view points into
    /// the snapshot.
    pub fn active_view(&self) -> (view: Views)
        ensures
            view == self@.active_view,
            self@.showable(),
    {
        proof {
            use_type_invariant(self);
        }
        self.active_view
    }

    /// The last snapshot of the open windows.
    pub fn apps_info(&self) -> (windows: &Vec<ToplevelInfo>)
        ensures
            toplevel_views(windows@) == self@.apps_info,
            windows@.len() == self@.apps_info.len(),
            forall|i: int| 0 <= i < windows@.len() ==> (#[trigger] windows@[i])@ == self@.apps_info[i],
    {
        &self.apps_info
    }

    /// The message that a request to close window `id` stands for.
    pub fn on_close_requested(&self, id: PopupId) -> (message: Option<Message>)
        ensures
            message matches Some(closed) && closed@ == MessageView::PopupClosed(id),
    {
        Some(Message::PopupClosed(id))
    }

    /// Handles one message: moves to the next state and says what is to
    /// be done outside. `new_id` is used only where the message opens a
    /// popup.
    pub fn update(&mut self, message: Message, new_id: PopupId) -> (action: Action)
        ensures
            (final(self)@, action@) == step(old(self)@, message@, new_id),
            final(self)@.showable(),
    {
        proof {
            use_type_invariant(&*self);
        }
        match message {
            Message::TogglePopup => {
                match self.popup {
                    Some(open) => {
                        self.popup = None;
                        self.active_view = Views::Main;
                        Action::DestroyPopup(open)
                    },
                    None => {
                        self.popup = Some(new_id);
                        Action::OpenPopup(new_id)
                    },
                }
            },
            Message::PopupClosed(id) => {
                match self.popup {
                    Some(open) => {
                        if open == id {
                            self.popup = None;
                        }
                    },
                    None => {},
                }
                Action::Idle
            },
            Message::RefreshToplevels => Action::RefreshToplevels,
            Message::BackToMain => {
                self.active_view = Views::Main;
                Action::Idle
            },
            Message::ChangeView(toplevel_index) => {
                match self.active_view {
                    Views::Main => {
                        if toplevel_index < self.apps_info.len() {
                            self.active_view = Views::Manage(toplevel_index);
                        }
                    },
                    Views::Manage(_) => {
                        self.active_view = Views::Main;
                    },
                }
                Action::Idle
            },
            Message::AddWithTitle(title) => match ExceptionRule::with_title(title) {
                Some(rule) => Action::AppendRule(rule),
                None => Action::Idle,
            },
            Message::AddWithAPPID(id) => match ExceptionRule::with_app_id(id) {
                Some(rule) => Action::AppendRule(rule),
                None => Action::Idle,
            },
        }
    }

    /// Replaces the snapshot by what the compositor answered; `None`
    /// stands for a compositor that could not be asked. Nothing of the
    /// earlier snapshot is kept, and the popup goes back to the list: a
    /// details view never outlives the snapshot it was chosen from.
    pub fn set_toplevels(&mut self, listing: Option<Vec<ToplevelInfo>>)
        ensures
            final(self)@ == refreshed(old(self)@, listing),
            final(self)@.showable(),
    {
        let snapshot = refresh_toplevels(listing);
        self.active_view = Views::Main;
        self.apps_info = snapshot;
    }

    /// What the popup draws: the list view or the details of the chosen
    /// window, which is always one of the snapshot. Every popup draws
    /// the same, whatever its identity.
    pub fn view_window(&self, _id: PopupId) -> (view: WindowView)
        ensures
            self@.showable(),
            view@ == window_of(self@),
    {
        proof {
            use_type_invariant(self);
        }
        match self.active_view {
            Views::Main => WindowView::List(self.list_view()),
            Views::Manage(index) => WindowView::Manage(self.manage_view(index)),
        }
    }

    /// The list view of the snapshot.
    pub fn list_view(&self) -> (list: ListView)
        ensures
            list.refresh@ == MessageView::RefreshToplevels,
            row_views(list.rows@) == list_rows(self@.apps_info),
            list.rows@.len() == self@.apps_info.len(),
            forall|i: int|
                0 <= i < list.rows@.len() ==> (#[trigger] list.rows@[i])@ == (ListRowView {
                    on_press: MessageView::ChangeView(i as usize),
                    title: self@.apps_info[i].title,
                }),
    {
        let mut rows: Vec<ListRow> = Vec::new();
        let mut idx: usize = 0;
        while idx < self.apps_info.len()
            invariant
                idx <= self.apps_info@.len(),
                rows@.len() == idx,
                forall|j: int|
                    0 <= j < idx ==> (#[trigger] rows@[j])@ == (ListRowView {
                        on_press: MessageView::ChangeView(j as usize),
                        title: self.apps_info@[j].title@,
                    }),
            decreases self.apps_info@.len() - idx,
        {
            let title = self.apps_info[idx].title.clone();
            rows.push(ListRow { on_press: Message::ChangeView(idx), title });
            idx += 1;
        }
        assert(row_views(rows@) =~= list_rows(self@.apps_info));
        ListView { refresh: Message::RefreshToplevels, rows }
    }

    /// The details view of the window at `index` of the snapshot.
    pub fn manage_view(&self, index: usize) -> (details: ManageView)
        requires
            index < self@.apps_info.len(),
        ensures
            details@ == manage_of(self@.apps_info[index as int]),
    {
        let toplevel = &self.apps_info[index];
        ManageView {
            title: toplevel.title.clone(),
            app_id: toplevel.app_id.clone(),
            back: Message::BackToMain,
            add_with_title: Message::AddWithTitle(toplevel.title.clone()),
            add_with_app_id: Message::AddWithAPPID(toplevel.app_id.clone()),
        }
    }

    /// The list to write back under the configuration key: what a read
    /// of the key gave, an absent or malformed value counting as empty,
    /// with one enabled record of `appid` and `title` appended. The two
    /// fields are those of a record that [`App::update`] asked to append:
    /// they match by exactly one of them.
    pub fn append_to_config(&self, stored: StoredRules, appid: String, title: String) -> (rules:
        Vec<ExceptionRule>)
        requires
            new_rule(appid@, title@).discriminating(),
        ensures
            rule_views(rules@) == appended(stored@, appid@, title@),
    {
        append(stored, appid, title)
    }
}

} // verus!
