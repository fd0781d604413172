//! Snapshots of the windows that the compositor lists.
//!
//! A snapshot is a plain value: it is made anew on every refresh and
//! never changed afterwards. Its order is the compositor's own.

use vstd::prelude::*;

verus! {

/// One open application window at the time of a snapshot.
#[derive(Clone, Debug, PartialEq, Eq)]
pub struct ToplevelInfo {
    /// The window title as the compositor reports it.
    pub title: String,
    /// The application identifier as the compositor reports it.
    pub app_id: String,
}

/// The mathematical value of a [`ToplevelInfo`].
pub struct ToplevelView {
    pub title: Seq<char>,
    pub app_id: Seq<char>,
}

impl View for ToplevelInfo {
    type V = ToplevelView;

    open spec fn view(&self) -> ToplevelView {
        ToplevelView { title: self.title@, app_id: self.app_id@ }
    }
}

/// The values of a list of windows, in the list's order.
pub open spec fn toplevel_views(windows: Seq<ToplevelInfo>) -> Seq<ToplevelView> {
    Seq::new(windows.len(), |i: int| windows[i]@)
}

/// The snapshot that a listing gives: the windows listed, in the order
/// listed, or none where the compositor could not be asked.
pub open spec fn snapshot_of(listing: Option<Vec<ToplevelInfo>>) -> Seq<ToplevelView> {
    match listing {
        Some(windows) => toplevel_views(windows@),
        None => Seq::<ToplevelView>::empty(),
    }
}

impl ToplevelInfo {
    /// A window with this title and application id.
    pub fn new(title: String, app_id: String) -> (window: ToplevelInfo)
        ensures
            window@ == (ToplevelView { title: title@, app_id: app_id@ }),
    {
        ToplevelInfo { title, app_id }
    }
}

/// Turns what the compositor answered into a snapshot. `None` stands for
/// a compositor that does not offer the listing or could not be reached:
/// it gives the empty snapshot, as a listing of no windows does.
pub fn refresh_toplevels(listing: Option<Vec<ToplevelInfo>>) -> (snapshot: Vec<ToplevelInfo>)
    ensures
        toplevel_views(snapshot@) == snapshot_of(listing),
        listing is None ==> snapshot@.len() == 0,
        listing matches Some(windows) ==> snapshot@ == windows@,
{
    match listing {
        Some(windows) => windows,
        None => {
            let snapshot: Vec<ToplevelInfo> = Vec::new();
            assert(toplevel_views(snapshot@) =~= Seq::<ToplevelView>::empty());
            snapshot
        },
    }
}

/// A listing of no windows gives the empty snapshot, and so does a
/// compositor that could not be asked.
pub proof fn no_windows_is_empty_snapshot(listing: Option<Vec<ToplevelInfo>>)
    requires
        listing matches Some(windows) ==> windows@.len() == 0,
    ensures
        snapshot_of(listing) == Seq::<ToplevelView>::empty(),
        snapshot_of(listing).len() == 0,
{
    assert(snapshot_of(listing) =~= Seq::<ToplevelView>::empty());
}

} // verus!
