use tiling_exceptions::toplevel::{refresh_toplevels, ToplevelInfo};

fn window(title: &str, app_id: &str) -> ToplevelInfo {
    ToplevelInfo { title: title.to_string(), app_id: app_id.to_string() }
}

#[test]
fn no_open_windows_is_an_empty_snapshot() {
    let snapshot = refresh_toplevels(Some(Vec::new()));
    assert!(snapshot.is_empty());
}

#[test]
fn unavailable_compositor_is_an_empty_snapshot() {
    let snapshot = refresh_toplevels(None);
    assert!(snapshot.is_empty());
}

#[test]
fn snapshot_keeps_the_compositor_order() {
    let listed = vec![
        window("zsh", "com.system76.CosmicTerm"),
        window("Firefox", "org.mozilla.firefox"),
        window("zsh", "com.system76.CosmicTerm"),
    ];
    let snapshot = refresh_toplevels(Some(listed.clone()));
    assert_eq!(snapshot, listed);
    assert_eq!(snapshot[1].title, "Firefox");
    assert_eq!(snapshot[1].app_id, "org.mozilla.firefox");
}

#[test]
fn new_window_holds_both_fields() {
    let made = ToplevelInfo::new("Firefox".to_string(), "org.mozilla.firefox".to_string());
    assert_eq!(made, window("Firefox", "org.mozilla.firefox"));
}
