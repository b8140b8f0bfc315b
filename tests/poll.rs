use hyprland_workspace_display::poll::{snapshot_of, Poller, Snapshot};
use hyprland_workspace_display::workspace::Workspace;

fn ws(id: u8, windows: u32) -> Workspace {
    Workspace {
        id,
        name: id.to_string(),
        monitor: String::from("DP-1"),
        windows,
        has_fullscreen: false,
        last_window: String::new(),
        last_window_title: String::new(),
    }
}

#[test]
fn first_observation_emits() {
    let mut p = Poller::new();
    assert!(p.observe(Snapshot { workspace_count: 2, active_id: 1 }));
}

#[test]
fn identical_snapshots_emit_once() {
    let mut p = Poller::new();
    let snap = Snapshot { workspace_count: 2, active_id: 1 };
    assert!(p.observe(snap));
    assert!(!p.observe(snap));
    assert!(!p.observe(snap));
}

#[test]
fn count_or_active_change_emits() {
    let mut p = Poller::new();
    assert!(p.observe(Snapshot { workspace_count: 2, active_id: 1 }));
    assert!(p.observe(Snapshot { workspace_count: 3, active_id: 1 }));
    assert!(p.observe(Snapshot { workspace_count: 3, active_id: 2 }));
    assert!(!p.observe(Snapshot { workspace_count: 3, active_id: 2 }));
}

#[test]
fn window_count_change_alone_is_not_seen() {
    let mut p = Poller::new();
    let before = snapshot_of(&vec![ws(1, 1), ws(2, 1)], &ws(1, 1));
    let after = snapshot_of(&vec![ws(1, 4), ws(2, 0)], &ws(1, 4));
    assert_eq!(before, Snapshot { workspace_count: 2, active_id: 1 });
    assert!(p.observe(before));
    assert!(!p.observe(after));
}
