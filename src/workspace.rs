use vstd::prelude::*;

verus! {

/// One workspace of the window manager, as reported by a single query.
///
/// Only `id` takes part in deciding which symbol a slot shows; the other
/// fields are carried so that a query's result can be held whole.
pub struct Workspace {
    pub id: u8,
    pub name: String,
    pub monitor: String,
    pub windows: u32,
    pub has_fullscreen: bool,
    pub last_window: String,
    pub last_window_title: String,
}

/// Whether some workspace of `workspaces` has the identifier `id`.
pub open spec fn has_id(workspaces: Seq<Workspace>, id: int) -> bool {
    exists|j: int| 0 <= j < workspaces.len() && #[trigger] workspaces[j].id == id
}

} // verus!
