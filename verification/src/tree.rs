//! The query of the window manager's tree for the focused window, with which
//! a daemon starts.

use vstd::prelude::*;
use swayipc::reply::Node;
use crate::daemon::{Daemon, DaemonState};
use crate::fault::Fault;
use crate::focus::WindowId;

verus! {

/// `swayipc::reply::Node`: a container of the window manager's tree, with
/// the containers below it. The proofs see nothing inside it.
#[verifier::external_type_specification]
#[verifier::external_body]
pub struct ExNode(swayipc::reply::Node);

/// The containers of `tree` that lie on its focus path, from the root down,
/// each given by its `id` field and its `focused` field.
///
/// The path starts with the root. After a container it goes on with the
/// first of the container's `nodes`, or else the first of its
/// `floating_nodes`, whose `id` is the first entry of the container's `focus`
/// list. Where that list is empty, or no child has that `id`, the path ends.
pub uninterp spec fn focus_path(tree: Node) -> Seq<(WindowId, bool)>;

/// The `id` of the first container on `path` whose `focused` field is set,
/// if there is one.
pub open spec fn first_focused(path: Seq<(WindowId, bool)>) -> Option<WindowId>
    decreases path.len(),
{
    if path.len() == 0 {
        None
    } else if path[0].1 {
        Some(path[0].0)
    } else {
        first_focused(path.drop_first())
    }
}

/// Reads the `focused` field of a `swayipc::reply::Node`. This is the
/// question that [`find_focused`] has the search ask of each container it
/// visits. Nothing is claimed of the answer.
#[verifier::external_body]
fn has_focus(node: &Node) -> bool {
    node.focused
}

/// Calls `swayipc`'s `Node::find_focused_as_ref` on `tree` with
/// [`has_focus`], and hands out the `id` field of the container found.
///
/// That search visits the containers of the focus path from the root down.
/// It stops at the first one for which [`has_focus`] holds and returns it;
/// where the path ends before, it returns nothing. The contract says this
/// over [`focus_path`].
#[verifier::external_body]
fn find_focused(tree: &Node) -> (found: Option<WindowId>)
    ensures
        found == first_focused(focus_path(*tree)),
{
    tree.find_focused_as_ref(has_focus).map(|node| node.id)
}

/// Whether `started` is what a query that found `found` leads to: a fresh
/// daemon for the focused window, or the failure of the query when no window
/// has the focus.
pub open spec fn starts(found: Option<WindowId>, started: Result<Daemon, Fault>) -> bool {
    match found {
        Some(window) => started matches Ok(daemon) && daemon@ == DaemonState::fresh(window),
        None => started matches Err(fault) && fault == Fault::Query,
    }
}

/// Starts a daemon from the result of the query for the focused window. No
/// daemon starts without a focused window: its history would have nothing to
/// hold.
pub fn start(found: Option<WindowId>) -> (started: Result<Daemon, Fault>)
    ensures
        starts(found, started),
{
    match found {
        Some(window) => Ok(Daemon::new(window)),
        None => Err(Fault::Query),
    }
}

/// Starts a daemon from the window manager's tree: for the first container
/// on the tree's focus path that has the focus, if there is one.
pub fn start_from_tree(tree: &Node) -> (started: Result<Daemon, Fault>)
    ensures
        starts(first_focused(focus_path(*tree)), started),
{
    start(find_focused(tree))
}

/// What [`first_focused`] picks: a container of the path whose `focused`
/// field is set, above which no container of the path has it set. It picks
/// nothing only where no container of the path has the field set.
pub proof fn first_focused_is_topmost(path: Seq<(WindowId, bool)>)
    ensures
        match first_focused(path) {
            Some(window) => exists|i: int|
                0 <= i < path.len() && #[trigger] path[i] == (window, true) && forall|j: int|
                    0 <= j < i ==> !(#[trigger] path[j]).1,
            None => forall|i: int| 0 <= i < path.len() ==> !(#[trigger] path[i]).1,
        },
    decreases path.len(),
{
    if path.len() > 0 && !path[0].1 {
        let below = path.drop_first();
        first_focused_is_topmost(below);
        match first_focused(below) {
            Some(window) => {
                let i = choose|i: int|
                    0 <= i < below.len() && #[trigger] below[i] == (window, true) && forall|j: int|
                        0 <= j < i ==> !(#[trigger] below[j]).1;
                assert(path[i + 1] == below[i]);
                assert forall|j: int| 0 <= j < i + 1 implies !(#[trigger] path[j]).1 by {
                    if j > 0 {
                        assert(path[j] == below[j - 1]);
                    }
                }
            },
            None => {
                assert forall|i: int| 0 <= i < path.len() implies !(#[trigger] path[i]).1 by {
                    if i > 0 {
                        assert(path[i] == below[i - 1]);
                    }
                }
            },
        }
    }
}

} // verus!
