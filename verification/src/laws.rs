//! Session lifecycle laws, proved over the state transitions that the
//! contracts of `connect` and `disconnect` are stated with.
//!
//! The session model is the path of the currently connected port, if any
//! (`Session::connected_to`); `connect_step` and `disconnect_step` in
//! `session` are exactly how those operations change it.

use vstd::prelude::*;
use crate::session::{connect_step, disconnect_step};

verus! {

/// The session state after a whole sequence of connect calls, each given as
/// the path asked for and whether its open succeeded, applied in order.
pub open spec fn apply_connects(
    init: Option<Seq<char>>,
    calls: Seq<(Seq<char>, bool)>,
) -> Option<Seq<char>>
    decreases calls.len(),
{
    if calls.len() == 0 {
        init
    } else {
        connect_step(apply_connects(init, calls.drop_last()), calls.last().0, calls.last().1)
    }
}

/// At most one open handle: after any sequence of connect calls, the session
/// holds exactly the handle of the most recent call if it succeeded, and no
/// handle at all if it failed.
pub proof fn lemma_at_most_one_handle(init: Option<Seq<char>>, calls: Seq<(Seq<char>, bool)>)
    requires
        calls.len() > 0,
    ensures
        calls.last().1 ==> apply_connects(init, calls) == Some(calls.last().0),
        !calls.last().1 ==> apply_connects(init, calls) is None,
{
}

/// Connect replaces, never adds: the state after connecting to `b` is the
/// same whatever connection, to `a` or any other, stood before — nothing of
/// the earlier handle remains observable.
pub proof fn lemma_connect_replaces(
    pre: Option<Seq<char>>,
    a: Seq<char>,
    a_opened: bool,
    b: Seq<char>,
    b_opened: bool,
)
    ensures
        connect_step(connect_step(pre, a, a_opened), b, b_opened) == connect_step(
            pre,
            b,
            b_opened,
        ),
        b_opened ==> connect_step(connect_step(pre, a, a_opened), b, b_opened) == Some(b),
        !b_opened ==> connect_step(connect_step(pre, a, a_opened), b, b_opened) is None,
{
}

/// Disconnect is idempotent: on an already-closed session it leaves the
/// state unchanged, and a second disconnect after any first one is a no-op.
pub proof fn lemma_disconnect_idempotent(pre: Option<Seq<char>>)
    ensures
        pre is None ==> disconnect_step(pre) == pre,
        disconnect_step(disconnect_step(pre)) == disconnect_step(pre),
{
}

} // verus!
