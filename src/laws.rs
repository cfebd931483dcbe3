//! Properties that hold of every tunnel and every run of replies.
use vstd::prelude::*;

use crate::context::Context;
use crate::error::ErrorView;
use crate::manager::{Operation, TunnelManager};
use crate::session::{Plan, Reply};
use crate::ssh::SshTunnel;
use crate::tunnel::Tunnel;

verus! {

/// Whether `r` says that a command ran and exited with a code other than 0,
/// which is how every backend reports a tunnel that is not up.
pub open spec fn exited_nonzero(r: Reply) -> bool {
    r matches Reply::Exited { code } && code != Some(0i32)
}

/// A tunnel of any kind whose status command exits with a non-zero code is
/// reported as not running: no earlier state is consulted.
pub proof fn lemma_not_running_without_backend(t: Tunnel, ctx: &Context, rs: Seq<Reply>, at: int)
    requires
        0 <= at < rs.len(),
        exited_nonzero(rs[at]),
    ensures
        t.running_plan(ctx, rs, at) == (Plan::<bool>::Finished { result: Ok(false), next: at + 1 }),
{
}

/// Stopping a tunnel that is already stopped succeeds: once a stop has taken
/// a tunnel down, its status command exits with a non-zero code, and a second
/// stop then finishes without failure.
pub proof fn lemma_stop_when_stopped(t: Tunnel, ctx: &Context, rs: Seq<Reply>, at: int)
    requires
        0 <= at < rs.len(),
        exited_nonzero(rs[at]),
    ensures
        t.stop_plan(ctx, rs, at) == (Plan::<()>::Finished { result: Ok(()), next: at + 1 }),
{
}

/// The manager's stop of a configured tunnel that is already stopped
/// succeeds: it finds the tunnel down, leaves it, and reports its status.
pub proof fn lemma_manager_stop_when_stopped(
    m: &TunnelManager,
    ctx: &Context,
    name: Seq<char>,
    rs: Seq<Reply>,
    at: int,
)
    requires
        m.has(name),
        0 <= at,
        at + 1 < rs.len(),
        exited_nonzero(rs[at]),
        exited_nonzero(rs[at + 1]),
    ensures
        m.stop_plan(ctx, name, rs, at) == (Plan::<()>::Finished { result: Ok(()), next: at + 2 }),
{
    lemma_not_running_without_backend(m.tunnel_named(name), ctx, rs, at);
    lemma_not_running_without_backend(m.tunnel_named(name), ctx, rs, at + 1);
}

/// Restarting an SSH tunnel that was never started succeeds: whatever came of
/// the stop, the start that follows finds nothing running and opens the
/// connection.
pub proof fn lemma_ssh_restart_when_stopped(t: SshTunnel, ctx: &Context, rs: Seq<Reply>, at: int)
    requires
        0 <= at,
        at + 2 < rs.len(),
        exited_nonzero(rs[at + 1]),
        rs[at + 2] is Exited,
    ensures
        Tunnel::Ssh(t).restart_plan(ctx, rs, at) == (Plan::<()>::Finished {
            result: Ok(()),
            next: at + 3,
        }),
{
}

proof fn lemma_all_fails_from(
    m: &TunnelManager,
    op: Operation,
    ctx: &Context,
    rs: Seq<Reply>,
    pos: Seq<int>,
    k: int,
    e: ErrorView,
    end: int,
    j: int,
)
    requires
        0 <= j <= k < m.names().len(),
        pos.len() == k + 1,
        forall|i: int|
            0 <= i < k ==> #[trigger] m.operation_plan(op, ctx, m.names()[i], rs, pos[i]) == (
            Plan::<()>::Finished { result: Ok(()), next: pos[i + 1] }),
        m.operation_plan(op, ctx, m.names()[k], rs, pos[k]) == (Plan::<()>::Finished {
            result: Err(e),
            next: end,
        }),
    ensures
        m.all_plan(op, ctx, rs, pos[j], j) == (Plan::<()>::Finished { result: Err(e), next: end }),
    decreases k - j,
{
    if j < k {
        lemma_all_fails_from(m, op, ctx, rs, pos, k, e, end, j + 1);
        assert(m.operation_plan(op, ctx, m.names()[j], rs, pos[j]) == (Plan::<()>::Finished {
            result: Ok(()),
            next: pos[j + 1],
        }));
    }
}

/// An operation over all tunnels stops at the first failure: when the
/// operation succeeds on the tunnels before the `k`-th (in order of names) and
/// fails on the `k`-th, the whole fails with that failure, where that
/// tunnel's replies end, and asks nothing for the tunnels after it.
pub proof fn lemma_all_stops_at_first_failure(
    m: &TunnelManager,
    op: Operation,
    ctx: &Context,
    rs: Seq<Reply>,
    pos: Seq<int>,
    k: int,
    e: ErrorView,
    end: int,
)
    requires
        0 <= k < m.names().len(),
        pos.len() == k + 1,
        forall|i: int|
            0 <= i < k ==> #[trigger] m.operation_plan(op, ctx, m.names()[i], rs, pos[i]) == (
            Plan::<()>::Finished { result: Ok(()), next: pos[i + 1] }),
        m.operation_plan(op, ctx, m.names()[k], rs, pos[k]) == (Plan::<()>::Finished {
            result: Err(e),
            next: end,
        }),
    ensures
        m.all_plan(op, ctx, rs, pos[0], 0) == (Plan::<()>::Finished { result: Err(e), next: end }),
{
    lemma_all_fails_from(m, op, ctx, rs, pos, k, e, end, 0);
}

} // verus!
