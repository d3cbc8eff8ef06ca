//! Poll-driven adapters over a callback-driven audio client connection.
//!
//! The underlying client API delivers every result through callbacks that fire
//! while its event loop is advanced by hand. This crate verifies the adapter
//! logic that turns those callback-driven operations into poll-based futures
//! and streams: the loop-driver decision, the connection poll, the shared
//! result cell that bridges a completion callback to a later poll, and the
//! FIFO event queue behind a change-notification stream. The unverifiable rim
//! (the actual client calls, waker plumbing and trait impls for an executor)
//! stays outside and feeds these functions plain values.

pub mod context;
pub mod driver;
pub mod introspector;
pub mod operation;

use vstd::prelude::*;

verus! {

/// Law: a loop failure is terminal and global. On the very poll whose driver
/// verdict is fatal, every adapter sharing that loop resolves to failure —
/// an operation future fails whatever its cell holds, the connection future
/// fails whatever state the connection is in, and a subscription stream that
/// has not yet ended emits its one final failure item (an ended one stays
/// ended). No entity outlives its loop by even one poll.
pub proof fn lemma_loop_failure_is_immediate<T>(
    f: operation::OperationFuture<T>,
    op_state: operation::State,
    conn_state: context::State,
    m: context::SubModel,
    report: driver::DriverReport,
)
    requires
        report.is_fatal(),
    ensures
        f.poll_outcome(report, op_state) == driver::PollResult::Ready(Err::<T, ()>(())),
        context::connection_outcome(report, conn_state) == driver::PollResult::Ready(
            Err::<(), ()>(()),
        ),
        !m.ended ==> context::next_step(m, report).0 == driver::PollResult::Ready(
            Some(Err::<context::Event, ()>(())),
        ),
        m.ended ==> context::next_step(m, report).0 == driver::PollResult::Ready(
            None::<Result<context::Event, ()>>,
        ),
{
}

} // verus!
