//! The resource-discipline laws of the layer, stated and proved over the
//! modeled driver state.
//!
//! Each law relates the contracts of several operations; the per-operation
//! guarantees themselves (bit lengths of the three transaction shapes, and
//! the acquire/release balance of every `transfer` outcome) stand directly in
//! the `ensures` clauses of those operations.

use vstd::prelude::*;

use crate::controller::balanced;
use crate::controller::event_device;
use crate::controller::next_word;
use crate::controller::transfers_paired;
use crate::controller::BusEvent;
use crate::controller::SpiController;
use crate::spi::SpiDevice;
use crate::spi::SpiHooks;
use crate::status::esp_err_t;

verus! {

/// Acquiring the bus and releasing it again without issuing any transaction
/// leaves the bus in the same ownership state as never having locked it: the
/// holder is restored, the distance between acquires and releases is
/// restored, and in particular the counts are balanced again whenever they
/// were balanced before.
///
/// `before` is the controller before `lock`, `locked` the controller after
/// it, and `released` the controller after `release`; the premises are what
/// those two calls ensure.
pub proof fn lemma_lock_then_release_no_leak(
    before: SpiController,
    locked: SpiController,
    released: SpiController,
    device: u32,
)
    requires
        before.holder is None,
        locked.acquire_count == before.acquire_count + 1,
        locked.release_count == before.release_count,
        locked.holder == Some(device),
        released.acquire_count == locked.acquire_count,
        released.release_count == locked.release_count + 1,
        released.holder is None,
    ensures
        released.holder == before.holder,
        released.acquire_count - released.release_count == before.acquire_count
            - before.release_count,
        balanced(released) <==> balanced(before),
{
}

/// Transfers on one bus are strictly sequential: in any well-formed event
/// log, between two transfer starts the earlier transfer has reported
/// completion, so a second exchange never begins while one is in flight.
pub proof fn lemma_transfers_sequential(log: Seq<BusEvent>, i: int, j: int)
    requires
        transfers_paired(log),
        0 <= i < j < log.len(),
        log[i] is TransferStarted,
        log[j] is TransferStarted,
    ensures
        exists|k: int|
            i < k < j && log[k] == (BusEvent::TransferCompleted { device: event_device(log[i]) }),
{
    assert(log[i + 1] == (BusEvent::TransferCompleted { device: event_device(log[i]) }));
    assert(i + 1 < j) by {
        assert(j != i + 1);
    }
}

/// A `send` followed immediately by a `read` yields exactly the byte the
/// peripheral shifted in during that send's duplex exchange.
///
/// `before` is the controller before the `send`, `dev` the device after it,
/// and `r` the result of the `read`; the premises are what a successful
/// `send` and a `read` ensure.
pub proof fn lemma_send_then_read<H: SpiHooks>(
    before: SpiController,
    dev: SpiDevice<H>,
    r: Result<u8, esp_err_t>,
)
    requires
        dev.last_word == next_word(before),
        r == Ok::<u8, esp_err_t>(dev.last_word),
    ensures
        r == Ok::<u8, esp_err_t>(next_word(before)),
{
}

} // verus!
