//! The native D3D11VA rung and its hand-off to the presenter.

use pf_client_core::dxva::{
    busy_wait_after, BusyWait, BEGIN_FRAME_BUDGET_NS, BEGIN_FRAME_SLEEP_NS, BEGIN_FRAME_SPIN_NS,
};

/// Spin first, 1 ms sleeps after, give up at the libavcodec budget.
#[test]
fn busy_wait_spins_then_sleeps_then_gives_up() {
    let us = |n: u64| n * 1_000;
    assert_eq!(busy_wait_after(0), BusyWait::Yield);
    assert_eq!(busy_wait_after(BEGIN_FRAME_SPIN_NS - us(1)), BusyWait::Yield);
    assert_eq!(
        busy_wait_after(BEGIN_FRAME_SPIN_NS),
        BusyWait::Sleep(BEGIN_FRAME_SLEEP_NS)
    );
    assert_eq!(
        busy_wait_after(BEGIN_FRAME_BUDGET_NS - us(1)),
        BusyWait::Sleep(BEGIN_FRAME_SLEEP_NS)
    );
    assert_eq!(busy_wait_after(BEGIN_FRAME_BUDGET_NS), BusyWait::GiveUp);
}
