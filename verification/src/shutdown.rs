use vstd::prelude::*;

use crate::daemon::DaemonKind;

verus! {

/// One best-effort step of the exit sequence: either an RPC "stop" command
/// to a classic-dialect daemon, or an OS-level interrupt signal to the
/// Ethereum-compatible daemon's process, located by name.
#[derive(Clone, Copy, PartialEq, Eq, Structural, Debug)]
pub enum ShutdownAction {
    SignalEthereum,
    StopRpc { kind: DaemonKind },
}

/// The fixed exit order: signal the Ethereum-compatible daemon, then stop
/// the test chain, the two sidechain daemons, the privacy-coin daemon, and
/// the main chain daemon last. The order is preserved for reproducibility;
/// it carries no documented correctness requirement.
pub open spec fn shutdown_order() -> Seq<ShutdownAction> {
    seq![
        ShutdownAction::SignalEthereum,
        ShutdownAction::StopRpc { kind: DaemonKind::Testchain },
        ShutdownAction::StopRpc { kind: DaemonKind::Bitassets },
        ShutdownAction::StopRpc { kind: DaemonKind::Bitnames },
        ShutdownAction::StopRpc { kind: DaemonKind::Zcash },
        ShutdownAction::StopRpc { kind: DaemonKind::Mainchain },
    ]
}

/// Walks the fixed exit sequence once. The caller performs each pending
/// action and records its outcome; the coordinator advances whether the
/// attempt succeeded or failed, so one daemon's failure never prevents the
/// attempts on the others, and it only tallies the failures.
pub struct ShutdownCoordinator {
    pub next: usize,
    pub failures: usize,
}

impl ShutdownCoordinator {
    pub open spec fn wf(&self) -> bool {
        self.next <= shutdown_order().len() && self.failures <= self.next
    }

    /// A fresh coordinator, with the whole sequence still pending.
    pub fn new() -> (r: ShutdownCoordinator)
        ensures
            r.next == 0,
            r.failures == 0,
            r.wf(),
    {
        ShutdownCoordinator { next: 0, failures: 0 }
    }

    /// The next action of the fixed order, or nothing once the sequence is
    /// complete.
    pub fn pending(&self) -> (r: Option<ShutdownAction>)
        requires
            self.wf(),
        ensures
            r == (if self.next < shutdown_order().len() {
                Some(shutdown_order()[self.next as int])
            } else {
                None::<ShutdownAction>
            }),
    {
        match self.next {
            0 => Some(ShutdownAction::SignalEthereum),
            1 => Some(ShutdownAction::StopRpc { kind: DaemonKind::Testchain }),
            2 => Some(ShutdownAction::StopRpc { kind: DaemonKind::Bitassets }),
            3 => Some(ShutdownAction::StopRpc { kind: DaemonKind::Bitnames }),
            4 => Some(ShutdownAction::StopRpc { kind: DaemonKind::Zcash }),
            5 => Some(ShutdownAction::StopRpc { kind: DaemonKind::Mainchain }),
            _ => None,
        }
    }

    /// Records the outcome of the pending attempt and moves on. The advance
    /// is the same whether the attempt succeeded or failed: the outcome only
    /// feeds the failure tally, never the progression.
    pub fn record_outcome(&mut self, succeeded: bool)
        requires
            old(self).wf(),
            old(self).next < shutdown_order().len(),
        ensures
            final(self).next == old(self).next + 1,
            final(self).failures == old(self).failures + (if succeeded {
                0int
            } else {
                1int
            }),
            final(self).wf(),
    {
        self.next = self.next + 1;
        if !succeeded {
            self.failures = self.failures + 1;
        }
    }
}

/// Completeness of the exit sequence: it is exactly six attempts long, in
/// the fixed order - the interrupt signal for the Ethereum-compatible
/// daemon first, then one RPC stop per remaining daemon, the main chain
/// last - and every daemon other than the Ethereum-compatible one gets a
/// stop attempt.
pub proof fn lemma_shutdown_covers_all_daemons()
    ensures
        shutdown_order().len() == 6,
        shutdown_order()[0] == ShutdownAction::SignalEthereum,
        shutdown_order()[1] == (ShutdownAction::StopRpc { kind: DaemonKind::Testchain }),
        shutdown_order()[2] == (ShutdownAction::StopRpc { kind: DaemonKind::Bitassets }),
        shutdown_order()[3] == (ShutdownAction::StopRpc { kind: DaemonKind::Bitnames }),
        shutdown_order()[4] == (ShutdownAction::StopRpc { kind: DaemonKind::Zcash }),
        shutdown_order()[5] == (ShutdownAction::StopRpc { kind: DaemonKind::Mainchain }),
        forall|kind: DaemonKind|
            !(kind is Ethereum) ==> shutdown_order().contains(
                ShutdownAction::StopRpc { kind },
            ),
{
    assert forall|kind: DaemonKind| !(kind is Ethereum) implies shutdown_order().contains(
        ShutdownAction::StopRpc { kind },
    ) by {
        match kind {
            DaemonKind::Mainchain => {
                assert(shutdown_order()[5] == (ShutdownAction::StopRpc { kind }));
            }
            DaemonKind::Testchain => {
                assert(shutdown_order()[1] == (ShutdownAction::StopRpc { kind }));
            }
            DaemonKind::Bitassets => {
                assert(shutdown_order()[2] == (ShutdownAction::StopRpc { kind }));
            }
            DaemonKind::Bitnames => {
                assert(shutdown_order()[3] == (ShutdownAction::StopRpc { kind }));
            }
            DaemonKind::Zcash => {
                assert(shutdown_order()[4] == (ShutdownAction::StopRpc { kind }));
            }
            DaemonKind::Ethereum => {}
        }
    }
}

} // verus!
