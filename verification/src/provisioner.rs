//! The Link Provisioner: the helper process's argument contract and the
//! teardown plan.
//!
//! An external pairing helper can provision two linked pseudo-terminal
//! endpoints to simulate a physical serial link. It is invoked with one
//! argument per endpoint, of the form `PTY,link=<path>,raw,echo=0`, built
//! here. When the helper was spawned, shutdown must terminate it and then
//! remove the two device files it created, in that order; the provisioner
//! computes that plan, and the surrounding application spawns the helper and
//! carries each teardown operation out.

use vstd::prelude::*;
use vstd::string::StringExecFns;

verus! {

/// The helper's argument for one endpoint: a pseudo-terminal bound to the
/// given path, in raw mode with echo disabled.
pub fn pty_link_arg(path: &str) -> (s: String)
    ensures
        s@ =~= "PTY,link="@ + path@ + ",raw,echo=0"@,
{
    let mut s = String::from_str("PTY,link=");
    s.append(path);
    s.append(",raw,echo=0");
    s
}

/// One teardown operation, in the order the application must perform them.
#[derive(Clone, Copy, PartialEq, Eq, Structural, Debug)]
pub enum TeardownOp {
    /// Terminate the pairing-helper process.
    TerminateHelper,
    /// Delete the device file at the configured source path.
    RemoveSourceLink,
    /// Delete the device file at the configured target path.
    RemoveTargetLink,
}

/// Tracks whether a helper was spawned for this run and whether teardown has
/// already been performed.
pub struct Provisioner {
    pub spawned: bool,
    pub torn_down: bool,
}

/// The operations a teardown call asks for: terminate the helper, then remove
/// the source link, then the target link — but only when a helper was spawned
/// and no teardown has run yet.
pub open spec fn teardown_ops(p: Provisioner) -> Seq<TeardownOp> {
    if p.spawned && !p.torn_down {
        seq![
            TeardownOp::TerminateHelper,
            TeardownOp::RemoveSourceLink,
            TeardownOp::RemoveTargetLink,
        ]
    } else {
        Seq::empty()
    }
}

/// The provisioner's state after a teardown call.
pub open spec fn after_teardown(p: Provisioner) -> Provisioner {
    Provisioner { spawned: p.spawned, torn_down: true }
}

impl Provisioner {
    /// A provisioner for a run; `spawned` records whether the helper process
    /// was started.
    pub fn new(spawned: bool) -> (p: Provisioner)
        ensures
            p.spawned == spawned,
            !p.torn_down,
    {
        Provisioner { spawned, torn_down: false }
    }

    /// Computes the teardown plan and marks teardown as done. A second call
    /// is a no-op: it returns an empty plan rather than asking the
    /// application to re-delete files that are already gone.
    pub fn teardown(&mut self) -> (ops: Vec<TeardownOp>)
        ensures
            *final(self) == after_teardown(*old(self)),
            ops@ =~= teardown_ops(*old(self)),
    {
        let mut ops: Vec<TeardownOp> = Vec::new();
        if self.spawned && !self.torn_down {
            ops.push(TeardownOp::TerminateHelper);
            ops.push(TeardownOp::RemoveSourceLink);
            ops.push(TeardownOp::RemoveTargetLink);
        }
        self.torn_down = true;
        ops
    }
}

/// Ordering law: when a helper was spawned and teardown has not run yet, the
/// plan terminates the helper strictly before either device file is removed.
pub proof fn lemma_teardown_ordering(p: Provisioner)
    requires
        p.spawned,
        !p.torn_down,
    ensures
        teardown_ops(p).len() == 3,
        teardown_ops(p)[0] == TeardownOp::TerminateHelper,
        teardown_ops(p)[1] == TeardownOp::RemoveSourceLink,
        teardown_ops(p)[2] == TeardownOp::RemoveTargetLink,
{
}

/// Idempotence law: after one teardown, a further teardown asks for no
/// operations at all.
pub proof fn lemma_teardown_idempotent(p: Provisioner)
    ensures
        teardown_ops(after_teardown(p)) =~= Seq::<TeardownOp>::empty(),
{
}

} // verus!
