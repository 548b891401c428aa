//! Whether the helper runs as root, and what to do when it does not.

use vstd::prelude::*;

verus! {

/// Calls `nix::unistd::Uid::current().is_root()`: whether the real user id of
/// this process is 0. Nothing is claimed of the result, which depends on the
/// process.
#[verifier::external_body]
fn process_uid_is_root() -> (r: bool) {
    nix::unistd::Uid::current().is_root()
}

/// Whether the helper counts as root: the test override `MOCK_NON_ROOT`
/// (`mock_non_root`) says no, else `MOCK_ROOT` says yes, else the user id
/// decides (`uid_is_root`).
pub open spec fn root_spec(mock_non_root: bool, mock_root: bool, uid_is_root: bool) -> bool {
    if mock_non_root {
        false
    } else if mock_root {
        true
    } else {
        uid_is_root
    }
}

/// The decision of `is_root` for a given user id check.
pub fn root_decision(mock_non_root: bool, mock_root: bool, uid_is_root: bool) -> (r: bool)
    ensures
        r == root_spec(mock_non_root, mock_root, uid_is_root),
{
    if mock_non_root {
        false
    } else if mock_root {
        true
    } else {
        uid_is_root
    }
}

/// Returns true if the helper runs with root privileges (UID 0), given
/// whether the `MOCK_NON_ROOT` and `MOCK_ROOT` variables are set. The user id
/// is read only when neither is.
pub fn is_root(mock_non_root: bool, mock_root: bool) -> (r: bool)
    ensures
        mock_non_root ==> !r,
        !mock_non_root && mock_root ==> r,
{
    if mock_non_root || mock_root {
        root_decision(mock_non_root, mock_root, false)
    } else {
        let uid_root = process_uid_is_root();
        root_decision(mock_non_root, mock_root, uid_root)
    }
}

/// What to do about privileges before the interface starts.
#[derive(Clone, Copy, Debug, PartialEq, Eq, Structural)]
pub enum Escalation {
    /// Already root: go on.
    Proceed,
    /// Test mode without root: exit with this code instead of calling sudo.
    MockExit(i32),
    /// Relaunch the program through `sudo -E` and exit with its code.
    Relaunch,
}

/// The step that `verify_and_escalate` takes.
pub fn escalation(is_root: bool, mock_non_root: bool) -> (e: Escalation)
    ensures
        is_root ==> e == Escalation::Proceed,
        !is_root && mock_non_root ==> e == Escalation::MockExit(100),
        !is_root && !mock_non_root ==> e == Escalation::Relaunch,
{
    if is_root {
        Escalation::Proceed
    } else if mock_non_root {
        Escalation::MockExit(100)
    } else {
        Escalation::Relaunch
    }
}

/// The exit code after a relaunch: the child's code, or 1 when it had none.
pub fn relaunch_exit_code(code: Option<i32>) -> (c: i32)
    ensures
        c == match code {
            Some(x) => x,
            None => 1,
        },
{
    match code {
        Some(x) => x,
        None => 1,
    }
}


/// The helper counts as root exactly when `MOCK_NON_ROOT` is not set and
/// either `MOCK_ROOT` is set or the user id is root: `MOCK_NON_ROOT` wins
/// over everything, and the user id matters only when neither is set.
pub proof fn lemma_root_decision(mock_non_root: bool, mock_root: bool, uid_is_root: bool)
    ensures
        root_spec(mock_non_root, mock_root, uid_is_root) <==> !mock_non_root && (mock_root
            || uid_is_root),
        !mock_non_root && !mock_root ==> root_spec(mock_non_root, mock_root, uid_is_root)
            == uid_is_root,
{
}

} // verus!
