//! Dropping the privileges of the superuser once the sockets are bound.

use vstd::prelude::*;

verus! {

/// The user id of the superuser.
pub const ROOT_UID: u32 = 0;

/// The ids of the user to switch to.
#[derive(Debug, Clone, Copy, PartialEq, Eq, Structural)]
pub struct User {
    pub uid: u32,
    pub gid: u32,
}

/// One call that gives privileges up.
#[derive(Debug, Clone, Copy, PartialEq, Eq, Structural)]
pub enum PrivilegeStep {
    /// Set the supplementary groups to none.
    ClearGroups,
    /// Set the group id.
    SetGid(u32),
    /// Set the user id.
    SetUid(u32),
}

/// Whether a process that runs as `effective_uid` is to switch to `user`:
/// it is the superuser and `user` is not.
pub fn should_drop_root(effective_uid: u32, user: &User) -> (yes: bool)
    ensures
        yes == (effective_uid == ROOT_UID && user.uid != ROOT_UID),
{
    effective_uid == ROOT_UID && user.uid != ROOT_UID
}

/// The calls that switch the process to `user`, in the order in which they
/// have to be made: the groups go first and the user id last, since each
/// call needs the privileges that the later ones give up.
pub fn drop_root(user: &User) -> (steps: [PrivilegeStep; 3])
    ensures
        steps@ == seq![
            PrivilegeStep::ClearGroups,
            PrivilegeStep::SetGid(user.gid),
            PrivilegeStep::SetUid(user.uid),
        ],
{
    let steps = [
        PrivilegeStep::ClearGroups,
        PrivilegeStep::SetGid(user.gid),
        PrivilegeStep::SetUid(user.uid),
    ];
    assert(steps@ =~= seq![
        PrivilegeStep::ClearGroups,
        PrivilegeStep::SetGid(user.gid),
        PrivilegeStep::SetUid(user.uid),
    ]);
    steps
}

} // verus!
