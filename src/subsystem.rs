use vstd::prelude::*;

verus! {

/// Users of the process-wide network subsystem, which must be started
/// before the first socket call and torn down after the last user is gone.
/// The counter decides; its owner performs the startup and the teardown.
pub struct NetworkSubsystem {
    users: u64,
}

impl View for NetworkSubsystem {
    type V = nat;

    closed spec fn view(&self) -> nat {
        self.users as nat
    }
}

impl NetworkSubsystem {
    /// No user yet: the subsystem is not started.
    pub fn new() -> (r: NetworkSubsystem)
        ensures
            r@ == 0,
    {
        NetworkSubsystem { users: 0 }
    }

    /// The number of current users.
    pub fn users(&self) -> (r: u64)
        ensures
            r == self@,
    {
        self.users
    }

    /// Whether the subsystem is started, that is, has a user.
    pub fn is_started(&self) -> (r: bool)
        ensures
            r == (self@ > 0),
    {
        self.users > 0
    }

    /// Counts one more user; returns whether it is the first, so that the
    /// subsystem must be started now.
    pub fn acquire(&mut self) -> (start: bool)
        requires
            old(self)@ < u64::MAX,
        ensures
            final(self)@ == old(self)@ + 1,
            start == (old(self)@ == 0),
    {
        self.users = self.users + 1;
        self.users == 1
    }

    /// Counts one user less; returns whether it was the last, so that the
    /// subsystem must be torn down now. With no user it does nothing, so a
    /// teardown never happens twice.
    pub fn release(&mut self) -> (stop: bool)
        ensures
            old(self)@ == 0 ==> final(self)@ == 0 && !stop,
            old(self)@ > 0 ==> final(self)@ == old(self)@ - 1 && stop == (old(self)@ == 1),
    {
        if self.users == 0 {
            false
        } else {
            self.users = self.users - 1;
            self.users == 0
        }
    }
}

} // verus!
