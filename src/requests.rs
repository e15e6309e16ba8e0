use vstd::prelude::*;

verus! {

/// A request to unlock one flag.
pub struct UnlockSteamAchievementEvent {
    name: &'static str,
}

impl UnlockSteamAchievementEvent {
    pub fn new(name: &'static str) -> (r: Self)
        ensures
            r.spec_name() == name,
    {
        Self { name }
    }

    pub closed spec fn spec_name(&self) -> &'static str {
        self.name
    }

    pub fn name(&self) -> (r: &'static str)
        ensures
            r == self.spec_name(),
    {
        self.name
    }
}

/// A request to add a non-negative amount to one counter.
pub struct ProgressSteamStatEvent {
    name: &'static str,
    add: u64,
}

impl ProgressSteamStatEvent {
    pub fn new(name: &'static str, add: u64) -> (r: Self)
        ensures
            r.spec_name() == name,
            r.spec_add() == add,
    {
        Self { name, add }
    }

    pub closed spec fn spec_name(&self) -> &'static str {
        self.name
    }

    pub closed spec fn spec_add(&self) -> u64 {
        self.add
    }

    pub fn name(&self) -> (r: &'static str)
        ensures
            r == self.spec_name(),
    {
        self.name
    }

    pub fn add(&self) -> (r: u64)
        ensures
            r == self.spec_add(),
    {
        self.add
    }
}

} // verus!
