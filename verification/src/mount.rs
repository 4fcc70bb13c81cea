//! Per-run scoped root filesystem.
//!
//! Every run gets a private writable root prepared under the daemon's
//! temporary directory at a path derived from the run id. The handle walks a
//! one-way life cycle — prepared, active, released — and the caller performs
//! the actual mount and unmount at exactly those transitions; releasing is
//! final and may be asked for in any state.

use vstd::prelude::*;

use crate::fmt::{dec_digits, u64_to_string};

verus! {

/// Life cycle of a run's private root.
#[derive(Clone, Copy, PartialEq, Eq, Structural, Debug)]
pub enum MountState {
    /// The directory is laid out but nothing is mounted yet.
    Prepared,
    /// The union mount is up and the jailed child may use it.
    Active,
    /// Unmounted and deleted; the path must not be touched again.
    Released,
}

/// The private root filesystem of one run.
pub struct Rootfs {
    path: String,
    state: MountState,
}

impl Rootfs {
    /// Where this run's root lives on the host.
    pub closed spec fn path_spec(self) -> Seq<char> {
        self.path@
    }

    pub closed spec fn state_spec(self) -> MountState {
        self.state
    }

    /// The path a run id maps to under a template directory.
    pub open spec fn spec_run_path(template: Seq<char>, id: u64) -> Seq<char> {
        template + "/"@ + dec_digits(id as nat)
    }

    /// Lay out the private root of run `id` under `template`.
    pub fn prepare(template: &String, id: u64) -> (r: Rootfs)
        ensures
            r.path_spec() == Self::spec_run_path(template@, id),
            r.state_spec() == MountState::Prepared,
    {
        let digits = u64_to_string(id);
        let path = template.clone().concat("/").concat(digits.as_str());
        Rootfs { path, state: MountState::Prepared }
    }

    pub fn get_path(&self) -> (r: &String)
        ensures
            r@ == self.path_spec(),
    {
        &self.path
    }

    pub fn get_state(&self) -> (r: MountState)
        ensures
            r == self.state_spec(),
    {
        self.state
    }

    /// Mark the union mount as up.
    pub fn activate(&mut self)
        requires
            old(self).state_spec() == MountState::Prepared,
        ensures
            final(self).state_spec() == MountState::Active,
            final(self).path_spec() == old(self).path_spec(),
    {
        self.state = MountState::Active;
    }

    /// Mark the root as unmounted and deleted. Final, whatever the prior
    /// state: a release that finds nothing mounted is not an error.
    pub fn release(&mut self)
        ensures
            final(self).state_spec() == MountState::Released,
            final(self).path_spec() == old(self).path_spec(),
    {
        self.state = MountState::Released;
    }
}

} // verus!
