//! The broker that hands out each of the two peripheral bundles once.
//!
//! A [`ResourceBroker`] records which bundles have been handed out since the
//! program started. Each bundle is granted to the first caller that asks for
//! it and refused to every later one; nothing ever gives a bundle back.

use vstd::prelude::*;
use crate::hardware::{TraceUnit, TRACE_UNIT_BASE};

verus! {

/// The two disjoint groups of peripherals that can be owned.
#[derive(Clone, Copy, Debug, PartialEq, Eq, Structural)]
pub enum Bundle {
    /// The processor's own debug and trace peripherals.
    Core,
    /// The device's memory-mapped peripherals: clock control and GPIO banks.
    Device,
}

/// Why an acquisition was refused.
#[derive(Clone, Copy, Debug, PartialEq, Eq, Structural)]
pub enum AcquireError {
    /// The bundle was handed out earlier in the life of the program.
    AlreadyAcquired,
}

/// Exclusive ownership of the core peripherals.
#[derive(Debug, PartialEq, Eq)]
pub struct CoreBundle {
    /// The trace-output unit.
    pub trace_unit: TraceUnit,
}

/// Exclusive ownership of the device peripherals.
#[derive(Debug, PartialEq, Eq)]
pub struct DeviceBundle {
    token: (),
}

/// The broker itself. Its view is the set of bundles that have been taken.
#[derive(Debug)]
pub struct ResourceBroker {
    core_taken: bool,
    device_taken: bool,
}

impl View for ResourceBroker {
    type V = Set<Bundle>;

    closed spec fn view(&self) -> Set<Bundle> {
        Set::new(
            |bundle: Bundle|
                match bundle {
                    Bundle::Core => self.core_taken,
                    Bundle::Device => self.device_taken,
                },
        )
    }
}

impl ResourceBroker {
    /// The broker of a program that has just started: nothing is taken.
    pub fn new() -> (broker: ResourceBroker)
        ensures
            broker@ == Set::<Bundle>::empty(),
    {
        let broker = ResourceBroker { core_taken: false, device_taken: false };
        assert(broker@ =~= Set::<Bundle>::empty());
        broker
    }

    /// Whether `bundle` has been handed out.
    pub fn is_taken(&self, bundle: Bundle) -> (taken: bool)
        ensures
            taken == self@.contains(bundle),
    {
        match bundle {
            Bundle::Core => self.core_taken,
            Bundle::Device => self.device_taken,
        }
    }

    /// Hands out the core bundle if it has not been handed out before, and
    /// marks it as taken either way. The device bundle is not affected.
    pub fn acquire_core(&mut self) -> (granted: Result<CoreBundle, AcquireError>)
        ensures
            final(self)@ == old(self)@.insert(Bundle::Core),
            granted is Ok <==> !old(self)@.contains(Bundle::Core),
            granted matches Ok(bundle) ==> bundle.trace_unit.address() == TRACE_UNIT_BASE,
            granted matches Err(error) ==> error == AcquireError::AlreadyAcquired,
    {
        if self.core_taken {
            assert(self@ =~= old(self)@.insert(Bundle::Core));
            Err(AcquireError::AlreadyAcquired)
        } else {
            self.core_taken = true;
            assert(self@ =~= old(self)@.insert(Bundle::Core));
            Ok(CoreBundle { trace_unit: TraceUnit::owned() })
        }
    }

    /// Hands out the device bundle if it has not been handed out before, and
    /// marks it as taken either way. The core bundle is not affected.
    pub fn acquire_device(&mut self) -> (granted: Result<DeviceBundle, AcquireError>)
        ensures
            final(self)@ == old(self)@.insert(Bundle::Device),
            granted is Ok <==> !old(self)@.contains(Bundle::Device),
            granted matches Err(error) ==> error == AcquireError::AlreadyAcquired,
    {
        if self.device_taken {
            assert(self@ =~= old(self)@.insert(Bundle::Device));
            Err(AcquireError::AlreadyAcquired)
        } else {
            self.device_taken = true;
            assert(self@ =~= old(self)@.insert(Bundle::Device));
            Ok(DeviceBundle { token: () })
        }
    }
}

/// The bundles that are taken once every bundle of `attempts` has been asked
/// for in turn, by a program in which `taken` were taken before. Each
/// acquisition leaves its bundle taken, as [`ResourceBroker::acquire_core`]
/// and [`ResourceBroker::acquire_device`] do.
pub open spec fn taken_after(taken: Set<Bundle>, attempts: Seq<Bundle>) -> Set<Bundle>
    decreases attempts.len(),
{
    if attempts.len() == 0 {
        taken
    } else {
        taken_after(taken, attempts.drop_last()).insert(attempts.last())
    }
}

/// Whether the acquisition at position `at` of `attempts` is granted, when
/// the acquisitions are made in turn by a program in which `taken` were
/// taken before. An acquisition is granted exactly if its bundle is not
/// taken when it is made.
pub open spec fn granted_at(taken: Set<Bundle>, attempts: Seq<Bundle>, at: int) -> bool {
    !taken_after(taken, attempts.take(at)).contains(attempts[at])
}

/// A bundle is taken after a run of acquisitions exactly if it was taken
/// before the run or was asked for in it.
pub proof fn lemma_taken_after(taken: Set<Bundle>, attempts: Seq<Bundle>, bundle: Bundle)
    ensures
        taken_after(taken, attempts).contains(bundle) <==> taken.contains(bundle)
            || attempts.contains(bundle),
    decreases attempts.len(),
{
    if attempts.len() > 0 {
        let earlier = attempts.drop_last();
        lemma_taken_after(taken, earlier, bundle);
        if attempts.contains(bundle) {
            let i = choose|i: int| 0 <= i < attempts.len() && attempts[i] == bundle;
            if i < earlier.len() {
                assert(earlier[i] == bundle);
            }
        }
        if earlier.contains(bundle) {
            let i = choose|i: int| 0 <= i < earlier.len() && earlier[i] == bundle;
            assert(attempts[i] == bundle);
        }
        if attempts.last() == bundle {
            assert(attempts[attempts.len() - 1] == bundle);
        }
    }
}

/// In a program that starts with nothing taken, an acquisition is granted
/// exactly if no earlier acquisition asked for the same bundle.
pub proof fn law_granted_iff_first(attempts: Seq<Bundle>, at: int)
    requires
        0 <= at < attempts.len(),
    ensures
        granted_at(Set::empty(), attempts, at) <==> forall|k: int|
            0 <= k < at ==> attempts[k] != attempts[at],
{
    let earlier = attempts.take(at);
    lemma_taken_after(Set::empty(), earlier, attempts[at]);
    if earlier.contains(attempts[at]) {
        let i = choose|i: int| 0 <= i < earlier.len() && earlier[i] == attempts[at];
        assert(attempts[i] == attempts[at]);
    } else {
        assert forall|k: int| 0 <= k < at implies attempts[k] != attempts[at] by {
            assert(earlier[k] == attempts[k]);
        }
    }
}

/// Of all the acquisitions of one bundle that a program makes, the first is
/// granted and every later one is refused, whatever acquisitions of the
/// other bundle come before, between or after them.
pub proof fn law_acquired_exactly_once(attempts: Seq<Bundle>, first: int, later: int)
    requires
        0 <= first < later < attempts.len(),
        attempts[first] == attempts[later],
        forall|k: int| 0 <= k < first ==> attempts[k] != attempts[first],
    ensures
        granted_at(Set::empty(), attempts, first),
        !granted_at(Set::empty(), attempts, later),
{
    law_granted_iff_first(attempts, first);
    law_granted_iff_first(attempts, later);
}

} // verus!
