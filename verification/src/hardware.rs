//! Fixed addresses of the memory-mapped register blocks, and the handles
//! that stand for access to them.
//!
//! A handle holds the address of the register block it refers to. An owned
//! handle ([`TraceUnit`]) is only ever made when a bundle is acquired; an
//! unchecked view ([`TraceView`]) can be made at any time and claims no
//! ownership.

use vstd::prelude::*;

verus! {

/// Base address of the trace-output unit's register block.
pub const TRACE_UNIT_BASE: usize = 0xE000_0000;

/// Base address of the GPIO register block that is exposed for diagnostics.
pub const DIAGNOSTICS_BASE: usize = 0x4800_1000;

/// The address `cortex_m::peripheral::ITM::ptr` returns. The contract claims
/// that it is the fixed address `0xE000_0000`, which is the value of the
/// constant that function hands back.
#[verifier::external_body]
#[allow(deprecated)]
fn trace_unit_base() -> (base: usize)
    ensures
        base == TRACE_UNIT_BASE,
{
    cortex_m::peripheral::ITM::ptr() as usize
}

/// The address `f3::hal::stm32f30x::GPIOE::ptr` returns. The contract claims
/// that it is the fixed address `0x4800_1000` (1207963648), which is the
/// number that function casts to a pointer.
#[verifier::external_body]
fn diagnostics_base() -> (base: usize)
    ensures
        base == DIAGNOSTICS_BASE,
{
    f3::hal::stm32f30x::GPIOE::ptr() as usize
}

/// Exclusive access to the trace-output unit. It is not `Clone`: the only
/// way to one is through the core bundle.
#[derive(Debug, PartialEq, Eq)]
pub struct TraceUnit {
    base: usize,
}

impl TraceUnit {
    /// The address of the register block this handle refers to.
    pub closed spec fn address(&self) -> usize {
        self.base
    }

    /// Makes the owned handle. Only the acquisition of the core bundle calls
    /// this.
    pub(crate) fn owned() -> (unit: TraceUnit)
        ensures
            unit.address() == TRACE_UNIT_BASE,
    {
        TraceUnit { base: trace_unit_base() }
    }

    /// The address of the register block this handle refers to.
    pub fn base(&self) -> (base: usize)
        ensures
            base == self.address(),
    {
        self.base
    }
}

/// A view of the trace-output unit that claims no ownership. The fault trap
/// reaches the unit through one of these, because the owner of the
/// [`TraceUnit`] may have been interrupted in the middle of using it.
#[derive(Clone, Copy, Debug, PartialEq, Eq)]
pub struct TraceView {
    base: usize,
}

impl TraceView {
    /// The address of the register block this view refers to.
    pub closed spec fn address(&self) -> usize {
        self.base
    }

    /// Derives a view of the trace-output unit from its fixed address,
    /// whoever owns the unit.
    pub fn unchecked() -> (view: TraceView)
        ensures
            view.address() == TRACE_UNIT_BASE,
    {
        TraceView { base: trace_unit_base() }
    }

    /// The address of the register block this view refers to.
    pub fn base(&self) -> (base: usize)
        ensures
            base == self.address(),
    {
        self.base
    }
}

/// A read-only reference to a GPIO register block. It claims no ownership,
/// so it stays valid for the rest of the program and can be copied freely.
#[derive(Clone, Copy, Debug, PartialEq, Eq)]
pub struct RegisterBlock {
    base: usize,
}

impl RegisterBlock {
    /// The address of the register block this reference resolves to.
    pub closed spec fn address(&self) -> usize {
        self.base
    }

    /// Derives the reference to the diagnostics register block from its
    /// fixed address.
    pub fn diagnostics() -> (block: RegisterBlock)
        ensures
            block.address() == DIAGNOSTICS_BASE,
    {
        RegisterBlock { base: diagnostics_base() }
    }

    /// The address of the register block this reference resolves to.
    pub fn base(&self) -> (base: usize)
        ensures
            base == self.address(),
    {
        self.base
    }
}

} // verus!
