//! Startup transport selection with automatic fallback.
//!
//! The pipeline first tries to construct the real transport; the native
//! binding reports whether that construction succeeded. The selector turns
//! that outcome into a mode — never failing outward: when the real transport
//! is unavailable it produces a fresh mock system instead, and either way a
//! human-readable label records the decision.

use vstd::prelude::*;
use crate::message::MsgView;
use crate::mock::MockDDSSystem;

verus! {

/// Which backend the pipeline runs on after startup.
#[derive(Clone, Copy, Debug, PartialEq, Eq, Structural)]
pub enum TransportMode {
    /// The real native transport was constructed and is in use.
    Real,
    /// The real transport could not be initialized; the in-process mock
    /// stands in for it.
    MockFallback,
}

/// The status label of a mode, as the dashboard shows it.
pub open spec fn spec_mode_status(mode: TransportMode) -> Seq<char> {
    match mode {
        TransportMode::Real => "Using real Fast DDS"@,
        TransportMode::MockFallback => "Using mock DDS (Fast DDS failed)"@,
    }
}

/// Selects the transport from the outcome of the attempted real-transport
/// construction. This never fails: when the real transport is unavailable it
/// returns a fresh, empty mock system to run on instead.
pub fn select_transport(real_available: bool) -> (r: (TransportMode, Option<MockDDSSystem>))
    ensures
        r.0 == TransportMode::Real <==> real_available,
        r.1 is Some <==> !real_available,
        r.1 matches Some(m) ==> m@ == Seq::<MsgView>::empty() && m.wf(),
{
    if real_available {
        (TransportMode::Real, None)
    } else {
        (TransportMode::MockFallback, Some(MockDDSSystem::new()))
    }
}

/// The human-readable status label recording the selector's decision.
pub fn mode_status(mode: TransportMode) -> (r: String)
    ensures
        r@ == spec_mode_status(mode),
{
    match mode {
        TransportMode::Real => "Using real Fast DDS".to_owned(),
        TransportMode::MockFallback => "Using mock DDS (Fast DDS failed)".to_owned(),
    }
}

} // verus!
