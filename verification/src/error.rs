use vstd::prelude::*;

verus! {

/// Failures a generation session can report.
///
/// The first three variants are internal invariant violations: they mean the
/// driver or the upstream resolver broke its contract, never that the user's
/// IDL was malformed. A session that hits one aborts; nothing is retried.
/// `NotImplemented` reports a missing optional backend capability and is the
/// caller's cue to pick another backend or drop the declaration kind.
#[derive(Clone, Copy, Debug, PartialEq, Eq, Structural)]
pub enum IDLError {
    /// A generation operation was invoked on a declaration of a different
    /// kind than the operation handles.
    VariantMismatch,
    /// The same identifier was defined twice in one session's registry.
    DuplicateDefinition,
    /// A reference names an identifier the registry has not seen: the driver
    /// presented declarations out of dependency order.
    UnresolvedReference,
    /// The backend does not support emitting this declaration kind.
    NotImplemented,
}

} // verus!
