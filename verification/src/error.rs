use vstd::prelude::*;

verus! {

/// The failures a caller of this library must handle.
///
/// Absent optional values (an informational string the font does not carry,
/// a locale with no matching row) are not errors; every other failure is
/// reported through one of these variants.
#[derive(Debug, Clone, Copy, PartialEq, Eq, Structural)]
pub enum Error {
    /// The native subsystem could not be initialized.
    Creation,
    /// The requested capability tier is not available on this system.
    UnsupportedCapability,
    /// An index lay outside the valid range of a collection or table.
    Index,
    /// Returned text was not valid under the host string encoding.
    Decode,
    /// Any other native-call failure, carrying the underlying status code.
    NativeCall(i32),
}

} // verus!
