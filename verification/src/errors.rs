use vstd::prelude::*;

verus! {

/// Errors surfaced by the device-session core.
///
/// Every variant carries plain data only; the CLI layer wraps transport and
/// I/O failures of its own around these when reporting to the user.
#[derive(Debug, PartialEq, Eq)]
pub enum CliError {
    /// No serial device was found during enumeration.
    NoDevice,
    /// No controller-class device was found during filtered enumeration.
    NoController,
    /// No slot number could be resolved from any configuration source.
    NoSlot,
    /// The resolved slot number lies outside the valid range of 1 through 8.
    SlotOutOfRange,
    /// The given icon identifier is not a recognized program icon.
    InvalidIcon(String),
    /// No uploadable build artifact could be resolved.
    NoArtifact,
    /// The radio did not converge to the requested channel before the deadline.
    RadioChannelTimeout,
    /// The target directory for a new project already contains files.
    ProjectDirFull(String),
    /// A project metadata field had an unexpected type.
    BadFieldType {
        /// Field name.
        field: String,
        /// Expected type.
        expected: String,
        /// Actual type.
        found: String,
    },
}

} // verus!
