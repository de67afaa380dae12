use vstd::prelude::*;

verus! {

/// Everything that can end a synchronisation run inside the library.
#[derive(Debug, Clone, PartialEq, Eq)]
pub enum SyncError {
    /// An input entry names neither `translation` nor `translations`.
    MissingTranslation { key: String },
    /// An input entry names both `translation` and `translations`.
    BothTranslations { key: String },
    /// No remote project carries the requested name.
    ProjectNotFound { name: String },
    /// A remote key uses different names on different platforms.
    PlatformNameMismatch,
    /// A requested key already exists remotely.
    DuplicateKey { key: String },
    /// The create call was refused for lack of permission.
    Unauthorized,
    /// The create call was refused with some other remote error.
    Remote { code: u32, message: String },
    /// The create response reads both as a success and as an error.
    AmbiguousResponse,
    /// The create response reads neither as a success nor as an error.
    UnparseableResponse,
    /// Some requested keys were not confirmed as created.
    PartialFailure,
}

} // verus!
