//! Repository settings: the immutable configuration selected when a cache
//! repository is first created.
//!
//! The cache exposes no configuration surface: every repository is
//! initialized with the same fixed selections — a strong cryptographic hash
//! for content addressing, no compression and no encryption. The selections
//! are fixed at initialization time and never re-negotiated on open.

use vstd::prelude::*;

verus! {

/// The hashing algorithm used for content addressing.
#[derive(Clone, Copy, Debug, PartialEq, Eq, Structural)]
pub enum Hashing {
    Sha256,
    Blake2b,
}

/// The compression mode applied to stored chunks.
#[derive(Clone, Copy, Debug, PartialEq, Eq, Structural)]
pub enum Compression {
    Disabled,
}

/// The encryption mode applied to stored chunks.
#[derive(Clone, Copy, Debug, PartialEq, Eq, Structural)]
pub enum Encryption {
    Curve25519,
    Disabled,
}

/// The settings a cache repository is created with. Immutable for the life
/// of the repository.
#[derive(Clone, Copy, Debug, PartialEq, Eq, Structural)]
pub struct Settings {
    pub hashing: Hashing,
    pub compression: Compression,
    pub encryption: Encryption,
}

/// The one settings value this cache ever initializes a repository with:
/// Blake2b hashing, no compression, no encryption.
pub open spec fn spec_default_settings() -> Settings {
    Settings {
        hashing: Hashing::Blake2b,
        compression: Compression::Disabled,
        encryption: Encryption::Disabled,
    }
}

impl Settings {
    /// Builds the fixed settings every cache repository is created with.
    pub fn cache_defaults() -> (s: Settings)
        ensures
            s == spec_default_settings(),
    {
        Settings {
            hashing: Hashing::Blake2b,
            compression: Compression::Disabled,
            encryption: Encryption::Disabled,
        }
    }
}

/// Settings immutability: any two settings values produced for repository
/// initialization carry identical hashing, compression and encryption
/// selections, regardless of process environment — there is no input that
/// could make them differ.
pub proof fn lemma_settings_immutable(s1: Settings, s2: Settings)
    requires
        s1 == spec_default_settings(),
        s2 == spec_default_settings(),
    ensures
        s1 == s2,
        s1.hashing == Hashing::Blake2b,
        s1.compression == Compression::Disabled,
        s1.encryption == Encryption::Disabled,
{
}

} // verus!
