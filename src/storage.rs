//! Keys of the persistent key-value store.

use vstd::prelude::*;

verus! {

/// What each stored entry is.
#[derive(Clone, Copy, Debug, PartialEq, Eq, Structural)]
pub enum StorageKey {
    Marker,
    RecordData,
    ConfigSettings,
}

/// Why a key cannot be written or read.
#[derive(Clone, Copy, Debug, PartialEq, Eq, Structural)]
pub enum KeyError {
    BufferTooSmall,
    InvalidFormat,
    InvalidData,
}

pub open spec fn key_byte(k: StorageKey) -> u8 {
    match k {
        StorageKey::Marker => 0x01,
        StorageKey::RecordData => 0x02,
        StorageKey::ConfigSettings => 0x03,
    }
}

impl StorageKey {
    /// The one byte that stands for the key.
    pub fn to_byte(&self) -> (r: u8)
        ensures
            r == key_byte(*self),
    {
        match self {
            StorageKey::Marker => 0x01,
            StorageKey::RecordData => 0x02,
            StorageKey::ConfigSettings => 0x03,
        }
    }

    /// The key a byte stands for.
    pub fn from_byte(b: u8) -> (r: Option<StorageKey>)
        ensures
            r is Some <==> 1 <= b <= 3,
            r is Some ==> key_byte(r->0) == b,
    {
        if b == 0x01 {
            Some(StorageKey::Marker)
        } else if b == 0x02 {
            Some(StorageKey::RecordData)
        } else if b == 0x03 {
            Some(StorageKey::ConfigSettings)
        } else {
            None
        }
    }

    /// Writes the key's byte at the start of `buffer`; returns the length used.
    pub fn serialize_into(&self, buffer: &mut [u8]) -> (r: Result<usize, KeyError>)
        ensures
            old(buffer)@.len() < 1 ==> r == Err::<usize, KeyError>(KeyError::BufferTooSmall)
                && final(buffer)@ == old(buffer)@,
            old(buffer)@.len() >= 1 ==> r == Ok::<usize, KeyError>(1) && final(buffer)@ == old(
                buffer,
            )@.update(0, key_byte(*self)),
    {
        if buffer.len() < 1 {
            return Err(KeyError::BufferTooSmall);
        }
        buffer[0] = self.to_byte();
        Ok(1)
    }

    /// Reads a key from the start of `buffer`, with the length it used.
    pub fn deserialize_from(buffer: &[u8]) -> (r: Result<(StorageKey, usize), KeyError>)
        ensures
            buffer@.len() < 1 ==> r == Err::<(StorageKey, usize), KeyError>(
                KeyError::InvalidFormat,
            ),
            buffer@.len() >= 1 && !(1 <= buffer@[0] <= 3) ==> r == Err::<
                (StorageKey, usize),
                KeyError,
            >(KeyError::InvalidData),
            buffer@.len() >= 1 && 1 <= buffer@[0] <= 3 ==> r is Ok && key_byte(r->Ok_0.0)
                == buffer@[0] && r->Ok_0.1 == 1,
    {
        if buffer.len() < 1 {
            return Err(KeyError::InvalidFormat);
        }
        match StorageKey::from_byte(buffer[0]) {
            Some(key) => Ok((key, 1)),
            None => Err(KeyError::InvalidData),
        }
    }
}

/// A value kept in the store under a fixed key.
pub trait StorageEntry {
    spec fn spec_key() -> StorageKey;

    fn key() -> (r: StorageKey)
        ensures
            r == Self::spec_key(),
    ;
}

/// The entry whose presence shows that the store was initialized.
#[derive(Clone, Copy, Debug, PartialEq, Eq, Structural)]
pub struct Marker;

impl StorageEntry for Marker {
    open spec fn spec_key() -> StorageKey {
        StorageKey::Marker
    }

    fn key() -> (r: StorageKey) {
        StorageKey::Marker
    }
}

impl StorageEntry for crate::record::Data {
    open spec fn spec_key() -> StorageKey {
        StorageKey::RecordData
    }

    fn key() -> (r: StorageKey) {
        StorageKey::RecordData
    }
}

impl StorageEntry for crate::config::Settings {
    open spec fn spec_key() -> StorageKey {
        StorageKey::ConfigSettings
    }

    fn key() -> (r: StorageKey) {
        StorageKey::ConfigSettings
    }
}

} // verus!
