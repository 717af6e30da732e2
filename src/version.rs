//! Engine and moc3 version identifiers, and the errors of decoding a moc.

use vstd::prelude::*;

verus! {

/// Cubism version identifier, packed as `0xMMmmpppp` (major, minor, patch).
#[derive(Clone, Copy, Debug, PartialEq, Eq, Structural, Hash)]
pub struct CubismVersion(pub u32);

impl CubismVersion {
    pub open spec fn major_spec(self) -> nat {
        self.0 as nat / 0x100_0000
    }

    pub open spec fn minor_spec(self) -> nat {
        (self.0 as nat / 0x1_0000) % 0x100
    }

    pub open spec fn patch_spec(self) -> nat {
        self.0 as nat % 0x1_0000
    }

    /// The packed value as the engine reports it.
    pub fn raw(&self) -> (r: u32)
        ensures
            r == self.0,
    {
        self.0
    }

    /// The top byte.
    pub fn major(&self) -> (r: u32)
        ensures
            r == self.major_spec(),
    {
        let v = self.0;
        let r = (v & 0xFF00_0000u32) >> 24u32;
        assert(r == v / 0x100_0000) by (bit_vector)
            requires
                r == (v & 0xFF00_0000u32) >> 24u32,
        ;
        r
    }

    /// The second byte from the top.
    pub fn minor(&self) -> (r: u32)
        ensures
            r == self.minor_spec(),
    {
        let v = self.0;
        let r = (v & 0x00FF_0000u32) >> 16u32;
        assert(r == (v / 0x1_0000) % 0x100) by (bit_vector)
            requires
                r == (v & 0x00FF_0000u32) >> 16u32,
        ;
        r
    }

    /// The two low bytes.
    pub fn patch(&self) -> (r: u32)
        ensures
            r == self.patch_spec(),
    {
        let v = self.0;
        let r = v & 0x0000_FFFFu32;
        assert(r == v % 0x1_0000) by (bit_vector)
            requires
                r == v & 0x0000_FFFFu32,
        ;
        r
    }
}

/// moc3 file format version.
///
/// The engine's "unknown" version has no variant here: a moc of unknown version is
/// not a valid moc.
#[derive(Clone, Copy, Debug, PartialEq, Eq, Structural, Hash)]
pub enum MocVersion {
    /// moc3 file version 3.0.00 - 3.2.07
    Moc3_30,
    /// moc3 file version 3.3.00 - 3.3.03
    Moc3_33,
    /// moc3 file version 4.0.00 - 4.1.05
    Moc3_40,
    /// moc3 file version 4.2.00 -
    Moc3_42,
}

impl MocVersion {
    /// The number the engine uses for this version.
    pub open spec fn raw_spec(self) -> u32 {
        match self {
            MocVersion::Moc3_30 => 1,
            MocVersion::Moc3_33 => 2,
            MocVersion::Moc3_40 => 3,
            MocVersion::Moc3_42 => 4,
        }
    }

    /// The version that the engine's number stands for, if any.
    pub open spec fn from_raw_spec(raw: u32) -> Option<MocVersion> {
        if raw == 1 {
            Some(MocVersion::Moc3_30)
        } else if raw == 2 {
            Some(MocVersion::Moc3_33)
        } else if raw == 3 {
            Some(MocVersion::Moc3_40)
        } else if raw == 4 {
            Some(MocVersion::Moc3_42)
        } else {
            None
        }
    }

    pub fn raw(&self) -> (r: u32)
        ensures
            r == self.raw_spec(),
    {
        match self {
            MocVersion::Moc3_30 => 1,
            MocVersion::Moc3_33 => 2,
            MocVersion::Moc3_40 => 3,
            MocVersion::Moc3_42 => 4,
        }
    }

    /// Reads the engine's number for a moc3 version; `None` for any number that
    /// names no known version (the engine's "unknown" included).
    pub fn from_raw(raw: u32) -> (r: Option<MocVersion>)
        ensures
            r == Self::from_raw_spec(raw),
            r matches Some(v) ==> v.raw_spec() == raw,
    {
        if raw == 1 {
            Some(MocVersion::Moc3_30)
        } else if raw == 2 {
            Some(MocVersion::Moc3_33)
        } else if raw == 3 {
            Some(MocVersion::Moc3_40)
        } else if raw == 4 {
            Some(MocVersion::Moc3_42)
        } else {
            None
        }
    }

    /// Whether a moc of this version can be read by an engine whose latest
    /// supported version is `latest`.
    pub open spec fn supported_by(self, latest: MocVersion) -> bool {
        self.raw_spec() <= latest.raw_spec()
    }

    pub fn is_supported_by(&self, latest: MocVersion) -> (r: bool)
        ensures
            r == self.supported_by(latest),
    {
        self.raw() <= latest.raw()
    }
}

/// Errors of deserializing a moc.
#[derive(Clone, Copy, Debug, PartialEq, Eq, Structural)]
pub enum MocError {
    /// Not a valid moc file.
    InvalidMoc,
    /// The moc is newer than the engine can read: `given` is the version number it
    /// declares.
    UnsupportedMocVersion { given: u32, latest_supported: MocVersion },
}

} // verus!
