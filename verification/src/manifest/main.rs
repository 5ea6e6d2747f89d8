//! The list of all published game versions (`version_manifest_v2.json`) and
//! the summaries shown in the version table.
use crate::manifest::version;
use crate::text::{contains_spec, str_eq, to_owned_string};
use crate::time::UtcTime;
use vstd::prelude::*;

verus! {

pub struct Main {
    pub latest: Latest,
    pub versions: Vec<Version>,
}

pub struct Latest {
    pub release: String,
    pub snapshot: String,
}

/// One published version: where its manifest lies and when it came out.
pub struct Version {
    pub id: String,
    pub _type: String,
    pub url: String,
    pub time: UtcTime,
    pub release_time: UtcTime,
    pub sha1: String,
    pub compliance_level: u8,
}

/// The release channel of a version in the version table; `Other` keeps a
/// name the launcher does not know.
pub enum VersionType {
    Release,
    Snapshot,
    OldBeta,
    OldAlpha,
    Other(String),
}

/// A row of the version table.
pub struct MinVersion {
    pub id: String,
    pub _type: VersionType,
    pub release_time: UtcTime,
    pub installed: bool,
}

/// `t` is the release channel that the name `s` designates.
pub open spec fn named(t: VersionType, s: Seq<char>) -> bool {
    match t {
        VersionType::Release => s == "release"@,
        VersionType::Snapshot => s == "snapshot"@,
        VersionType::OldBeta => s == "old_beta"@,
        VersionType::OldAlpha => s == "old_alpha"@,
        VersionType::Other(o) => o@ == s && s != "release"@ && s != "snapshot"@ && s
            != "old_beta"@ && s != "old_alpha"@,
    }
}

/// The name of a release channel.
pub open spec fn channel_name(t: VersionType) -> Seq<char> {
    match t {
        VersionType::Release => "release"@,
        VersionType::Snapshot => "snapshot"@,
        VersionType::OldBeta => "old_beta"@,
        VersionType::OldAlpha => "old_alpha"@,
        VersionType::Other(o) => o@,
    }
}

impl Clone for VersionType {
    fn clone(&self) -> (res: Self)
        ensures
            res == *self,
    {
        match self {
            VersionType::Release => VersionType::Release,
            VersionType::Snapshot => VersionType::Snapshot,
            VersionType::OldBeta => VersionType::OldBeta,
            VersionType::OldAlpha => VersionType::OldAlpha,
            VersionType::Other(s) => VersionType::Other(s.clone()),
        }
    }
}

impl Clone for MinVersion {
    fn clone(&self) -> (res: Self)
        ensures
            res == *self,
    {
        MinVersion {
            id: self.id.clone(),
            _type: self._type.clone(),
            release_time: self.release_time,
            installed: self.installed,
        }
    }
}

impl Clone for Version {
    fn clone(&self) -> (res: Self)
        ensures
            res == *self,
    {
        Version {
            id: self.id.clone(),
            _type: self._type.clone(),
            url: self.url.clone(),
            time: self.time,
            release_time: self.release_time,
            sha1: self.sha1.clone(),
            compliance_level: self.compliance_level,
        }
    }
}

impl VersionType {
    /// The release channel a manifest name designates.
    pub fn from_str(s: String) -> (r: VersionType)
        ensures
            named(r, s@),
    {
        if str_eq(s.as_str(), "release") {
            VersionType::Release
        } else if str_eq(s.as_str(), "snapshot") {
            VersionType::Snapshot
        } else if str_eq(s.as_str(), "old_beta") {
            VersionType::OldBeta
        } else if str_eq(s.as_str(), "old_alpha") {
            VersionType::OldAlpha
        } else {
            VersionType::Other(s)
        }
    }

    pub fn is_release(&self) -> (r: bool)
        ensures
            r == (*self is Release),
    {
        match self {
            VersionType::Release => true,
            _ => false,
        }
    }

    pub fn is_snapshot(&self) -> (r: bool)
        ensures
            r == (*self is Snapshot),
    {
        match self {
            VersionType::Snapshot => true,
            _ => false,
        }
    }

    /// Old betas and old alphas.
    pub fn is_old(&self) -> (r: bool)
        ensures
            r == (*self is OldBeta || *self is OldAlpha),
    {
        match self {
            VersionType::OldBeta => true,
            VersionType::OldAlpha => true,
            _ => false,
        }
    }

    /// The name of the release channel.
    pub fn to_string(&self) -> (r: String)
        ensures
            r@ == channel_name(*self),
    {
        match self {
            VersionType::Release => to_owned_string("release"),
            VersionType::Snapshot => to_owned_string("snapshot"),
            VersionType::OldBeta => to_owned_string("old_beta"),
            VersionType::OldAlpha => to_owned_string("old_alpha"),
            VersionType::Other(s) => s.clone(),
        }
    }
}

/// Reading a name and writing it back gives the same name.
pub proof fn lemma_channel_name_of_named(t: VersionType, s: Seq<char>)
    requires
        named(t, s),
    ensures
        channel_name(t) == s,
{
}

impl Version {
    /// The summary of this published, not installed, version.
    pub fn to_min_version(&self) -> (res: MinVersion)
        ensures
            res.id@ == self.id@,
            named(res._type, self._type@),
            res.release_time == self.release_time,
            !res.installed,
    {
        MinVersion {
            id: self.id.clone(),
            _type: VersionType::from_str(self._type.clone()),
            release_time: self.release_time,
            installed: false,
        }
    }
}

} // verus!
