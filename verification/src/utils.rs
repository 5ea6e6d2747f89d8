//! Maven repository metadata (`maven-metadata.xml`).
use vstd::prelude::*;

verus! {

pub struct MavenMetadata {
    pub group_id: String,
    pub artifact_id: String,
    pub versioning: MavenVersioning,
}

/// The published versions of an artifact; `last_updated` is the date of the
/// latest publication, written out as text.
pub struct MavenVersioning {
    pub release: String,
    pub last_updated: String,
    pub versions: MavenVersion,
}

pub struct MavenVersion {
    pub version: Vec<MavVersion>,
}

pub struct MavVersion {
    pub body: String,
}

} // verus!
