//! The fields of a `.ucc` file as they are read, before they become a
//! `FeatureDocument`.
use vstd::prelude::*;

use crate::domain::{Artifact, FeatureDocument, FeatureMetadata, Priority};

verus! {

/// The `feature` section as read.
#[derive(Debug, Clone, PartialEq, Eq)]
pub struct RawFeatureMetadata {
    pub id: String,
    pub title: String,
    pub created_at: String,
    pub updated_at: Option<String>,
    pub description: String,
}

/// An entry of the `artifacts` section as read.
#[derive(Debug, Clone, PartialEq, Eq)]
pub struct RawArtifact {
    pub id: String,
    pub artifact_type: Option<String>,
    pub created_at: String,
    pub updated_at: Option<String>,
    pub title: String,
    pub priority: Priority,
    pub related: Vec<String>,
    pub platforms: Vec<String>,
    pub steps: Vec<String>,
    pub expected: Vec<String>,
    pub tags: Vec<String>,
    pub coverage_gap_reason: Option<String>,
}

/// A whole `.ucc` file as read.
#[derive(Debug, Clone, PartialEq, Eq)]
pub struct RawUccDocument {
    pub schema_version: String,
    pub feature: RawFeatureMetadata,
    pub tags: Vec<String>,
    pub platforms: Vec<String>,
    pub related_features: Vec<String>,
    pub artifacts: Vec<RawArtifact>,
}

/// The artifact that an entry as read describes; a file says nothing of
/// when an artifact was last modified.
pub open spec fn artifact_of_raw(a: RawArtifact) -> Artifact {
    Artifact {
        id: a.id,
        artifact_type: a.artifact_type,
        created_at: a.created_at,
        updated_at: a.updated_at,
        last_modified_at: None,
        title: a.title,
        priority: a.priority,
        related: a.related,
        platforms: a.platforms,
        steps: a.steps,
        expected: a.expected,
        tags: a.tags,
        coverage_gap_reason: a.coverage_gap_reason,
    }
}

/// `doc` is the document that the file `d` as read describes, found at
/// `source_path`.
pub open spec fn document_from_raw(doc: FeatureDocument, d: RawUccDocument, source_path: String) -> bool {
    &&& doc.source_path == source_path
    &&& doc.schema_version == d.schema_version
    &&& doc.feature == FeatureMetadata {
        id: d.feature.id,
        title: d.feature.title,
        created_at: d.feature.created_at,
        updated_at: d.feature.updated_at,
        last_modified_at: None,
        description: d.feature.description,
    }
    &&& doc.tags@ == d.tags@
    &&& doc.platforms@ == d.platforms@
    &&& doc.related_features@ == d.related_features@
    &&& doc.artifacts@ == d.artifacts@.map_values(|a: RawArtifact| artifact_of_raw(a))
}

impl RawUccDocument {
    /// The document this file describes, found at `source_path`.
    pub fn into_feature_document(self, source_path: String) -> (r: FeatureDocument)
        ensures
            document_from_raw(r, self, source_path),
    {
        let ghost raw = self.artifacts@;
        let mut artifacts: Vec<Artifact> = Vec::new();
        for a in it: self.artifacts.into_iter()
            invariant
                it.seq() == raw,
                artifacts@ == raw.take(it.index() as int).map_values(
                    |x: RawArtifact| artifact_of_raw(x),
                ),
        {
            let ghost i = it.index();
            assert(a == raw[i]);
            artifacts.push(
                Artifact {
                    id: a.id,
                    artifact_type: a.artifact_type,
                    created_at: a.created_at,
                    updated_at: a.updated_at,
                    last_modified_at: None,
                    title: a.title,
                    priority: a.priority,
                    related: a.related,
                    platforms: a.platforms,
                    steps: a.steps,
                    expected: a.expected,
                    tags: a.tags,
                    coverage_gap_reason: a.coverage_gap_reason,
                },
            );
            assert(artifacts@ =~= raw.take(i + 1).map_values(
                |x: RawArtifact| artifact_of_raw(x),
            ));
        }
        assert(raw.take(raw.len() as int) =~= raw);
        FeatureDocument {
            source_path,
            schema_version: self.schema_version,
            feature: FeatureMetadata {
                id: self.feature.id,
                title: self.feature.title,
                created_at: self.feature.created_at,
                updated_at: self.feature.updated_at,
                last_modified_at: None,
                description: self.feature.description,
            },
            tags: self.tags,
            platforms: self.platforms,
            related_features: self.related_features,
            artifacts,
        }
    }
}

} // verus!
