//! The patches that the client sends. Each is a JSON merge patch.

use crate::json::{json, null_value, single, single_field, string_value, three_fields, triple, Json};
use crate::shadow::ShadowResource;
use vstd::prelude::*;

verus! {

/// The label that keeps a node out of external load balancers.
pub const EXCLUDE_FROM_LB_LABEL: &'static str =
    "node.kubernetes.io/exclude-from-external-load-balancers";

/// The patch that writes `document` to one part of a `BottlerocketShadow` of the given
/// resource, its `spec` or its `status`.
pub open spec fn shadow_patch(
    resource: ShadowResource,
    part: Seq<char>,
    document: Json,
) -> Json {
    triple(
        ("apiVersion"@, Json::String(resource.api_version@)),
        ("kind"@, Json::String(resource.kind@)),
        (part, document),
    )
}

/// The patch that writes `status` to the status of a `BottlerocketShadow`.
pub open spec fn status_patch(resource: ShadowResource, status: Json) -> Json {
    shadow_patch(resource, "status"@, status)
}

/// The patch that writes `spec` to the spec of a `BottlerocketShadow`.
pub open spec fn spec_patch(resource: ShadowResource, spec: Json) -> Json {
    shadow_patch(resource, "spec"@, spec)
}

/// The patch that gives the load balancer label of a node the value `value`.
pub open spec fn label_patch(value: Json) -> Json {
    single("metadata"@, single("labels"@, single(EXCLUDE_FROM_LB_LABEL@, value)))
}

/// The patch that labels a node so that load balancers leave it out.
pub open spec fn exclusion_patch() -> Json {
    label_patch(Json::String("True"@))
}

/// The patch that takes the load balancer label from a node.
pub open spec fn inclusion_patch() -> Json {
    label_patch(Json::Null)
}

/// The body that marks a node as unschedulable, or as schedulable.
pub open spec fn scheduling_patch(unschedulable: bool) -> Json {
    single("spec"@, single("unschedulable"@, Json::Bool(unschedulable)))
}

/// A patch of the status of a `BottlerocketShadow`.
#[derive(Debug)]
pub struct BottlerocketShadowStatusPatch<T> {
    pub api_version: String,
    pub kind: String,
    pub status: T,
}

impl<T: Default> BottlerocketShadowStatusPatch<T> {
    /// The patch for objects of the given resource that carries the default status.
    pub fn default(resource: &ShadowResource) -> (patch: Self)
        ensures
            patch.api_version == resource.api_version,
            patch.kind == resource.kind,
            call_ensures(T::default, (), patch.status),
    {
        BottlerocketShadowStatusPatch {
            api_version: resource.api_version.clone(),
            kind: resource.kind.clone(),
            status: T::default(),
        }
    }
}

impl BottlerocketShadowStatusPatch<serde_json::Value> {
    /// The patch as the JSON document that is sent.
    pub fn into_value(self) -> (value: serde_json::Value)
        ensures
            json(value) == triple(
                ("apiVersion"@, Json::String(self.api_version@)),
                ("kind"@, Json::String(self.kind@)),
                ("status"@, json(self.status)),
            ),
    {
        three_fields(
            ("apiVersion", string_value(self.api_version)),
            ("kind", string_value(self.kind)),
            ("status", self.status),
        )
    }
}

/// A patch of the whole spec of a `BottlerocketShadow`.
#[derive(Debug)]
pub struct BottlerocketShadowSpecOverwrite<S> {
    pub api_version: String,
    pub kind: String,
    pub spec: S,
}

impl<S: Default> BottlerocketShadowSpecOverwrite<S> {
    /// The patch for objects of the given resource that carries the default spec.
    pub fn default(resource: &ShadowResource) -> (patch: Self)
        ensures
            patch.api_version == resource.api_version,
            patch.kind == resource.kind,
            call_ensures(S::default, (), patch.spec),
    {
        BottlerocketShadowSpecOverwrite {
            api_version: resource.api_version.clone(),
            kind: resource.kind.clone(),
            spec: S::default(),
        }
    }
}

impl BottlerocketShadowSpecOverwrite<serde_json::Value> {
    /// The patch as the JSON document that is sent.
    pub fn into_value(self) -> (value: serde_json::Value)
        ensures
            json(value) == triple(
                ("apiVersion"@, Json::String(self.api_version@)),
                ("kind"@, Json::String(self.kind@)),
                ("spec"@, json(self.spec)),
            ),
    {
        three_fields(
            ("apiVersion", string_value(self.api_version)),
            ("kind", string_value(self.kind)),
            ("spec", self.spec),
        )
    }
}

/// Writes the patch that replaces the status of a `BottlerocketShadow`.
pub fn write_status_patch(resource: &ShadowResource, status: serde_json::Value) -> (patch:
    serde_json::Value)
    ensures
        json(patch) == status_patch(*resource, json(status)),
{
    let patch = BottlerocketShadowStatusPatch {
        status,
        ..BottlerocketShadowStatusPatch::default(resource)
    };
    patch.into_value()
}

/// Writes the patch that replaces the spec of a `BottlerocketShadow`.
pub fn write_spec_patch(resource: &ShadowResource, spec: serde_json::Value) -> (patch:
    serde_json::Value)
    ensures
        json(patch) == spec_patch(*resource, json(spec)),
{
    let patch = BottlerocketShadowSpecOverwrite {
        spec,
        ..BottlerocketShadowSpecOverwrite::default(resource)
    };
    patch.into_value()
}

fn write_label_patch(value: serde_json::Value) -> (patch: serde_json::Value)
    ensures
        json(patch) == label_patch(json(value)),
{
    single_field("metadata", single_field("labels", single_field(EXCLUDE_FROM_LB_LABEL, value)))
}

/// Writes the patch that labels a node so that load balancers leave it out.
pub fn write_exclusion_patch() -> (patch: serde_json::Value)
    ensures
        json(patch) == exclusion_patch(),
{
    write_label_patch(string_value("True".to_string()))
}

/// Writes the patch that takes the load balancer label from a node.
pub fn write_inclusion_patch() -> (patch: serde_json::Value)
    ensures
        json(patch) == inclusion_patch(),
{
    write_label_patch(null_value())
}

} // verus!
