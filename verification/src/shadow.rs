//! The `BottlerocketShadow` object and the metadata that the client gives it.

use crate::selector::BottlerocketShadowSelector;
use vstd::prelude::*;

verus! {

/// How the API server knows `BottlerocketShadow` objects.
#[derive(Debug)]
pub struct ShadowResource {
    /// The group and version of the custom resource.
    pub api_version: String,
    /// The kind of the custom resource.
    pub kind: String,
    /// The namespace that holds every shadow.
    pub namespace: String,
}

impl Clone for ShadowResource {
    fn clone(&self) -> (copy: Self)
        ensures
            copy == *self,
    {
        ShadowResource {
            api_version: self.api_version.clone(),
            kind: self.kind.clone(),
            namespace: self.namespace.clone(),
        }
    }
}

/// The object that another object belongs to.
#[derive(Debug)]
pub struct OwnerReference {
    pub api_version: String,
    pub block_owner_deletion: Option<bool>,
    pub controller: Option<bool>,
    pub kind: String,
    pub name: String,
    pub uid: String,
}

/// The value of an [`OwnerReference`].
pub struct OwnerReferenceView {
    pub api_version: Seq<char>,
    pub block_owner_deletion: Option<bool>,
    pub controller: Option<bool>,
    pub kind: Seq<char>,
    pub name: Seq<char>,
    pub uid: Seq<char>,
}

impl View for OwnerReference {
    type V = OwnerReferenceView;

    open spec fn view(&self) -> OwnerReferenceView {
        OwnerReferenceView {
            api_version: self.api_version@,
            block_owner_deletion: self.block_owner_deletion,
            controller: self.controller,
            kind: self.kind@,
            name: self.name@,
            uid: self.uid@,
        }
    }
}

/// The metadata of an object. Metadata that is not listed here is absent.
#[derive(Debug)]
pub struct ObjectMeta {
    pub name: Option<String>,
    pub owner_references: Option<Vec<OwnerReference>>,
}

/// The value of an [`ObjectMeta`].
#[verifier::ext_equal]
pub struct ObjectMetaView {
    pub name: Option<Seq<char>>,
    pub owner_references: Option<Seq<OwnerReferenceView>>,
}

impl View for ObjectMeta {
    type V = ObjectMetaView;

    open spec fn view(&self) -> ObjectMetaView {
        ObjectMetaView {
            name: match self.name {
                Some(name) => Some(name@),
                None => None,
            },
            owner_references: match self.owner_references {
                Some(owners) => Some(Seq::new(owners@.len(), |i: int| owners@[i]@)),
                None => None,
            },
        }
    }
}

/// The custom resource that shadows one Bottlerocket node. The client never looks into
/// the spec `S` or the status `T`.
#[derive(Debug)]
pub struct BottlerocketShadow<S, T> {
    pub metadata: ObjectMeta,
    pub spec: S,
    pub status: Option<T>,
}

/// The value of a [`BottlerocketShadow`].
#[verifier::ext_equal]
pub struct BottlerocketShadowView<S, T> {
    pub metadata: ObjectMetaView,
    pub spec: S,
    pub status: Option<T>,
}

impl<S, T> View for BottlerocketShadow<S, T> {
    type V = BottlerocketShadowView<S, T>;

    open spec fn view(&self) -> BottlerocketShadowView<S, T> {
        BottlerocketShadowView {
            metadata: self.metadata@,
            spec: self.spec,
            status: self.status,
        }
    }
}

/// The reference that makes a node the owner of its shadow.
pub open spec fn node_owner(selector: BottlerocketShadowSelector) -> OwnerReferenceView {
    OwnerReferenceView {
        api_version: "v1"@,
        block_owner_deletion: None,
        controller: None,
        kind: "Node"@,
        name: selector.node_name@,
        uid: selector.node_uid@,
    }
}

/// The metadata of a new shadow: the name that the selector gives it, and the node as its
/// only owner.
pub open spec fn shadow_metadata(selector: BottlerocketShadowSelector) -> ObjectMetaView {
    ObjectMetaView {
        name: Some(selector.resource_name@),
        owner_references: Some(seq![node_owner(selector)]),
    }
}

impl<S: Default, T> BottlerocketShadow<S, T> {
    /// A new shadow of the selected node: owned by the node, with the default spec and no
    /// status.
    pub fn for_node(selector: &BottlerocketShadowSelector) -> (shadow: Self)
        ensures
            shadow.metadata@ == shadow_metadata(*selector),
            call_ensures(S::default, (), shadow.spec),
            shadow.status is None,
    {
        let owner = OwnerReference {
            api_version: "v1".to_string(),
            block_owner_deletion: None,
            controller: None,
            kind: "Node".to_string(),
            name: selector.node_name.clone(),
            uid: selector.node_uid.clone(),
        };
        let owners: Vec<OwnerReference> = vec![owner];
        BottlerocketShadow {
            metadata: ObjectMeta {
                name: Some(selector.brs_resource_name()),
                owner_references: Some(owners),
            },
            spec: S::default(),
            status: None,
        }
    }
}

} // verus!
