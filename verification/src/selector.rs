//! The selector that names a node and its shadow.

use vstd::prelude::*;

verus! {

/// Identifies one Bottlerocket node and the `BottlerocketShadow` that belongs to it.
#[derive(Debug)]
pub struct BottlerocketShadowSelector {
    /// The name of the Kubernetes node.
    pub node_name: String,
    /// The UID that Kubernetes gave the node.
    pub node_uid: String,
    /// The name under which the node's `BottlerocketShadow` is stored.
    pub resource_name: String,
}

impl BottlerocketShadowSelector {
    /// The name under which the node's `BottlerocketShadow` is stored.
    pub fn brs_resource_name(&self) -> (name: String)
        ensures
            name == self.resource_name,
    {
        self.resource_name.clone()
    }
}

impl Clone for BottlerocketShadowSelector {
    fn clone(&self) -> (copy: Self)
        ensures
            copy == *self,
    {
        BottlerocketShadowSelector {
            node_name: self.node_name.clone(),
            node_uid: self.node_uid.clone(),
            resource_name: self.resource_name.clone(),
        }
    }
}

} // verus!
