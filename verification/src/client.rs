//! The operations on `BottlerocketShadow` objects and on the nodes behind them.
//!
//! Each operation is prepared as a pending call: the request to send, and the context that
//! a failed reply is reported in. Once the request was sent, `finish` turns the reply into
//! the operation's result.

use crate::client_error::{Error, ErrorContext};
use crate::json::{json, Json};
use crate::patch::{
    exclusion_patch, inclusion_patch, spec_patch, status_patch, write_exclusion_patch,
    write_inclusion_patch, write_spec_patch, write_status_patch,
};
use crate::selector::BottlerocketShadowSelector;
use crate::shadow::{shadow_metadata, BottlerocketShadow, ShadowResource};
use std::marker::PhantomData;
use std::sync::Arc;
use vstd::prelude::*;

verus! {

/// The handle through which `kube` reaches the API server, carried through unread.
#[verifier::external_type_specification]
#[verifier::external_body]
pub struct ExClient(kube::client::Client);

/// A request to change a `BottlerocketShadow` or a node. Every patch is a JSON merge patch and
/// goes out with default parameters.
#[derive(Debug)]
pub enum ApiRequest {
    /// Apply a merge patch to the status subresource of a shadow.
    MergeShadowStatus { namespace: String, name: String, patch: serde_json::Value },
    /// Apply a merge patch to a shadow.
    MergeShadow { namespace: String, name: String, patch: serde_json::Value },
    /// Apply a merge patch to a node.
    MergeNode { name: String, patch: serde_json::Value },
    /// Mark a node as unschedulable.
    CordonNode { name: String },
    /// Mark a node as schedulable.
    UncordonNode { name: String },
    /// Evict all pods on a node.
    DrainNode { name: String },
}

/// The value of an [`ApiRequest`].
pub enum ApiRequestView {
    MergeShadowStatus { namespace: Seq<char>, name: Seq<char>, patch: Json },
    MergeShadow { namespace: Seq<char>, name: Seq<char>, patch: Json },
    MergeNode { name: Seq<char>, patch: Json },
    CordonNode { name: Seq<char> },
    UncordonNode { name: Seq<char> },
    DrainNode { name: Seq<char> },
}

impl View for ApiRequest {
    type V = ApiRequestView;

    open spec fn view(&self) -> ApiRequestView {
        match self {
            ApiRequest::MergeShadowStatus { namespace, name, patch } =>
                ApiRequestView::MergeShadowStatus {
                namespace: namespace@,
                name: name@,
                patch: json(*patch),
            },
            ApiRequest::MergeShadow { namespace, name, patch } => ApiRequestView::MergeShadow {
                namespace: namespace@,
                name: name@,
                patch: json(*patch),
            },
            ApiRequest::MergeNode { name, patch } => ApiRequestView::MergeNode {
                name: name@,
                patch: json(*patch),
            },
            ApiRequest::CordonNode { name } => ApiRequestView::CordonNode { name: name@ },
            ApiRequest::UncordonNode { name } => ApiRequestView::UncordonNode { name: name@ },
            ApiRequest::DrainNode { name } => ApiRequestView::DrainNode { name: name@ },
        }
    }
}

/// The request that writes `status` to the shadow of the selected node.
pub open spec fn status_request(
    resource: ShadowResource,
    selector: BottlerocketShadowSelector,
    status: Json,
) -> ApiRequestView {
    ApiRequestView::MergeShadowStatus {
        namespace: resource.namespace@,
        name: selector.resource_name@,
        patch: status_patch(resource, status),
    }
}

/// The request that writes `spec` to the shadow of the selected node.
pub open spec fn spec_request(
    resource: ShadowResource,
    selector: BottlerocketShadowSelector,
    spec: Json,
) -> ApiRequestView {
    ApiRequestView::MergeShadow {
        namespace: resource.namespace@,
        name: selector.resource_name@,
        patch: spec_patch(resource, spec),
    }
}

/// The request that patches the selected node.
pub open spec fn node_request(selector: BottlerocketShadowSelector, patch: Json) -> ApiRequestView {
    ApiRequestView::MergeNode { name: selector.node_name@, patch }
}

/// An operation whose request is yet to be sent.
#[derive(Debug)]
pub struct PendingCall {
    /// What to ask of the API server.
    pub request: ApiRequest,
    /// What a failed reply is reported as.
    pub context: ErrorContext,
}

impl PendingCall {
    /// The result of the operation, given the reply to its request.
    pub fn finish<S, P>(self, reply: Result<(), S>) -> (result: Result<(), Error<S, P>>)
        ensures
            match reply {
                Ok(()) => result == Ok::<(), Error<S, P>>(()),
                Err(source) => result == Err::<(), Error<S, P>>(self.context.error(source)),
            },
    {
        match reply {
            Ok(()) => Ok(()),
            Err(source) => Err(self.context.into_error(source)),
        }
    }
}

/// The error of a status update whose status could not be written as JSON: the update fails as
/// if the request had failed.
pub fn status_write_failure<S, P>(selector: &BottlerocketShadowSelector, source: S) -> (error:
    Error<S, P>)
    ensures
        error == (Error::<S, P>::UpdateBottlerocketShadowStatus { source, selector: *selector }),
{
    ErrorContext::UpdateBottlerocketShadowStatus { selector: selector.clone() }.into_error(source)
}

/// The creation of a shadow whose request is yet to be sent.
#[derive(Debug)]
pub struct PendingCreate<Spec, Status> {
    /// The namespace to create the shadow in.
    pub namespace: String,
    /// The shadow to create, with default parameters.
    pub object: BottlerocketShadow<Spec, Status>,
    /// What a failed reply is reported as.
    pub context: ErrorContext,
}

impl<Spec, Status> PendingCreate<Spec, Status> {
    /// The result of the creation, given the reply to its request: the shadow as it was
    /// sent, or the error.
    pub fn finish<S, P>(self, reply: Result<(), S>) -> (result: Result<
        BottlerocketShadow<Spec, Status>,
        Error<S, P>,
    >)
        ensures
            match reply {
                Ok(()) => result == Ok::<BottlerocketShadow<Spec, Status>, Error<S, P>>(
                    self.object,
                ),
                Err(source) => result == Err::<BottlerocketShadow<Spec, Status>, Error<S, P>>(
                    self.context.error(source),
                ),
            },
    {
        match reply {
            Ok(()) => Ok(self.object),
            Err(source) => Err(self.context.into_error(source)),
        }
    }
}

/// Whether the call creates the shadow of the selected node: in the namespace of the shadows,
/// owned by the node, with the default spec and no status.
pub open spec fn creates_shadow<Spec: Default, Status>(
    call: PendingCreate<Spec, Status>,
    resource: ShadowResource,
    selector: BottlerocketShadowSelector,
) -> bool {
    &&& call.namespace@ == resource.namespace@
    &&& call.object.metadata@ == shadow_metadata(selector)
    &&& call_ensures(Spec::default, (), call.object.spec)
    &&& call.object.status is None
    &&& call.context == (ErrorContext::CreateBottlerocketShadow { selector })
}

/// Whether the call writes `spec` to the shadow of the selected node, or is the failure to
/// write `spec` as JSON.
pub open spec fn updates_spec<S, P>(
    call: Result<PendingCall, Error<S, P>>,
    resource: ShadowResource,
    selector: BottlerocketShadowSelector,
    spec: Result<serde_json::Value, P>,
) -> bool {
    match spec {
        Ok(spec) => {
            &&& call is Ok
            &&& call->Ok_0.request@ == spec_request(resource, selector, json(spec))
            &&& call->Ok_0.context == (ErrorContext::UpdateBottlerocketShadowSpec { selector })
        },
        Err(source) => call == Err::<PendingCall, Error<S, P>>((Error::CreateK8SPatch { source })),
    }
}

/// An interface to interact with `BottlerocketShadow` objects.
pub trait BottlerocketShadowClient: Clone + Sized + Send + Sync {
    /// The `.spec` of a `BottlerocketShadow` object.
    type Spec: Default;

    /// The `.status` of a `BottlerocketShadow` object.
    type Status;

    /// The resource whose objects the client works on.
    spec fn shadow_resource(&self) -> ShadowResource;

    /// Prepares to create a `BottlerocketShadow` object for the selected node.
    fn create_node(&self, selector: &BottlerocketShadowSelector) -> (call: PendingCreate<
        Self::Spec,
        Self::Status,
    >)
        ensures
            creates_shadow(call, self.shadow_resource(), *selector),
    ;

    /// Prepares to update the `.status` of a `BottlerocketShadow` object. `status` is the
    /// new status as JSON. Because the single daemon running on each node uniquely owns its
    /// shadow, the whole status is written.
    fn update_node_status(
        &self,
        selector: &BottlerocketShadowSelector,
        status: serde_json::Value,
    ) -> (call: PendingCall)
        ensures
            call.request@ == status_request(self.shadow_resource(), *selector, json(status)),
            call.context == (ErrorContext::UpdateBottlerocketShadowStatus { selector: *selector }),
    ;

    /// Prepares to update the `.spec` of a `BottlerocketShadow` object. `spec` is the new
    /// spec as JSON, or the failure to write it as JSON; after such a failure there is
    /// nothing to send.
    fn update_node_spec<S, P>(
        &self,
        selector: &BottlerocketShadowSelector,
        spec: Result<serde_json::Value, P>,
    ) -> (call: Result<PendingCall, Error<S, P>>)
        ensures
            updates_spec(call, self.shadow_resource(), *selector, spec),
    ;

    /// Prepares to mark the selected node as unschedulable, preventing Pods from being
    /// deployed onto it. A failure is reported as a failure to update the shadow's spec.
    fn cordon_node(&self, selector: &BottlerocketShadowSelector) -> (call: PendingCall)
        ensures
            call.request@ == (ApiRequestView::CordonNode { name: selector.node_name@ }),
            call.context == (ErrorContext::UpdateBottlerocketShadowSpec { selector: *selector }),
    ;

    /// Prepares to evict all pods on the selected node.
    fn drain_node(&self, selector: &BottlerocketShadowSelector) -> (call: PendingCall)
        ensures
            call.request@ == (ApiRequestView::DrainNode { name: selector.node_name@ }),
            call.context == (ErrorContext::DrainBottlerocketShadow { selector: *selector }),
    ;

    /// Prepares to mark the selected node as schedulable, allowing Pods to be deployed onto
    /// it.
    fn uncordon_node(&self, selector: &BottlerocketShadowSelector) -> (call: PendingCall)
        ensures
            call.request@ == (ApiRequestView::UncordonNode { name: selector.node_name@ }),
            call.context == (ErrorContext::UncordonBottlerocketShadow { selector: *selector }),
    ;

    /// Prepares to label the selected node with
    /// `node.kubernetes.io/exclude-from-external-load-balancers=True`, which excludes it
    /// from load balancers.
    fn exclude_node_from_lb(&self, selector: &BottlerocketShadowSelector) -> (call: PendingCall)
        ensures
            call.request@ == node_request(*selector, exclusion_patch()),
            call.context == (ErrorContext::ExcludeNodeFromLB { selector: *selector }),
    ;

    /// Prepares to remove the label
    /// `node.kubernetes.io/exclude-from-external-load-balancers` from the selected node,
    /// which removes its exclusion from load balancers.
    fn remove_node_exclusion_from_lb(&self, selector: &BottlerocketShadowSelector) -> (call:
        PendingCall)
        ensures
            call.request@ == node_request(*selector, inclusion_patch()),
            call.context == (ErrorContext::RemoveNodeExclusionFromLB { selector: *selector }),
    ;
}

/// A shared client prepares what the client behind it prepares.
impl<C: BottlerocketShadowClient> BottlerocketShadowClient for Arc<C> {
    type Spec = C::Spec;

    type Status = C::Status;

    open spec fn shadow_resource(&self) -> ShadowResource {
        (**self).shadow_resource()
    }

    fn create_node(&self, selector: &BottlerocketShadowSelector) -> (call: PendingCreate<
        Self::Spec,
        Self::Status,
    >)
        ensures
            call_ensures(C::create_node, (&**self, selector), call),
    {
        (**self).create_node(selector)
    }

    fn update_node_status(
        &self,
        selector: &BottlerocketShadowSelector,
        status: serde_json::Value,
    ) -> (call: PendingCall)
        ensures
            call_ensures(C::update_node_status, (&**self, selector, status), call),
    {
        (**self).update_node_status(selector, status)
    }

    fn update_node_spec<S, P>(
        &self,
        selector: &BottlerocketShadowSelector,
        spec: Result<serde_json::Value, P>,
    ) -> (call: Result<PendingCall, Error<S, P>>) {
        (**self).update_node_spec(selector, spec)
    }

    fn cordon_node(&self, selector: &BottlerocketShadowSelector) -> (call: PendingCall)
        ensures
            call_ensures(C::cordon_node, (&**self, selector), call),
    {
        (**self).cordon_node(selector)
    }

    fn drain_node(&self, selector: &BottlerocketShadowSelector) -> (call: PendingCall)
        ensures
            call_ensures(C::drain_node, (&**self, selector), call),
    {
        (**self).drain_node(selector)
    }

    fn uncordon_node(&self, selector: &BottlerocketShadowSelector) -> (call: PendingCall)
        ensures
            call_ensures(C::uncordon_node, (&**self, selector), call),
    {
        (**self).uncordon_node(selector)
    }

    fn exclude_node_from_lb(&self, selector: &BottlerocketShadowSelector) -> (call: PendingCall)
        ensures
            call_ensures(C::exclude_node_from_lb, (&**self, selector), call),
    {
        (**self).exclude_node_from_lb(selector)
    }

    fn remove_node_exclusion_from_lb(&self, selector: &BottlerocketShadowSelector) -> (call:
        PendingCall)
        ensures
            call_ensures(C::remove_node_exclusion_from_lb, (&**self, selector), call),
    {
        (**self).remove_node_exclusion_from_lb(selector)
    }
}

/// The client of a Kubernetes cluster. Its shadows have a spec of type `Spec` and a status of
/// type `Status`.
pub struct K8SBottlerocketShadowClient<Spec, Status> {
    k8s_client: kube::client::Client,
    resource: ShadowResource,
    shadow_type: PhantomData<(Spec, Status)>,
}

/// Calls the `clone` of `kube::Client`, which gives a second handle to the same service, with
/// the same default namespace. Nothing tells the two handles apart.
#[verifier::external_body]
fn clone_handle(handle: &kube::client::Client) -> (copy: kube::client::Client)
    ensures
        copy == *handle,
{
    handle.clone()
}

impl<Spec, Status> Clone for K8SBottlerocketShadowClient<Spec, Status> {
    fn clone(&self) -> (copy: Self)
        ensures
            copy.spec_k8s_client() == self.spec_k8s_client(),
            copy.spec_resource() == self.spec_resource(),
    {
        K8SBottlerocketShadowClient {
            k8s_client: clone_handle(&self.k8s_client),
            resource: self.resource.clone(),
            shadow_type: PhantomData,
        }
    }
}

impl<Spec, Status> K8SBottlerocketShadowClient<Spec, Status> {
    /// The handle to the API server.
    pub closed spec fn spec_k8s_client(&self) -> kube::client::Client {
        self.k8s_client
    }

    /// The resource whose objects the client works on.
    pub closed spec fn spec_resource(&self) -> ShadowResource {
        self.resource
    }

    /// A client of the cluster behind `k8s_client`, for the shadows of the given resource.
    pub fn new(k8s_client: kube::client::Client, resource: ShadowResource) -> (client: Self)
        ensures
            client.spec_k8s_client() == k8s_client,
            client.spec_resource() == resource,
    {
        K8SBottlerocketShadowClient { k8s_client, resource, shadow_type: PhantomData }
    }

    /// The handle to the API server.
    pub fn k8s_client(&self) -> (k8s_client: &kube::client::Client)
        ensures
            *k8s_client == self.spec_k8s_client(),
    {
        &self.k8s_client
    }

    /// The resource whose objects the client works on.
    pub fn resource(&self) -> (resource: &ShadowResource)
        ensures
            *resource == self.spec_resource(),
    {
        &self.resource
    }
}

impl<
    Spec: Default + Send + Sync,
    Status: Send + Sync,
> BottlerocketShadowClient for K8SBottlerocketShadowClient<Spec, Status> {
    type Spec = Spec;

    type Status = Status;

    open spec fn shadow_resource(&self) -> ShadowResource {
        self.spec_resource()
    }

    fn create_node(&self, selector: &BottlerocketShadowSelector) -> (call: PendingCreate<
        Self::Spec,
        Self::Status,
    >) {
        PendingCreate {
            namespace: self.resource.namespace.clone(),
            object: BottlerocketShadow::for_node(selector),
            context: ErrorContext::CreateBottlerocketShadow { selector: selector.clone() },
        }
    }

    fn update_node_status(
        &self,
        selector: &BottlerocketShadowSelector,
        status: serde_json::Value,
    ) -> (call: PendingCall) {
        PendingCall {
            request: ApiRequest::MergeShadowStatus {
                namespace: self.resource.namespace.clone(),
                name: selector.brs_resource_name(),
                patch: write_status_patch(&self.resource, status),
            },
            context: ErrorContext::UpdateBottlerocketShadowStatus { selector: selector.clone() },
        }
    }

    fn update_node_spec<S, P>(
        &self,
        selector: &BottlerocketShadowSelector,
        spec: Result<serde_json::Value, P>,
    ) -> (call: Result<PendingCall, Error<S, P>>) {
        match spec {
            Ok(spec) => Ok(
                PendingCall {
                    request: ApiRequest::MergeShadow {
                        namespace: self.resource.namespace.clone(),
                        name: selector.brs_resource_name(),
                        patch: write_spec_patch(&self.resource, spec),
                    },
                    context: ErrorContext::UpdateBottlerocketShadowSpec {
                        selector: selector.clone(),
                    },
                },
            ),
            Err(source) => Err(Error::CreateK8SPatch { source }),
        }
    }

    fn cordon_node(&self, selector: &BottlerocketShadowSelector) -> (call: PendingCall) {
        PendingCall {
            request: ApiRequest::CordonNode { name: selector.node_name.clone() },
            context: ErrorContext::UpdateBottlerocketShadowSpec { selector: selector.clone() },
        }
    }

    fn drain_node(&self, selector: &BottlerocketShadowSelector) -> (call: PendingCall) {
        PendingCall {
            request: ApiRequest::DrainNode { name: selector.node_name.clone() },
            context: ErrorContext::DrainBottlerocketShadow { selector: selector.clone() },
        }
    }

    fn uncordon_node(&self, selector: &BottlerocketShadowSelector) -> (call: PendingCall) {
        PendingCall {
            request: ApiRequest::UncordonNode { name: selector.node_name.clone() },
            context: ErrorContext::UncordonBottlerocketShadow { selector: selector.clone() },
        }
    }

    fn exclude_node_from_lb(&self, selector: &BottlerocketShadowSelector) -> (call: PendingCall) {
        PendingCall {
            request: ApiRequest::MergeNode {
                name: selector.node_name.clone(),
                patch: write_exclusion_patch(),
            },
            context: ErrorContext::ExcludeNodeFromLB { selector: selector.clone() },
        }
    }

    fn remove_node_exclusion_from_lb(&self, selector: &BottlerocketShadowSelector) -> (call:
        PendingCall) {
        PendingCall {
            request: ApiRequest::MergeNode {
                name: selector.node_name.clone(),
                patch: write_inclusion_patch(),
            },
            context: ErrorContext::RemoveNodeExclusionFromLB { selector: selector.clone() },
        }
    }
}

} // verus!
