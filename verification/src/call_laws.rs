//! The laws of the calls that a client prepares: what each request holds, what it does to the
//! document that it names, and what each reply becomes. They speak of the fields of a call and
//! of literal keys and values, and hold of every client.

use crate::client::{
    status_write_failure, ApiRequest, BottlerocketShadowClient, K8SBottlerocketShadowClient,
    PendingCall, PendingCreate,
};
use crate::client_error::{Error, ErrorContext};
use crate::json::{json, Json};
use crate::laws::{
    law_exclusion_sets_label, law_inclusion_removes_label, law_last_scheduling_patch_wins,
    law_spec_update_keeps_the_rest, law_status_update_keeps_the_rest, lemma_update_writes_part,
    request_body,
};
use crate::merge::{field, fields, merge};
use crate::patch::{
    write_exclusion_patch, write_inclusion_patch, write_spec_patch, write_status_patch,
    BottlerocketShadowSpecOverwrite, BottlerocketShadowStatusPatch,
};
use crate::selector::BottlerocketShadowSelector;
use crate::shadow::{BottlerocketShadow, ShadowResource};
use vstd::prelude::*;

verus! {

/// A status update addresses the shadow of the selected node, in the namespace of the shadows.
/// Its body states the type of the shadow and holds the given status under `status`, and holds
/// nothing else.
pub proof fn law_status_update_sends_the_status<C: BottlerocketShadowClient>(
    client: C,
    selector: BottlerocketShadowSelector,
    status: serde_json::Value,
    call: PendingCall,
)
    requires
        call_ensures(C::update_node_status, (&client, &selector, status), call),
    ensures
        call.request matches ApiRequest::MergeShadowStatus { namespace, name, patch } && {
            &&& namespace@ == client.shadow_resource().namespace@
            &&& name@ == selector.resource_name@
            &&& json(patch) == Json::Object(
                map![
                    "apiVersion"@ => Json::String(client.shadow_resource().api_version@),
                    "kind"@ => Json::String(client.shadow_resource().kind@),
                    "status"@ => json(status),
                ],
            )
            &&& request_body(call.request@) == Some(json(patch))
        },
{
}

/// Applied to a stored shadow, the body of a status update merges the given status into its status,
/// removing the status exactly if the given one is null, states the type of the shadow, and
/// leaves every other field, the spec among them, as it was.
pub proof fn law_status_update_writes_the_status<C: BottlerocketShadowClient>(
    client: C,
    selector: BottlerocketShadowSelector,
    status: serde_json::Value,
    call: PendingCall,
    shadow: Json,
    key: Seq<char>,
)
    requires
        call_ensures(C::update_node_status, (&client, &selector, status), call),
        key != "status"@,
        key != "apiVersion"@,
        key != "kind"@,
    ensures
        call.request matches ApiRequest::MergeShadowStatus { patch, .. } && {
            let updated = merge(shadow, json(patch));
            &&& request_body(call.request@) == Some(json(patch))
            &&& field(updated, "status"@) == merge(field(shadow, "status"@), json(status))
            &&& fields(updated).contains_key("status"@) == (json(status) != Json::Null)
            &&& field(updated, "apiVersion"@) == Json::String(
                client.shadow_resource().api_version@,
            )
            &&& field(updated, "kind"@) == Json::String(client.shadow_resource().kind@)
            &&& fields(updated).contains_key(key) == fields(shadow).contains_key(key)
            &&& field(updated, key) == field(shadow, key)
        },
{
    law_status_update_keeps_the_rest(shadow, client.shadow_resource(), json(status), key);
    lemma_update_writes_part(shadow, client.shadow_resource(), "status"@, json(status));
}

/// A spec update addresses the shadow of the selected node, in the namespace of the shadows.
/// Its body states the type of the shadow and holds the given spec under `spec`, and holds
/// nothing else.
pub proof fn law_spec_update_sends_the_spec<C: BottlerocketShadowClient, S, P>(
    client: C,
    selector: BottlerocketShadowSelector,
    spec: serde_json::Value,
    prepared: Result<PendingCall, Error<S, P>>,
)
    requires
        call_ensures(
            C::update_node_spec::<S, P>,
            (&client, &selector, Ok::<serde_json::Value, P>(spec)),
            prepared,
        ),
    ensures
        prepared is Ok,
        prepared->Ok_0.request matches ApiRequest::MergeShadow { namespace, name, patch } && {
            &&& namespace@ == client.shadow_resource().namespace@
            &&& name@ == selector.resource_name@
            &&& json(patch) == Json::Object(
                map![
                    "apiVersion"@ => Json::String(client.shadow_resource().api_version@),
                    "kind"@ => Json::String(client.shadow_resource().kind@),
                    "spec"@ => json(spec),
                ],
            )
            &&& request_body(prepared->Ok_0.request@) == Some(json(patch))
        },
{
}

/// Applied to a stored shadow, the body of a spec update merges the given spec into its spec,
/// removing the spec exactly if the given one is null, states the type of the shadow, and
/// leaves every other field, the status among them, as it was.
pub proof fn law_spec_update_writes_the_spec<C: BottlerocketShadowClient, S, P>(
    client: C,
    selector: BottlerocketShadowSelector,
    spec: serde_json::Value,
    prepared: Result<PendingCall, Error<S, P>>,
    shadow: Json,
    key: Seq<char>,
)
    requires
        call_ensures(
            C::update_node_spec::<S, P>,
            (&client, &selector, Ok::<serde_json::Value, P>(spec)),
            prepared,
        ),
        key != "spec"@,
        key != "apiVersion"@,
        key != "kind"@,
    ensures
        prepared is Ok,
        prepared->Ok_0.request matches ApiRequest::MergeShadow { patch, .. } && {
            let updated = merge(shadow, json(patch));
            &&& request_body(prepared->Ok_0.request@) == Some(json(patch))
            &&& field(updated, "spec"@) == merge(field(shadow, "spec"@), json(spec))
            &&& fields(updated).contains_key("spec"@) == (json(spec) != Json::Null)
            &&& field(updated, "apiVersion"@) == Json::String(
                client.shadow_resource().api_version@,
            )
            &&& field(updated, "kind"@) == Json::String(client.shadow_resource().kind@)
            &&& fields(updated).contains_key(key) == fields(shadow).contains_key(key)
            &&& field(updated, key) == field(shadow, key)
        },
{
    law_spec_update_keeps_the_rest(shadow, client.shadow_resource(), json(spec), key);
    lemma_update_writes_part(shadow, client.shadow_resource(), "spec"@, json(spec));
}

/// A spec that cannot be written as JSON is reported as such, and leaves nothing to send.
pub proof fn law_unwritable_spec_is_reported<C: BottlerocketShadowClient, S, P>(
    client: C,
    selector: BottlerocketShadowSelector,
    failure: P,
    prepared: Result<PendingCall, Error<S, P>>,
)
    requires
        call_ensures(
            C::update_node_spec::<S, P>,
            (&client, &selector, Err::<serde_json::Value, P>(failure)),
            prepared,
        ),
    ensures
        prepared == Err::<PendingCall, Error<S, P>>((Error::CreateK8SPatch { source: failure })),
{
}

/// A status that cannot be written as JSON is reported as a failed status update of the
/// selected node.
pub proof fn law_unwritable_status_is_reported<S, P>(
    selector: BottlerocketShadowSelector,
    failure: S,
    error: Error<S, P>,
)
    requires
        call_ensures(status_write_failure::<S, P>, (&selector, failure), error),
    ensures
        error matches Error::UpdateBottlerocketShadowStatus { source, selector: node } && source
            == failure && node == selector,
{
}

/// The object that a shadow starts as: it has the name that the selector gives it, a core `v1`
/// `Node` with the selected node's name and UID as its only owner, which neither controls it
/// nor has its deletion blocked by it, an outcome of the default as spec, and no status.
pub proof fn law_new_shadow_is_owned_by_its_node<S: Default, T>(
    selector: BottlerocketShadowSelector,
    shadow: BottlerocketShadow<S, T>,
)
    requires
        call_ensures(BottlerocketShadow::<S, T>::for_node, (&selector,), shadow),
    ensures
        shadow.metadata.name matches Some(name) && name@ == selector.resource_name@,
        shadow.metadata.owner_references matches Some(owners) && {
            &&& owners@.len() == 1
            &&& owners@[0].api_version@ == "v1"@
            &&& owners@[0].kind@ == "Node"@
            &&& owners@[0].name@ == selector.node_name@
            &&& owners@[0].uid@ == selector.node_uid@
            &&& owners@[0].controller is None
            &&& owners@[0].block_owner_deletion is None
        },
        call_ensures(S::default, (), shadow.spec),
        shadow.status is None,
{
    assert(shadow.metadata@.owner_references->0.len() == 1);
    assert(shadow.metadata@.owner_references->0[0] == shadow.metadata.owner_references->0@[0]@);
}

/// A creation posts, in the namespace of the shadows, an object with the name that the selector
/// gives it, a core `v1` `Node` with the selected node's name and UID as its only owner, which
/// neither controls it nor has its deletion blocked by it, an outcome of the default as spec,
/// and no status.
pub proof fn law_creation_posts_a_shadow_of_the_node<C: BottlerocketShadowClient>(
    client: C,
    selector: BottlerocketShadowSelector,
    call: PendingCreate<C::Spec, C::Status>,
)
    requires
        call_ensures(C::create_node, (&client, &selector), call),
    ensures
        call.namespace@ == client.shadow_resource().namespace@,
        call.object.metadata.name matches Some(name) && name@ == selector.resource_name@,
        call.object.metadata.owner_references matches Some(owners) && {
            &&& owners@.len() == 1
            &&& owners@[0].api_version@ == "v1"@
            &&& owners@[0].kind@ == "Node"@
            &&& owners@[0].name@ == selector.node_name@
            &&& owners@[0].uid@ == selector.node_uid@
            &&& owners@[0].controller is None
            &&& owners@[0].block_owner_deletion is None
        },
        call_ensures(C::Spec::default, (), call.object.spec),
        call.object.status is None,
{
    let metadata = call.object.metadata;
    assert(metadata@.owner_references->0.len() == 1);
    assert(metadata@.owner_references->0[0] == metadata.owner_references->0@[0]@);
}

/// A creation that succeeded returns the object that was posted, whatever the API answered; one
/// that failed is reported as a failed creation for the selected node.
pub proof fn law_creation_outcome<C: BottlerocketShadowClient, S, P>(
    client: C,
    selector: BottlerocketShadowSelector,
    call: PendingCreate<C::Spec, C::Status>,
    reply: Result<(), S>,
    result: Result<BottlerocketShadow<C::Spec, C::Status>, Error<S, P>>,
)
    requires
        call_ensures(C::create_node, (&client, &selector), call),
        call_ensures(
            PendingCreate::<C::Spec, C::Status>::finish::<S, P>,
            (call, reply),
            result,
        ),
    ensures
        result is Ok == reply is Ok,
        reply is Ok ==> result->Ok_0 == call.object,
        reply matches Err(failure) ==> (result matches Err(error) && error
            matches Error::CreateBottlerocketShadow { source, selector: node } && source == failure
            && node == selector),
{
}

/// Excluding a node from load balancers patches the node with the selected name. The body sets
/// the label to `True` and holds nothing else.
pub proof fn law_exclusion_sends_the_label<C: BottlerocketShadowClient>(
    client: C,
    selector: BottlerocketShadowSelector,
    call: PendingCall,
)
    requires
        call_ensures(C::exclude_node_from_lb, (&client, &selector), call),
    ensures
        call.request matches ApiRequest::MergeNode { name, patch } && {
            &&& name@ == selector.node_name@
            &&& json(patch) == Json::Object(
                map!["metadata"@ => Json::Object(
                    map!["labels"@ => Json::Object(
                        map!["node.kubernetes.io/exclude-from-external-load-balancers"@
                            => Json::String("True"@)],
                    )],
                )],
            )
            &&& request_body(call.request@) == Some(json(patch))
        },
{
}

/// Removing the exclusion of a node patches the node with the selected name. The body sets the
/// label to null and holds nothing else.
pub proof fn law_inclusion_sends_a_null_label<C: BottlerocketShadowClient>(
    client: C,
    selector: BottlerocketShadowSelector,
    call: PendingCall,
)
    requires
        call_ensures(C::remove_node_exclusion_from_lb, (&client, &selector), call),
    ensures
        call.request matches ApiRequest::MergeNode { name, patch } && {
            &&& name@ == selector.node_name@
            &&& json(patch) == Json::Object(
                map!["metadata"@ => Json::Object(
                    map!["labels"@ => Json::Object(
                        map!["node.kubernetes.io/exclude-from-external-load-balancers"@
                            => Json::Null],
                    )],
                )],
            )
            &&& request_body(call.request@) == Some(json(patch))
        },
{
}

/// Applied to a node, the body of its exclusion gives it the label
/// `node.kubernetes.io/exclude-from-external-load-balancers` with the value `True` and changes
/// nothing else.
pub proof fn law_exclusion_labels_the_node<C: BottlerocketShadowClient>(
    client: C,
    selector: BottlerocketShadowSelector,
    call: PendingCall,
    node: Json,
)
    requires
        call_ensures(C::exclude_node_from_lb, (&client, &selector), call),
    ensures
        call.request matches ApiRequest::MergeNode { name, patch } && {
            let label = "node.kubernetes.io/exclude-from-external-load-balancers"@;
            let changed = merge(node, json(patch));
            let old_metadata = field(node, "metadata"@);
            let new_metadata = field(changed, "metadata"@);
            let old_labels = fields(field(old_metadata, "labels"@));
            let new_labels = fields(field(new_metadata, "labels"@));
            &&& name@ == selector.node_name@
            &&& request_body(call.request@) == Some(json(patch))
            &&& new_labels.contains_key(label)
            &&& new_labels[label] == Json::String("True"@)
            &&& new_labels.remove(label) == old_labels.remove(label)
            &&& fields(new_metadata).remove("labels"@) == fields(old_metadata).remove("labels"@)
            &&& fields(changed).remove("metadata"@) == fields(node).remove("metadata"@)
        },
{
    law_exclusion_sets_label(node);
}

/// Applied to a node, the body of the removal of its exclusion takes the label
/// `node.kubernetes.io/exclude-from-external-load-balancers` from it and changes nothing else.
pub proof fn law_inclusion_unlabels_the_node<C: BottlerocketShadowClient>(
    client: C,
    selector: BottlerocketShadowSelector,
    call: PendingCall,
    node: Json,
)
    requires
        call_ensures(C::remove_node_exclusion_from_lb, (&client, &selector), call),
    ensures
        call.request matches ApiRequest::MergeNode { name, patch } && {
            let label = "node.kubernetes.io/exclude-from-external-load-balancers"@;
            let changed = merge(node, json(patch));
            let old_metadata = field(node, "metadata"@);
            let new_metadata = field(changed, "metadata"@);
            let old_labels = fields(field(old_metadata, "labels"@));
            let new_labels = fields(field(new_metadata, "labels"@));
            &&& name@ == selector.node_name@
            &&& request_body(call.request@) == Some(json(patch))
            &&& !new_labels.contains_key(label)
            &&& new_labels.remove(label) == old_labels.remove(label)
            &&& fields(new_metadata).remove("labels"@) == fields(old_metadata).remove("labels"@)
            &&& fields(changed).remove("metadata"@) == fields(node).remove("metadata"@)
        },
{
    law_inclusion_removes_label(node);
}

/// The five operations on a node name one and the same node, the selected one, and each asks for
/// its own kind of change.
pub proof fn law_node_operations_name_the_selected_node<C: BottlerocketShadowClient>(
    client: C,
    selector: BottlerocketShadowSelector,
    cordon: PendingCall,
    drain: PendingCall,
    uncordon: PendingCall,
    exclude: PendingCall,
    include_again: PendingCall,
)
    requires
        call_ensures(C::cordon_node, (&client, &selector), cordon),
        call_ensures(C::drain_node, (&client, &selector), drain),
        call_ensures(C::uncordon_node, (&client, &selector), uncordon),
        call_ensures(C::exclude_node_from_lb, (&client, &selector), exclude),
        call_ensures(C::remove_node_exclusion_from_lb, (&client, &selector), include_again),
    ensures
        cordon.request matches ApiRequest::CordonNode { name } && name@ == selector.node_name@,
        drain.request matches ApiRequest::DrainNode { name } && name@ == selector.node_name@,
        uncordon.request matches ApiRequest::UncordonNode { name } && name@ == selector.node_name@,
        exclude.request matches ApiRequest::MergeNode { name, .. } && name@ == selector.node_name@,
        include_again.request matches ApiRequest::MergeNode { name, .. } && name@
            == selector.node_name@,
{
}

/// The creation of a shadow and its updates go to one namespace, and to one name there, the one
/// that the selector gives.
pub proof fn law_shadow_operations_name_one_shadow<C: BottlerocketShadowClient, S, P>(
    client: C,
    selector: BottlerocketShadowSelector,
    status: serde_json::Value,
    spec: serde_json::Value,
    given: String,
    create: PendingCreate<C::Spec, C::Status>,
    update_status: PendingCall,
    update_spec: Result<PendingCall, Error<S, P>>,
)
    requires
        call_ensures(BottlerocketShadowSelector::brs_resource_name, (&selector,), given),
        call_ensures(C::create_node, (&client, &selector), create),
        call_ensures(C::update_node_status, (&client, &selector, status), update_status),
        call_ensures(
            C::update_node_spec::<S, P>,
            (&client, &selector, Ok::<serde_json::Value, P>(spec)),
            update_spec,
        ),
    ensures
        given@ == selector.resource_name@,
        create.object.metadata.name matches Some(name) && name@ == given@,
        update_status.request matches ApiRequest::MergeShadowStatus { namespace, name, .. } && name@
            == given@ && namespace@ == create.namespace@,
        update_spec is Ok,
        update_spec->Ok_0.request matches ApiRequest::MergeShadow { namespace, name, .. } && name@
            == given@ && namespace@ == create.namespace@,
{
}

/// What the bodies of a cordon and of an uncordon do to the mark of a node.
pub proof fn law_cordon_marks_the_node<C: BottlerocketShadowClient>(
    client: C,
    selector: BottlerocketShadowSelector,
    cordon: PendingCall,
    uncordon: PendingCall,
    node: Json,
)
    requires
        call_ensures(C::cordon_node, (&client, &selector), cordon),
        call_ensures(C::uncordon_node, (&client, &selector), uncordon),
    ensures
        request_body(cordon.request@) is Some,
        request_body(uncordon.request@) is Some,
        ({
            let cordoned = merge(node, request_body(cordon.request@)->0);
            let uncordoned = merge(node, request_body(uncordon.request@)->0);
            &&& field(field(cordoned, "spec"@), "unschedulable"@) == Json::Bool(true)
            &&& field(field(uncordoned, "spec"@), "unschedulable"@) == Json::Bool(false)
        }),
{
    law_last_scheduling_patch_wins(node, false, true);
    law_last_scheduling_patch_wins(node, true, false);
}

/// A status update succeeds exactly if its request did; otherwise it is reported as a failed
/// status update of the selected node.
pub proof fn law_status_update_outcome<C: BottlerocketShadowClient, S, P>(
    client: C,
    selector: BottlerocketShadowSelector,
    status: serde_json::Value,
    call: PendingCall,
    reply: Result<(), S>,
    result: Result<(), Error<S, P>>,
)
    requires
        call_ensures(C::update_node_status, (&client, &selector, status), call),
        call_ensures(PendingCall::finish::<S, P>, (call, reply), result),
    ensures
        result is Ok == reply is Ok,
        reply matches Err(failure) ==> (result matches Err(error) && error
            matches Error::UpdateBottlerocketShadowStatus { source, selector: node } && source
            == failure && node == selector),
{
}

/// A cordon succeeds exactly if its request did; otherwise it is reported as a failed spec update
/// of the selected node.
pub proof fn law_cordon_outcome<C: BottlerocketShadowClient, S, P>(
    client: C,
    selector: BottlerocketShadowSelector,
    call: PendingCall,
    reply: Result<(), S>,
    result: Result<(), Error<S, P>>,
)
    requires
        call_ensures(C::cordon_node, (&client, &selector), call),
        call_ensures(PendingCall::finish::<S, P>, (call, reply), result),
    ensures
        result is Ok == reply is Ok,
        reply matches Err(failure) ==> (result matches Err(error) && error
            matches Error::UpdateBottlerocketShadowSpec { source, selector: node } && source
            == failure && node == selector),
{
}

/// A drain succeeds exactly if the draining did; otherwise it is reported as a failed drain of the
/// selected node.
pub proof fn law_drain_outcome<C: BottlerocketShadowClient, S, P>(
    client: C,
    selector: BottlerocketShadowSelector,
    call: PendingCall,
    reply: Result<(), S>,
    result: Result<(), Error<S, P>>,
)
    requires
        call_ensures(C::drain_node, (&client, &selector), call),
        call_ensures(PendingCall::finish::<S, P>, (call, reply), result),
    ensures
        result is Ok == reply is Ok,
        reply matches Err(failure) ==> (result matches Err(error) && error
            matches Error::DrainBottlerocketShadow { source, selector: node } && source
            == failure && node == selector),
{
}

/// An uncordon succeeds exactly if its request did; otherwise it is reported as a failed uncordon
/// of the selected node.
pub proof fn law_uncordon_outcome<C: BottlerocketShadowClient, S, P>(
    client: C,
    selector: BottlerocketShadowSelector,
    call: PendingCall,
    reply: Result<(), S>,
    result: Result<(), Error<S, P>>,
)
    requires
        call_ensures(C::uncordon_node, (&client, &selector), call),
        call_ensures(PendingCall::finish::<S, P>, (call, reply), result),
    ensures
        result is Ok == reply is Ok,
        reply matches Err(failure) ==> (result matches Err(error) && error
            matches Error::UncordonBottlerocketShadow { source, selector: node } && source
            == failure && node == selector),
{
}

/// An exclusion succeeds exactly if its request did; otherwise it is reported as a failed
/// exclusion of the selected node.
pub proof fn law_exclusion_outcome<C: BottlerocketShadowClient, S, P>(
    client: C,
    selector: BottlerocketShadowSelector,
    call: PendingCall,
    reply: Result<(), S>,
    result: Result<(), Error<S, P>>,
)
    requires
        call_ensures(C::exclude_node_from_lb, (&client, &selector), call),
        call_ensures(PendingCall::finish::<S, P>, (call, reply), result),
    ensures
        result is Ok == reply is Ok,
        reply matches Err(failure) ==> (result matches Err(error) && error
            matches Error::ExcludeNodeFromLB { source, selector: node } && source
            == failure && node == selector),
{
}

/// The removal of an exclusion succeeds exactly if its request did; otherwise it is reported as a
/// failed removal for the selected node.
pub proof fn law_inclusion_outcome<C: BottlerocketShadowClient, S, P>(
    client: C,
    selector: BottlerocketShadowSelector,
    call: PendingCall,
    reply: Result<(), S>,
    result: Result<(), Error<S, P>>,
)
    requires
        call_ensures(C::remove_node_exclusion_from_lb, (&client, &selector), call),
        call_ensures(PendingCall::finish::<S, P>, (call, reply), result),
    ensures
        result is Ok == reply is Ok,
        reply matches Err(failure) ==> (result matches Err(error) && error
            matches Error::RemoveNodeExclusionFromLB { source, selector: node } && source
            == failure && node == selector),
{
}

/// A spec update whose spec was written as JSON succeeds exactly if its request did; otherwise it
/// is reported as a failed spec update of the selected node.
pub proof fn law_spec_update_outcome<C: BottlerocketShadowClient, S, P>(
    client: C,
    selector: BottlerocketShadowSelector,
    spec: serde_json::Value,
    call: PendingCall,
    reply: Result<(), S>,
    result: Result<(), Error<S, P>>,
)
    requires
        call_ensures(
            C::update_node_spec::<S, P>,
            (&client, &selector, Ok::<serde_json::Value, P>(spec)),
            Ok(call),
        ),
        call_ensures(PendingCall::finish::<S, P>, (call, reply), result),
    ensures
        result is Ok == reply is Ok,
        reply matches Err(failure) ==> (result matches Err(error) && error
            matches Error::UpdateBottlerocketShadowSpec { source, selector: node } && source
            == failure && node == selector),
{
}

/// A failure in a context becomes the error of the same kind, with the failure and the node of the
/// context.
pub proof fn law_context_decides_the_error<S, P>(
    context: ErrorContext,
    failure: S,
    error: Error<S, P>,
)
    requires
        call_ensures(ErrorContext::into_error::<S, P>, (context, failure), error),
    ensures
        match context {
            ErrorContext::CreateBottlerocketShadow { selector: node } => error
                matches Error::CreateBottlerocketShadow { source, selector } && source == failure
                && selector == node,
            ErrorContext::UpdateBottlerocketShadowStatus { selector: node } => error
                matches Error::UpdateBottlerocketShadowStatus { source, selector } && source == failure
                && selector == node,
            ErrorContext::UpdateBottlerocketShadowSpec { selector: node } => error
                matches Error::UpdateBottlerocketShadowSpec { source, selector } && source == failure
                && selector == node,
            ErrorContext::DrainBottlerocketShadow { selector: node } => error
                matches Error::DrainBottlerocketShadow { source, selector } && source == failure
                && selector == node,
            ErrorContext::ExcludeNodeFromLB { selector: node } => error
                matches Error::ExcludeNodeFromLB { source, selector } && source == failure
                && selector == node,
            ErrorContext::RemoveNodeExclusionFromLB { selector: node } => error
                matches Error::RemoveNodeExclusionFromLB { source, selector } && source == failure
                && selector == node,
            ErrorContext::UncordonBottlerocketShadow { selector: node } => error
                matches Error::UncordonBottlerocketShadow { source, selector } && source == failure
                && selector == node,
        },
{
}

/// The text of an error says what could not be done, then names the node, where there is one, by
/// its name and UID, and then quotes the text of the source.
pub proof fn law_error_texts<S, P>(error: Error<S, P>, source: &str, text: String)
    requires
        call_ensures(Error::<S, P>::message, (&error, source), text),
    ensures
        match error {
            Error::CreateBottlerocketShadow { selector, .. } => text@ == "Unable to create BottlerocketShadow"@ + " ("@
                + selector.node_name@ + ", "@ + selector.node_uid@ + "): '"@ + source@ + "'"@,
            Error::UpdateBottlerocketShadowStatus { selector, .. } => text@ == "Unable to update BottlerocketShadow status"@ + " ("@
                + selector.node_name@ + ", "@ + selector.node_uid@ + "): '"@ + source@ + "'"@,
            Error::UpdateBottlerocketShadowSpec { selector, .. } => text@ == "Unable to update BottlerocketShadow spec"@ + " ("@
                + selector.node_name@ + ", "@ + selector.node_uid@ + "): '"@ + source@ + "'"@,
            Error::DrainBottlerocketShadow { selector, .. } => text@ == "Unable to drain BottlerocketShadow"@ + " ("@
                + selector.node_name@ + ", "@ + selector.node_uid@ + "): '"@ + source@ + "'"@,
            Error::ExcludeNodeFromLB { selector, .. } => text@ == "Unable to exclude node from load balancer"@ + " ("@
                + selector.node_name@ + ", "@ + selector.node_uid@ + "): '"@ + source@ + "'"@,
            Error::RemoveNodeExclusionFromLB { selector, .. } => text@ == "Unable to remove node exclusion from load balancer"@ + " ("@
                + selector.node_name@ + ", "@ + selector.node_uid@ + "): '"@ + source@ + "'"@,
            Error::UncordonBottlerocketShadow { selector, .. } => text@ == "Unable to uncordon BottlerocketShadow"@ + " ("@
                + selector.node_name@ + ", "@ + selector.node_uid@ + "): '"@ + source@ + "'"@,
            Error::CreateK8SPatch { .. } => text@
                == "Unable to create patch to send to Kubernetes API: '"@ + source@ + "'"@,
        },
{
}

/// The default patches address the given resource and carry a default.
pub proof fn law_default_patches<S: Default, T: Default>(
    resource: ShadowResource,
    status_patch: BottlerocketShadowStatusPatch<T>,
    spec_patch: BottlerocketShadowSpecOverwrite<S>,
)
    requires
        call_ensures(BottlerocketShadowStatusPatch::<T>::default, (&resource,), status_patch),
        call_ensures(BottlerocketShadowSpecOverwrite::<S>::default, (&resource,), spec_patch),
    ensures
        status_patch.api_version@ == resource.api_version@,
        status_patch.kind@ == resource.kind@,
        call_ensures(T::default, (), status_patch.status),
        spec_patch.api_version@ == resource.api_version@,
        spec_patch.kind@ == resource.kind@,
        call_ensures(S::default, (), spec_patch.spec),
{
}

/// A patch is written as the object with its three fields, under their names in the Kubernetes
/// API.
pub proof fn law_patches_are_written_by_field(
    status_patch: BottlerocketShadowStatusPatch<serde_json::Value>,
    written_status: serde_json::Value,
    spec_patch: BottlerocketShadowSpecOverwrite<serde_json::Value>,
    written_spec: serde_json::Value,
)
    requires
        call_ensures(
            BottlerocketShadowStatusPatch::<serde_json::Value>::into_value,
            (status_patch,),
            written_status,
        ),
        call_ensures(
            BottlerocketShadowSpecOverwrite::<serde_json::Value>::into_value,
            (spec_patch,),
            written_spec,
        ),
    ensures
        json(written_status) == Json::Object(
            map![
                "apiVersion"@ => Json::String(status_patch.api_version@),
                "kind"@ => Json::String(status_patch.kind@),
                "status"@ => json(status_patch.status),
            ],
        ),
        json(written_spec) == Json::Object(
            map![
                "apiVersion"@ => Json::String(spec_patch.api_version@),
                "kind"@ => Json::String(spec_patch.kind@),
                "spec"@ => json(spec_patch.spec),
            ],
        ),
{
}

/// The patch writers state the type of the resource and hold the given document under the part
/// that they are for.
pub proof fn law_written_shadow_patches(
    resource: ShadowResource,
    document: serde_json::Value,
    written_status: serde_json::Value,
    written_spec: serde_json::Value,
)
    requires
        call_ensures(write_status_patch, (&resource, document), written_status),
        call_ensures(write_spec_patch, (&resource, document), written_spec),
    ensures
        json(written_status) == Json::Object(
            map![
                "apiVersion"@ => Json::String(resource.api_version@),
                "kind"@ => Json::String(resource.kind@),
                "status"@ => json(document),
            ],
        ),
        json(written_spec) == Json::Object(
            map![
                "apiVersion"@ => Json::String(resource.api_version@),
                "kind"@ => Json::String(resource.kind@),
                "spec"@ => json(document),
            ],
        ),
{
}

/// The label patches set the load balancer label, one to `True` and the other to null.
pub proof fn law_written_label_patches(exclusion: serde_json::Value, inclusion: serde_json::Value)
    requires
        call_ensures(write_exclusion_patch, (), exclusion),
        call_ensures(write_inclusion_patch, (), inclusion),
    ensures
        json(exclusion) == Json::Object(
            map!["metadata"@ => Json::Object(
                map!["labels"@ => Json::Object(
                    map!["node.kubernetes.io/exclude-from-external-load-balancers"@
                        => Json::String("True"@)],
                )],
            )],
        ),
        json(inclusion) == Json::Object(
            map!["metadata"@ => Json::Object(
                map!["labels"@ => Json::Object(
                    map!["node.kubernetes.io/exclude-from-external-load-balancers"@
                        => Json::Null],
                )],
            )],
        ),
{
}

/// A client hands out the handle and the resource that it was made with, and so does a clone of
/// it.
pub proof fn law_client_hands_out_what_it_was_made_with<Spec, Status>(
    handle: kube::client::Client,
    resource: ShadowResource,
    client: K8SBottlerocketShadowClient<Spec, Status>,
    copy: K8SBottlerocketShadowClient<Spec, Status>,
    client_handle: &kube::client::Client,
    client_resource: &ShadowResource,
    copy_handle: &kube::client::Client,
    copy_resource: &ShadowResource,
)
    requires
        call_ensures(K8SBottlerocketShadowClient::<Spec, Status>::new, (handle, resource), client),
        call_ensures(K8SBottlerocketShadowClient::<Spec, Status>::clone, (&client,), copy),
        call_ensures(
            K8SBottlerocketShadowClient::<Spec, Status>::k8s_client,
            (&client,),
            client_handle,
        ),
        call_ensures(
            K8SBottlerocketShadowClient::<Spec, Status>::resource,
            (&client,),
            client_resource,
        ),
        call_ensures(
            K8SBottlerocketShadowClient::<Spec, Status>::k8s_client,
            (&copy,),
            copy_handle,
        ),
        call_ensures(
            K8SBottlerocketShadowClient::<Spec, Status>::resource,
            (&copy,),
            copy_resource,
        ),
    ensures
        *client_handle == handle,
        *client_resource == resource,
        *copy_handle == handle,
        *copy_resource == resource,
{
}

/// A client of a cluster works in the namespace, and states the type, that it was made with.
pub proof fn law_cluster_client_uses_its_resource<
    Spec: Default + Send + Sync,
    Status: Send + Sync,
>(
    handle: kube::client::Client,
    resource: ShadowResource,
    client: K8SBottlerocketShadowClient<Spec, Status>,
    selector: BottlerocketShadowSelector,
    status: serde_json::Value,
    create: PendingCreate<Spec, Status>,
    update: PendingCall,
)
    requires
        call_ensures(K8SBottlerocketShadowClient::<Spec, Status>::new, (handle, resource), client),
        call_ensures(
            K8SBottlerocketShadowClient::<Spec, Status>::create_node,
            (&client, &selector),
            create,
        ),
        call_ensures(
            K8SBottlerocketShadowClient::<Spec, Status>::update_node_status,
            (&client, &selector, status),
            update,
        ),
    ensures
        create.namespace@ == resource.namespace@,
        update.request matches ApiRequest::MergeShadowStatus { namespace, name, patch } && {
            &&& namespace@ == resource.namespace@
            &&& name@ == selector.resource_name@
            &&& json(patch) == Json::Object(
                map![
                    "apiVersion"@ => Json::String(resource.api_version@),
                    "kind"@ => Json::String(resource.kind@),
                    "status"@ => json(status),
                ],
            )
        },
{
}

/// A clone of a selector or of a resource has the fields of the one that it was made of.
pub proof fn law_clones_keep_their_fields(
    selector: BottlerocketShadowSelector,
    selector_copy: BottlerocketShadowSelector,
    resource: ShadowResource,
    resource_copy: ShadowResource,
)
    requires
        call_ensures(BottlerocketShadowSelector::clone, (&selector,), selector_copy),
        call_ensures(ShadowResource::clone, (&resource,), resource_copy),
    ensures
        selector_copy.node_name@ == selector.node_name@,
        selector_copy.node_uid@ == selector.node_uid@,
        selector_copy.resource_name@ == selector.resource_name@,
        resource_copy.api_version@ == resource.api_version@,
        resource_copy.kind@ == resource.kind@,
        resource_copy.namespace@ == resource.namespace@,
{
}

} // verus!
