//! The laws of the client.

use crate::client::{
    spec_request, status_request, ApiRequestView, BottlerocketShadowClient,
    K8SBottlerocketShadowClient, PendingCall, PendingCreate,
};
use crate::client_error::{Error, ErrorContext};
use crate::json::{single, Json, JsonEntries};
use crate::merge::{
    covers, field, fields, lemma_covering_merge, lemma_covers_merge, lemma_exact_merge,
    lemma_merge_field, lemma_merge_idempotent, lemma_merge_single, merge, null_free,
};
use crate::patch::{
    exclusion_patch, inclusion_patch, label_patch, scheduling_patch, shadow_patch, spec_patch,
    status_patch, EXCLUDE_FROM_LB_LABEL,
};
use crate::selector::BottlerocketShadowSelector;
use crate::shadow::{node_owner, shadow_metadata, BottlerocketShadow, ShadowResource};
use std::sync::Arc;
use vstd::prelude::*;

verus! {

/// The metadata of a node.
pub open spec fn metadata(node: Json) -> Json {
    field(node, "metadata"@)
}

/// The labels of a node.
pub open spec fn labels(node: Json) -> Json {
    field(metadata(node), "labels"@)
}

/// Whether two nodes agree on everything but the load balancer label.
pub open spec fn agree_but_for_label(a: Json, b: Json) -> bool {
    &&& fields(labels(a)).remove(EXCLUDE_FROM_LB_LABEL@) == fields(labels(b)).remove(
        EXCLUDE_FROM_LB_LABEL@,
    )
    &&& fields(metadata(a)).remove("labels"@) == fields(metadata(b)).remove("labels"@)
    &&& fields(a).remove("metadata"@) == fields(b).remove("metadata"@)
}

/// The node that a patch of the label makes of a node.
proof fn lemma_merge_label(node: Json, value: Json)
    ensures
        merge(node, label_patch(value)) == Json::Object(
            fields(node).insert(
                "metadata"@,
                Json::Object(
                    fields(metadata(node)).insert(
                        "labels"@,
                        merge(labels(node), single(EXCLUDE_FROM_LB_LABEL@, value)),
                    ),
                ),
            ),
        ),
{
    let label = single(EXCLUDE_FROM_LB_LABEL@, value);
    lemma_merge_single(metadata(node), "labels"@, label);
    lemma_merge_single(node, "metadata"@, single("labels"@, label));
}

/// Excluding a node from load balancers gives it the label with the value `True` and
/// changes nothing else.
pub proof fn law_exclusion_sets_label(node: Json)
    ensures
        fields(labels(merge(node, exclusion_patch()))).contains_key(EXCLUDE_FROM_LB_LABEL@),
        field(labels(merge(node, exclusion_patch())), EXCLUDE_FROM_LB_LABEL@) == Json::String(
            "True"@,
        ),
        agree_but_for_label(merge(node, exclusion_patch()), node),
{
    let value = Json::String("True"@);
    lemma_merge_label(node, value);
    lemma_merge_single(labels(node), EXCLUDE_FROM_LB_LABEL@, value);
    let result = merge(node, exclusion_patch());
    assert(fields(result).remove("metadata"@) =~= fields(node).remove("metadata"@));
    assert(fields(metadata(result)).remove("labels"@) =~= fields(metadata(node)).remove(
        "labels"@,
    ));
    assert(fields(labels(result)).remove(EXCLUDE_FROM_LB_LABEL@) =~= fields(labels(node)).remove(
        EXCLUDE_FROM_LB_LABEL@,
    ));
}

/// Removing the exclusion of a node takes the label from it and changes nothing else.
pub proof fn law_inclusion_removes_label(node: Json)
    ensures
        !fields(labels(merge(node, inclusion_patch()))).contains_key(EXCLUDE_FROM_LB_LABEL@),
        agree_but_for_label(merge(node, inclusion_patch()), node),
{
    lemma_merge_label(node, Json::Null);
    lemma_merge_single(labels(node), EXCLUDE_FROM_LB_LABEL@, Json::Null);
    let result = merge(node, inclusion_patch());
    assert(fields(result).remove("metadata"@) =~= fields(node).remove("metadata"@));
    assert(fields(metadata(result)).remove("labels"@) =~= fields(metadata(node)).remove(
        "labels"@,
    ));
    assert(fields(labels(result)).remove(EXCLUDE_FROM_LB_LABEL@) =~= fields(labels(node)).remove(
        EXCLUDE_FROM_LB_LABEL@,
    ));
}

/// Of two patches of the label that follow each other, the second decides.
proof fn lemma_last_label_wins(node: Json, first: Json, second: Json)
    requires
        first !is Object,
        second !is Object,
    ensures
        merge(merge(node, label_patch(first)), label_patch(second)) == merge(
            node,
            label_patch(second),
        ),
{
    let key = EXCLUDE_FROM_LB_LABEL@;
    let middle = merge(node, label_patch(first));
    lemma_merge_label(node, first);
    lemma_merge_label(node, second);
    lemma_merge_label(middle, second);
    lemma_merge_single(labels(node), key, first);
    lemma_merge_single(labels(node), key, second);
    lemma_merge_single(labels(middle), key, second);
    assert(fields(labels(middle)).remove(key) =~= fields(labels(node)).remove(key));
    assert(fields(labels(middle)).insert(key, second) =~= fields(labels(node)).insert(key, second));
    let new_labels = merge(labels(node), single(key, second));
    assert(merge(labels(middle), single(key, second)) == new_labels);
    let new_metadata = fields(metadata(node)).insert("labels"@, new_labels);
    assert(fields(metadata(middle)).insert("labels"@, new_labels) =~= new_metadata);
    assert(fields(middle).insert("metadata"@, Json::Object(new_metadata)) =~= fields(node).insert(
        "metadata"@,
        Json::Object(new_metadata),
    ));
}

/// Excluding a node a second time changes nothing, and so does removing its exclusion a
/// second time.
pub proof fn law_label_patches_are_idempotent(node: Json)
    ensures
        merge(merge(node, exclusion_patch()), exclusion_patch()) == merge(node, exclusion_patch()),
        merge(merge(node, inclusion_patch()), inclusion_patch()) == merge(node, inclusion_patch()),
{
    lemma_last_label_wins(node, Json::String("True"@), Json::String("True"@));
    lemma_last_label_wins(node, Json::Null, Json::Null);
}

/// Whatever was done to the exclusion of a node before, the last operation decides.
pub proof fn law_last_label_patch_wins(node: Json)
    ensures
        merge(merge(node, exclusion_patch()), inclusion_patch()) == merge(node, inclusion_patch()),
        merge(merge(node, inclusion_patch()), exclusion_patch()) == merge(node, exclusion_patch()),
{
    lemma_last_label_wins(node, Json::String("True"@), Json::Null);
    lemma_last_label_wins(node, Json::Null, Json::String("True"@));
}

/// Removing the exclusion of a node undoes its exclusion: the node is as before exactly if it
/// had labels, but not this one.
pub proof fn law_inclusion_undoes_exclusion(node: Json)
    ensures
        merge(merge(node, exclusion_patch()), inclusion_patch()) == node <==> {
            &&& node is Object
            &&& metadata(node) is Object
            &&& labels(node) is Object
            &&& !fields(labels(node)).contains_key(EXCLUDE_FROM_LB_LABEL@)
        },
{
    law_last_label_patch_wins(node);
    lemma_merge_label(node, Json::Null);
    lemma_merge_single(labels(node), EXCLUDE_FROM_LB_LABEL@, Json::Null);
    if labels(node) is Object && !fields(labels(node)).contains_key(EXCLUDE_FROM_LB_LABEL@) {
        assert(fields(labels(node)).remove(EXCLUDE_FROM_LB_LABEL@) =~= fields(labels(node)));
        assert(fields(metadata(node)).insert("labels"@, labels(node)) =~= fields(metadata(node)));
        assert(fields(node).insert("metadata"@, metadata(node)) =~= fields(node));
    }
}

/// The `unschedulable` mark of a node, null where it is missing.
pub open spec fn unschedulable(node: Json) -> Json {
    field(field(node, "spec"@), "unschedulable"@)
}

/// Whether pods may be deployed onto a node: it is not marked as unschedulable.
pub open spec fn schedulable(node: Json) -> bool {
    unschedulable(node) != Json::Bool(true)
}

/// Whether two nodes agree on everything but the `unschedulable` mark.
pub open spec fn agree_but_for_mark(a: Json, b: Json) -> bool {
    &&& fields(field(a, "spec"@)).remove("unschedulable"@) == fields(field(b, "spec"@)).remove(
        "unschedulable"@,
    )
    &&& fields(a).remove("spec"@) == fields(b).remove("spec"@)
}

/// The body with which a request patches the object that it names; a drain patches nothing
/// itself. To cordon or uncordon a node, `kube` sends [`scheduling_patch`] as a strategic merge
/// patch; that body has no list and no directive, and the laws read it as a JSON merge patch.
pub open spec fn request_body(request: ApiRequestView) -> Option<Json> {
    match request {
        ApiRequestView::MergeShadowStatus { patch, .. } => Some(patch),
        ApiRequestView::MergeShadow { patch, .. } => Some(patch),
        ApiRequestView::MergeNode { patch, .. } => Some(patch),
        ApiRequestView::CordonNode { .. } => Some(scheduling_patch(true)),
        ApiRequestView::UncordonNode { .. } => Some(scheduling_patch(false)),
        ApiRequestView::DrainNode { .. } => None,
    }
}

/// What marking a node as unschedulable, or as schedulable, makes of it.
proof fn lemma_merge_mark(node: Json, value: bool)
    ensures
        merge(node, scheduling_patch(value)) == Json::Object(
            fields(node).insert(
                "spec"@,
                Json::Object(
                    fields(field(node, "spec"@)).insert("unschedulable"@, Json::Bool(value)),
                ),
            ),
        ),
        unschedulable(merge(node, scheduling_patch(value))) == Json::Bool(value),
        agree_but_for_mark(merge(node, scheduling_patch(value)), node),
{
    let spec = field(node, "spec"@);
    lemma_merge_single(spec, "unschedulable"@, Json::Bool(value));
    lemma_merge_single(node, "spec"@, single("unschedulable"@, Json::Bool(value)));
    let result = merge(node, scheduling_patch(value));
    assert(fields(result).remove("spec"@) =~= fields(node).remove("spec"@));
    assert(fields(field(result, "spec"@)).remove("unschedulable"@) =~= fields(spec).remove(
        "unschedulable"@,
    ));
}

/// Of two markings that follow each other, the second decides, and the mark holds its value.
pub proof fn law_last_scheduling_patch_wins(node: Json, first: bool, second: bool)
    ensures
        merge(merge(node, scheduling_patch(first)), scheduling_patch(second)) == merge(
            node,
            scheduling_patch(second),
        ),
        unschedulable(merge(node, scheduling_patch(second))) == Json::Bool(second),
        agree_but_for_mark(merge(node, scheduling_patch(second)), node),
{
    let between = merge(node, scheduling_patch(first));
    lemma_merge_mark(node, first);
    lemma_merge_mark(node, second);
    lemma_merge_mark(between, second);
    let spec = fields(field(node, "spec"@)).insert("unschedulable"@, Json::Bool(second));
    assert(fields(field(between, "spec"@)).insert("unschedulable"@, Json::Bool(second)) =~= spec);
    assert(fields(between).insert("spec"@, Json::Object(spec)) =~= fields(node).insert(
        "spec"@,
        Json::Object(spec),
    ));
}

/// Uncordoning undoes cordoning: both requests name the selected node, the first keeps pods off
/// it and the second lets them on again, and neither changes anything else. The node is
/// exactly as before if it was marked as schedulable; one without the mark is left with it.
pub proof fn law_uncordon_undoes_cordon<C: BottlerocketShadowClient, D: BottlerocketShadowClient>(
    cordoning: C,
    uncordoning: D,
    selector: BottlerocketShadowSelector,
    cordon: PendingCall,
    uncordon: PendingCall,
    node: Json,
)
    requires
        call_ensures(C::cordon_node, (&cordoning, &selector), cordon),
        call_ensures(D::uncordon_node, (&uncordoning, &selector), uncordon),
    ensures
        ({
            let cordoned = merge(node, request_body(cordon.request@)->0);
            let uncordoned = merge(cordoned, request_body(uncordon.request@)->0);
            &&& cordon.request@ == (ApiRequestView::CordonNode { name: selector.node_name@ })
            &&& uncordon.request@ == (ApiRequestView::UncordonNode { name: selector.node_name@ })
            &&& request_body(cordon.request@) is Some
            &&& request_body(uncordon.request@) is Some
            &&& !schedulable(cordoned)
            &&& agree_but_for_mark(cordoned, node)
            &&& schedulable(uncordoned)
            &&& agree_but_for_mark(uncordoned, node)
            &&& uncordoned == merge(node, request_body(uncordon.request@)->0)
            &&& uncordoned == node <==> unschedulable(node) == Json::Bool(false)
        }),
{
    law_last_scheduling_patch_wins(node, false, true);
    law_last_scheduling_patch_wins(node, true, false);
    lemma_merge_mark(node, false);
    if unschedulable(node) == Json::Bool(false) {
        let spec = field(node, "spec"@);
        assert(fields(spec).insert("unschedulable"@, Json::Bool(false)) =~= fields(spec));
        assert(fields(node).insert("spec"@, spec) =~= fields(node));
    }
}

/// The keys of a shadow that the patches speak of are different keys.
proof fn lemma_shadow_keys()
    ensures
        "apiVersion"@ != "kind"@,
        "apiVersion"@ != "spec"@,
        "apiVersion"@ != "status"@,
        "kind"@ != "spec"@,
        "kind"@ != "status"@,
        "spec"@ != "status"@,
{
    reveal_strlit("apiVersion");
    reveal_strlit("kind");
    reveal_strlit("spec");
    reveal_strlit("status");
    assert("apiVersion"@.len() == 10);
    assert("status"@.len() == 6);
    assert("spec"@.len() == 4);
    assert("kind"@[0] != "spec"@[0]);
}

/// The shadow that a patch of one part makes of a shadow.
proof fn lemma_merge_part(
    shadow: Json,
    resource: ShadowResource,
    part: Seq<char>,
    document: Json,
)
    requires
        part == "spec"@ || part == "status"@,
    ensures
        merge(shadow, shadow_patch(resource, part, document)) == ({
            let typed = fields(shadow).insert(
                "apiVersion"@,
                Json::String(resource.api_version@),
            ).insert("kind"@, Json::String(resource.kind@));
            if document == Json::Null {
                Json::Object(typed.remove(part))
            } else {
                Json::Object(typed.insert(part, merge(field(shadow, part), document)))
            }
        }),
{
    lemma_shadow_keys();
    let version = Json::String(resource.api_version@);
    let kind = Json::String(resource.kind@);
    let changes = JsonEntries::empty().insert("apiVersion"@, version).insert("kind"@, kind).insert(
        part,
        document,
    );
    let merged = fields(merge(shadow, shadow_patch(resource, part, document)));
    let typed = fields(shadow).insert("apiVersion"@, version).insert("kind"@, kind);
    let expected = if document == Json::Null {
        typed.remove(part)
    } else {
        typed.insert(part, merge(field(shadow, part), document))
    };
    assert forall|key: Seq<char>|
        merged.contains_key(key) == expected.contains_key(key) && (merged.contains_key(key)
            ==> merged[key] == expected[key]) by {
        lemma_merge_field(shadow, changes, key);
    }
    assert(merged =~= expected);
}

/// What an update of one part leaves of that part.
pub(crate) proof fn lemma_update_writes_part(
    shadow: Json,
    resource: ShadowResource,
    part: Seq<char>,
    document: Json,
)
    requires
        part == "spec"@ || part == "status"@,
    ensures
        ({
            let updated = merge(shadow, shadow_patch(resource, part, document));
            &&& field(updated, part) == merge(field(shadow, part), document)
            &&& fields(updated).contains_key(part) == (document != Json::Null)
        }),
{
    lemma_shadow_keys();
    lemma_merge_part(shadow, resource, part, document);
}

/// Whether `updated` states the type of the resource and has of `key` what `shadow` has.
pub open spec fn keeps_the_rest(
    shadow: Json,
    updated: Json,
    resource: ShadowResource,
    key: Seq<char>,
) -> bool {
    &&& field(updated, "apiVersion"@) == Json::String(resource.api_version@)
    &&& field(updated, "kind"@) == Json::String(resource.kind@)
    &&& fields(updated).contains_key(key) == fields(shadow).contains_key(key)
    &&& field(updated, key) == field(shadow, key)
}

proof fn lemma_update_keeps_the_rest(
    shadow: Json,
    resource: ShadowResource,
    part: Seq<char>,
    document: Json,
    key: Seq<char>,
)
    requires
        part == "spec"@ || part == "status"@,
        key != part,
        key != "apiVersion"@,
        key != "kind"@,
    ensures
        keeps_the_rest(
            shadow,
            merge(shadow, shadow_patch(resource, part, document)),
            resource,
            key,
        ),
{
    lemma_shadow_keys();
    lemma_merge_part(shadow, resource, part, document);
}

/// Updating the status of a shadow states its type, and changes no other part of it: not the
/// spec, not the metadata, not anything else.
pub proof fn law_status_update_keeps_the_rest(
    shadow: Json,
    resource: ShadowResource,
    status: Json,
    key: Seq<char>,
)
    requires
        key != "status"@,
        key != "apiVersion"@,
        key != "kind"@,
    ensures
        keeps_the_rest(shadow, merge(shadow, status_patch(resource, status)), resource, key),
{
    lemma_update_keeps_the_rest(shadow, resource, "status"@, status, key);
}

/// Updating the spec of a shadow states its type, and changes no other part of it: not the
/// status, not the metadata, not anything else.
pub proof fn law_spec_update_keeps_the_rest(
    shadow: Json,
    resource: ShadowResource,
    spec: Json,
    key: Seq<char>,
)
    requires
        key != "spec"@,
        key != "apiVersion"@,
        key != "kind"@,
    ensures
        keeps_the_rest(shadow, merge(shadow, spec_patch(resource, spec)), resource, key),
{
    lemma_update_keeps_the_rest(shadow, resource, "spec"@, spec, key);
}

/// An update of the status and an update of the spec do not get in each other's way: in
/// either order they give the same shadow.
pub proof fn law_status_and_spec_updates_commute(
    shadow: Json,
    resource: ShadowResource,
    status: Json,
    spec: Json,
)
    ensures
        merge(merge(shadow, status_patch(resource, status)), spec_patch(resource, spec)) == merge(
            merge(shadow, spec_patch(resource, spec)),
            status_patch(resource, status),
        ),
{
    lemma_shadow_keys();
    let with_status = merge(shadow, status_patch(resource, status));
    let with_spec = merge(shadow, spec_patch(resource, spec));
    lemma_merge_part(shadow, resource, "status"@, status);
    lemma_merge_part(shadow, resource, "spec"@, spec);
    lemma_merge_part(with_status, resource, "spec"@, spec);
    lemma_merge_part(with_spec, resource, "status"@, status);
    assert(field(with_status, "spec"@) == field(shadow, "spec"@));
    assert(field(with_spec, "status"@) == field(shadow, "status"@));
    assert(fields(merge(with_status, spec_patch(resource, spec))) =~= fields(
        merge(with_spec, status_patch(resource, status)),
    ));
}

/// How the document `stored` came of writing `new_document` over `old_document`: nothing
/// of the old document is left exactly if the new one has every field of it, and the new
/// document itself is stored exactly if, besides, none of its fields is null.
pub open spec fn overwrites(old_document: Json, new_document: Json, stored: Json) -> bool {
    &&& stored == merge(Json::Null, new_document) <==> covers(new_document, old_document)
    &&& stored == new_document <==> covers(new_document, old_document) && null_free(new_document)
}

proof fn lemma_update_overwrites(
    shadow: Json,
    resource: ShadowResource,
    part: Seq<char>,
    document: Json,
)
    requires
        part == "spec"@ || part == "status"@,
    ensures
        overwrites(
            field(shadow, part),
            document,
            field(merge(shadow, shadow_patch(resource, part, document)), part),
        ),
{
    lemma_shadow_keys();
    lemma_merge_part(shadow, resource, part, document);
    lemma_covering_merge(field(shadow, part), document);
    lemma_exact_merge(field(shadow, part), document);
}

/// A status update overwrites the whole status: nothing of the old status is left exactly if the
/// new status has every field that the old one has, and the new status is stored as it is
/// exactly if, besides, none of its fields is null.
pub proof fn law_status_update_overwrites(shadow: Json, resource: ShadowResource, status: Json)
    ensures
        overwrites(
            field(shadow, "status"@),
            status,
            field(merge(shadow, status_patch(resource, status)), "status"@),
        ),
{
    lemma_update_overwrites(shadow, resource, "status"@, status);
}

/// A spec update overwrites the whole spec: nothing of the old spec is left exactly if the
/// new spec has every field that the old one has, and the new spec is stored as it is
/// exactly if, besides, none of its fields is null.
pub proof fn law_spec_update_overwrites(shadow: Json, resource: ShadowResource, spec: Json)
    ensures
        overwrites(
            field(shadow, "spec"@),
            spec,
            field(merge(shadow, spec_patch(resource, spec)), "spec"@),
        ),
{
    lemma_update_overwrites(shadow, resource, "spec"@, spec);
}

proof fn lemma_last_update_wins(
    shadow: Json,
    resource: ShadowResource,
    part: Seq<char>,
    first: Json,
    second: Json,
)
    requires
        part == "spec"@ || part == "status"@,
    ensures
        ({
            let between = merge(shadow, shadow_patch(resource, part, first));
            let updated = merge(between, shadow_patch(resource, part, second));
            &&& overwrites(field(between, part), second, field(updated, part))
            &&& covers(second, field(shadow, part)) && covers(second, first) ==> {
                &&& covers(second, field(between, part))
                &&& updated == merge(shadow, shadow_patch(resource, part, second))
            }
        }),
{
    lemma_shadow_keys();
    let old_part = field(shadow, part);
    let between = merge(shadow, shadow_patch(resource, part, first));
    let updated = merge(between, shadow_patch(resource, part, second));
    lemma_update_overwrites(between, resource, part, second);
    lemma_merge_part(shadow, resource, part, first);
    lemma_merge_part(shadow, resource, part, second);
    lemma_merge_part(between, resource, part, second);
    assert(field(between, part) == merge(old_part, first));
    if covers(second, old_part) && covers(second, first) {
        lemma_covers_merge(second, old_part, first);
        lemma_covering_merge(old_part, second);
        lemma_covering_merge(merge(old_part, first), second);
        assert(fields(updated) =~= fields(merge(shadow, shadow_patch(resource, part, second))));
    }
}

/// Of two status updates, the second decides: where the second status has every field that the
/// first one and the status before them have, the shadow is as if the first update had never
/// been made. Nothing of the earlier status is left exactly if the second status has every field
/// that the first update left.
pub proof fn law_last_status_update_wins(
    shadow: Json,
    resource: ShadowResource,
    first: Json,
    second: Json,
)
    ensures
        ({
            let between = merge(shadow, status_patch(resource, first));
            let updated = merge(between, status_patch(resource, second));
            &&& overwrites(field(between, "status"@), second, field(updated, "status"@))
            &&& covers(second, field(shadow, "status"@)) && covers(second, first) ==> {
                &&& covers(second, field(between, "status"@))
                &&& updated == merge(shadow, status_patch(resource, second))
            }
        }),
{
    lemma_last_update_wins(shadow, resource, "status"@, first, second);
}

/// Of two spec updates, the second decides: where the second spec has every field that the
/// first one and the spec before them have, the shadow is as if the first update had never
/// been made. Nothing of the earlier spec is left exactly if the second spec has every field
/// that the first update left.
pub proof fn law_last_spec_update_wins(
    shadow: Json,
    resource: ShadowResource,
    first: Json,
    second: Json,
)
    ensures
        ({
            let between = merge(shadow, spec_patch(resource, first));
            let updated = merge(between, spec_patch(resource, second));
            &&& overwrites(field(between, "spec"@), second, field(updated, "spec"@))
            &&& covers(second, field(shadow, "spec"@)) && covers(second, first) ==> {
                &&& covers(second, field(between, "spec"@))
                &&& updated == merge(shadow, spec_patch(resource, second))
            }
        }),
{
    lemma_last_update_wins(shadow, resource, "spec"@, first, second);
}

/// Making the same update of the status or of the spec a second time changes nothing.
pub proof fn law_updates_are_idempotent(shadow: Json, resource: ShadowResource, document: Json)
    ensures
        merge(
            merge(shadow, status_patch(resource, document)),
            status_patch(resource, document),
        ) == merge(shadow, status_patch(resource, document)),
        merge(merge(shadow, spec_patch(resource, document)), spec_patch(resource, document))
            == merge(shadow, spec_patch(resource, document)),
{
    lemma_merge_idempotent(shadow, status_patch(resource, document));
    lemma_merge_idempotent(shadow, spec_patch(resource, document));
}

/// The updates of a shadow address the object under the name that it was created with, in
/// the namespace of the shadows.
pub proof fn law_updates_address_the_created_shadow(
    resource: ShadowResource,
    selector: BottlerocketShadowSelector,
    document: Json,
)
    ensures
        status_request(resource, selector, document) matches ApiRequestView::MergeShadowStatus {
            namespace,
            name,
            ..
        } && namespace == resource.namespace@ && shadow_metadata(selector).name == Some(name),
        spec_request(resource, selector, document) matches ApiRequestView::MergeShadow {
            namespace,
            name,
            ..
        } && namespace == resource.namespace@ && shadow_metadata(selector).name == Some(name),
{
}

/// A new shadow has the selected node, and no other object, as its owner.
pub proof fn law_node_owns_its_shadow(selector: BottlerocketShadowSelector)
    ensures
        shadow_metadata(selector).owner_references is Some,
        shadow_metadata(selector).owner_references->0.len() == 1,
        shadow_metadata(selector).owner_references->0[0] == node_owner(selector),
        node_owner(selector).name == selector.node_name@,
        node_owner(selector).uid == selector.node_uid@,
{
}

/// The error of a failed operation names the node that the operation was about and holds
/// the failure that was reported.
pub proof fn law_errors_name_node_and_failure<S, P>(context: ErrorContext, source: S)
    ensures
        context.error::<S, P>(source).selector() == Some(context.selector()),
        context.error::<S, P>(source).reported() == Some(source),
{
}

/// Whether the default of `Spec` has one outcome.
pub open spec fn one_default<Spec: Default>() -> bool {
    forall|a: Spec, b: Spec|
        #[trigger] call_ensures(Spec::default, (), a) && #[trigger] call_ensures(Spec::default, (), b)
            ==> a == b
}

/// What a creation gives depends on the selected node alone: two creations for one selector,
/// by any two clients, succeed once their requests succeeded, and return objects with equal
/// metadata, no status, and an outcome of the default as spec; where the default has one
/// outcome, the objects are equal.
pub proof fn law_creation_depends_on_selector_alone<
    C: BottlerocketShadowClient,
    D: BottlerocketShadowClient<Spec = C::Spec, Status = C::Status>,
    S,
    P,
>(
    first: C,
    first_call: PendingCreate<C::Spec, C::Status>,
    first_result: Result<BottlerocketShadow<C::Spec, C::Status>, Error<S, P>>,
    second: D,
    second_call: PendingCreate<C::Spec, C::Status>,
    second_result: Result<BottlerocketShadow<C::Spec, C::Status>, Error<S, P>>,
    selector: BottlerocketShadowSelector,
)
    requires
        call_ensures(C::create_node, (&first, &selector), first_call),
        call_ensures(D::create_node, (&second, &selector), second_call),
        call_ensures(
            PendingCreate::<C::Spec, C::Status>::finish::<S, P>,
            (first_call, Ok::<(), S>(())),
            first_result,
        ),
        call_ensures(
            PendingCreate::<C::Spec, C::Status>::finish::<S, P>,
            (second_call, Ok::<(), S>(())),
            second_result,
        ),
    ensures
        first_result is Ok,
        second_result is Ok,
        first_result->Ok_0.metadata@ == second_result->Ok_0.metadata@,
        first_result->Ok_0.status is None,
        second_result->Ok_0.status is None,
        call_ensures(C::Spec::default, (), first_result->Ok_0.spec),
        call_ensures(C::Spec::default, (), second_result->Ok_0.spec),
        one_default::<C::Spec>() ==> first_result->Ok_0@ == second_result->Ok_0@,
{
}

/// A client, and every clone of it, reaches the cluster through the handle that the client was
/// made with, and works on the resource that it was made for.
pub proof fn law_clones_share_the_handle<Spec: Default + Send + Sync, Status: Send + Sync>(
    handle: kube::client::Client,
    resource: ShadowResource,
    client: K8SBottlerocketShadowClient<Spec, Status>,
    copy: K8SBottlerocketShadowClient<Spec, Status>,
)
    requires
        call_ensures(K8SBottlerocketShadowClient::<Spec, Status>::new, (handle, resource), client),
        call_ensures(K8SBottlerocketShadowClient::<Spec, Status>::clone, (&client,), copy),
    ensures
        client.spec_k8s_client() == handle,
        copy.spec_k8s_client() == handle,
        client.shadow_resource() == resource,
        copy.shadow_resource() == resource,
{
}

/// A shared client works on the resource of the client that it shares.
pub proof fn law_shared_client_keeps_the_resource<C: BottlerocketShadowClient>(client: C)
    ensures
        Arc::new(client).shadow_resource() == client.shadow_resource(),
{
}

/// A creation through a shared client is a creation by the client behind it. It agrees
/// with any other creation of that client for the same selector but for the outcome of the
/// default spec, and on that too where the default has one outcome.
pub proof fn law_shared_client_creates_alike<C: BottlerocketShadowClient>(
    client: C,
    selector: BottlerocketShadowSelector,
    shared: PendingCreate<C::Spec, C::Status>,
    direct: PendingCreate<C::Spec, C::Status>,
)
    requires
        call_ensures(Arc::<C>::create_node, (&Arc::new(client), &selector), shared),
        call_ensures(C::create_node, (&client, &selector), direct),
    ensures
        call_ensures(C::create_node, (&client, &selector), shared),
        shared.namespace@ == direct.namespace@,
        shared.object.metadata@ == direct.object.metadata@,
        shared.object.status == direct.object.status,
        one_default::<C::Spec>() ==> shared.object@ == direct.object@,
        shared.context == direct.context,
{
}

/// A spec update through a shared client is the one that the client behind it prepares.
pub proof fn law_shared_client_updates_spec_alike<C: BottlerocketShadowClient, S, P>(
    client: C,
    selector: BottlerocketShadowSelector,
    spec: Result<serde_json::Value, P>,
    shared: Result<PendingCall, Error<S, P>>,
    direct: Result<PendingCall, Error<S, P>>,
)
    requires
        call_ensures(
            Arc::<C>::update_node_spec::<S, P>,
            (&Arc::new(client), &selector, spec),
            shared,
        ),
        call_ensures(C::update_node_spec::<S, P>, (&client, &selector, spec), direct),
    ensures
        shared is Ok == direct is Ok,
        shared is Ok ==> shared->Ok_0.request@ == direct->Ok_0.request@,
        shared is Ok ==> shared->Ok_0.context == direct->Ok_0.context,
        shared is Err ==> shared == direct,
{
}

} // verus!
