use bottlerocket_shadow::patch::{
    write_exclusion_patch, write_inclusion_patch, write_spec_patch, write_status_patch,
    BottlerocketShadowSpecOverwrite, BottlerocketShadowStatusPatch, EXCLUDE_FROM_LB_LABEL,
};
use bottlerocket_shadow::shadow::ShadowResource;
use serde_json::Value;

fn resource() -> ShadowResource {
    ShadowResource {
        api_version: "example.aws/v2".to_string(),
        kind: "Shadow".to_string(),
        namespace: "shadows".to_string(),
    }
}

fn parse(text: &str) -> Value {
    serde_json::from_str(text).unwrap()
}

/// What the API server makes of `target` when it gets a JSON merge patch.
fn merge(target: Value, patch: Value) -> Value {
    match patch {
        Value::Object(changes) => {
            let mut fields = match target {
                Value::Object(fields) => fields,
                _ => serde_json::Map::new(),
            };
            for (key, change) in changes {
                let current = fields.remove(&key).unwrap_or(Value::Null);
                if !change.is_null() {
                    fields.insert(key, merge(current, change));
                }
            }
            Value::Object(fields)
        }
        other => other,
    }
}

fn node() -> Value {
    parse(
        r#"{"metadata":{"name":"node-a","labels":{"zone":"b"}},
            "spec":{"unschedulable":true}}"#,
    )
}

fn shadow() -> Value {
    parse(
        r#"{"apiVersion":"example.aws/v2","kind":"Shadow","metadata":{"name":"brs-node-a"},
            "spec":{"state":"Idle","version":"1.0"},
            "status":{"current_version":"1.0","crash_count":1}}"#,
    )
}

#[test]
fn label_is_the_kubernetes_label() {
    assert_eq!(
        EXCLUDE_FROM_LB_LABEL,
        "node.kubernetes.io/exclude-from-external-load-balancers"
    );
}

#[test]
fn default_status_patch() {
    let patch: BottlerocketShadowStatusPatch<u32> =
        BottlerocketShadowStatusPatch::<u32>::default(&resource());
    assert_eq!(patch.api_version, "example.aws/v2");
    assert_eq!(patch.kind, "Shadow");
    assert_eq!(patch.status, 0);
}

#[test]
fn default_spec_overwrite() {
    let patch: BottlerocketShadowSpecOverwrite<u32> =
        BottlerocketShadowSpecOverwrite::<u32>::default(&resource());
    assert_eq!(patch.api_version, "example.aws/v2");
    assert_eq!(patch.kind, "Shadow");
    assert_eq!(patch.spec, 0);
}

#[test]
fn exclusion_sets_label_only() {
    assert_eq!(
        merge(node(), write_exclusion_patch()),
        parse(
            r#"{"metadata":{"name":"node-a","labels":{"zone":"b",
                "node.kubernetes.io/exclude-from-external-load-balancers":"True"}},
                "spec":{"unschedulable":true}}"#
        )
    );
}

#[test]
fn inclusion_undoes_exclusion() {
    let excluded = merge(node(), write_exclusion_patch());
    assert_ne!(excluded, node());
    assert_eq!(merge(excluded, write_inclusion_patch()), node());
}

#[test]
fn undo_leaves_empty_labels_on_unlabelled_node() {
    let excluded = merge(parse("{}"), write_exclusion_patch());
    assert_eq!(
        merge(excluded, write_inclusion_patch()),
        parse(r#"{"metadata":{"labels":{}}}"#)
    );
}

#[test]
fn inclusion_removes_label_only() {
    let included = merge(node(), write_inclusion_patch());
    assert_eq!(included, node());
}

#[test]
fn label_patches_are_idempotent() {
    let excluded = merge(node(), write_exclusion_patch());
    assert_eq!(merge(excluded.clone(), write_exclusion_patch()), excluded);
    let included = merge(parse("{}"), write_inclusion_patch());
    assert_eq!(merge(included.clone(), write_inclusion_patch()), included);
}

#[test]
fn last_label_patch_wins() {
    let excluded = merge(parse("{}"), write_exclusion_patch());
    assert_eq!(
        merge(excluded.clone(), write_inclusion_patch()),
        merge(parse("{}"), write_inclusion_patch())
    );
    let included = merge(parse("{}"), write_inclusion_patch());
    assert_eq!(merge(included, write_exclusion_patch()), excluded);
}

#[test]
fn status_update_overwrites_status_only() {
    let status = parse(r#"{"current_version":"2.0","crash_count":0}"#);
    let mut expected = shadow();
    expected["status"] = status.clone();
    assert_eq!(
        merge(shadow(), write_status_patch(&resource(), status)),
        expected
    );
}

#[test]
fn spec_update_overwrites_spec_only() {
    let spec = parse(r#"{"state":"StagedAndPerformedUpdate","version":null}"#);
    let mut expected = shadow();
    expected["spec"] = parse(r#"{"state":"StagedAndPerformedUpdate"}"#);
    assert_eq!(
        merge(shadow(), write_spec_patch(&resource(), spec)),
        expected
    );
}

#[test]
fn status_and_spec_updates_commute() {
    let status = parse(r#"{"current_version":"2.0"}"#);
    let spec = parse(r#"{"state":"Idle"}"#);
    let status_first = merge(
        merge(shadow(), write_status_patch(&resource(), status.clone())),
        write_spec_patch(&resource(), spec.clone()),
    );
    let spec_first = merge(
        merge(shadow(), write_spec_patch(&resource(), spec)),
        write_status_patch(&resource(), status),
    );
    assert_eq!(status_first, spec_first);
}

#[test]
fn field_missing_from_new_status_is_left() {
    let status = parse(r#"{"current_version":"2.0"}"#);
    let updated = merge(shadow(), write_status_patch(&resource(), status));
    assert_eq!(
        updated["status"],
        parse(r#"{"current_version":"2.0","crash_count":1}"#)
    );
}

#[test]
fn update_states_the_type() {
    let updated = merge(parse("{}"), write_status_patch(&resource(), parse("{}")));
    assert_eq!(
        updated,
        parse(r#"{"apiVersion":"example.aws/v2","kind":"Shadow","status":{}}"#)
    );
}

#[test]
fn last_update_wins() {
    let first = parse(r#"{"current_version":"2.0","crash_count":null}"#);
    let second = parse(r#"{"current_version":"3.0","crash_count":4}"#);
    let once = merge(shadow(), write_status_patch(&resource(), second.clone()));
    let twice = merge(
        merge(shadow(), write_status_patch(&resource(), first.clone())),
        write_status_patch(&resource(), second.clone()),
    );
    assert_eq!(twice, once);
    assert_eq!(twice["status"], second);
    let spec_once = merge(shadow(), write_spec_patch(&resource(), parse(r#"{"state":"A","version":"2"}"#)));
    let spec_twice = merge(
        merge(shadow(), write_spec_patch(&resource(), parse(r#"{"state":"B","version":null}"#))),
        write_spec_patch(&resource(), parse(r#"{"state":"A","version":"2"}"#)),
    );
    assert_eq!(spec_twice, spec_once);
}

#[test]
fn updates_are_idempotent() {
    let status = parse(r#"{"current_version":null,"extra":{"a":1}}"#);
    let once = merge(shadow(), write_status_patch(&resource(), status.clone()));
    assert_eq!(
        merge(once.clone(), write_status_patch(&resource(), status.clone())),
        once
    );
    let once = merge(shadow(), write_spec_patch(&resource(), status.clone()));
    assert_eq!(
        merge(once.clone(), write_spec_patch(&resource(), status)),
        once
    );
}

fn sent_body(request: Result<http::Request<Vec<u8>>, kube::core::request::Error>) -> Value {
    serde_json::from_slice(request.unwrap().body()).unwrap()
}

#[test]
fn uncordon_undoes_cordon() {
    let nodes = kube::core::Request::new("/api/v1/nodes");
    let cordon = sent_body(nodes.cordon("node-a"));
    let uncordon = sent_body(nodes.uncordon("node-a"));
    assert_eq!(cordon, parse(r#"{"spec":{"unschedulable":true}}"#));
    assert_eq!(uncordon, parse(r#"{"spec":{"unschedulable":false}}"#));
    let node = parse(r#"{"metadata":{"name":"node-a"},"spec":{"unschedulable":false,"taints":[]}}"#);
    let cordoned = merge(node.clone(), cordon.clone());
    assert_eq!(
        cordoned,
        parse(r#"{"metadata":{"name":"node-a"},"spec":{"unschedulable":true,"taints":[]}}"#)
    );
    assert_eq!(merge(cordoned, uncordon.clone()), node);
    assert_eq!(
        merge(merge(parse("{}"), cordon), uncordon.clone()),
        merge(parse("{}"), uncordon)
    );
}
