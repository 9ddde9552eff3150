use bottlerocket_shadow::client::{
    status_write_failure, ApiRequest, BottlerocketShadowClient, K8SBottlerocketShadowClient,
    PendingCall, PendingCreate,
};
use bottlerocket_shadow::client_error::{Error, ErrorContext};
use bottlerocket_shadow::selector::BottlerocketShadowSelector;
use bottlerocket_shadow::shadow::ShadowResource;
use serde_json::Value;
use std::sync::Arc;

fn selector() -> BottlerocketShadowSelector {
    BottlerocketShadowSelector {
        node_name: "node-a".to_string(),
        node_uid: "uid-1".to_string(),
        resource_name: "brs-node-a".to_string(),
    }
}

fn parse(text: &str) -> Value {
    serde_json::from_str(text).unwrap()
}

fn with_client<R>(check: impl FnOnce(K8SBottlerocketShadowClient<u32, String>) -> R) -> R {
    let runtime = tokio::runtime::Builder::new_current_thread()
        .build()
        .unwrap();
    let _guard = runtime.enter();
    let service = tower::service_fn(|_request: http::Request<hyper::Body>| async {
        Ok::<_, std::convert::Infallible>(http::Response::new(hyper::Body::empty()))
    });
    let k8s_client = kube::Client::new(service, "unrelated");
    let resource = ShadowResource {
        api_version: "example.aws/v2".to_string(),
        kind: "Shadow".to_string(),
        namespace: "shadows".to_string(),
    };
    check(K8SBottlerocketShadowClient::new(k8s_client, resource))
}

fn succeed(call: PendingCall) {
    let result: Result<(), Error<String, String>> = call.finish(Ok(()));
    assert!(result.is_ok());
}

fn fail(call: PendingCall) -> Error<String, String> {
    call.finish(Err("boom".to_string())).unwrap_err()
}

#[test]
fn new_keeps_handle_and_resource() {
    with_client(|client| {
        assert_eq!(client.k8s_client().default_namespace(), "unrelated");
        assert_eq!(client.resource().namespace, "shadows");
        assert_eq!(client.resource().api_version, "example.aws/v2");
        assert_eq!(client.resource().kind, "Shadow");
        let copy = client.clone();
        assert_eq!(copy.k8s_client().default_namespace(), "unrelated");
        assert_eq!(copy.resource().namespace, "shadows");
    });
}

#[test]
fn create_node_prepares_owned_shadow() {
    with_client(|client| {
        let call: PendingCreate<u32, String> = client.create_node(&selector());
        assert_eq!(call.namespace, "shadows");
        assert_eq!(call.object.metadata.name.as_deref(), Some("brs-node-a"));
        let owners = call.object.metadata.owner_references.as_ref().unwrap();
        assert_eq!(owners.len(), 1);
        assert_eq!(owners[0].api_version, "v1");
        assert_eq!(owners[0].kind, "Node");
        assert_eq!(owners[0].name, "node-a");
        assert_eq!(owners[0].uid, "uid-1");
        assert_eq!(owners[0].controller, None);
        assert_eq!(owners[0].block_owner_deletion, None);
        assert_eq!(call.object.spec, 0);
        assert!(call.object.status.is_none());
        let result: Result<_, Error<String, String>> = call.finish(Ok(()));
        let object = result.unwrap();
        assert_eq!(object.metadata.name.as_deref(), Some("brs-node-a"));
        assert_eq!(object.spec, 0);
    });
}

#[test]
fn create_node_failure() {
    with_client(|client| {
        let call: PendingCreate<u32, String> = client.create_node(&selector());
        let result: Result<_, Error<String, String>> = call.finish(Err("boom".to_string()));
        match result {
            Err(Error::CreateBottlerocketShadow { source, selector }) => {
                assert_eq!(source, "boom");
                assert_eq!(selector.node_name, "node-a");
            }
            _ => panic!("wrong result"),
        }
    });
}

#[test]
fn update_node_status_patches_status() {
    with_client(|client| {
        let call = client.update_node_status(&selector(), parse(r#"{"current_version":"1.2.3"}"#));
        match &call.request {
            ApiRequest::MergeShadowStatus { namespace, name, patch } => {
                assert_eq!(namespace, "shadows");
                assert_eq!(name, "brs-node-a");
                assert_eq!(
                    *patch,
                    parse(
                        r#"{"apiVersion":"example.aws/v2","kind":"Shadow",
                            "status":{"current_version":"1.2.3"}}"#
                    )
                );
            }
            other => panic!("wrong request {:?}", other),
        }
        succeed(call);
        let call = client.update_node_status(&selector(), Value::Null);
        match fail(call) {
            Error::UpdateBottlerocketShadowStatus { source, selector } => {
                assert_eq!(source, "boom");
                assert_eq!(selector.node_uid, "uid-1");
            }
            other => panic!("wrong error {:?}", other),
        }
    });
}

#[test]
fn update_node_spec_patches_spec() {
    with_client(|client| {
        let spec: Result<Value, String> = Ok(parse(r#"{"state":"Idle","version":null}"#));
        let call = client
            .update_node_spec::<String, String>(&selector(), spec)
            .unwrap();
        match &call.request {
            ApiRequest::MergeShadow { namespace, name, patch } => {
                assert_eq!(namespace, "shadows");
                assert_eq!(name, "brs-node-a");
                assert_eq!(
                    *patch,
                    parse(
                        r#"{"apiVersion":"example.aws/v2","kind":"Shadow",
                            "spec":{"state":"Idle","version":null}}"#
                    )
                );
            }
            other => panic!("wrong request {:?}", other),
        }
        match fail(call) {
            Error::UpdateBottlerocketShadowSpec { selector, .. } => {
                assert_eq!(selector.resource_name, "brs-node-a")
            }
            other => panic!("wrong error {:?}", other),
        }
    });
}

#[test]
fn update_node_spec_unwritable_spec() {
    with_client(|client| {
        let spec: Result<Value, String> = Err("no JSON".to_string());
        match client.update_node_spec::<u8, String>(&selector(), spec) {
            Err(Error::CreateK8SPatch { source }) => assert_eq!(source, "no JSON"),
            _ => panic!("wrong result"),
        }
    });
}

#[test]
fn cordon_node_names_node() {
    with_client(|client| {
        let call = client.cordon_node(&selector());
        assert!(matches!(&call.request, ApiRequest::CordonNode { name } if name == "node-a"));
        assert!(matches!(
            &call.context,
            ErrorContext::UpdateBottlerocketShadowSpec { .. }
        ));
        assert!(matches!(
            fail(call),
            Error::UpdateBottlerocketShadowSpec { source, .. } if source == "boom"
        ));
        succeed(client.cordon_node(&selector()));
    });
}

#[test]
fn drain_node_names_node() {
    with_client(|client| {
        let call = client.drain_node(&selector());
        assert!(matches!(&call.request, ApiRequest::DrainNode { name } if name == "node-a"));
        assert!(matches!(
            fail(call),
            Error::DrainBottlerocketShadow { source, .. } if source == "boom"
        ));
        succeed(client.drain_node(&selector()));
    });
}

#[test]
fn uncordon_node_names_node() {
    with_client(|client| {
        let call = client.uncordon_node(&selector());
        assert!(matches!(&call.request, ApiRequest::UncordonNode { name } if name == "node-a"));
        assert!(matches!(
            fail(call),
            Error::UncordonBottlerocketShadow { source, .. } if source == "boom"
        ));
        succeed(client.uncordon_node(&selector()));
    });
}

#[test]
fn exclude_node_from_lb_labels_node() {
    with_client(|client| {
        let call = client.exclude_node_from_lb(&selector());
        match &call.request {
            ApiRequest::MergeNode { name, patch } => {
                assert_eq!(name, "node-a");
                assert_eq!(
                    *patch,
                    parse(
                        r#"{"metadata":{"labels":{
                            "node.kubernetes.io/exclude-from-external-load-balancers":"True"}}}"#
                    )
                );
            }
            other => panic!("wrong request {:?}", other),
        }
        assert!(matches!(
            fail(call),
            Error::ExcludeNodeFromLB { source, .. } if source == "boom"
        ));
        succeed(client.exclude_node_from_lb(&selector()));
    });
}

#[test]
fn remove_node_exclusion_from_lb_nulls_label() {
    with_client(|client| {
        let call = client.remove_node_exclusion_from_lb(&selector());
        match &call.request {
            ApiRequest::MergeNode { name, patch } => {
                assert_eq!(name, "node-a");
                assert_eq!(
                    *patch,
                    parse(
                        r#"{"metadata":{"labels":{
                            "node.kubernetes.io/exclude-from-external-load-balancers":null}}}"#
                    )
                );
            }
            other => panic!("wrong request {:?}", other),
        }
        assert!(matches!(
            fail(call),
            Error::RemoveNodeExclusionFromLB { source, .. } if source == "boom"
        ));
        succeed(client.remove_node_exclusion_from_lb(&selector()));
    });
}

#[test]
fn updates_address_the_created_shadow() {
    with_client(|client| {
        let created: PendingCreate<u32, String> = client.create_node(&selector());
        let call = client.update_node_status(&selector(), Value::Null);
        match call.request {
            ApiRequest::MergeShadowStatus { name, .. } => {
                assert_eq!(created.object.metadata.name, Some(name))
            }
            other => panic!("wrong request {:?}", other),
        }
    });
}

#[test]
fn shared_client_prepares_the_same_calls() {
    with_client(|client| {
        let shared = Arc::new(client.clone());
        let created: PendingCreate<u32, String> = shared.create_node(&selector());
        assert_eq!(created.namespace, "shadows");
        assert_eq!(
            format!("{:?}", shared.update_node_status(&selector(), parse("[1]"))),
            format!("{:?}", client.update_node_status(&selector(), parse("[1]")))
        );
        let spec = |text: &str| -> Result<Value, String> { Ok(parse(text)) };
        assert_eq!(
            format!(
                "{:?}",
                shared.update_node_spec::<String, String>(&selector(), spec("[2]"))
            ),
            format!(
                "{:?}",
                client.update_node_spec::<String, String>(&selector(), spec("[2]"))
            )
        );
        assert_eq!(
            format!("{:?}", shared.cordon_node(&selector())),
            format!("{:?}", client.cordon_node(&selector()))
        );
        assert_eq!(
            format!("{:?}", shared.drain_node(&selector())),
            format!("{:?}", client.drain_node(&selector()))
        );
        assert_eq!(
            format!("{:?}", shared.uncordon_node(&selector())),
            format!("{:?}", client.uncordon_node(&selector()))
        );
        assert_eq!(
            format!("{:?}", shared.exclude_node_from_lb(&selector())),
            format!("{:?}", client.exclude_node_from_lb(&selector()))
        );
        assert_eq!(
            format!("{:?}", shared.remove_node_exclusion_from_lb(&selector())),
            format!("{:?}", client.remove_node_exclusion_from_lb(&selector()))
        );
    });
}

#[test]
fn unwritable_status_fails_the_status_update() {
    let error: Error<String, String> = status_write_failure(&selector(), "no JSON".to_string());
    match error {
        Error::UpdateBottlerocketShadowStatus { source, selector } => {
            assert_eq!(source, "no JSON");
            assert_eq!(selector.node_name, "node-a");
            assert_eq!(selector.node_uid, "uid-1");
        }
        other => panic!("wrong error {:?}", other),
    }
}

#[test]
fn creation_depends_on_selector_alone() {
    with_client(|first| {
        let shared = Arc::new(first.clone());
        let other_resource = ShadowResource {
            api_version: "other/v1".to_string(),
            kind: "Other".to_string(),
            namespace: "elsewhere".to_string(),
        };
        let second = K8SBottlerocketShadowClient::new(first.k8s_client().clone(), other_resource);
        let a: PendingCreate<u32, String> = first.create_node(&selector());
        let b: PendingCreate<u32, String> = second.create_node(&selector());
        let c: PendingCreate<u32, String> = shared.create_node(&selector());
        assert_ne!(a.namespace, b.namespace);
        assert_eq!(a.namespace, c.namespace);
        let finish = |call: PendingCreate<u32, String>| -> String {
            let result: Result<_, Error<String, String>> = call.finish(Ok(()));
            format!("{:?}", result.unwrap())
        };
        let object = finish(a);
        assert_eq!(object, finish(b));
        assert_eq!(object, finish(c));
    });
}
