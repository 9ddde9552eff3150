use bottlerocket_shadow::client_error::{Error, ErrorContext};
use bottlerocket_shadow::selector::BottlerocketShadowSelector;

fn selector() -> BottlerocketShadowSelector {
    BottlerocketShadowSelector {
        node_name: "node-a".to_string(),
        node_uid: "uid-1".to_string(),
        resource_name: "brs-node-a".to_string(),
    }
}

fn message(context: ErrorContext) -> String {
    let error: Error<u8, u8> = context.into_error(7);
    error.message("boom")
}

#[test]
fn selector_clone_and_name() {
    let copy = selector().clone();
    assert_eq!(copy.node_name, "node-a");
    assert_eq!(copy.node_uid, "uid-1");
    assert_eq!(copy.brs_resource_name(), "brs-node-a");
}

#[test]
fn create_message() {
    assert_eq!(
        message(ErrorContext::CreateBottlerocketShadow { selector: selector() }),
        "Unable to create BottlerocketShadow (node-a, uid-1): 'boom'"
    );
}

#[test]
fn status_message() {
    assert_eq!(
        message(ErrorContext::UpdateBottlerocketShadowStatus { selector: selector() }),
        "Unable to update BottlerocketShadow status (node-a, uid-1): 'boom'"
    );
}

#[test]
fn spec_message() {
    assert_eq!(
        message(ErrorContext::UpdateBottlerocketShadowSpec { selector: selector() }),
        "Unable to update BottlerocketShadow spec (node-a, uid-1): 'boom'"
    );
}

#[test]
fn drain_message() {
    assert_eq!(
        message(ErrorContext::DrainBottlerocketShadow { selector: selector() }),
        "Unable to drain BottlerocketShadow (node-a, uid-1): 'boom'"
    );
}

#[test]
fn exclude_message() {
    assert_eq!(
        message(ErrorContext::ExcludeNodeFromLB { selector: selector() }),
        "Unable to exclude node from load balancer (node-a, uid-1): 'boom'"
    );
}

#[test]
fn remove_exclusion_message() {
    assert_eq!(
        message(ErrorContext::RemoveNodeExclusionFromLB { selector: selector() }),
        "Unable to remove node exclusion from load balancer (node-a, uid-1): 'boom'"
    );
}

#[test]
fn uncordon_message() {
    assert_eq!(
        message(ErrorContext::UncordonBottlerocketShadow { selector: selector() }),
        "Unable to uncordon BottlerocketShadow (node-a, uid-1): 'boom'"
    );
}

#[test]
fn patch_message() {
    let error: Error<u8, u8> = Error::CreateK8SPatch { source: 1 };
    assert_eq!(
        error.message("key must be a string"),
        "Unable to create patch to send to Kubernetes API: 'key must be a string'"
    );
}

#[test]
fn error_keeps_node_and_failure() {
    let context = ErrorContext::DrainBottlerocketShadow { selector: selector() };
    let error: Error<u8, u8> = context.into_error(7);
    match error {
        Error::DrainBottlerocketShadow { source, selector } => {
            assert_eq!(source, 7);
            assert_eq!(selector.node_name, "node-a");
            assert_eq!(selector.node_uid, "uid-1");
        }
        other => panic!("wrong error {:?}", other),
    }
}
