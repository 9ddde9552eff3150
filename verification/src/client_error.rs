//! The errors of the client, and the context that turns a failed reply into one.

use crate::selector::BottlerocketShadowSelector;
use vstd::prelude::*;

verus! {

/// What can go wrong in an operation of the client. `S` is the type of the failure that
/// the Kubernetes API, or the code that drains a node, reported. `P` is the type of the
/// failure to write a patch as JSON.
#[allow(inconsistent_fields)]
#[derive(Debug)]
pub enum Error<S, P> {
    CreateBottlerocketShadow { source: S, selector: BottlerocketShadowSelector },
    UpdateBottlerocketShadowStatus { source: S, selector: BottlerocketShadowSelector },
    UpdateBottlerocketShadowSpec { source: S, selector: BottlerocketShadowSelector },
    DrainBottlerocketShadow { source: S, selector: BottlerocketShadowSelector },
    ExcludeNodeFromLB { source: S, selector: BottlerocketShadowSelector },
    RemoveNodeExclusionFromLB { source: S, selector: BottlerocketShadowSelector },
    UncordonBottlerocketShadow { source: S, selector: BottlerocketShadowSelector },
    CreateK8SPatch { source: P },
}

/// `<what> (<node name>, <node uid>): '<source>'`.
pub open spec fn node_message(
    what: Seq<char>,
    selector: BottlerocketShadowSelector,
    source: Seq<char>,
) -> Seq<char> {
    what + " ("@ + selector.node_name@ + ", "@ + selector.node_uid@ + "): '"@ + source + "'"@
}

impl<S, P> Error<S, P> {
    /// The node that the failed operation was about, if the error is about one.
    pub open spec fn selector(self) -> Option<BottlerocketShadowSelector> {
        match self {
            Error::CreateBottlerocketShadow { selector, .. } => Some(selector),
            Error::UpdateBottlerocketShadowStatus { selector, .. } => Some(selector),
            Error::UpdateBottlerocketShadowSpec { selector, .. } => Some(selector),
            Error::DrainBottlerocketShadow { selector, .. } => Some(selector),
            Error::ExcludeNodeFromLB { selector, .. } => Some(selector),
            Error::RemoveNodeExclusionFromLB { selector, .. } => Some(selector),
            Error::UncordonBottlerocketShadow { selector, .. } => Some(selector),
            Error::CreateK8SPatch { .. } => None,
        }
    }

    /// The failure that a reply reported, if the error comes from a reply.
    pub open spec fn reported(self) -> Option<S> {
        match self {
            Error::CreateBottlerocketShadow { source, .. } => Some(source),
            Error::UpdateBottlerocketShadowStatus { source, .. } => Some(source),
            Error::UpdateBottlerocketShadowSpec { source, .. } => Some(source),
            Error::DrainBottlerocketShadow { source, .. } => Some(source),
            Error::ExcludeNodeFromLB { source, .. } => Some(source),
            Error::RemoveNodeExclusionFromLB { source, .. } => Some(source),
            Error::UncordonBottlerocketShadow { source, .. } => Some(source),
            Error::CreateK8SPatch { .. } => None,
        }
    }

    /// The text of the error, given the text of its source.
    pub open spec fn spec_message(self, source: Seq<char>) -> Seq<char> {
        match self {
            Error::CreateBottlerocketShadow { selector, .. } => node_message(
                "Unable to create BottlerocketShadow"@,
                selector,
                source,
            ),
            Error::UpdateBottlerocketShadowStatus { selector, .. } => node_message(
                "Unable to update BottlerocketShadow status"@,
                selector,
                source,
            ),
            Error::UpdateBottlerocketShadowSpec { selector, .. } => node_message(
                "Unable to update BottlerocketShadow spec"@,
                selector,
                source,
            ),
            Error::DrainBottlerocketShadow { selector, .. } => node_message(
                "Unable to drain BottlerocketShadow"@,
                selector,
                source,
            ),
            Error::ExcludeNodeFromLB { selector, .. } => node_message(
                "Unable to exclude node from load balancer"@,
                selector,
                source,
            ),
            Error::RemoveNodeExclusionFromLB { selector, .. } => node_message(
                "Unable to remove node exclusion from load balancer"@,
                selector,
                source,
            ),
            Error::UncordonBottlerocketShadow { selector, .. } => node_message(
                "Unable to uncordon BottlerocketShadow"@,
                selector,
                source,
            ),
            Error::CreateK8SPatch { .. } => "Unable to create patch to send to Kubernetes API: '"@
                + source + "'"@,
        }
    }

    /// The text of the error. `source` is the text of the error's source.
    pub fn message(&self, source: &str) -> (text: String)
        ensures
            text@ == self.spec_message(source@),
    {
        match self {
            Error::CreateBottlerocketShadow { selector, .. } => write_node_message(
                "Unable to create BottlerocketShadow",
                selector,
                source,
            ),
            Error::UpdateBottlerocketShadowStatus { selector, .. } => write_node_message(
                "Unable to update BottlerocketShadow status",
                selector,
                source,
            ),
            Error::UpdateBottlerocketShadowSpec { selector, .. } => write_node_message(
                "Unable to update BottlerocketShadow spec",
                selector,
                source,
            ),
            Error::DrainBottlerocketShadow { selector, .. } => write_node_message(
                "Unable to drain BottlerocketShadow",
                selector,
                source,
            ),
            Error::ExcludeNodeFromLB { selector, .. } => write_node_message(
                "Unable to exclude node from load balancer",
                selector,
                source,
            ),
            Error::RemoveNodeExclusionFromLB { selector, .. } => write_node_message(
                "Unable to remove node exclusion from load balancer",
                selector,
                source,
            ),
            Error::UncordonBottlerocketShadow { selector, .. } => write_node_message(
                "Unable to uncordon BottlerocketShadow",
                selector,
                source,
            ),
            Error::CreateK8SPatch { .. } => {
                let mut text = "Unable to create patch to send to Kubernetes API: '".to_string();
                text.append(source);
                text.append("'");
                text
            },
        }
    }
}

fn write_node_message(what: &str, selector: &BottlerocketShadowSelector, source: &str) -> (text:
    String)
    ensures
        text@ == node_message(what@, *selector, source@),
{
    let mut text = what.to_string();
    text.append(" (");
    text.append(selector.node_name.as_str());
    text.append(", ");
    text.append(selector.node_uid.as_str());
    text.append("): '");
    text.append(source);
    text.append("'");
    text
}

/// Which error a failed reply becomes, and the node that the operation was about.
#[derive(Debug)]
pub enum ErrorContext {
    CreateBottlerocketShadow { selector: BottlerocketShadowSelector },
    UpdateBottlerocketShadowStatus { selector: BottlerocketShadowSelector },
    UpdateBottlerocketShadowSpec { selector: BottlerocketShadowSelector },
    DrainBottlerocketShadow { selector: BottlerocketShadowSelector },
    ExcludeNodeFromLB { selector: BottlerocketShadowSelector },
    RemoveNodeExclusionFromLB { selector: BottlerocketShadowSelector },
    UncordonBottlerocketShadow { selector: BottlerocketShadowSelector },
}

impl ErrorContext {
    /// The node that the operation is about.
    pub open spec fn selector(self) -> BottlerocketShadowSelector {
        match self {
            ErrorContext::CreateBottlerocketShadow { selector } => selector,
            ErrorContext::UpdateBottlerocketShadowStatus { selector } => selector,
            ErrorContext::UpdateBottlerocketShadowSpec { selector } => selector,
            ErrorContext::DrainBottlerocketShadow { selector } => selector,
            ErrorContext::ExcludeNodeFromLB { selector } => selector,
            ErrorContext::RemoveNodeExclusionFromLB { selector } => selector,
            ErrorContext::UncordonBottlerocketShadow { selector } => selector,
        }
    }

    /// The error that `source` is in this context.
    pub open spec fn error<S, P>(self, source: S) -> Error<S, P> {
        match self {
            ErrorContext::CreateBottlerocketShadow { selector } =>
                Error::CreateBottlerocketShadow { source, selector },
            ErrorContext::UpdateBottlerocketShadowStatus { selector } =>
                Error::UpdateBottlerocketShadowStatus { source, selector },
            ErrorContext::UpdateBottlerocketShadowSpec { selector } =>
                Error::UpdateBottlerocketShadowSpec { source, selector },
            ErrorContext::DrainBottlerocketShadow { selector } =>
                Error::DrainBottlerocketShadow { source, selector },
            ErrorContext::ExcludeNodeFromLB { selector } =>
                Error::ExcludeNodeFromLB { source, selector },
            ErrorContext::RemoveNodeExclusionFromLB { selector } =>
                Error::RemoveNodeExclusionFromLB { source, selector },
            ErrorContext::UncordonBottlerocketShadow { selector } =>
                Error::UncordonBottlerocketShadow { source, selector },
        }
    }

    /// Wraps `source` in the error of this context.
    pub fn into_error<S, P>(self, source: S) -> (error: Error<S, P>)
        ensures
            error == self.error::<S, P>(source),
    {
        match self {
            ErrorContext::CreateBottlerocketShadow { selector } =>
                Error::CreateBottlerocketShadow { source, selector },
            ErrorContext::UpdateBottlerocketShadowStatus { selector } =>
                Error::UpdateBottlerocketShadowStatus { source, selector },
            ErrorContext::UpdateBottlerocketShadowSpec { selector } =>
                Error::UpdateBottlerocketShadowSpec { source, selector },
            ErrorContext::DrainBottlerocketShadow { selector } =>
                Error::DrainBottlerocketShadow { source, selector },
            ErrorContext::ExcludeNodeFromLB { selector } =>
                Error::ExcludeNodeFromLB { source, selector },
            ErrorContext::RemoveNodeExclusionFromLB { selector } =>
                Error::RemoveNodeExclusionFromLB { source, selector },
            ErrorContext::UncordonBottlerocketShadow { selector } =>
                Error::UncordonBottlerocketShadow { source, selector },
        }
    }
}

} // verus!
