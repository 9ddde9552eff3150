# bottlerocket_shadow

A client for `BottlerocketShadow` objects, the Kubernetes custom resource that shadows a
Bottlerocket node, written in Verus.

The library in `src/` performs no I/O. Its trait `BottlerocketShadowClient` prepares each
operation as a pending call: the request to send, and the context that a failed reply is
reported in. The caller sends the request and hands the reply to `finish`. The contracts
say exactly what is sent and what each reply becomes; `src/laws.rs` proves what the merge
patches do to a node or a shadow.

- `src/client.rs`: the operations, their requests and results
- `src/client_error.rs`: the errors and their texts
- `src/patch.rs`: the merge patches that are sent
- `src/shadow.rs`, `src/selector.rs`: the objects, and how they are named
- `src/json.rs`, `src/merge.rs`: JSON documents and the meaning of a merge patch
- `app/`: sends the requests through `kube`
