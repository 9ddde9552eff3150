//! What a JSON merge patch does to a document.

use crate::json::{single, Json, JsonEntries};
use vstd::prelude::*;

verus! {

/// The fields of a document; a document that is no object has none.
pub open spec fn fields(document: Json) -> JsonEntries {
    match document {
        Json::Object(entries) => entries,
        _ => JsonEntries::empty(),
    }
}

/// The document under one field, null where the field is missing.
pub open spec fn field(document: Json, key: Seq<char>) -> Json {
    if fields(document).contains_key(key) {
        fields(document)[key]
    } else {
        Json::Null
    }
}

/// The document that a JSON merge patch (RFC 7386) makes of `target`. A patch that is no
/// object takes the target's place. A patch that is an object removes the fields that it
/// sets to null, merges into the other fields that it has, and leaves alone those that it
/// does not have.
pub open spec fn merge(target: Json, patch: Json) -> Json
    decreases patch,
{
    match patch {
        Json::Object(changes) => Json::Object(
            Map::new(
                |key: Seq<char>|
                    if changes.contains_key(key) {
                        changes[key] != Json::Null
                    } else {
                        fields(target).contains_key(key)
                    },
                |key: Seq<char>|
                    if changes.contains_key(key) {
                        merge(field(target, key), changes[key])
                    } else {
                        fields(target)[key]
                    },
            ),
        ),
        _ => patch,
    }
}

/// Whether `new` has every field that `old` has, at every depth: two documents written from
/// values of one type, which always writes all of its fields, cover each other.
pub open spec fn covers(new: Json, old: Json) -> bool
    decreases new,
{
    match new {
        Json::Object(entries) => {
            &&& forall|key: Seq<char>| #[trigger]
                fields(old).contains_key(key) ==> entries.contains_key(key)
            &&& forall|key: Seq<char>| #[trigger]
                entries.contains_key(key) ==> covers(entries[key], field(old, key))
        },
        _ => true,
    }
}

/// Whether no field of the document is null, at any depth.
pub open spec fn null_free(document: Json) -> bool
    decreases document,
{
    match document {
        Json::Object(entries) => forall|key: Seq<char>| #[trigger]
            entries.contains_key(key) ==> entries[key] != Json::Null && null_free(entries[key]),
        _ => true,
    }
}

/// What a patch that is an object does to each field.
pub proof fn lemma_merge_field(target: Json, changes: JsonEntries, key: Seq<char>)
    ensures
        merge(target, Json::Object(changes)) is Object,
        fields(merge(target, Json::Object(changes))).contains_key(key) == (if changes.contains_key(
            key,
        ) {
            changes[key] != Json::Null
        } else {
            fields(target).contains_key(key)
        }),
        changes.contains_key(key) && changes[key] != Json::Null ==> fields(
            merge(target, Json::Object(changes)),
        )[key] == merge(field(target, key), changes[key]),
        !changes.contains_key(key) && fields(target).contains_key(key) ==> fields(
            merge(target, Json::Object(changes)),
        )[key] == fields(target)[key],
{
}

/// What a patch with one field makes of a document.
pub proof fn lemma_merge_single(target: Json, key: Seq<char>, value: Json)
    ensures
        merge(target, single(key, value)) == (if value == Json::Null {
            Json::Object(fields(target).remove(key))
        } else {
            Json::Object(fields(target).insert(key, merge(field(target, key), value)))
        }),
{
    let changes = JsonEntries::empty().insert(key, value);
    let merged = fields(merge(target, single(key, value)));
    assert forall|k: Seq<char>|
        merged.contains_key(k) == (if k == key {
            value != Json::Null
        } else {
            fields(target).contains_key(k)
        }) && (merged.contains_key(k) ==> merged[k] == (if k == key {
            merge(field(target, key), value)
        } else {
            fields(target)[k]
        })) by {
        lemma_merge_field(target, changes, k);
    }
    if value == Json::Null {
        assert(merged =~= fields(target).remove(key));
    } else {
        assert(merged =~= fields(target).insert(key, merge(field(target, key), value)));
    }
}

/// Merging a document gives the same as merging it into nothing exactly if it covers the
/// target.
pub proof fn lemma_covering_merge(target: Json, patch: Json)
    ensures
        merge(target, patch) == merge(Json::Null, patch) <==> covers(patch, target),
    decreases patch,
{
    if let Json::Object(changes) = patch {
        let merged = fields(merge(target, patch));
        let fresh = fields(merge(Json::Null, patch));
        assert forall|key: Seq<char>| changes.contains_key(key) implies (merge(
            field(target, key),
            changes[key],
        ) == merge(Json::Null, changes[key]) <==> #[trigger] covers(
            changes[key],
            field(target, key),
        )) by {
            lemma_covering_merge(field(target, key), changes[key]);
        }
        assert forall|key: Seq<char>| #[trigger] fields(target).contains_key(key)
            && !changes.contains_key(key) implies merged.contains_key(key)
            && !fresh.contains_key(key) by {
            lemma_merge_field(target, changes, key);
            lemma_merge_field(Json::Null, changes, key);
        }
        if covers(patch, target) {
            assert forall|key: Seq<char>|
                merged.contains_key(key) == fresh.contains_key(key) && (merged.contains_key(key)
                    ==> merged[key] == fresh[key]) by {
                lemma_merge_field(target, changes, key);
                lemma_merge_field(Json::Null, changes, key);
                assert(changes.contains_key(key) ==> covers(changes[key], field(target, key)));
            }
            assert(merged =~= fresh);
        }
        if merged == fresh {
            assert forall|key: Seq<char>| #[trigger] changes.contains_key(key) implies covers(
                changes[key],
                field(target, key),
            ) by {
                lemma_merge_field(target, changes, key);
                lemma_merge_field(Json::Null, changes, key);
                assert(merge(field(target, key), changes[key]) == merge(Json::Null, changes[key]));
            }
        }
    }
}

/// Merging a document into nothing gives that document exactly if it has no nulls.
pub proof fn lemma_fresh_merge(patch: Json)
    ensures
        merge(Json::Null, patch) == patch <==> null_free(patch),
    decreases patch,
{
    if let Json::Object(changes) = patch {
        let fresh = fields(merge(Json::Null, patch));
        assert forall|key: Seq<char>| #[trigger] changes.contains_key(key) implies (merge(
            Json::Null,
            changes[key],
        ) == changes[key] <==> null_free(changes[key])) by {
            lemma_fresh_merge(changes[key]);
        }
        if null_free(patch) {
            assert forall|key: Seq<char>|
                fresh.contains_key(key) == changes.contains_key(key) && (fresh.contains_key(key)
                    ==> fresh[key] == changes[key]) by {
                lemma_merge_field(Json::Null, changes, key);
            }
            assert(fresh =~= changes);
        }
        if fresh == changes {
            assert forall|key: Seq<char>| #[trigger] changes.contains_key(key) implies changes[key]
                != Json::Null && null_free(changes[key]) by {
                lemma_merge_field(Json::Null, changes, key);
            }
        }
    }
}

/// Merging a document stores it as it is exactly if it covers the target and has no nulls.
pub proof fn lemma_exact_merge(target: Json, patch: Json)
    ensures
        merge(target, patch) == patch <==> covers(patch, target) && null_free(patch),
    decreases patch,
{
    lemma_covering_merge(target, patch);
    lemma_fresh_merge(patch);
    if let Json::Object(changes) = patch {
        let merged = fields(merge(target, patch));
        if merged == changes {
            assert forall|key: Seq<char>| #[trigger] fields(target).contains_key(key) implies
                changes.contains_key(key) by {
                lemma_merge_field(target, changes, key);
            }
            assert forall|key: Seq<char>| #[trigger] changes.contains_key(key) implies changes[key]
                != Json::Null && null_free(changes[key]) && covers(
                changes[key],
                field(target, key),
            ) by {
                lemma_merge_field(target, changes, key);
                lemma_exact_merge(field(target, key), changes[key]);
            }
        }
    }
}

/// Every document covers null.
pub proof fn lemma_covers_null(document: Json)
    ensures
        covers(document, Json::Null),
    decreases document,
{
    if let Json::Object(entries) = document {
        assert forall|key: Seq<char>| #[trigger] entries.contains_key(key) implies covers(
            entries[key],
            field(Json::Null, key),
        ) by {
            lemma_covers_null(entries[key]);
        }
    }
}

/// A document that covers a target and a patch covers what the patch makes of the target.
pub proof fn lemma_covers_merge(document: Json, target: Json, patch: Json)
    requires
        covers(document, target),
        covers(document, patch),
    ensures
        covers(document, merge(target, patch)),
    decreases document,
{
    if let (Json::Object(entries), Json::Object(changes)) = (document, patch) {
        let merged = merge(target, patch);
        assert forall|key: Seq<char>| #[trigger] fields(merged).contains_key(key) implies
            entries.contains_key(key) by {
            lemma_merge_field(target, changes, key);
            assert(fields(target).contains_key(key) || fields(patch).contains_key(key));
        }
        assert forall|key: Seq<char>| #[trigger] entries.contains_key(key) implies covers(
            entries[key],
            field(merged, key),
        ) by {
            lemma_merge_field(target, changes, key);
            lemma_covers_null(entries[key]);
            if changes.contains_key(key) && changes[key] != Json::Null {
                lemma_covers_merge(entries[key], field(target, key), changes[key]);
            }
        }
    }
}

/// Merging a patch a second time changes nothing.
pub proof fn lemma_merge_idempotent(target: Json, patch: Json)
    ensures
        merge(merge(target, patch), patch) == merge(target, patch),
    decreases patch,
{
    if let Json::Object(changes) = patch {
        let once = merge(target, patch);
        let twice = merge(once, patch);
        assert forall|key: Seq<char>|
            fields(twice).contains_key(key) == fields(once).contains_key(key) && (fields(
                twice,
            ).contains_key(key) ==> fields(twice)[key] == fields(once)[key]) by {
            lemma_merge_field(target, changes, key);
            lemma_merge_field(once, changes, key);
            if changes.contains_key(key) && changes[key] != Json::Null {
                lemma_merge_idempotent(field(target, key), changes[key]);
            }
        }
        assert(fields(twice) =~= fields(once));
    }
}

} // verus!
