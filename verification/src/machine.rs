//! What the coffee machine's validation reports: the invalid fields of an
//! input, each with its reason, become an error schema for the client.
use vstd::prelude::*;
use crate::assoc::{Assoc, distinct_keys, entries_map, has_key, lemma_entries_map_at};
use crate::errors::schema::{ErrorSchema, StatusCode};
use crate::json::{Json, JsonModel, keys_sorted, member, members_model, object_insert, lemma_object_model};
use crate::text::{decimal, push_decimal, push_str};

verus! {

/// The message of a failed validation of `n` fields.
pub open spec fn validation_message(n: nat) -> Seq<char> {
    "Input cannot be validated. Please see details for "@ + decimal(n) + " invalid field"@ + (if n == 1 {
        ""@
    } else {
        "s"@
    }) + " below."@
}

/// The object of invalid fields: each field under its name, with its reason
/// as a string, sorted by name.
pub open spec fn fields_object(f: Seq<(Seq<char>, JsonModel)>, details: Map<Seq<char>, String>) -> bool {
    &&& keys_sorted(f)
    &&& forall|k: Seq<char>| #[trigger] member(f, k) == (if details.contains_key(k) {
        Some(JsonModel::Str(details[k]@))
    } else {
        None
    })
}

/// The schema that a failed validation is reported with: status 422, the
/// error `ValidationError`, and details holding the invalid fields under
/// `fields` and a message that counts them under `message`.
pub open spec fn validation_schema(details: &Assoc<String>, d: Option<JsonModel>) -> bool {
    d matches Some(JsonModel::Object(top)) && top.len() == 2 && top[0].0 == "fields"@ && (top[0].1 matches JsonModel::Object(
        f,
    ) && fields_object(f, details@)) && top[1] == ("message"@, JsonModel::Str(
        validation_message(details.spec_entries().len()),
    ))
}

/// The error schema of a failed validation with the given invalid fields and
/// their reasons.
pub fn validation_error(details: &Assoc<String>) -> (r: ErrorSchema)
    ensures
        r@.status_code == 422,
        r@.error == "ValidationError"@,
        validation_schema(details, r@.details),
{
    let entries = details.entries();
    let n = entries.len();
    let mut fields: Vec<(String, Json)> = Vec::new();
    let mut i: usize = 0;
    proof {
        assert(keys_sorted(members_model(fields@)));
    }
    while i < n
        invariant
            n == entries@.len(),
            entries@ == details.spec_entries(),
            i <= n,
            keys_sorted(members_model(fields@)),
            distinct_keys(entries@),
            details@ == entries_map(entries@),
            forall|j: int| 0 <= j < i ==> member(members_model(fields@), #[trigger] entries@[j].0@) == Some(
                JsonModel::Str(entries@[j].1@),
            ),
            forall|k: Seq<char>| #[trigger] member(members_model(fields@), k) is Some ==> exists|j: int|
                0 <= j < i && #[trigger] entries@[j].0@ == k,
        decreases n - i,
    {
        let key = entries[i].0.clone();
        let value = entries[i].1.clone();
        let ghost before = members_model(fields@);
        object_insert(&mut fields, key, Json::Str(value));
        proof {
            let after = members_model(fields@);
            assert forall|j: int| 0 <= j < i + 1 implies member(after, #[trigger] entries@[j].0@) == Some(
                JsonModel::Str(entries@[j].1@),
            ) by {
                if j < i {
                    assert(entries@[j].0@ != entries@[i as int].0@);
                }
            }
            assert forall|k: Seq<char>| #[trigger] member(after, k) is Some implies exists|j: int|
                0 <= j < i + 1 && #[trigger] entries@[j].0@ == k by {
                if k == entries@[i as int].0@ {
                    assert(entries@[i as int].0@ == k);
                } else {
                    assert(member(before, k) is Some);
                }
            }
        }
        i = i + 1;
    }
    proof {
        let m = members_model(fields@);
        assert forall|k: Seq<char>| #[trigger] member(m, k) == (if details@.contains_key(k) {
            Some(JsonModel::Str(details@[k]@))
        } else {
            None
        }) by {
            if details@.contains_key(k) {
                let j = choose|j: int| 0 <= j < entries@.len() && #[trigger] entries@[j].0@ == k;
                lemma_entries_map_at(entries@, j);
                assert(member(m, entries@[j].0@) == Some(JsonModel::Str(entries@[j].1@)));
            } else if member(m, k) is Some {
                let j = choose|j: int| 0 <= j < n && #[trigger] entries@[j].0@ == k;
                assert(has_key(entries@, k));
            }
        }
        lemma_object_model(fields);
    }
    let ghost fields_model = fields@;
    let mut message = String::from_str("Input cannot be validated. Please see details for ");
    push_decimal(&mut message, n as u64);
    push_str(&mut message, " invalid field");
    if n != 1 {
        push_str(&mut message, "s");
    }
    push_str(&mut message, " below.");
    proof {
        reveal_strlit("");
        assert(message@ =~= validation_message(n as nat));
    }
    let top = vec![
        (String::from_str("fields"), Json::Object(fields)),
        (String::from_str("message"), Json::Str(message)),
    ];
    proof {
        assert(details.spec_entries().len() == n);
        assert(top@[1].1@ == JsonModel::Str(validation_message(n as nat)));
        lemma_object_model(top);
        assert(members_model(top@)[0] == ("fields"@, JsonModel::Object(members_model(fields_model))));
    }
    ErrorSchema::new(StatusCode::unprocessable_entity(), String::from_str("ValidationError"), Some(Json::Object(top)))
}

} // verus!
