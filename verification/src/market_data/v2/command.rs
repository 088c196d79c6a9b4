//! The commands a client sends: `auth` once a connection is open, and
//! `subscribe` once the service has accepted the credentials.
use crate::json::{
    distinct_keys, entry_models, json_object, json_string, json_strings, object_of, string_array,
    value_model, JsonModel,
};
use crate::text::copy_texts;
use vstd::prelude::*;

verus! {

/// An object with one more channel, unless the channel has no symbol.
pub open spec fn with_channel(
    o: Map<Seq<char>, JsonModel>,
    key: Seq<char>,
    symbols: Seq<Seq<char>>,
) -> Map<Seq<char>, JsonModel> {
    if symbols.len() == 0 {
        o
    } else {
        o.insert(key, string_array(symbols))
    }
}

/// Whether some entry stands under the key.
pub open spec fn has_key(e: Seq<(Seq<char>, JsonModel)>, k: Seq<char>) -> bool {
    exists|i: int| 0 <= i < e.len() && (#[trigger] e[i]).0 == k
}

/// The `auth` command for a key and its secret.
pub open spec fn auth_model(key: Seq<char>, secret: Seq<char>) -> JsonModel {
    JsonModel::Object(
        Map::empty().insert("action"@, JsonModel::Str("auth"@)).insert(
            "key"@,
            JsonModel::Str(key),
        ).insert("secret"@, JsonModel::Str(secret)),
    )
}

/// Appending an entry under a new key keeps the keys distinct and inserts
/// the entry into the object.
pub proof fn lemma_push_entry(e: Seq<(Seq<char>, JsonModel)>, k: Seq<char>, x: JsonModel)
    requires
        distinct_keys(e),
        !has_key(e, k),
    ensures
        distinct_keys(e.push((k, x))),
        object_of(e.push((k, x))) == object_of(e).insert(k, x),
        forall|q: Seq<char>| has_key(e.push((k, x)), q) ==> q == k || has_key(e, q),
{
    let e2 = e.push((k, x));
    assert(e2.drop_last() =~= e);
    assert forall|i: int, j: int| 0 <= i < j < e2.len() implies (#[trigger] e2[i]).0 != (
    #[trigger] e2[j]).0 by {
        if j == e.len() {
            assert(e2[i] == e[i]);
        } else {
            assert(e2[i] == e[i] && e2[j] == e[j]);
        }
    }
    assert forall|q: Seq<char>| has_key(e2, q) implies q == k || has_key(e, q) by {
        let i = choose|i: int| 0 <= i < e2.len() && (#[trigger] e2[i]).0 == q;
        if i < e.len() {
            assert(e[i].0 == q);
        }
    }
}

/// Appends a channel to the entries of a command, unless it has no symbol.
pub(crate) fn add_channel(
    entries: &mut Vec<(String, serde_json::Value)>,
    key: &str,
    symbols: &Vec<String>,
)
    requires
        distinct_keys(entry_models(old(entries)@)),
        !has_key(entry_models(old(entries)@), key@),
    ensures
        distinct_keys(entry_models(final(entries)@)),
        object_of(entry_models(final(entries)@)) == with_channel(
            object_of(entry_models(old(entries)@)),
            key@,
            symbols.deep_view(),
        ),
        forall|q: Seq<char>|
            has_key(entry_models(final(entries)@), q) ==> q == key@ || has_key(
                entry_models(old(entries)@),
                q,
            ),
{
    if symbols.len() > 0 {
        let ghost before = entry_models(entries@);
        let value = json_strings(copy_texts(symbols));
        proof {
            lemma_push_entry(before, key@, value_model(value));
        }
        entries.push((key.to_owned(), value));
        assert(entry_models(entries@) =~= before.push((key@, string_array(symbols.deep_view()))));
    }
}

/// Renders the `auth` command.
pub fn auth_json(key: &str, secret: &str) -> (r: serde_json::Value)
    ensures
        value_model(r) == auth_model(key@, secret@),
{
    let mut entries: Vec<(String, serde_json::Value)> = Vec::new();
    let ghost e0 = entry_models(entries@);
    assert(e0 =~= Seq::empty());
    let action = json_string("auth".to_owned());
    let ghost e1 = e0.push(("action"@, value_model(action)));
    entries.push(("action".to_owned(), action));
    assert(entry_models(entries@) =~= e1);
    let k = json_string(key.to_owned());
    let ghost e2 = e1.push(("key"@, value_model(k)));
    entries.push(("key".to_owned(), k));
    assert(entry_models(entries@) =~= e2);
    let s = json_string(secret.to_owned());
    let ghost e3 = e2.push(("secret"@, value_model(s)));
    entries.push(("secret".to_owned(), s));
    assert(entry_models(entries@) =~= e3);
    proof {
        reveal_strlit("action");
        reveal_strlit("key");
        reveal_strlit("secret");
        assert("action"@.len() == 6 && "key"@.len() == 3 && "secret"@.len() == 6);
        assert("action"@[0] != "secret"@[0]);
        assert(object_of(e0) =~= Map::empty());
        lemma_push_entry(e0, "action"@, JsonModel::Str("auth"@));
        lemma_push_entry(e1, "key"@, JsonModel::Str(key@));
        lemma_push_entry(e2, "secret"@, JsonModel::Str(secret@));
    }
    json_object(entries)
}

} // verus!
