//! The entity store as a mathematical map, and what upserts do to it.

use vstd::prelude::*;
use crate::json::Document;
use crate::denormalize::{denormalized, WriteModel};

verus! {

/// The store's content: the document held under each key.
pub type StoreModel = Map<Seq<char>, Document>;

/// The store after the writes were applied in order, each one an upsert, the
/// last write under a key winning.
pub open spec fn applied(store: StoreModel, ws: Seq<WriteModel>) -> StoreModel
    decreases ws.len(),
{
    if ws.len() == 0 {
        store
    } else {
        applied(store, ws.drop_last()).insert(ws.last().key, ws.last().document)
    }
}

/// The document of the last write under `key`, if there is one.
pub open spec fn last_written(ws: Seq<WriteModel>, key: Seq<char>) -> Option<Document>
    decreases ws.len(),
{
    if ws.len() == 0 {
        None
    } else if ws.last().key == key {
        Some(ws.last().document)
    } else {
        last_written(ws.drop_last(), key)
    }
}

/// After a sequence of upserts a key holds the last document written under
/// it, and what the store held before where none was written.
pub proof fn applied_holds_last_written(store: StoreModel, ws: Seq<WriteModel>, key: Seq<char>)
    ensures
        applied(store, ws).contains_key(key) == (store.contains_key(key) || last_written(
            ws,
            key,
        ) is Some),
        last_written(ws, key) is Some ==> applied(store, ws)[key] == last_written(ws, key).unwrap(),
        last_written(ws, key) is None ==> applied(store, ws)[key] == store[key],
    decreases ws.len(),
{
    if ws.len() > 0 {
        applied_holds_last_written(store, ws.drop_last(), key);
    }
}

/// Applying the same writes a second time leaves the store as it was after
/// the first time.
pub proof fn replay_converges(store: StoreModel, ws: Seq<WriteModel>)
    ensures
        applied(applied(store, ws), ws) == applied(store, ws),
{
    let once = applied(store, ws);
    let twice = applied(once, ws);
    assert forall|key: Seq<char>| #[trigger]
        twice.dom().contains(key) == once.dom().contains(key) by {
        applied_holds_last_written(store, ws, key);
        applied_holds_last_written(once, ws, key);
    }
    assert forall|key: Seq<char>| #[trigger] once.dom().contains(key) implies twice[key]
        == once[key] by {
        applied_holds_last_written(store, ws, key);
        applied_holds_last_written(once, ws, key);
    }
    assert(twice =~= once);
}

/// Denormalizing the same event twice and applying the writes both times
/// yields the store that one application yields.
pub proof fn event_replay_converges(store: StoreModel, event_type: Seq<char>, d: Document)
    requires
        denormalized(event_type, d) is Some,
    ensures
        ({
            let ws = denormalized(event_type, d).unwrap();
            applied(applied(store, ws), ws) == applied(store, ws)
        }),
{
    replay_converges(store, denormalized(event_type, d).unwrap());
}

} // verus!
