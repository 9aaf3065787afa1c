//! What holds of the engine's writes for every payload.

use vstd::prelude::*;
use crate::json::Document;
use crate::denormalize::{
    all_mentions_ok, author_writes, child_ok, child_write, children, denormalized, guild_writes,
    member_write, mention_member, mention_ok, mention_user, mention_writes, message_writes,
    one_mention, user_write, WriteModel,
};

verus! {

/// A guild-create payload with N channels and M roles yields 1 + N + M
/// writes: the guild under its own key with the whole payload, then one per
/// channel, then one per role; and the document of every channel and role
/// write carries a `guild_id` equal to the guild's id.
pub proof fn guild_create_writes_every_child(d: Document)
    requires
        denormalized("GUILD_CREATE"@, d) is Some,
    ensures
        ({
            let ws = denormalized("GUILD_CREATE"@, d).unwrap();
            let n = children(d, "channels"@).len();
            let m = children(d, "roles"@).len();
            &&& d.text_field("id"@) is Some
            &&& ws.len() == 1 + n + m
            &&& ws[0] == (WriteModel { key: "guild:"@ + d.text_field("id"@).unwrap(), document: d })
            &&& forall|i: int|
                1 <= i < ws.len() ==> (#[trigger] ws[i]).document.text_field("guild_id"@)
                    == d.text_field("id"@)
        }),
{
    let ws = guild_writes(d).unwrap();
    let gid = d.text_field("id"@).unwrap();
    let cs = children(d, "channels"@);
    let rs = children(d, "roles"@);
    assert forall|i: int| 1 <= i < ws.len() implies (#[trigger] ws[i]).document.text_field(
        "guild_id"@,
    ) == d.text_field("id"@) by {
        if i < 1 + cs.len() {
            let c = cs[i - 1];
            assert(child_ok(c));
            assert(ws[i] == child_write("channel:"@, gid, c));
        } else {
            let c = rs[i - 1 - cs.len()];
            assert(child_ok(c));
            assert(ws[i] == child_write("role:"@, gid, c));
        }
    }
}

/// Where no mention embeds a membership, the writes of the mentions are the
/// mentions' user records, one each.
pub proof fn mentions_without_members(ms: Seq<Document>, gid: Option<Seq<char>>)
    requires
        forall|i: int| 0 <= i < ms.len() ==> !(#[trigger] ms[i]).has_field("member"@),
    ensures
        mention_writes(ms, gid) == ms.map_values(|m: Document| mention_user(m)),
    decreases ms.len(),
{
    if ms.len() > 0 {
        let front = ms.drop_last();
        assert forall|i: int| 0 <= i < front.len() implies !(#[trigger] front[i]).has_field(
            "member"@,
        ) by {
            assert(front[i] == ms[i]);
        }
        mentions_without_members(front, gid);
        assert(one_mention(ms.last(), gid) == seq![mention_user(ms.last())]);
        assert(mention_writes(ms, gid) =~= ms.map_values(|m: Document| mention_user(m)));
    } else {
        assert(mention_writes(ms, gid) =~= ms.map_values(|m: Document| mention_user(m)));
    }
}

/// Whether a key is that of a membership record.
pub open spec fn is_member_key(key: Seq<char>) -> bool {
    "member:"@.is_prefix_of(key)
}

/// The key of a user record is never that of a membership record.
pub proof fn user_key_is_no_member_key(id: Seq<char>)
    ensures
        !is_member_key("user:"@ + id),
{
    reveal_strlit("user:");
    reveal_strlit("member:");
    let key = "user:"@ + id;
    if is_member_key(key) {
        assert(key.subrange(0, 7)[0] == "member:"@[0]);
        assert(key[0] == "user:"@[0]);
    }
}

/// A message-create payload with an author, without a membership of the
/// author and without a membership in any mention, yields the author's user
/// record followed by the user records of the mentions, and nothing else:
/// no membership is written. The only record under the author's key is the
/// first, unless a mention names the author.
pub proof fn author_without_member_writes_one_user(d: Document)
    requires
        d.field("author"@) is Some,
        d.field("member"@) is None,
        denormalized("MESSAGE_CREATE"@, d) is Some,
        forall|i: int|
            0 <= i < children(d, "mentions"@).len() ==> !(#[trigger] children(
                d,
                "mentions"@,
            )[i]).has_field("member"@),
    ensures
        ({
            let ws = denormalized("MESSAGE_CREATE"@, d).unwrap();
            let author = d.field("author"@).unwrap();
            let ms = children(d, "mentions"@);
            &&& author.text_field("id"@) is Some
            &&& ws == seq![user_write(author.text_field("id"@).unwrap(), author)] + ms.map_values(
                |m: Document| mention_user(m),
            )
            &&& forall|i: int|
                0 <= i < ms.len() && (#[trigger] ms[i]).text_field("id"@) != author.text_field(
                    "id"@,
                ) ==> ws[i + 1].key != ws[0].key
            &&& forall|j: int| 0 <= j < ws.len() ==> !is_member_key(#[trigger] ws[j].key)
        }),
{
    reveal_strlit("GUILD_CREATE");
    reveal_strlit("MESSAGE_CREATE");
    assert("GUILD_CREATE"@ != "MESSAGE_CREATE"@) by {
        assert("GUILD_CREATE"@.len() != "MESSAGE_CREATE"@.len());
    }
    let ws = message_writes(d).unwrap();
    let author = d.field("author"@).unwrap();
    let aid = author.text_field("id"@).unwrap();
    let ms = children(d, "mentions"@);
    let gid = d.text_field("guild_id"@);
    assert(author_writes(d) == Some(seq![user_write(aid, author)]));
    mentions_without_members(ms, gid);
    assert(mention_writes(Seq::<Document>::empty(), gid) =~= Seq::<Document>::empty().map_values(
        |m: Document| mention_user(m),
    ));
    assert(ws =~= seq![user_write(aid, author)] + ms.map_values(|m: Document| mention_user(m)));
    assert forall|i: int|
        0 <= i < ms.len() && (#[trigger] ms[i]).text_field("id"@) != author.text_field(
            "id"@,
        ) implies ws[i + 1].key != ws[0].key by {
        let mid = ms[i].text_field("id"@).unwrap();
        let p = "user:"@;
        assert(all_mentions_ok(ms, gid));
        assert(mention_ok(ms[i], gid));
        assert(ws[i + 1].key == p + mid);
        assert(ws[0].key == p + aid);
        assert((p + mid).subrange(p.len() as int, (p + mid).len() as int) =~= mid);
        assert((p + aid).subrange(p.len() as int, (p + aid).len() as int) =~= aid);
    }
    assert forall|j: int| 0 <= j < ws.len() implies !is_member_key(#[trigger] ws[j].key) by {
        if j == 0 {
            user_key_is_no_member_key(aid);
        } else {
            assert(ws[j] == mention_user(ms[j - 1]));
            user_key_is_no_member_key(ms[j - 1].text_field("id"@).unwrap());
        }
    }
}

/// Every write of a mention is among the writes of all mentions.
pub proof fn mention_writes_hold_each(ms: Seq<Document>, gid: Option<Seq<char>>, i: int, k: int)
    requires
        0 <= i < ms.len(),
        0 <= k < one_mention(ms[i], gid).len(),
    ensures
        mention_writes(ms, gid).contains(one_mention(ms[i], gid)[k]),
    decreases ms.len(),
{
    let front = mention_writes(ms.drop_last(), gid);
    let back = one_mention(ms.last(), gid);
    let all = mention_writes(ms, gid);
    assert(all == front + back);
    if i == ms.len() - 1 {
        assert(all[front.len() + k] == back[k]);
    } else {
        assert(ms.drop_last()[i] == ms[i]);
        mention_writes_hold_each(ms.drop_last(), gid, i, k);
        let j = choose|j: int| 0 <= j < front.len() && front[j] == one_mention(ms[i], gid)[k];
        assert(all[j] == front[j]);
    }
}

/// For a mention that embeds a membership, the writes of a message-create
/// payload hold a membership record, keyed by guild and mentioned user, whose
/// document is the embedded membership as it stood; and the user record of
/// the mention, whose document has no `member` field.
pub proof fn mention_membership_is_split(d: Document, i: int)
    requires
        denormalized("MESSAGE_CREATE"@, d) is Some,
        0 <= i < children(d, "mentions"@).len(),
        children(d, "mentions"@)[i].has_field("member"@),
    ensures
        ({
            let ws = denormalized("MESSAGE_CREATE"@, d).unwrap();
            let m = children(d, "mentions"@)[i];
            &&& d.text_field("guild_id"@) is Some
            &&& m.text_field("id"@) is Some
            &&& ws.contains(
                member_write(
                    d.text_field("guild_id"@).unwrap(),
                    m.text_field("id"@).unwrap(),
                    m.field("member"@).unwrap(),
                ),
            )
            &&& ws.contains(user_write(m.text_field("id"@).unwrap(), m.without_field("member"@)))
            &&& !m.without_field("member"@).has_field("member"@)
        }),
{
    reveal_strlit("GUILD_CREATE");
    reveal_strlit("MESSAGE_CREATE");
    assert("GUILD_CREATE"@ != "MESSAGE_CREATE"@) by {
        assert("GUILD_CREATE"@.len() != "MESSAGE_CREATE"@.len());
    }
    let ws = message_writes(d).unwrap();
    let ms = children(d, "mentions"@);
    let gid = d.text_field("guild_id"@);
    let aw = author_writes(d).unwrap();
    let mw = mention_writes(ms, gid);
    assert(ws == aw + mw);
    assert(mention_ok(ms[i], gid));
    assert(one_mention(ms[i], gid) == seq![mention_member(ms[i], gid), mention_user(ms[i])]);
    mention_writes_hold_each(ms, gid, i, 0);
    mention_writes_hold_each(ms, gid, i, 1);
    let j0 = choose|j: int| 0 <= j < mw.len() && mw[j] == mention_member(ms[i], gid);
    let j1 = choose|j: int| 0 <= j < mw.len() && mw[j] == mention_user(ms[i]);
    assert(ws[aw.len() + j0] == mw[j0]);
    assert(ws[aw.len() + j1] == mw[j1]);
}

/// An event type without a mapping yields no writes, and no error.
pub proof fn unmapped_event_writes_nothing(event_type: Seq<char>, d: Document)
    requires
        event_type != "GUILD_CREATE"@,
        event_type != "MESSAGE_CREATE"@,
    ensures
        denormalized(event_type, d) == Some(Seq::<WriteModel>::empty()),
{
}

} // verus!
