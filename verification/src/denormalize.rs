//! The denormalization engine: event type and payload to an ordered sequence
//! of cache writes.

use vstd::prelude::*;
use vstd::string::StringExecFns;
use crate::json::{doc, docs, rendered, Document};
use crate::json::{as_list, as_text, member, put, render, strip, text_value};

verus! {

/// One upsert against the entity store, as a mathematical value.
pub struct WriteModel {
    pub key: Seq<char>,
    pub document: Document,
}

/// One upsert against the entity store: the record's key and its document.
#[derive(Debug, Clone, PartialEq)]
pub struct CacheWrite {
    pub key: String,
    pub document: serde_json::Value,
}

impl View for CacheWrite {
    type V = WriteModel;

    open spec fn view(&self) -> WriteModel {
        WriteModel { key: self.key@, document: doc(self.document) }
    }
}

impl CacheWrite {
    /// The serialized document, as it is stored under the key.
    pub fn value(&self) -> (r: String)
        ensures
            r@ == rendered(self@.document),
    {
        render(&self.document)
    }
}

/// Why an event yields no writes at all.
#[derive(Debug, Clone, Copy, PartialEq, Eq)]
pub enum DenormalizeError {
    /// The payload lacks a field that the event's mapping reads.
    Malformed,
}

/// The models of a sequence of writes, in order.
pub open spec fn writes_of(ws: Seq<CacheWrite>) -> Seq<WriteModel> {
    ws.map_values(|w: CacheWrite| w@)
}

/// The elements of the array stored under `name`; empty where there is none.
pub open spec fn children(d: Document, name: Seq<char>) -> Seq<Document> {
    match d.field(name) {
        Some(Document::List(s)) => s,
        _ => Seq::empty(),
    }
}

/// A channel or role can be keyed: it is an object with a string `id`.
pub open spec fn child_ok(c: Document) -> bool {
    c.text_field("id"@) is Some
}

pub open spec fn all_children_ok(cs: Seq<Document>) -> bool {
    forall|i: int| 0 <= i < cs.len() ==> child_ok(#[trigger] cs[i])
}

/// The record of a channel or role of guild `gid`: keyed by its own id, its
/// document extended by the guild's id.
pub open spec fn child_write(prefix: Seq<char>, gid: Seq<char>, c: Document) -> WriteModel {
    WriteModel {
        key: prefix + c.text_field("id"@).unwrap(),
        document: c.with_field("guild_id"@, Document::Text(gid)),
    }
}

pub open spec fn child_writes(prefix: Seq<char>, gid: Seq<char>, cs: Seq<Document>) -> Seq<
    WriteModel,
> {
    cs.map_values(|c: Document| child_write(prefix, gid, c))
}

/// The writes of a guild-create payload: the guild, then its channels, then
/// its roles. `None` where the guild or one of them has no string `id`.
pub open spec fn guild_writes(d: Document) -> Option<Seq<WriteModel>> {
    match d.text_field("id"@) {
        None => None,
        Some(gid) => {
            let cs = children(d, "channels"@);
            let rs = children(d, "roles"@);
            if all_children_ok(cs) && all_children_ok(rs) {
                Some(
                    seq![WriteModel { key: "guild:"@ + gid, document: d }] + child_writes(
                        "channel:"@,
                        gid,
                        cs,
                    ) + child_writes("role:"@, gid, rs),
                )
            } else {
                None
            }
        },
    }
}

pub open spec fn user_write(id: Seq<char>, document: Document) -> WriteModel {
    WriteModel { key: "user:"@ + id, document }
}

pub open spec fn member_write(gid: Seq<char>, id: Seq<char>, document: Document) -> WriteModel {
    WriteModel { key: "member:"@ + gid + ":"@ + id, document }
}

/// The writes for the author of a message: the user, then the membership
/// where the payload carries one.
pub open spec fn author_writes(d: Document) -> Option<Seq<WriteModel>> {
    match d.field("author"@) {
        None => Some(Seq::empty()),
        Some(author) => match author.text_field("id"@) {
            None => None,
            Some(aid) => match d.field("member"@) {
                None => Some(seq![user_write(aid, author)]),
                Some(m) => match d.text_field("guild_id"@) {
                    None => None,
                    Some(gid) => Some(seq![user_write(aid, author), member_write(gid, aid, m)]),
                },
            },
        },
    }
}

/// A mention can be keyed: it has a string `id`, and the guild is known
/// where it embeds a membership.
pub open spec fn mention_ok(m: Document, gid: Option<Seq<char>>) -> bool {
    m.text_field("id"@) is Some && (m.has_field("member"@) ==> gid is Some)
}

pub open spec fn all_mentions_ok(ms: Seq<Document>, gid: Option<Seq<char>>) -> bool {
    forall|i: int| 0 <= i < ms.len() ==> mention_ok(#[trigger] ms[i], gid)
}

/// The mentioned user's own record: the mention without its membership.
pub open spec fn mention_user(m: Document) -> WriteModel {
    user_write(m.text_field("id"@).unwrap(), m.without_field("member"@))
}

/// The membership that a mention embeds, as a record of its own.
pub open spec fn mention_member(m: Document, gid: Option<Seq<char>>) -> WriteModel {
    member_write(gid.unwrap(), m.text_field("id"@).unwrap(), m.field("member"@).unwrap())
}

/// The writes of one mention: the embedded membership first, where there is
/// one, then the user.
pub open spec fn one_mention(m: Document, gid: Option<Seq<char>>) -> Seq<WriteModel> {
    if m.has_field("member"@) {
        seq![mention_member(m, gid), mention_user(m)]
    } else {
        seq![mention_user(m)]
    }
}

/// The writes of all mentions, in the order of the mentions.
pub open spec fn mention_writes(ms: Seq<Document>, gid: Option<Seq<char>>) -> Seq<WriteModel>
    decreases ms.len(),
{
    if ms.len() == 0 {
        Seq::empty()
    } else {
        mention_writes(ms.drop_last(), gid) + one_mention(ms.last(), gid)
    }
}

/// The writes of a message-create payload: those of the author, then those
/// of the mentions. `None` where a field that the mapping reads is missing.
pub open spec fn message_writes(d: Document) -> Option<Seq<WriteModel>> {
    match author_writes(d) {
        None => None,
        Some(aw) => match d.field("mentions"@) {
            None => Some(aw),
            Some(Document::List(ms)) => if all_mentions_ok(ms, d.text_field("guild_id"@)) {
                Some(aw + mention_writes(ms, d.text_field("guild_id"@)))
            } else {
                None
            },
            Some(_) => None,
        },
    }
}

/// The writes of an event, in the order in which they are applied; `None`
/// for a malformed payload. An event type without a mapping has no writes.
pub open spec fn denormalized(event_type: Seq<char>, d: Document) -> Option<Seq<WriteModel>> {
    if event_type == "GUILD_CREATE"@ {
        guild_writes(d)
    } else if event_type == "MESSAGE_CREATE"@ {
        message_writes(d)
    } else {
        Some(Seq::empty())
    }
}

pub open spec fn text_of(s: Option<&str>) -> Option<Seq<char>> {
    match s {
        Some(t) => Some(t@),
        None => None,
    }
}

/// Whether two string slices hold the same characters.
pub fn same_text(a: &str, b: &str) -> (r: bool)
    ensures
        r == (a@ == b@),
{
    let x = String::from_str(a);
    let y = String::from_str(b);
    x == y
}

/// The string member of `v` under `key`.
pub fn text_member<'a>(v: &'a serde_json::Value, key: &str) -> (r: Option<&'a str>)
    ensures
        text_of(r) == doc(*v).text_field(key@),
{
    match member(v, key) {
        Some(x) => as_text(x),
        None => None,
    }
}

fn push_children(
    prefix: &str,
    gid: &str,
    items: &Vec<serde_json::Value>,
    out: &mut Vec<CacheWrite>,
) -> (ok: bool)
    ensures
        ok == all_children_ok(docs(items@)),
        ok ==> writes_of(final(out)@) == writes_of(old(out)@) + child_writes(
            prefix@,
            gid@,
            docs(items@),
        ),
{
    let ghost before = writes_of(out@);
    let ghost cs = docs(items@);
    let mut i: usize = 0;
    while i < items.len()
        invariant
            i <= items@.len(),
            cs == docs(items@),
            forall|j: int| 0 <= j < i ==> child_ok(#[trigger] cs[j]),
            writes_of(out@) == before + child_writes(prefix@, gid@, cs.take(i as int)),
        decreases items@.len() - i,
    {
        let item = &items[i];
        assert(cs[i as int] == doc(*item));
        match text_member(item, "id") {
            None => {
                return false;
            },
            Some(id) => {
                let mut copy = item.clone();
                put(&mut copy, "guild_id", text_value(gid));
                let key = String::from_str(prefix).concat(id);
                let ghost prev = out@;
                out.push(CacheWrite { key, document: copy });
                proof {
                    let w = child_write(prefix@, gid@, cs[i as int]);
                    assert(writes_of(out@) =~= writes_of(prev).push(w));
                    assert(child_writes(prefix@, gid@, cs.take(i + 1)) =~= child_writes(
                        prefix@,
                        gid@,
                        cs.take(i as int),
                    ).push(w));
                    assert(writes_of(out@) =~= before + child_writes(
                        prefix@,
                        gid@,
                        cs.take(i + 1),
                    ));
                }
            },
        }
        i += 1;
    }
    proof {
        assert(cs.take(i as int) =~= cs);
    }
    true
}

/// The writes of a guild-create payload.
pub fn guild_create(data: &serde_json::Value) -> (r: Result<Vec<CacheWrite>, DenormalizeError>)
    ensures
        match r {
            Ok(ws) => guild_writes(doc(*data)) == Some(writes_of(ws@)),
            Err(_) => guild_writes(doc(*data)) is None,
        },
{
    let gid = match text_member(data, "id") {
        Some(g) => g,
        None => {
            return Err(DenormalizeError::Malformed);
        },
    };
    let mut out: Vec<CacheWrite> = Vec::new();
    out.push(CacheWrite { key: String::from_str("guild:").concat(gid), document: data.clone() });
    assert(writes_of(out@) =~= seq![WriteModel { key: "guild:"@ + gid@, document: doc(*data) }]);
    let ghost cs = children(doc(*data), "channels"@);
    let ghost rs = children(doc(*data), "roles"@);
    match member(data, "channels") {
        Some(v) => match as_list(v) {
            Some(items) => {
                if !push_children("channel:", gid, items, &mut out) {
                    return Err(DenormalizeError::Malformed);
                }
            },
            None => {},
        },
        None => {},
    }
    assert(writes_of(out@) =~= seq![WriteModel { key: "guild:"@ + gid@, document: doc(*data) }]
        + child_writes("channel:"@, gid@, cs));
    match member(data, "roles") {
        Some(v) => match as_list(v) {
            Some(items) => {
                if !push_children("role:", gid, items, &mut out) {
                    return Err(DenormalizeError::Malformed);
                }
            },
            None => {},
        },
        None => {},
    }
    assert(writes_of(out@) =~= seq![WriteModel { key: "guild:"@ + gid@, document: doc(*data) }]
        + child_writes("channel:"@, gid@, cs) + child_writes("role:"@, gid@, rs));
    Ok(out)
}

fn member_key(gid: &str, id: &str) -> (r: String)
    ensures
        r@ == "member:"@ + gid@ + ":"@ + id@,
{
    String::from_str("member:").concat(gid).concat(":").concat(id)
}

fn push_mentions(gid: Option<&str>, items: &Vec<serde_json::Value>, out: &mut Vec<CacheWrite>) -> (ok:
    bool)
    ensures
        ok == all_mentions_ok(docs(items@), text_of(gid)),
        ok ==> writes_of(final(out)@) == writes_of(old(out)@) + mention_writes(
            docs(items@),
            text_of(gid),
        ),
{
    let ghost before = writes_of(out@);
    let ghost ms = docs(items@);
    let ghost g = text_of(gid);
    let mut i: usize = 0;
    assert(writes_of(out@) =~= before + mention_writes(ms.take(0), g));
    while i < items.len()
        invariant
            i <= items@.len(),
            ms == docs(items@),
            g == text_of(gid),
            forall|j: int| 0 <= j < i ==> mention_ok(#[trigger] ms[j], g),
            writes_of(out@) == before + mention_writes(ms.take(i as int), g),
        decreases items@.len() - i,
    {
        let item = &items[i];
        assert(ms[i as int] == doc(*item));
        let id = match text_member(item, "id") {
            Some(id) => id,
            None => {
                return false;
            },
        };
        let ghost prev = writes_of(out@);
        match member(item, "member") {
            Some(m) => match gid {
                Some(gtext) => {
                    out.push(CacheWrite { key: member_key(gtext, id), document: m.clone() });
                    assert(writes_of(out@) =~= prev.push(mention_member(ms[i as int], g)));
                },
                None => {
                    return false;
                },
            },
            None => {},
        }
        let ghost mid = writes_of(out@);
        let mut copy = item.clone();
        strip(&mut copy, "member");
        out.push(CacheWrite { key: String::from_str("user:").concat(id), document: copy });
        proof {
            let whole = ms.take(i + 1);
            assert(writes_of(out@) =~= mid.push(mention_user(ms[i as int])));
            assert(whole.drop_last() =~= ms.take(i as int));
            assert(whole.last() == ms[i as int]);
            assert(writes_of(out@) =~= prev + one_mention(ms[i as int], g));
            assert(writes_of(out@) =~= before + mention_writes(whole, g));
        }
        i += 1;
    }
    proof {
        assert(ms.take(i as int) =~= ms);
    }
    true
}

/// The writes of a message-create payload.
pub fn message_create(data: &serde_json::Value) -> (r: Result<Vec<CacheWrite>, DenormalizeError>)
    ensures
        match r {
            Ok(ws) => message_writes(doc(*data)) == Some(writes_of(ws@)),
            Err(_) => message_writes(doc(*data)) is None,
        },
{
    let gid = text_member(data, "guild_id");
    let mut out: Vec<CacheWrite> = Vec::new();
    assert(writes_of(out@) =~= Seq::empty());
    match member(data, "author") {
        Some(author) => {
            let aid = match text_member(author, "id") {
                Some(a) => a,
                None => {
                    return Err(DenormalizeError::Malformed);
                },
            };
            out.push(
                CacheWrite { key: String::from_str("user:").concat(aid), document: author.clone() },
            );
            assert(writes_of(out@) =~= seq![user_write(aid@, doc(*author))]);
            match member(data, "member") {
                Some(m) => match gid {
                    Some(g) => {
                        out.push(CacheWrite { key: member_key(g, aid), document: m.clone() });
                        assert(writes_of(out@) =~= seq![
                            user_write(aid@, doc(*author)),
                            member_write(g@, aid@, doc(*m)),
                        ]);
                    },
                    None => {
                        return Err(DenormalizeError::Malformed);
                    },
                },
                None => {},
            }
        },
        None => {},
    }
    assert(author_writes(doc(*data)) == Some(writes_of(out@)));
    match member(data, "mentions") {
        Some(v) => match as_list(v) {
            Some(items) => {
                if !push_mentions(gid, items, &mut out) {
                    return Err(DenormalizeError::Malformed);
                }
            },
            None => {
                return Err(DenormalizeError::Malformed);
            },
        },
        None => {},
    }
    Ok(out)
}

/// Maps one dispatched event to its cache writes, in the order in which
/// they are to be applied. Fails exactly on a malformed payload; an event
/// type without a mapping yields no writes.
pub fn denormalize(event_type: &str, data: &serde_json::Value) -> (r: Result<
    Vec<CacheWrite>,
    DenormalizeError,
>)
    ensures
        match r {
            Ok(ws) => denormalized(event_type@, doc(*data)) == Some(writes_of(ws@)),
            Err(_) => denormalized(event_type@, doc(*data)) is None,
        },
{
    if same_text(event_type, "GUILD_CREATE") {
        guild_create(data)
    } else if same_text(event_type, "MESSAGE_CREATE") {
        message_create(data)
    } else {
        let out: Vec<CacheWrite> = Vec::new();
        assert(writes_of(out@) =~= Seq::empty());
        Ok(out)
    }
}

} // verus!
