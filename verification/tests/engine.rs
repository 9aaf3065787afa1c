use cognite::denormalize::{denormalize, guild_create, message_create, same_text, text_member};
use cognite::denormalize::{CacheWrite, DenormalizeError};
use serde_json::Value;
use std::collections::HashMap;

fn json(text: &str) -> Value {
    serde_json::from_str(text).unwrap()
}

fn apply(store: &mut HashMap<String, String>, writes: &[CacheWrite]) {
    for w in writes {
        store.insert(w.key.clone(), w.value());
    }
}

#[test]
fn guild_create_writes_guild_then_channel() {
    let data = json(r#"{"id":"G1","channels":[{"id":"C1"}],"roles":[]}"#);
    let writes = denormalize("GUILD_CREATE", &data).unwrap();
    assert_eq!(writes.len(), 2);
    assert_eq!(writes[0].key, "guild:G1");
    assert_eq!(writes[0].document, data);
    assert_eq!(writes[1].key, "channel:C1");
    assert_eq!(writes[1].document, json(r#"{"id":"C1","guild_id":"G1"}"#));
    assert!(writes.iter().all(|w| !w.key.starts_with("role:")));
}

#[test]
fn guild_create_values_are_compact_json() {
    let data = json(r#"{"id":"G1","channels":[{"id":"C1"}],"roles":[]}"#);
    let writes = denormalize("GUILD_CREATE", &data).unwrap();
    assert_eq!(writes[0].value(), r#"{"channels":[{"id":"C1"}],"id":"G1","roles":[]}"#);
    assert_eq!(writes[1].value(), r#"{"guild_id":"G1","id":"C1"}"#);
}

#[test]
fn guild_create_counts_one_plus_channels_plus_roles() {
    let data = json(
        r#"{"id":"G9","name":"g","channels":[{"id":"C1","name":"a"},{"id":"C2"}],
            "roles":[{"id":"R1"},{"id":"R2","color":5},{"id":"R3"}]}"#,
    );
    let writes = denormalize("GUILD_CREATE", &data).unwrap();
    assert_eq!(writes.len(), 1 + 2 + 3);
    let keys: Vec<&str> = writes.iter().map(|w| w.key.as_str()).collect();
    assert_eq!(
        keys,
        vec!["guild:G9", "channel:C1", "channel:C2", "role:R1", "role:R2", "role:R3"]
    );
    for w in &writes[1..] {
        assert_eq!(w.document["guild_id"], Value::String("G9".to_string()));
    }
    assert_eq!(writes[1].document, json(r#"{"id":"C1","name":"a","guild_id":"G9"}"#));
    assert_eq!(writes[4].document, json(r#"{"id":"R2","color":5,"guild_id":"G9"}"#));
}

#[test]
fn guild_create_overwrites_a_stale_guild_id() {
    let data = json(r#"{"id":"G1","roles":[{"id":"R1","guild_id":"old"}]}"#);
    let writes = guild_create(&data).unwrap();
    assert_eq!(writes.len(), 2);
    assert_eq!(writes[1].document, json(r#"{"id":"R1","guild_id":"G1"}"#));
}

#[test]
fn guild_create_without_arrays_writes_only_the_guild() {
    let data = json(r#"{"id":"G1"}"#);
    let writes = denormalize("GUILD_CREATE", &data).unwrap();
    assert_eq!(writes.len(), 1);
    assert_eq!(writes[0].key, "guild:G1");
    let odd = json(r#"{"id":"G1","channels":"none","roles":null}"#);
    assert_eq!(denormalize("GUILD_CREATE", &odd).unwrap().len(), 1);
}

#[test]
fn guild_create_without_id_is_malformed() {
    assert_eq!(
        denormalize("GUILD_CREATE", &json(r#"{"channels":[]}"#)),
        Err(DenormalizeError::Malformed)
    );
    assert_eq!(denormalize("GUILD_CREATE", &json(r#"{"id":7}"#)), Err(DenormalizeError::Malformed));
    assert_eq!(denormalize("GUILD_CREATE", &json("[]")), Err(DenormalizeError::Malformed));
}

#[test]
fn guild_create_with_unkeyed_child_is_malformed() {
    let channel = json(r#"{"id":"G1","channels":[{"id":"C1"},{"name":"x"}]}"#);
    assert_eq!(denormalize("GUILD_CREATE", &channel), Err(DenormalizeError::Malformed));
    let role = json(r#"{"id":"G1","roles":[null]}"#);
    assert_eq!(denormalize("GUILD_CREATE", &role), Err(DenormalizeError::Malformed));
    let text = json(r#"{"id":"G1","roles":["R1"]}"#);
    assert_eq!(denormalize("GUILD_CREATE", &text), Err(DenormalizeError::Malformed));
}

#[test]
fn message_create_writes_author_member_and_mentions() {
    let data = json(
        r#"{"guild_id":"G1","author":{"id":"U1"},"member":{"nick":"x"},
            "mentions":[{"id":"U2","member":{"nick":"y"}}]}"#,
    );
    let writes = denormalize("MESSAGE_CREATE", &data).unwrap();
    assert_eq!(writes.len(), 4);
    assert_eq!(writes[0].key, "user:U1");
    assert_eq!(writes[0].document, json(r#"{"id":"U1"}"#));
    assert_eq!(writes[1].key, "member:G1:U1");
    assert_eq!(writes[1].document, json(r#"{"nick":"x"}"#));
    assert_eq!(writes[2].key, "member:G1:U2");
    assert_eq!(writes[2].document, json(r#"{"nick":"y"}"#));
    assert_eq!(writes[3].key, "user:U2");
    assert_eq!(writes[3].document, json(r#"{"id":"U2"}"#));
    assert_eq!(writes[3].value(), r#"{"id":"U2"}"#);
}

#[test]
fn message_create_with_author_only_writes_one_user() {
    let data = json(r#"{"guild_id":"G1","author":{"id":"U1","username":"a"},"content":"hi"}"#);
    let writes = denormalize("MESSAGE_CREATE", &data).unwrap();
    assert_eq!(writes.len(), 1);
    assert_eq!(writes[0].key, "user:U1");
    assert_eq!(writes[0].document, json(r#"{"id":"U1","username":"a"}"#));
    assert!(writes.iter().all(|w| !w.key.starts_with("member:")));
}

#[test]
fn message_create_author_with_plain_mentions_writes_users_only() {
    let data = json(r#"{"author":{"id":"U1"},"mentions":[{"id":"U2"},{"id":"U3","bot":true}]}"#);
    let writes = message_create(&data).unwrap();
    let keys: Vec<&str> = writes.iter().map(|w| w.key.as_str()).collect();
    assert_eq!(keys, vec!["user:U1", "user:U2", "user:U3"]);
    assert_eq!(writes[2].document, json(r#"{"id":"U3","bot":true}"#));
}

#[test]
fn mention_member_is_split_from_the_user_record() {
    let data = json(
        r#"{"guild_id":"G7","mentions":[{"id":"U2"},{"id":"U3","name":"n","member":{"nick":"y","roles":["R"]}}]}"#,
    );
    let writes = denormalize("MESSAGE_CREATE", &data).unwrap();
    let keys: Vec<&str> = writes.iter().map(|w| w.key.as_str()).collect();
    assert_eq!(keys, vec!["user:U2", "member:G7:U3", "user:U3"]);
    assert_eq!(writes[1].document, json(r#"{"nick":"y","roles":["R"]}"#));
    assert_eq!(writes[2].document, json(r#"{"id":"U3","name":"n"}"#));
    assert!(writes[2].document.get("member").is_none());
}

#[test]
fn message_create_without_author_or_mentions_writes_nothing() {
    let data = json(r#"{"guild_id":"G1","member":{"nick":"x"}}"#);
    assert_eq!(denormalize("MESSAGE_CREATE", &data), Ok(vec![]));
}

#[test]
fn message_create_malformed_payloads() {
    let no_author_id = json(r#"{"author":{"name":"a"}}"#);
    assert_eq!(denormalize("MESSAGE_CREATE", &no_author_id), Err(DenormalizeError::Malformed));
    let member_without_guild = json(r#"{"author":{"id":"U1"},"member":{"nick":"x"}}"#);
    assert_eq!(
        denormalize("MESSAGE_CREATE", &member_without_guild),
        Err(DenormalizeError::Malformed)
    );
    let mentions_not_a_list = json(r#"{"author":{"id":"U1"},"mentions":null}"#);
    assert_eq!(
        denormalize("MESSAGE_CREATE", &mentions_not_a_list),
        Err(DenormalizeError::Malformed)
    );
    let mention_without_id = json(r#"{"mentions":[{"name":"a"}]}"#);
    assert_eq!(denormalize("MESSAGE_CREATE", &mention_without_id), Err(DenormalizeError::Malformed));
    let mention_member_without_guild = json(r#"{"mentions":[{"id":"U2","member":{}}]}"#);
    assert_eq!(
        denormalize("MESSAGE_CREATE", &mention_member_without_guild),
        Err(DenormalizeError::Malformed)
    );
    let mention_not_an_object = json(r#"{"mentions":["U2"]}"#);
    assert_eq!(
        denormalize("MESSAGE_CREATE", &mention_not_an_object),
        Err(DenormalizeError::Malformed)
    );
}

#[test]
fn unknown_event_writes_nothing() {
    let data = json(r#"{"id":"G1","channels":[{"id":"C1"}]}"#);
    assert_eq!(denormalize("TYPING_START", &data), Ok(vec![]));
    assert_eq!(denormalize("", &Value::Null), Ok(vec![]));
    assert_eq!(denormalize("guild_create", &data), Ok(vec![]));
}

#[test]
fn replaying_an_event_converges() {
    let data = json(
        r#"{"guild_id":"G1","author":{"id":"U1"},"member":{"nick":"x"},
            "mentions":[{"id":"U1","member":{"nick":"y"},"flag":1}]}"#,
    );
    let mut store: HashMap<String, String> = HashMap::new();
    store.insert("user:U1".to_string(), "stale".to_string());
    store.insert("guild:G0".to_string(), "{}".to_string());
    let first = denormalize("MESSAGE_CREATE", &data).unwrap();
    apply(&mut store, &first);
    let once = store.clone();
    let second = denormalize("MESSAGE_CREATE", &data).unwrap();
    assert_eq!(first, second);
    apply(&mut store, &second);
    assert_eq!(store, once);
    assert_eq!(store["user:U1"], r#"{"flag":1,"id":"U1"}"#);
    assert_eq!(store["member:G1:U1"], r#"{"nick":"y"}"#);
    assert_eq!(store["guild:G0"], "{}");
}

#[test]
fn text_helpers() {
    assert!(same_text("GUILD_CREATE", "GUILD_CREATE"));
    assert!(!same_text("GUILD_CREATE", "GUILD_CREATE "));
    let v = json(r#"{"id":"a","n":1}"#);
    assert_eq!(text_member(&v, "id"), Some("a"));
    assert_eq!(text_member(&v, "n"), None);
    assert_eq!(text_member(&v, "missing"), None);
    assert_eq!(text_member(&Value::Null, "id"), None);
}
