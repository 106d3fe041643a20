//! Structured payload values and the fixed player record.

use vstd::prelude::*;

verus! {

/// A structured payload: a tree of null, booleans, integers, text,
/// arrays and string-keyed objects.
#[derive(Debug, PartialEq)]
pub enum Value {
    Null,
    Bool(bool),
    Int(i64),
    Text(String),
    Arr(Vec<Value>),
    Obj(Vec<(String, Value)>),
}

/// The record shape carried by a `player-data` reply.
#[derive(Debug, PartialEq)]
pub struct PlayerRecord {
    pub name: String,
    pub level: i64,
    pub score: i64,
}

/// `v` is the object `{name: rec.name, level: rec.level, score: rec.score}`,
/// with the keys in that order.
pub open spec fn is_player_value(v: Value, rec: PlayerRecord) -> bool {
    &&& (v matches Value::Obj(fields) && {
        &&& fields@.len() == 3
        &&& fields@[0].0@ == "name"@
        &&& fields@[0].1 == Value::Text(rec.name)
        &&& fields@[1].0@ == "level"@
        &&& fields@[1].1 == Value::Int(rec.level)
        &&& fields@[2].0@ == "score"@
        &&& fields@[2].1 == Value::Int(rec.score)
    })
}

/// Builds the `player-data` reply payload for `rec`.
pub fn player_value(rec: &PlayerRecord) -> (v: Value)
    ensures
        is_player_value(v, *rec),
{
    let mut fields: Vec<(String, Value)> = Vec::new();
    fields.push(("name".to_owned(), Value::Text(rec.name.clone())));
    fields.push(("level".to_owned(), Value::Int(rec.level)));
    fields.push(("score".to_owned(), Value::Int(rec.score)));
    Value::Obj(fields)
}

/// The fixture record served by the stub player-data handler. A real
/// deployment would replace this with a lookup against a data store.
pub fn default_player_record() -> (rec: PlayerRecord)
    ensures
        rec.name@ == "Player1"@,
        rec.level == 5,
        rec.score == 1000,
{
    PlayerRecord { name: "Player1".to_owned(), level: 5, score: 1000 }
}

} // verus!
