//! Key-path edits on a JSON configuration document.
//!
//! The document is the crate's own JSON tree: numbers keep their original
//! lexeme, objects are ordered key/value entries. Reads and edits walk a path
//! of keys through nested objects. `modify_property` replaces a value only
//! where the whole path already exists; `update_key` also creates missing
//! intermediate objects, and is defined only on documents where the path
//! runs through objects (or null, which an edit turns into an object) —
//! `can_update_key` decides that, and `try_update_key` combines the test and
//! the edit.

use vstd::prelude::*;
use crate::strutil::str_eq;

verus! {

/// One JSON value. A number holds its own lexeme, kept verbatim.
pub enum JsonValue {
    Null,
    Bool(bool),
    Num(String),
    Str(String),
    Arr(Vec<JsonValue>),
    Obj(JsonObject),
}

/// The entries of a JSON object, oldest first.
pub enum JsonObject {
    Empty,
    Entry(String, Box<JsonValue>, Box<JsonObject>),
}

/// The value at the key path `keys[i..]` under `v`, walking nested objects.
pub open spec fn get_spec(v: JsonValue, keys: Seq<String>, i: int) -> Option<JsonValue>
    decreases keys.len() - i, v,
{
    if i >= keys.len() {
        Some(v)
    } else {
        match v {
            JsonValue::Obj(o) => get_obj_spec(o, keys, i),
            _ => None,
        }
    }
}

pub open spec fn get_obj_spec(o: JsonObject, keys: Seq<String>, i: int) -> Option<JsonValue>
    decreases keys.len() - i, o,
        when 0 <= i < keys.len()
{
    match o {
        JsonObject::Empty => None,
        JsonObject::Entry(k, v0, rest) => if k@ == keys[i]@ {
            get_spec(*v0, keys, i + 1)
        } else {
            get_obj_spec(*rest, keys, i)
        },
    }
}

/// `v` with the value at the existing key path `keys[i..]` replaced by `nv`;
/// where the path breaks off — a missing key, or a non-object before the
/// last key — the document is returned unchanged.
pub open spec fn modify_spec(v: JsonValue, keys: Seq<String>, i: int, nv: JsonValue) -> JsonValue
    decreases keys.len() - i, v,
{
    if i >= keys.len() {
        v
    } else {
        match v {
            JsonValue::Obj(o) => JsonValue::Obj(modify_obj_spec(o, keys, i, nv)),
            _ => v,
        }
    }
}

pub open spec fn modify_obj_spec(o: JsonObject, keys: Seq<String>, i: int, nv: JsonValue) -> JsonObject
    decreases keys.len() - i, o,
        when 0 <= i < keys.len()
{
    match o {
        JsonObject::Empty => JsonObject::Empty,
        JsonObject::Entry(k, v0, rest) => if k@ == keys[i]@ {
            if i == keys.len() - 1 {
                JsonObject::Entry(k, Box::new(nv), rest)
            } else {
                JsonObject::Entry(k, Box::new(modify_spec(*v0, keys, i + 1, nv)), rest)
            }
        } else {
            JsonObject::Entry(k, v0, Box::new(modify_obj_spec(*rest, keys, i, nv)))
        },
    }
}

/// The nested single-entry objects created for the missing tail of a path:
/// one fresh object per remaining key, with `nv` at the innermost.
pub open spec fn fresh_chain(keys: Seq<String>, i: int, nv: JsonValue) -> JsonValue
    decreases keys.len() - i,
        when 0 <= i < keys.len()
{
    if i >= keys.len() - 1 {
        JsonValue::Obj(JsonObject::Entry(keys[i], Box::new(nv), Box::new(JsonObject::Empty)))
    } else {
        JsonValue::Obj(
            JsonObject::Entry(
                keys[i],
                Box::new(fresh_chain(keys, i + 1, nv)),
                Box::new(JsonObject::Empty),
            ),
        )
    }
}

/// Whether the key path `keys[i..]` can be created under `v`: every value
/// the path runs through must be an object, null (which the edit turns into
/// an object), or missing.
pub open spec fn update_ok(v: JsonValue, keys: Seq<String>, i: int) -> bool
    decreases keys.len() - i, v,
{
    if i >= keys.len() {
        true
    } else {
        match v {
            JsonValue::Obj(o) => update_ok_obj(o, keys, i),
            JsonValue::Null => true,
            _ => false,
        }
    }
}

pub open spec fn update_ok_obj(o: JsonObject, keys: Seq<String>, i: int) -> bool
    decreases keys.len() - i, o,
        when 0 <= i < keys.len()
{
    match o {
        JsonObject::Empty => true,
        JsonObject::Entry(k, v0, rest) => if k@ == keys[i]@ {
            i == keys.len() - 1 || update_ok(*v0, keys, i + 1)
        } else {
            update_ok_obj(*rest, keys, i)
        },
    }
}

/// `v` with `nv` written at the key path `keys[i..]`, creating missing
/// intermediate objects; defined meaningfully on paths where `update_ok`
/// holds.
pub open spec fn update_spec(v: JsonValue, keys: Seq<String>, i: int, nv: JsonValue) -> JsonValue
    decreases keys.len() - i, v,
{
    if i >= keys.len() {
        v
    } else {
        match v {
            JsonValue::Obj(o) => JsonValue::Obj(update_obj_spec(o, keys, i, nv)),
            JsonValue::Null => fresh_chain(keys, i, nv),
            _ => v,
        }
    }
}

pub open spec fn update_obj_spec(o: JsonObject, keys: Seq<String>, i: int, nv: JsonValue) -> JsonObject
    decreases keys.len() - i, o,
        when 0 <= i < keys.len()
{
    match o {
        JsonObject::Empty => JsonObject::Entry(
            keys[i],
            Box::new(
                if i == keys.len() - 1 {
                    nv
                } else {
                    fresh_chain(keys, i + 1, nv)
                },
            ),
            Box::new(JsonObject::Empty),
        ),
        JsonObject::Entry(k, v0, rest) => if k@ == keys[i]@ {
            if i == keys.len() - 1 {
                JsonObject::Entry(k, Box::new(nv), rest)
            } else {
                JsonObject::Entry(k, Box::new(update_spec(*v0, keys, i + 1, nv)), rest)
            }
        } else {
            JsonObject::Entry(k, v0, Box::new(update_obj_spec(*rest, keys, i, nv)))
        },
    }
}

fn get_value<'a>(v: &'a JsonValue, keys: &Vec<String>, i: usize) -> (r: Option<&'a JsonValue>)
    requires
        i <= keys@.len(),
    ensures
        match r {
            Some(p) => get_spec(*v, keys@, i as int) == Some(*p),
            None => get_spec(*v, keys@, i as int) is None,
        },
    decreases keys@.len() - i, v,
{
    if i == keys.len() {
        return Some(v);
    }
    match v {
        JsonValue::Obj(o) => get_object(o, keys, i),
        _ => None,
    }
}

fn get_object<'a>(o: &'a JsonObject, keys: &Vec<String>, i: usize) -> (r: Option<&'a JsonValue>)
    requires
        i < keys@.len(),
    ensures
        match r {
            Some(p) => get_obj_spec(*o, keys@, i as int) == Some(*p),
            None => get_obj_spec(*o, keys@, i as int) is None,
        },
    decreases keys@.len() - i, o,
{
    let n = keys.len();
    match o {
        JsonObject::Empty => None,
        JsonObject::Entry(k, v0, rest) => {
            if str_eq(k.as_str(), keys[i].as_str()) {
                get_value(&**v0, keys, i + 1)
            } else {
                get_object(&**rest, keys, i)
            }
        },
    }
}

fn modify_value(v: JsonValue, keys: &Vec<String>, i: usize, nv: JsonValue) -> (r: JsonValue)
    requires
        i <= keys@.len(),
    ensures
        r == modify_spec(v, keys@, i as int, nv),
    decreases keys@.len() - i, v,
{
    if i == keys.len() {
        return v;
    }
    match v {
        JsonValue::Obj(o) => JsonValue::Obj(modify_object(o, keys, i, nv)),
        other => other,
    }
}

fn modify_object(o: JsonObject, keys: &Vec<String>, i: usize, nv: JsonValue) -> (r: JsonObject)
    requires
        i < keys@.len(),
    ensures
        r == modify_obj_spec(o, keys@, i as int, nv),
    decreases keys@.len() - i, o,
{
    match o {
        JsonObject::Empty => JsonObject::Empty,
        JsonObject::Entry(k, v0, rest) => {
            if str_eq(k.as_str(), keys[i].as_str()) {
                if i == keys.len() - 1 {
                    JsonObject::Entry(k, Box::new(nv), rest)
                } else {
                    JsonObject::Entry(k, Box::new(modify_value(*v0, keys, i + 1, nv)), rest)
                }
            } else {
                JsonObject::Entry(k, v0, Box::new(modify_object(*rest, keys, i, nv)))
            }
        },
    }
}

fn check_value(v: &JsonValue, keys: &Vec<String>, i: usize) -> (r: bool)
    requires
        i <= keys@.len(),
    ensures
        r == update_ok(*v, keys@, i as int),
    decreases keys@.len() - i, v,
{
    if i == keys.len() {
        return true;
    }
    match v {
        JsonValue::Obj(o) => check_object(o, keys, i),
        JsonValue::Null => true,
        _ => false,
    }
}

fn check_object(o: &JsonObject, keys: &Vec<String>, i: usize) -> (r: bool)
    requires
        i < keys@.len(),
    ensures
        r == update_ok_obj(*o, keys@, i as int),
    decreases keys@.len() - i, o,
{
    match o {
        JsonObject::Empty => true,
        JsonObject::Entry(k, v0, rest) => {
            if str_eq(k.as_str(), keys[i].as_str()) {
                if i == keys.len() - 1 {
                    true
                } else {
                    check_value(&**v0, keys, i + 1)
                }
            } else {
                check_object(&**rest, keys, i)
            }
        },
    }
}

fn build_fresh(keys: &Vec<String>, i: usize, nv: JsonValue) -> (r: JsonValue)
    requires
        i < keys@.len(),
    ensures
        r == fresh_chain(keys@, i as int, nv),
    decreases keys@.len() - i,
{
    let key = keys[i].clone();
    if i == keys.len() - 1 {
        JsonValue::Obj(JsonObject::Entry(key, Box::new(nv), Box::new(JsonObject::Empty)))
    } else {
        JsonValue::Obj(
            JsonObject::Entry(
                key,
                Box::new(build_fresh(keys, i + 1, nv)),
                Box::new(JsonObject::Empty),
            ),
        )
    }
}

fn update_value(v: JsonValue, keys: &Vec<String>, i: usize, nv: JsonValue) -> (r: JsonValue)
    requires
        i <= keys@.len(),
    ensures
        r == update_spec(v, keys@, i as int, nv),
    decreases keys@.len() - i, v,
{
    if i == keys.len() {
        return v;
    }
    match v {
        JsonValue::Obj(o) => JsonValue::Obj(update_object(o, keys, i, nv)),
        JsonValue::Null => build_fresh(keys, i, nv),
        other => other,
    }
}

fn update_object(o: JsonObject, keys: &Vec<String>, i: usize, nv: JsonValue) -> (r: JsonObject)
    requires
        i < keys@.len(),
    ensures
        r == update_obj_spec(o, keys@, i as int, nv),
    decreases keys@.len() - i, o,
{
    match o {
        JsonObject::Empty => {
            let key = keys[i].clone();
            if i == keys.len() - 1 {
                JsonObject::Entry(key, Box::new(nv), Box::new(JsonObject::Empty))
            } else {
                JsonObject::Entry(
                    key,
                    Box::new(build_fresh(keys, i + 1, nv)),
                    Box::new(JsonObject::Empty),
                )
            }
        },
        JsonObject::Entry(k, v0, rest) => {
            if str_eq(k.as_str(), keys[i].as_str()) {
                if i == keys.len() - 1 {
                    JsonObject::Entry(k, Box::new(nv), rest)
                } else {
                    JsonObject::Entry(k, Box::new(update_value(*v0, keys, i + 1, nv)), rest)
                }
            } else {
                JsonObject::Entry(k, v0, Box::new(update_object(*rest, keys, i, nv)))
            }
        },
    }
}

/// The JSON configuration document under edit. Reading it from a file and
/// writing it back are the caller's side.
pub struct ConfigUtil {
    pub json: JsonValue,
}

impl ConfigUtil {
    /// Wraps a parsed document for key-path edits.
    pub fn from_root(json: JsonValue) -> (c: ConfigUtil)
        ensures
            c.json == json,
    {
        ConfigUtil { json }
    }

    /// The value at the key path, or `None` where the path breaks off.
    pub fn get_property(&self, target_keys: &Vec<String>) -> (r: Option<&JsonValue>)
        ensures
            match r {
                Some(p) => get_spec(self.json, target_keys@, 0) == Some(*p),
                None => get_spec(self.json, target_keys@, 0) is None,
            },
    {
        get_value(&self.json, target_keys, 0)
    }

    /// Replaces the value at an existing key path; a path that breaks off
    /// leaves the document unchanged.
    pub fn modify_property(&mut self, target_keys: &Vec<String>, new_value: JsonValue)
        ensures
            final(self).json == modify_spec(old(self).json, target_keys@, 0, new_value),
    {
        let mut taken = JsonValue::Null;
        core::mem::swap(&mut self.json, &mut taken);
        self.json = modify_value(taken, target_keys, 0, new_value);
    }

    /// Whether `update_key` is defined for this path on this document.
    pub fn can_update_key(&self, target_keys: &Vec<String>) -> (r: bool)
        ensures
            r == (target_keys@.len() >= 1 && update_ok(self.json, target_keys@, 0)),
    {
        target_keys.len() >= 1 && check_value(&self.json, target_keys, 0)
    }

    /// Writes the value at the key path, creating missing intermediate
    /// objects. The path must run through objects or null only.
    pub fn update_key(&mut self, target_keys: &Vec<String>, new_value: JsonValue)
        requires
            target_keys@.len() >= 1,
            update_ok(old(self).json, target_keys@, 0),
        ensures
            final(self).json == update_spec(old(self).json, target_keys@, 0, new_value),
    {
        let mut taken = JsonValue::Null;
        core::mem::swap(&mut self.json, &mut taken);
        self.json = update_value(taken, target_keys, 0, new_value);
    }

    /// Tests the path and, where `update_key` is defined, performs it;
    /// otherwise leaves the document unchanged and reports `false`.
    pub fn try_update_key(&mut self, target_keys: &Vec<String>, new_value: JsonValue) -> (ok: bool)
        ensures
            ok == (target_keys@.len() >= 1 && update_ok(old(self).json, target_keys@, 0)),
            ok ==> final(self).json == update_spec(old(self).json, target_keys@, 0, new_value),
            !ok ==> final(self).json == old(self).json,
    {
        if self.can_update_key(target_keys) {
            self.update_key(target_keys, new_value);
            true
        } else {
            false
        }
    }
}

} // verus!
