//! A parsed JSON document, as the normaliser reads it.
use vstd::prelude::*;
use crate::text::text_eq;

verus! {

/// A JSON value. Numbers keep their source text; object members keep their order.
#[derive(Debug)]
pub enum Json {
    Null,
    Bool(bool),
    Number(String),
    Str(String),
    Array(Vec<Json>),
    Object(Vec<(String, Json)>),
}

/// A response body: blank, not JSON, or a JSON document.
#[derive(Debug)]
pub enum ResponseBody {
    Blank,
    NotJson,
    Document(Json),
}

/// The value of the first member named `key`.
pub open spec fn member(fields: Seq<(String, Json)>, key: Seq<char>) -> Option<Json>
    decreases fields.len(),
{
    if fields.len() == 0 {
        None
    } else if fields[0].0@ == key {
        Some(fields[0].1)
    } else {
        member(fields.drop_first(), key)
    }
}

proof fn lemma_member_from(fields: Seq<(String, Json)>, i: int, key: Seq<char>)
    requires
        0 <= i <= fields.len(),
        forall|k: int| 0 <= k < i ==> (#[trigger] fields[k]).0@ != key,
    ensures
        member(fields, key) == member(fields.subrange(i, fields.len() as int), key),
    decreases i,
{
    if i > 0 {
        let t = fields.drop_first();
        assert forall|k: int| 0 <= k < i - 1 implies (#[trigger] t[k]).0@ != key by {
            assert(t[k] == fields[k + 1]);
        }
        lemma_member_from(t, i - 1, key);
        assert(t.subrange(i - 1, t.len() as int) =~= fields.subrange(i, fields.len() as int));
    } else {
        assert(fields.subrange(0, fields.len() as int) =~= fields);
    }
}

/// Position of the first member named `key`.
pub fn find_member(fields: &Vec<(String, Json)>, key: &str) -> (r: Option<usize>)
    ensures
        match r {
            Some(i) => i < fields@.len() && member(fields@, key@) == Some(fields@[i as int].1),
            None => member(fields@, key@) is None,
        },
{
    let mut i: usize = 0;
    while i < fields.len()
        invariant
            i <= fields@.len(),
            forall|k: int| 0 <= k < i ==> (#[trigger] fields@[k]).0@ != key@,
        decreases fields@.len() - i,
    {
        if text_eq(fields[i].0.as_str(), key) {
            proof {
                lemma_member_from(fields@, i as int, key@);
            }
            return Some(i);
        }
        i = i + 1;
    }
    proof {
        lemma_member_from(fields@, i as int, key@);
    }
    None
}

} // verus!
