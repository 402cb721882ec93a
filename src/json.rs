//! Writing flat JSON objects, as the request bodies of this client are.
//! String literals are quoted by `serde_json`; the object around them is
//! written here.

use vstd::prelude::*;
use crate::text::{json_quote, json_quoted};

verus! {

pub enum JsonValue {
    Str(String),
    Bool(bool),
    Null,
}

pub enum JsonValueView {
    Str(Seq<char>),
    Bool(bool),
    Null,
}

impl View for JsonValue {
    type V = JsonValueView;

    open spec fn view(&self) -> JsonValueView {
        match self {
            JsonValue::Str(s) => JsonValueView::Str(s@),
            JsonValue::Bool(b) => JsonValueView::Bool(*b),
            JsonValue::Null => JsonValueView::Null,
        }
    }
}

/// One key and its value.
pub struct JsonMember {
    pub key: String,
    pub value: JsonValue,
}

pub open spec fn members_view(members: Seq<JsonMember>) -> Seq<(Seq<char>, JsonValueView)> {
    members.map_values(|m: JsonMember| (m.key@, m.value@))
}

pub open spec fn value_text(v: JsonValueView) -> Seq<char> {
    match v {
        JsonValueView::Str(s) => json_quoted(s),
        JsonValueView::Bool(b) => if b { "true"@ } else { "false"@ },
        JsonValueView::Null => "null"@,
    }
}

pub open spec fn member_text(m: (Seq<char>, JsonValueView)) -> Seq<char> {
    json_quoted(m.0) + ":"@ + value_text(m.1)
}

/// The members, in order, separated by commas.
pub open spec fn members_text(ms: Seq<(Seq<char>, JsonValueView)>) -> Seq<char>
    decreases ms.len(),
{
    if ms.len() == 0 {
        Seq::empty()
    } else if ms.len() == 1 {
        member_text(ms[0])
    } else {
        members_text(ms.drop_last()) + ","@ + member_text(ms.last())
    }
}

/// The JSON object with these members, in this order.
pub open spec fn object_text(ms: Seq<(Seq<char>, JsonValueView)>) -> Seq<char> {
    "{"@ + members_text(ms) + "}"@
}

pub fn member(key: &str, value: JsonValue) -> (r: JsonMember)
    ensures
        r.key@ == key@,
        r.value == value,
{
    JsonMember { key: key.to_owned(), value }
}

fn value_to_json(v: &JsonValue) -> (r: String)
    ensures
        r@ == value_text(v@),
{
    match v {
        JsonValue::Str(s) => json_quote(s.as_str()),
        JsonValue::Bool(b) => if *b {
            "true".to_owned()
        } else {
            "false".to_owned()
        },
        JsonValue::Null => "null".to_owned(),
    }
}

/// The JSON text of an object with `members`, in order.
pub fn encode_object(members: &Vec<JsonMember>) -> (r: String)
    ensures
        r@ == object_text(members_view(members@)),
{
    let ghost ms = members_view(members@);
    let mut out = "{".to_owned();
    let mut i: usize = 0;
    while i < members.len()
        invariant
            ms == members_view(members@),
            i <= members@.len(),
            out@ == "{"@ + members_text(ms.take(i as int)),
        decreases members.len() - i,
    {
        let ghost before = out@;
        if i > 0 {
            out.append(",");
        }
        let mut piece = json_quote(members[i].key.as_str());
        piece.append(":");
        let v = value_to_json(&members[i].value);
        piece.append(v.as_str());
        out.append(piece.as_str());
        proof {
            let next = ms.take(i + 1);
            assert(next.drop_last() =~= ms.take(i as int));
            assert(next.last() == ms[i as int]);
            assert(out@ =~= "{"@ + members_text(next));
        }
        i += 1;
    }
    assert(ms.take(members@.len() as int) =~= ms);
    out.append("}");
    out
}

} // verus!
