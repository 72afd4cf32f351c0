use vstd::prelude::*;
use vstd::string::*;
use crate::extract::{ChatRecord, ChatPair, chats_view};
use crate::json::{json_quoted, quote_json, describe_json_error};
use crate::reader::StoreError;

verus! {

/// `{"question":Q,"answer":A}` for already quoted `q` and `a`.
pub open spec fn chat_object(q: Seq<char>, a: Seq<char>) -> Seq<char> {
    "{\"question\":"@ + q + ",\"answer\":"@ + a + "}"@
}

/// The objects of `items`, separated by commas.
pub open spec fn objects_joined(items: Seq<ChatPair>) -> Seq<char>
    decreases items.len(),
{
    if items.len() == 0 {
        Seq::empty()
    } else if items.len() == 1 {
        chat_object(items[0].0, items[0].1)
    } else {
        objects_joined(items.drop_last()) + ","@ + chat_object(items.last().0, items.last().1)
    }
}

/// A JSON array of question/answer objects over already quoted fields.
pub open spec fn array_text(items: Seq<ChatPair>) -> Seq<char> {
    "["@ + objects_joined(items) + "]"@
}

/// Each question and answer as a JSON string literal.
pub open spec fn quoted_chats(chats: Seq<ChatPair>) -> Seq<ChatPair> {
    chats.map_values(|p: ChatPair| (json_quoted(p.0), json_quoted(p.1)))
}

/// The serialized form of a sequence of records.
pub open spec fn chats_text(chats: Seq<ChatPair>) -> Seq<char> {
    array_text(quoted_chats(chats))
}

pub open spec fn pairs_view(v: Seq<(String, String)>) -> Seq<ChatPair> {
    v.map_values(|p: (String, String)| (p.0@, p.1@))
}

/// Writes the JSON array for fields that are already JSON string literals.
pub fn frame_chats(quoted: &Vec<(String, String)>) -> (r: String)
    ensures
        r@ == array_text(pairs_view(quoted@)),
{
    let mut s = String::from_str("[");
    let mut i: usize = 0;
    while i < quoted.len()
        invariant
            i <= quoted@.len(),
            s@ == "["@ + objects_joined(pairs_view(quoted@.subrange(0, i as int))),
        decreases quoted.len() - i,
    {
        let ghost items = pairs_view(quoted@.subrange(0, i + 1));
        assert(items.drop_last() =~= pairs_view(quoted@.subrange(0, i as int)));
        if i > 0 {
            s.append(",");
        }
        s.append("{\"question\":");
        s.append(quoted[i].0.as_str());
        s.append(",\"answer\":");
        s.append(quoted[i].1.as_str());
        s.append("}");
        assert(s@ =~= "["@ + objects_joined(items));
        i = i + 1;
    }
    assert(quoted@.subrange(0, quoted@.len() as int) =~= quoted@);
    s.append("]");
    s
}

/// Serializes records as a JSON array of `{"question", "answer"}` objects,
/// in their order.
pub fn chats_json(chats: &Vec<ChatRecord>) -> (r: Result<String, StoreError>)
    ensures
        r matches Ok(s) && s@ == chats_text(chats_view(chats@)),
        chats@.len() == 0 ==> (r matches Ok(s) && s@ == "[]"@),
{
    let mut quoted: Vec<(String, String)> = Vec::new();
    let mut i: usize = 0;
    while i < chats.len()
        invariant
            i <= chats@.len(),
            pairs_view(quoted@) == quoted_chats(chats_view(chats@.subrange(0, i as int))),
        decreases chats.len() - i,
    {
        let q = match quote_json(chats[i].question.as_str()) {
            Ok(t) => t,
            Err(e) => return Err(StoreError::Serialize(describe_json_error(&e))),
        };
        let a = match quote_json(chats[i].answer.as_str()) {
            Ok(t) => t,
            Err(e) => return Err(StoreError::Serialize(describe_json_error(&e))),
        };
        let ghost before = quoted@;
        let ghost pair = (q@, a@);
        let ghost prev = chats_view(chats@.subrange(0, i as int));
        let ghost next = chats_view(chats@.subrange(0, i + 1));
        assert(next =~= prev.push((chats@[i as int].question@, chats@[i as int].answer@)));
        assert(quoted_chats(next) =~= quoted_chats(prev).push(pair));
        quoted.push((q, a));
        assert(pairs_view(quoted@) =~= pairs_view(before).push(pair));
        i = i + 1;
    }
    assert(chats@.subrange(0, chats@.len() as int) =~= chats@);
    let s = frame_chats(&quoted);
    proof {
        reveal_strlit("[");
        reveal_strlit("]");
        reveal_strlit("[]");
        if chats@.len() == 0 {
            assert(pairs_view(quoted@) =~= Seq::<ChatPair>::empty());
            assert(s@ =~= "[]"@);
        }
    }
    Ok(s)
}

} // verus!
