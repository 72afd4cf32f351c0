use vstd::prelude::*;
use crate::json::{Json, member, get_member, parsed_json, parse_json};

verus! {

/// One question and its answer.
pub struct ChatRecord {
    pub question: String,
    pub answer: String,
}

/// A question and answer as character sequences.
pub type ChatPair = (Seq<char>, Seq<char>);

pub open spec fn chats_view(v: Seq<ChatRecord>) -> Seq<ChatPair> {
    v.map_values(|c: ChatRecord| (c.question@, c.answer@))
}

/// The rows that the store lookup gave: `None` for a row whose value could
/// not be read as text.
pub open spec fn rows_view(rows: Seq<Option<String>>) -> Seq<Option<Seq<char>>> {
    rows.map_values(|r: Option<String>| match r {
        Some(s) => Some(s@),
        None => None,
    })
}

/// `message.text` of a request entry, where it is a string.
pub open spec fn question_of(entry: Json) -> Option<Seq<char>> {
    match entry {
        Json::Object(fs) => match member(fs@, "message"@) {
            Some(Json::Object(ms)) => match member(ms@, "text"@) {
                Some(Json::Str(t)) => Some(t@),
                _ => None,
            },
            _ => None,
        },
        _ => None,
    }
}

/// `response[0].value` of a request entry, where it is a string.
pub open spec fn answer_of(entry: Json) -> Option<Seq<char>> {
    match entry {
        Json::Object(fs) => match member(fs@, "response"@) {
            Some(Json::Array(rs)) => if rs@.len() > 0 {
                match rs@[0] {
                    Json::Object(vs) => match member(vs@, "value"@) {
                        Some(Json::Str(t)) => Some(t@),
                        _ => None,
                    },
                    _ => None,
                }
            } else {
                None
            },
            _ => None,
        },
        _ => None,
    }
}

/// The record a request entry yields: only one with both a question and an answer.
pub open spec fn entry_chat(entry: Json) -> Option<ChatPair> {
    match (question_of(entry), answer_of(entry)) {
        (Some(q), Some(a)) => Some((q, a)),
        _ => None,
    }
}

pub open spec fn chat_seq(c: Option<ChatPair>) -> Seq<ChatPair> {
    match c {
        Some(p) => seq![p],
        None => Seq::empty(),
    }
}

/// The records of a `requests` sequence, in its order.
pub open spec fn requests_chats(reqs: Seq<Json>) -> Seq<ChatPair>
    decreases reqs.len(),
{
    if reqs.len() == 0 {
        Seq::empty()
    } else {
        requests_chats(reqs.drop_last()) + chat_seq(entry_chat(reqs.last()))
    }
}

/// The `requests` of the first session of a stored document, where the
/// document is a non-empty array, its first element an object, and that
/// member an array.
pub open spec fn session_requests(blob: Json) -> Option<Seq<Json>> {
    match blob {
        Json::Array(items) => if items@.len() > 0 {
            match items@[0] {
                Json::Object(fs) => match member(fs@, "requests"@) {
                    Some(Json::Array(rs)) => Some(rs@),
                    _ => None,
                },
                _ => None,
            }
        } else {
            None
        },
        _ => None,
    }
}

pub open spec fn blob_chats(blob: Json) -> Seq<ChatPair> {
    match session_requests(blob) {
        Some(rs) => requests_chats(rs),
        None => Seq::empty(),
    }
}

/// The records of one stored value: none where it is not JSON.
pub open spec fn value_chats(text: Seq<char>) -> Seq<ChatPair> {
    match parsed_json(text) {
        Some(j) => blob_chats(j),
        None => Seq::empty(),
    }
}

pub open spec fn row_chats(row: Option<Seq<char>>) -> Seq<ChatPair> {
    match row {
        Some(t) => value_chats(t),
        None => Seq::empty(),
    }
}

/// The records of all rows, earlier rows first.
pub open spec fn rows_chats(rows: Seq<Option<Seq<char>>>) -> Seq<ChatPair>
    decreases rows.len(),
{
    if rows.len() == 0 {
        Seq::empty()
    } else {
        rows_chats(rows.drop_last()) + row_chats(rows.last())
    }
}

/// The records of two runs of rows are those of the first, then those of
/// the second.
pub proof fn lemma_rows_chats_append(a: Seq<Option<Seq<char>>>, b: Seq<Option<Seq<char>>>)
    ensures
        rows_chats(a + b) == rows_chats(a) + rows_chats(b),
    decreases b.len(),
{
    if b.len() == 0 {
        assert(a + b =~= a);
        assert(rows_chats(a) + rows_chats(b) =~= rows_chats(a));
    } else {
        assert((a + b).drop_last() =~= a + b.drop_last());
        assert((a + b).last() == b.last());
        lemma_rows_chats_append(a, b.drop_last());
        assert(rows_chats(a + b) =~= rows_chats(a) + rows_chats(b));
    }
}

/// A row whose value is not JSON yields no records, and the rows before and
/// after it still yield theirs, in order.
pub proof fn lemma_unparsable_row_skipped(
    before: Seq<Option<Seq<char>>>,
    text: Seq<char>,
    after: Seq<Option<Seq<char>>>,
)
    requires
        parsed_json(text) is None,
    ensures
        rows_chats(before + seq![Some(text)] + after) == rows_chats(before) + rows_chats(after),
{
    let one = seq![Some(text)];
    lemma_rows_chats_append(before + one, after);
    lemma_rows_chats_append(before, one);
    assert(one.drop_last() =~= Seq::<Option<Seq<char>>>::empty());
    assert(rows_chats(one.drop_last()) == Seq::<ChatPair>::empty());
    assert(one.last() == Some(text));
    assert(row_chats(one.last()) == Seq::<ChatPair>::empty());
    assert(rows_chats(one) =~= Seq::<ChatPair>::empty());
    assert(rows_chats(before + one) =~= rows_chats(before));
}

/// The records of two runs of request entries are those of the first, then
/// those of the second.
pub proof fn lemma_requests_chats_append(a: Seq<Json>, b: Seq<Json>)
    ensures
        requests_chats(a + b) == requests_chats(a) + requests_chats(b),
    decreases b.len(),
{
    if b.len() == 0 {
        assert(a + b =~= a);
        assert(requests_chats(a) + requests_chats(b) =~= requests_chats(a));
    } else {
        assert((a + b).drop_last() =~= a + b.drop_last());
        assert((a + b).last() == b.last());
        lemma_requests_chats_append(a, b.drop_last());
        assert(requests_chats(a + b) =~= requests_chats(a) + requests_chats(b));
    }
}

/// A request entry that lacks its question or its answer yields no record,
/// and the entries around it still yield theirs, in order.
pub proof fn lemma_incomplete_entry_skipped(before: Seq<Json>, entry: Json, after: Seq<Json>)
    requires
        question_of(entry) is None || answer_of(entry) is None,
    ensures
        requests_chats(before + seq![entry] + after) == requests_chats(before) + requests_chats(
            after,
        ),
{
    let one = seq![entry];
    lemma_requests_chats_append(before + one, after);
    lemma_requests_chats_append(before, one);
    assert(one.drop_last() =~= Seq::<Json>::empty());
    assert(requests_chats(one.drop_last()) == Seq::<ChatPair>::empty());
    assert(one.last() == entry);
    assert(entry_chat(entry) is None);
    assert(requests_chats(one) =~= Seq::<ChatPair>::empty());
    assert(requests_chats(before + one) =~= requests_chats(before));
}

/// A request entry with a string question and a string answer yields exactly
/// that record.
pub proof fn lemma_complete_entry_kept(entry: Json, q: Seq<char>, a: Seq<char>)
    requires
        question_of(entry) == Some(q),
        answer_of(entry) == Some(a),
    ensures
        requests_chats(seq![entry]) == seq![(q, a)],
{
    let one = seq![entry];
    assert(one.drop_last() =~= Seq::<Json>::empty());
    assert(requests_chats(one.drop_last()) == Seq::<ChatPair>::empty());
    assert(one.last() == entry);
    assert(entry_chat(entry) == Some((q, a)));
    assert(requests_chats(one) =~= seq![(q, a)]);
}

fn text_member<'a>(j: &'a Json, key: &str) -> (r: Option<&'a String>)
    ensures
        match r {
            Some(t) => (j matches Json::Object(fs) && member(fs@, key@) == Some(Json::Str(*t))),
            None => !(j matches Json::Object(fs) && member(fs@, key@) matches Some(Json::Str(_))),
        },
{
    match j {
        Json::Object(fs) => match get_member(fs, key) {
            Some(Json::Str(t)) => Some(t),
            _ => None,
        },
        _ => None,
    }
}

/// The record that one request entry yields, if any.
pub fn chat_of_entry(entry: &Json) -> (r: Option<ChatRecord>)
    ensures
        match r {
            Some(c) => entry_chat(*entry) == Some((c.question@, c.answer@)),
            None => entry_chat(*entry) is None,
        },
{
    let question = match entry {
        Json::Object(fs) => match get_member(fs, "message") {
            Some(m) => text_member(m, "text"),
            None => None,
        },
        _ => None,
    };
    let answer = match entry {
        Json::Object(fs) => match get_member(fs, "response") {
            Some(Json::Array(rs)) => if rs.len() > 0 {
                text_member(&rs[0], "value")
            } else {
                None
            },
            _ => None,
        },
        _ => None,
    };
    match (question, answer) {
        (Some(q), Some(a)) => Some(ChatRecord { question: q.clone(), answer: a.clone() }),
        _ => None,
    }
}

proof fn lemma_chats_view_push(v: Seq<ChatRecord>, c: ChatRecord)
    ensures
        chats_view(v.push(c)) == chats_view(v) + seq![(c.question@, c.answer@)],
{
    assert(chats_view(v.push(c)) =~= chats_view(v) + seq![(c.question@, c.answer@)]);
}

/// Appends the records of a stored document to `out`.
pub fn push_blob_chats(blob: &Json, out: &mut Vec<ChatRecord>)
    ensures
        chats_view(final(out)@) == chats_view(old(out)@) + blob_chats(*blob),
{
    let ghost start = chats_view(out@);
    let requests = match blob {
        Json::Array(items) => if items.len() > 0 {
            match &items[0] {
                Json::Object(fs) => match get_member(fs, "requests") {
                    Some(Json::Array(rs)) => Some(rs),
                    _ => None,
                },
                _ => None,
            }
        } else {
            None
        },
        _ => None,
    };
    match requests {
        Some(rs) => {
            assert(session_requests(*blob) == Some(rs@));
            let mut i: usize = 0;
            while i < rs.len()
                invariant
                    i <= rs@.len(),
                    chats_view(out@) == start + requests_chats(rs@.subrange(0, i as int)),
                decreases rs.len() - i,
            {
                let ghost before = out@;
                assert(rs@.subrange(0, i + 1).drop_last() =~= rs@.subrange(0, i as int));
                match chat_of_entry(&rs[i]) {
                    Some(c) => {
                        out.push(c);
                        proof {
                            lemma_chats_view_push(before, c);
                        }
                    },
                    None => {},
                }
                assert(chats_view(out@) =~= start + requests_chats(rs@.subrange(0, i + 1)));
                i = i + 1;
            }
            assert(rs@.subrange(0, rs@.len() as int) =~= rs@);
        },
        None => {
            assert(session_requests(*blob) is None);
            assert(chats_view(out@) =~= start + blob_chats(*blob));
        },
    }
}

/// The records of a parsed stored document.
pub fn chats_from_blob(blob: &Json) -> (r: Vec<ChatRecord>)
    ensures
        chats_view(r@) == blob_chats(*blob),
{
    let mut out: Vec<ChatRecord> = Vec::new();
    assert(chats_view(out@) =~= Seq::<ChatPair>::empty());
    push_blob_chats(blob, &mut out);
    assert(chats_view(out@) =~= blob_chats(*blob));
    out
}

/// Appends the records of one stored value to `out`; a value that is not
/// JSON adds nothing.
pub fn push_value_chats(text: &str, out: &mut Vec<ChatRecord>)
    ensures
        chats_view(final(out)@) == chats_view(old(out)@) + value_chats(text@),
{
    match parse_json(text) {
        Some(blob) => push_blob_chats(&blob, out),
        None => {
            assert(chats_view(out@) =~= chats_view(out@) + value_chats(text@));
        },
    }
}

/// The records of one stored value.
pub fn chats_from_value(text: &str) -> (r: Vec<ChatRecord>)
    ensures
        chats_view(r@) == value_chats(text@),
{
    let mut out: Vec<ChatRecord> = Vec::new();
    assert(chats_view(out@) =~= Seq::<ChatPair>::empty());
    push_value_chats(text, &mut out);
    assert(chats_view(out@) =~= value_chats(text@));
    out
}

/// The records of all rows, in row order; unreadable rows add nothing.
pub fn chats_from_rows(rows: &Vec<Option<String>>) -> (r: Vec<ChatRecord>)
    ensures
        chats_view(r@) == rows_chats(rows_view(rows@)),
{
    let mut out: Vec<ChatRecord> = Vec::new();
    let mut i: usize = 0;
    assert(chats_view(out@) =~= rows_chats(rows_view(rows@.subrange(0, 0))));
    while i < rows.len()
        invariant
            i <= rows@.len(),
            chats_view(out@) == rows_chats(rows_view(rows@.subrange(0, i as int))),
        decreases rows.len() - i,
    {
        let ghost prefix = rows_view(rows@.subrange(0, i + 1));
        assert(prefix.drop_last() =~= rows_view(rows@.subrange(0, i as int)));
        match &rows[i] {
            Some(text) => push_value_chats(text.as_str(), &mut out),
            None => {
                assert(chats_view(out@) =~= chats_view(out@) + row_chats(prefix.last()));
            },
        }
        i = i + 1;
    }
    assert(rows@.subrange(0, rows@.len() as int) =~= rows@);
    out
}

} // verus!
