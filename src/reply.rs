use vstd::prelude::*;

verus! {

/// A reply of the store, as its protocol carries it.
#[derive(Debug)]
pub enum ReplyValue {
    Nil,
    Int(i64),
    Data(Vec<u8>),
    Bulk(Vec<ReplyValue>),
    Status(String),
    Okay,
}

/// A JSON-like value handed to the terminal.
#[derive(Debug)]
pub enum JsonValue {
    Text(String),
    Number(i64),
    Array(Vec<JsonValue>),
}

/// What `String::from_utf8_lossy` makes of bytes.
pub uninterp spec fn lossy_utf8(b: Seq<u8>) -> Seq<char>;

/// Relies on `String::from_utf8_lossy`: the text of the bytes, each invalid
/// sequence replaced.
#[verifier::external_body]
fn text_of_bytes(b: &Vec<u8>) -> (r: String)
    ensures
        r@ == lossy_utf8(b@),
{
    String::from_utf8_lossy(b).into_owned()
}

/// Whether `j` is the JSON form of reply `r`: nothing becomes the empty text,
/// an integer a number, bytes their text, a status its text, OK the text `Ok`,
/// and a list the list of the forms of its items.
pub open spec fn json_of_reply(r: ReplyValue, j: JsonValue) -> bool
    decreases r,
{
    match r {
        ReplyValue::Nil => j matches JsonValue::Text(s) && s@ == Seq::<char>::empty(),
        ReplyValue::Int(n) => j matches JsonValue::Number(m) && m == n,
        ReplyValue::Data(b) => j matches JsonValue::Text(s) && s@ == lossy_utf8(b@),
        ReplyValue::Bulk(items) => match j {
            JsonValue::Array(out) => out@.len() == items@.len() && forall|i: int|
                0 <= i < items@.len() ==> json_of_reply(#[trigger] items@[i], out@[i]),
            _ => false,
        },
        ReplyValue::Status(s) => j matches JsonValue::Text(t) && t@ == s@,
        ReplyValue::Okay => j matches JsonValue::Text(t) && t@ == "Ok"@,
    }
}

/// The JSON form of a reply.
pub fn parse_result(res: &ReplyValue) -> (r: JsonValue)
    ensures
        json_of_reply(*res, r),
    decreases res,
{
    match res {
        ReplyValue::Nil => JsonValue::Text(String::new()),
        ReplyValue::Int(n) => JsonValue::Number(*n),
        ReplyValue::Data(b) => JsonValue::Text(text_of_bytes(b)),
        ReplyValue::Bulk(items) => {
            let mut out: Vec<JsonValue> = Vec::new();
            let mut i: usize = 0;
            while i < items.len()
                invariant
                    i <= items@.len(),
                    *res == ReplyValue::Bulk(*items),
                    out@.len() == i,
                    forall|j: int| 0 <= j < i ==> json_of_reply(#[trigger] items@[j], out@[j]),
                decreases items.len() - i,
            {
                proof {
                    assert(decreases_to!(*items => items[i as int]));
                    assert(decreases_to!(*res => (*res)->Bulk_0));
                    assert(decreases_to!(*res => items[i as int]));
                }
                let item = parse_result(&items[i]);
                out.push(item);
                i = i + 1;
            }
            JsonValue::Array(out)
        },
        ReplyValue::Status(s) => JsonValue::Text(s.clone()),
        ReplyValue::Okay => JsonValue::Text(String::from_str("Ok")),
    }
}

} // verus!
