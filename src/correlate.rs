//! Correlated log records: a random hex identifier per record, and the
//! record's JSON text.

use vstd::prelude::*;
use rand::Rng;

verus! {

/// The lowercase hexadecimal digits, in order.
pub open spec fn hex_digits() -> Seq<char> {
    seq!['0', '1', '2', '3', '4', '5', '6', '7', '8', '9', 'a', 'b', 'c', 'd', 'e', 'f']
}

pub open spec fn is_lower_hex(c: char) -> bool {
    ('0' <= c && c <= '9') || ('a' <= c && c <= 'f')
}

/// A log identifier: exactly eight lowercase hexadecimal digits.
pub open spec fn is_log_id(s: Seq<char>) -> bool {
    s.len() == 8 && forall|i: int| 0 <= i < s.len() ==> is_lower_hex(#[trigger] s[i])
}

proof fn lemma_hex_digits()
    ensures
        hex_digits().len() == 16,
        forall|i: int| 0 <= i < 16 ==> is_lower_hex(#[trigger] hex_digits()[i]),
        "0123456789abcdef"@ == hex_digits(),
{
    reveal_strlit("0123456789abcdef");
    assert("0123456789abcdef"@ =~= hex_digits());
}

/// Relies on rand's `thread_rng().gen_range(0..bound)`: a value in `0..bound`
/// (it panics only on an empty range).
#[verifier::external_body]
fn random_below(bound: usize) -> (r: usize)
    requires
        bound > 0,
    ensures
        r < bound,
{
    rand::thread_rng().gen_range(0..bound)
}

/// The hexadecimal digits with the given values, in order; `None` where a
/// value is not a digit's value (16 or more).
pub fn hex_string(values: &Vec<usize>) -> (r: Option<String>)
    ensures
        r is Some <==> forall|i: int| 0 <= i < values@.len() ==> values@[i] < 16,
        r matches Some(s) ==> s@.len() == values@.len() && forall|i: int|
            0 <= i < values@.len() ==> s@[i] == hex_digits()[values@[i] as int],
{
    proof {
        lemma_hex_digits();
    }
    let digits = "0123456789abcdef";
    let mut r = String::new();
    let mut i: usize = 0;
    while i < values.len()
        invariant
            i <= values@.len(),
            digits@ == hex_digits(),
            hex_digits().len() == 16,
            forall|k: int| 0 <= k < i ==> values@[k] < 16,
            r@.len() == i,
            forall|k: int| 0 <= k < i ==> r@[k] == hex_digits()[values@[k] as int],
        decreases values@.len() - i,
    {
        let v = values[i];
        if v >= 16 {
            return None;
        }
        let d = digits.substring_char(v, v + 1);
        let ghost before = r@;
        r.append(d);
        assert(r@ =~= before + hex_digits().subrange(v as int, v + 1));
        i = i + 1;
    }
    Some(r)
}

/// A fresh log identifier: eight digits, each drawn independently and
/// uniformly from the lowercase hexadecimal alphabet.
pub fn log_id() -> (r: String)
    ensures
        is_log_id(r@),
{
    proof {
        lemma_hex_digits();
    }
    let mut values: Vec<usize> = Vec::new();
    let mut i: usize = 0;
    while i < 8
        invariant
            i <= 8,
            values@.len() == i,
            forall|k: int| 0 <= k < i ==> values@[k] < 16,
        decreases 8 - i,
    {
        values.push(random_below(16));
        i = i + 1;
    }
    let r = match hex_string(&values) {
        Some(r) => r,
        None => {
            proof {
                assert(false);
            }
            String::new()
        },
    };
    assert forall|k: int| 0 <= k < r@.len() implies is_lower_hex(#[trigger] r@[k]) by {
        assert(values@[k] < 16);
    }
    r
}

/// Whether `s` is a log identifier.
pub fn is_valid_log_id(s: &str) -> (r: bool)
    ensures
        r == is_log_id(s@),
{
    if s.unicode_len() != 8 {
        return false;
    }
    let mut i: usize = 0;
    while i < 8
        invariant
            s@.len() == 8,
            i <= 8,
            forall|k: int| 0 <= k < i ==> is_lower_hex(#[trigger] s@[k]),
        decreases 8 - i,
    {
        let c = s.get_char(i);
        if !(('0' <= c && c <= '9') || ('a' <= c && c <= 'f')) {
            return false;
        }
        i = i + 1;
    }
    true
}

/// The JSON text of a string value: quoted, with JSON escapes.
pub uninterp spec fn json_string(s: Seq<char>) -> Seq<char>;

/// Relies on serde_json's `Display` for `Value::String`: the compact JSON
/// string literal of `s`.
#[verifier::external_body]
fn json_quote(s: &str) -> (r: String)
    ensures
        r@ == json_string(s@),
{
    serde_json::Value::String(s.to_owned()).to_string()
}

/// The JSON object text of a record, its keys in sorted order, from values that
/// are already JSON text (`None` for an absent session gives `null`).
pub open spec fn record_text_spec(
    context: Seq<char>,
    log_id: Seq<char>,
    msg: Seq<char>,
    session: Option<Seq<char>>,
    source: Seq<char>,
) -> Seq<char> {
    "{\"context\":"@ + context + ",\"logID\":"@ + log_id + ",\"msg\":"@ + msg + ",\"session\":"@
        + match session {
        Some(s) => s,
        None => "null"@,
    } + ",\"source\":"@ + source + "}"@
}

/// Assembles the JSON object of a record from the JSON text of its values.
pub fn record_text(context: &str, log_id: &str, msg: &str, session: Option<&str>, source: &str) -> (r: String)
    ensures
        r@ == record_text_spec(
            context@,
            log_id@,
            msg@,
            match session {
                Some(s) => Some(s@),
                None => None,
            },
            source@,
        ),
{
    let mut r = "{\"context\":".to_owned();
    r.append(context);
    r.append(",\"logID\":");
    r.append(log_id);
    r.append(",\"msg\":");
    r.append(msg);
    r.append(",\"session\":");
    match session {
        Some(s) => r.append(s),
        None => r.append("null"),
    }
    r.append(",\"source\":");
    r.append(source);
    r.append("}");
    r
}

/// One structured log record. Its identifier is always a log identifier.
pub struct LogRecord {
    log_id: String,
    session: Option<String>,
    context: String,
    source: String,
    msg: String,
}

impl LogRecord {
    #[verifier::type_invariant]
    spec fn inv(&self) -> bool {
        is_log_id(self.log_id@)
    }

    pub closed spec fn log_id_view(&self) -> Seq<char> {
        self.log_id@
    }

    pub closed spec fn session_view(&self) -> Option<Seq<char>> {
        match self.session {
            Some(s) => Some(s@),
            None => None,
        }
    }

    pub closed spec fn context_view(&self) -> Seq<char> {
        self.context@
    }

    pub closed spec fn source_view(&self) -> Seq<char> {
        self.source@
    }

    pub closed spec fn msg_view(&self) -> Seq<char> {
        self.msg@
    }

    /// The text of the record as emitted.
    pub open spec fn json_spec(&self) -> Seq<char> {
        record_text_spec(
            json_string(self.context_view()),
            json_string(self.log_id_view()),
            json_string(self.msg_view()),
            match self.session_view() {
                Some(s) => Some(json_string(s)),
                None => None,
            },
            json_string(self.source_view()),
        )
    }

    /// A record of the edge context with a fresh identifier.
    pub fn new(session: Option<String>, source: String, msg: String) -> (r: LogRecord)
        ensures
            is_log_id(r.log_id_view()),
            r.session_view() == (match session {
                Some(s) => Some(s@),
                None => None::<Seq<char>>,
            }),
            r.context_view() == "edge"@,
            r.source_view() == source@,
            r.msg_view() == msg@,
    {
        LogRecord { log_id: log_id(), session, context: "edge".to_owned(), source, msg }
    }

    /// A record of the edge context with the given identifier, or `None` where
    /// it is not a log identifier.
    pub fn with_id(log_id: String, session: Option<String>, source: String, msg: String) -> (r: Option<LogRecord>)
        ensures
            r is Some <==> is_log_id(log_id@),
            r matches Some(rec) ==> rec.log_id_view() == log_id@ && rec.session_view() == (match session {
                Some(s) => Some(s@),
                None => None::<Seq<char>>,
            }) && rec.context_view() == "edge"@ && rec.source_view() == source@ && rec.msg_view()
                == msg@,
    {
        if is_valid_log_id(log_id.as_str()) {
            Some(LogRecord { log_id, session, context: "edge".to_owned(), source, msg })
        } else {
            None
        }
    }

    pub fn log_id(&self) -> (r: &String)
        ensures
            r@ == self.log_id_view(),
            is_log_id(r@),
    {
        proof {
            use_type_invariant(self);
        }
        &self.log_id
    }

    pub fn session(&self) -> (r: Option<&String>)
        ensures
            match r {
                Some(s) => self.session_view() == Some(s@),
                None => self.session_view() is None,
            },
    {
        match &self.session {
            Some(s) => Some(s),
            None => None,
        }
    }

    pub fn context(&self) -> (r: &String)
        ensures
            r@ == self.context_view(),
    {
        &self.context
    }

    pub fn source(&self) -> (r: &String)
        ensures
            r@ == self.source_view(),
    {
        &self.source
    }

    pub fn msg(&self) -> (r: &String)
        ensures
            r@ == self.msg_view(),
    {
        &self.msg
    }

    /// The record as one line of compact JSON.
    pub fn to_json(&self) -> (r: String)
        ensures
            r@ == self.json_spec(),
    {
        let context = json_quote(self.context.as_str());
        let id = json_quote(self.log_id.as_str());
        let msg = json_quote(self.msg.as_str());
        let session = match &self.session {
            Some(s) => Some(json_quote(s.as_str())),
            None => None,
        };
        let source = json_quote(self.source.as_str());
        let session_text = match &session {
            Some(s) => Some(s.as_str()),
            None => None,
        };
        record_text(context.as_str(), id.as_str(), msg.as_str(), session_text, source.as_str())
    }
}

} // verus!
