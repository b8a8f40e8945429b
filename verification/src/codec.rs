//! Transport codec: request payload encoding and deframing of streamed
//! response chunks into complete JSON records.
//!
//! The server answers a streaming request with one or more JSON objects whose
//! boundaries need not line up with transport chunks.  The [`Deframer`]
//! accumulates chunk text and emits the buffer as one complete record as soon
//! as its last non-whitespace character is a closing brace.  That heuristic is
//! exact for the flat records this protocol carries, where a brace can close
//! only the record itself; [`lemma_deframe_split`] states this precisely.
use vstd::prelude::*;
use vstd::string::*;

use crate::strutil::dec_seq;
use crate::strutil::str_eq;
use crate::strutil::u64_to_string;

verus! {

/// Keys whose values are emitted as raw JSON rather than quoted strings:
/// `context` carries an array-shaped token and `stream` a boolean.
pub open spec fn raw_key(k: Seq<char>) -> bool {
    k == "context"@ || k == "stream"@
}

/// One `"key":value` segment of the request body, with the value quoted
/// unless the key calls for raw JSON.
pub open spec fn segment_of(k: Seq<char>, v: Seq<char>) -> Seq<char> {
    if raw_key(k) {
        seq!['"'] + k + seq!['"', ':'] + v
    } else {
        seq!['"'] + k + seq!['"', ':', '"'] + v + seq!['"']
    }
}

/// The comma-separated segments for a sequence of key/value pairs.
pub open spec fn segments_of(pairs: Seq<(Seq<char>, Seq<char>)>) -> Seq<char>
    decreases pairs.len(),
{
    if pairs.len() == 0 {
        Seq::empty()
    } else if pairs.len() == 1 {
        segment_of(pairs[0].0, pairs[0].1)
    } else {
        segments_of(pairs.drop_last()) + seq![','] + segment_of(pairs.last().0, pairs.last().1)
    }
}

/// The whole single-level JSON object for a sequence of key/value pairs.
pub open spec fn postdata_of(pairs: Seq<(Seq<char>, Seq<char>)>) -> Seq<char> {
    seq!['{'] + segments_of(pairs) + seq!['}']
}

/// The views of a sequence of owned key/value pairs.
pub open spec fn pairs_view(pairs: Seq<(String, String)>) -> Seq<(Seq<char>, Seq<char>)> {
    pairs.map_values(|p: (String, String)| (p.0@, p.1@))
}

/// Encodes key/value pairs as a single-level JSON object with no trailing
/// comma.  Values under the keys `context` and `stream` are emitted raw;
/// every other value is quoted.  An empty mapping is not a supported request.
pub fn get_postdata(pairs: &Vec<(String, String)>) -> (r: String)
    requires
        pairs@.len() > 0,
    ensures
        r@ == postdata_of(pairs_view(pairs@)),
{
    proof {
        reveal_strlit("{");
        reveal_strlit("}");
        reveal_strlit("\"");
        reveal_strlit(":");
        reveal_strlit(",");
    }
    let mut out = String::new();
    out.append("{");
    let mut i: usize = 0;
    while i < pairs.len()
        invariant
            i <= pairs@.len(),
            out@ == seq!['{'] + segments_of(pairs_view(pairs@).take(i as int)),
            "{"@ == seq!['{'],
            "}"@ == seq!['}'],
            "\""@ == seq!['"'],
            ":"@ == seq![':'],
            ","@ == seq![','],
        decreases pairs@.len() - i,
    {
        if i > 0 {
            out.append(",");
        }
        let p = &pairs[i];
        out.append("\"");
        out.append(p.0.as_str());
        out.append("\"");
        out.append(":");
        if str_eq(p.0.as_str(), "context") || str_eq(p.0.as_str(), "stream") {
            out.append(p.1.as_str());
        } else {
            out.append("\"");
            out.append(p.1.as_str());
            out.append("\"");
        }
        proof {
            let pv = pairs_view(pairs@);
            assert(pv.take(i + 1).drop_last() =~= pv.take(i as int));
            assert(pv.take(i + 1).last() == pv[i as int]);
            assert(out@ =~= seq!['{'] + segments_of(pv.take(i + 1)));
        }
        i = i + 1;
    }
    out.append("}");
    proof {
        assert(pairs_view(pairs@).take(pairs@.len() as int) =~= pairs_view(pairs@));
        assert(out@ =~= postdata_of(pairs_view(pairs@)));
    }
    out
}

/// The URL of a server endpoint: scheme, host, port and path.
pub open spec fn url_of(host: Seq<char>, port: nat, path: Seq<char>) -> Seq<char> {
    "http://"@ + host + seq![':'] + dec_seq(port) + path
}

/// Builds the URL for a server endpoint path such as `/api/generate`.
pub fn api_url(host: &str, port: u16, path: &str) -> (r: String)
    ensures
        r@ == url_of(host@, port as nat, path@),
{
    proof {
        reveal_strlit(":");
    }
    let mut s = String::new();
    s.append("http://");
    s.append(host);
    s.append(":");
    let digits = u64_to_string(port as u64);
    s.append(digits.as_str());
    s.append(path);
    proof {
        assert(s@ =~= url_of(host@, port as nat, path@));
    }
    s
}

/// The whitespace characters the deframer ignores at the end of a buffer.
pub open spec fn is_json_ws(c: char) -> bool {
    c == ' ' || c == '\n' || c == '\r' || c == '\t'
}

/// `s` with its trailing whitespace removed.
pub open spec fn trimmed_end(s: Seq<char>) -> Seq<char>
    decreases s.len(),
{
    if s.len() == 0 {
        s
    } else if is_json_ws(s.last()) {
        trimmed_end(s.drop_last())
    } else {
        s
    }
}

/// Whether an accumulated buffer is taken as one complete record: its last
/// non-whitespace character is a closing brace.
pub open spec fn record_complete(s: Seq<char>) -> bool {
    trimmed_end(s).len() > 0 && trimmed_end(s).last() == '}'
}

/// What one delivery does to the deframer: the new pending buffer and the
/// record emitted, if any.
pub open spec fn feed_spec(buf: Seq<char>, chunk: Seq<char>) -> (Seq<char>, Option<Seq<char>>) {
    let b = buf + chunk;
    if record_complete(b) {
        (Seq::empty(), Some(b))
    } else {
        (b, None)
    }
}

fn is_ws_char(c: char) -> (r: bool)
    ensures
        r == is_json_ws(c),
{
    c == ' ' || c == '\n' || c == '\r' || c == '\t'
}

fn is_complete_record(s: &str) -> (r: bool)
    ensures
        r == record_complete(s@),
{
    let len = s.unicode_len();
    let mut i = len;
    proof {
        assert(s@.subrange(0, len as int) =~= s@);
    }
    while i > 0
        invariant
            i <= len,
            len == s@.len(),
            trimmed_end(s@.subrange(0, i as int)) == trimmed_end(s@),
        decreases i,
    {
        let c = s.get_char(i - 1);
        proof {
            assert(s@.subrange(0, i as int).drop_last() =~= s@.subrange(0, i - 1));
            assert(s@.subrange(0, i as int).last() == s@[i - 1]);
        }
        if !is_ws_char(c) {
            return c == '}';
        }
        i = i - 1;
    }
    proof {
        assert(s@.subrange(0, 0) =~= Seq::<char>::empty());
    }
    false
}

/// Accumulates streamed chunk text and cuts it into complete JSON records.
pub struct Deframer {
    buf: String,
}

impl Deframer {
    /// The text received since the last record was emitted.
    pub closed spec fn pending(&self) -> Seq<char> {
        self.buf@
    }

    /// A fresh deframer with an empty buffer.
    pub fn new() -> (d: Self)
        ensures
            d.pending() == Seq::<char>::empty(),
    {
        Deframer { buf: String::new() }
    }

    /// Delivers one transport chunk.  The chunk joins the pending buffer;
    /// when the buffer's last non-whitespace character is a closing brace the
    /// whole buffer is emitted as one record and the buffer resets.
    pub fn feed(&mut self, chunk: &str) -> (r: Option<String>)
        ensures
            ({
                let step = feed_spec(old(self).pending(), chunk@);
                &&& final(self).pending() == step.0
                &&& match r {
                    Some(rec) => step.1 == Some(rec@),
                    None => step.1 is None,
                }
            }),
    {
        self.buf.append(chunk);
        if is_complete_record(self.buf.as_str()) {
            let out = self.buf.clone();
            self.buf = String::new();
            Some(out)
        } else {
            None
        }
    }
}

/// The concatenation of a sequence of chunks.
pub open spec fn concat_of(parts: Seq<Seq<char>>) -> Seq<char>
    decreases parts.len(),
{
    if parts.len() == 0 {
        Seq::empty()
    } else {
        parts[0] + concat_of(parts.drop_first())
    }
}

/// Delivering a sequence of chunks in order, starting from a pending buffer:
/// the final buffer and the records emitted, in order.
pub open spec fn run_feeds(buf: Seq<char>, parts: Seq<Seq<char>>) -> (Seq<char>, Seq<Seq<char>>)
    decreases parts.len(),
{
    if parts.len() == 0 {
        (buf, Seq::empty())
    } else {
        let step = feed_spec(buf, parts[0]);
        let rest = run_feeds(step.0, parts.drop_first());
        let emitted = match step.1 {
            Some(rec) => seq![rec],
            None => Seq::empty(),
        };
        (rest.0, emitted + rest.1)
    }
}

proof fn lemma_no_brace_incomplete(s: Seq<char>)
    requires
        forall|j: int| 0 <= j < s.len() ==> s[j] != '}',
    ensures
        !record_complete(s),
    decreases s.len(),
{
    if s.len() > 0 && is_json_ws(s.last()) {
        lemma_no_brace_incomplete(s.drop_last());
    }
}

proof fn lemma_run_feeds_prefix(buf: Seq<char>, parts: Seq<Seq<char>>, s: Seq<char>)
    requires
        parts.len() > 0,
        forall|i: int| 0 <= i < parts.len() ==> parts[i].len() > 0,
        buf + concat_of(parts) == s,
        s.len() > 0,
        s.last() == '}',
        forall|j: int| 0 <= j < s.len() - 1 ==> s[j] != '}',
    ensures
        run_feeds(buf, parts) == (Seq::<char>::empty(), seq![s]),
    decreases parts.len(),
{
    let b = buf + parts[0];
    let rest = parts.drop_first();
    let step = feed_spec(buf, parts[0]);
    if parts.len() == 1 {
        assert(concat_of(rest) =~= Seq::empty());
        assert(b =~= s);
        assert(trimmed_end(s) == s);
        assert(step == (Seq::<char>::empty(), Some(s)));
        assert(run_feeds(step.0, rest) == (step.0, Seq::<Seq<char>>::empty()));
        assert(run_feeds(buf, parts).0 == Seq::<char>::empty());
        assert(run_feeds(buf, parts).1 =~= seq![s]);
    } else {
        assert(concat_of(rest).len() >= rest[0].len());
        assert(b + concat_of(rest) =~= s);
        assert(b.len() < s.len());
        assert(forall|j: int| 0 <= j < b.len() ==> b[j] == s[j]);
        lemma_no_brace_incomplete(b);
        assert(step == (b, Option::<Seq<char>>::None));
        lemma_run_feeds_prefix(b, rest, s);
        assert(run_feeds(buf, parts).0 == Seq::<char>::empty());
        assert(run_feeds(buf, parts).1 =~= seq![s]);
    }
}

/// Law: a single complete flat record, split into arbitrary non-empty
/// substrings and delivered chunk by chunk to a fresh deframer, is
/// reassembled exactly.  The deframer emits nothing until the last chunk,
/// then emits the whole record and ends with an empty buffer.  The record
/// must be flat in the sense that its closing brace is its only brace
/// character; that is the territory on which the trailing-brace heuristic is
/// exact.
pub proof fn lemma_deframe_split(parts: Seq<Seq<char>>, s: Seq<char>)
    requires
        parts.len() > 0,
        forall|i: int| 0 <= i < parts.len() ==> parts[i].len() > 0,
        concat_of(parts) == s,
        s.len() > 0,
        s.last() == '}',
        forall|j: int| 0 <= j < s.len() - 1 ==> s[j] != '}',
    ensures
        run_feeds(Seq::empty(), parts) == (Seq::<char>::empty(), seq![s]),
{
    assert(Seq::empty() + concat_of(parts) =~= concat_of(parts));
    lemma_run_feeds_prefix(Seq::empty(), parts, s);
}

/// Law: complete records delivered one per chunk, with no splits, come out
/// one record per delivery, in order, and leave the buffer empty.
pub proof fn lemma_deframe_in_order(records: Seq<Seq<char>>)
    requires
        forall|i: int| 0 <= i < records.len() ==> record_complete(records[i]),
    ensures
        run_feeds(Seq::empty(), records) == (Seq::<char>::empty(), records),
    decreases records.len(),
{
    if records.len() > 0 {
        assert(Seq::empty() + records[0] =~= records[0]);
        lemma_deframe_in_order(records.drop_first());
        assert(seq![records[0]] + records.drop_first() =~= records);
    }
}

} // verus!
