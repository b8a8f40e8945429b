//! The conversation store: full transcripts keyed by creation time, with the
//! summary lines offered for listing, restoring and deleting.
//!
//! The store is the in-memory model of the persisted table; the database
//! sits outside this crate and exchanges whole records with it.  A record is
//! never created for an empty conversation, and the read operations all fail
//! with the same no-records outcome on an empty store.
use vstd::prelude::*;
use vstd::string::*;

use crate::ClientError;
use crate::Config;
use crate::strutil::contains_sub;
use crate::strutil::count_occ;
use crate::strutil::dec_seq;
use crate::strutil::count_char;
use crate::strutil::truncate_chars;
use crate::strutil::u64_to_string;
use crate::strutil::u128_to_string;
use crate::strutil::without_char;
use crate::strutil::remove_char;

verus! {

/// One turn of a conversation: who spoke, and what was said.
pub struct Chat {
    pub role: String,
    pub content: String,
}

/// One persisted conversation: when it was created, against which endpoint
/// and model, the turns, and the serialized context token.
pub struct ConversationRecord {
    /// Creation instant in milliseconds, the record's identifier.
    pub timestamp: u64,
    /// The `host:port` endpoint the conversation ran against.
    pub host: String,
    /// The model that answered.
    pub model: String,
    /// The turns, oldest first; never empty.
    pub conversation: Vec<Chat>,
    /// The serialized context token of the last turn.
    pub context: String,
}

/// What an out-of-range timestamp renders as and an in-range one renders to
/// is chrono's business; the rendering is a function of the timestamp alone.
pub uninterp spec fn time_display_of(ts_millis: u64) -> Option<Seq<char>>;

/// Relies on chrono's `DateTime::from_timestamp_millis` and `format` with a
/// fixed year-to-minute pattern: for a representable timestamp the rendering
/// depends on the timestamp alone (the pattern is numeric and the zone is
/// UTC), and an unrepresentable timestamp renders as nothing.
#[verifier::external_body]
fn get_time_from_ts(ts: u64) -> (r: Option<String>)
    ensures
        match r {
            Some(s) => time_display_of(ts) == Some(s@),
            None => time_display_of(ts) is None,
        },
{
    match chrono::DateTime::<chrono::Utc>::from_timestamp_millis(ts as i64) {
        Some(t) => Some(t.format("%Y-%m-%d %H%M").to_string()),
        None => None,
    }
}

/// Relies on chrono's local clock for the present instant in milliseconds;
/// nothing is assumed of the reading.
#[verifier::external_body]
fn now_millis() -> i64 {
    chrono::Local::now().timestamp_millis()
}

/// The timestamp part of a summary line; empty where the calendar cannot
/// render the timestamp.
pub open spec fn time_part(ts: u64) -> Seq<char> {
    match time_display_of(ts) {
        Some(t) => t,
        None => Seq::empty(),
    }
}

/// The bounded preview of a record: at most the first 32 characters of the
/// first turn's content.
pub open spec fn preview_spec(r: ConversationRecord) -> Seq<char> {
    let c = r.conversation@[0].content@;
    c.take(
        if c.len() <= 32 {
            c.len() as int
        } else {
            32
        },
    )
}

/// The context-length indicator of a record: one more than the number of
/// separators in the serialized context.
pub open spec fn context_indicator(ctx: Seq<char>) -> nat {
    count_occ(ctx, ',') + 1
}

/// The one-line summary of a record: timestamp, model at endpoint, a preview
/// of the first turn, and the context-length indicator.
pub open spec fn summary_spec(r: ConversationRecord) -> Seq<char> {
    time_part(r.timestamp) + ": "@ + r.model@ + "@"@ + r.host@ + " -> "@ + preview_spec(r) + " ["@
        + dec_seq(context_indicator(r.context@)) + " context len]"@
}

/// The summaries of a sequence of records, in order.
pub open spec fn summaries_spec(records: Seq<ConversationRecord>) -> Seq<Seq<char>> {
    records.map_values(|r: ConversationRecord| summary_spec(r))
}

/// Whether every record's timestamp renders.
pub open spec fn all_renderable(records: Seq<ConversationRecord>) -> bool {
    forall|i: int| 0 <= i < records.len() ==> time_display_of(records[i].timestamp) is Some
}

fn dup_chats(v: &Vec<Chat>) -> (r: Vec<Chat>)
    ensures
        r@ == v@,
{
    let mut out: Vec<Chat> = Vec::new();
    let mut i: usize = 0;
    while i < v.len()
        invariant
            i <= v@.len(),
            out@.len() == i,
            forall|j: int| 0 <= j < i ==> out@[j] == v@[j],
        decreases v@.len() - i,
    {
        let c = &v[i];
        out.push(Chat { role: c.role.clone(), content: c.content.clone() });
        i = i + 1;
    }
    proof {
        assert(out@ =~= v@);
    }
    out
}

fn render_summary(r: &ConversationRecord) -> (res: Result<String, ClientError>)
    requires
        r.conversation@.len() > 0,
    ensures
        time_display_of(r.timestamp) is Some <==> res is Ok,
        res matches Ok(s) ==> s@ == summary_spec(*r),
        time_display_of(r.timestamp) is None ==> res == Err::<String, ClientError>(
            ClientError::BadTimestamp,
        ),
{
    let mut s = match get_time_from_ts(r.timestamp) {
        Some(t) => t,
        None => {
            return Err(ClientError::BadTimestamp);
        },
    };
    s.append(": ");
    s.append(r.model.as_str());
    s.append("@");
    s.append(r.host.as_str());
    s.append(" -> ");
    let first = &r.conversation[0];
    let prev = truncate_chars(first.content.as_str(), 32);
    s.append(prev);
    s.append(" [");
    let commas = count_char(r.context.as_str(), ',');
    let indicator = u128_to_string((commas as u128) + 1);
    s.append(indicator.as_str());
    s.append(" context len]");
    proof {
        assert(s@ =~= summary_spec(*r));
    }
    Ok(s)
}

/// Whether position `j` is in none of the selected indices.
pub open spec fn keep_at(idxs: Seq<usize>, j: int) -> bool {
    forall|k: int| 0 <= k < idxs.len() ==> idxs[k] != j
}

/// The first `n` records of `s` with the selected positions removed.
pub open spec fn removed_prefix(s: Seq<ConversationRecord>, idxs: Seq<usize>, n: int) -> Seq<
    ConversationRecord,
>
    decreases n,
{
    if n <= 0 {
        Seq::empty()
    } else {
        removed_prefix(s, idxs, n - 1) + (if keep_at(idxs, n - 1) {
            seq![s[n - 1]]
        } else {
            Seq::empty()
        })
    }
}

/// `s` with the selected positions removed, order kept.
pub open spec fn removed_seq(s: Seq<ConversationRecord>, idxs: Seq<usize>) -> Seq<
    ConversationRecord,
> {
    removed_prefix(s, idxs, s.len() as int)
}

fn index_selected(idxs: &Vec<usize>, j: usize) -> (r: bool)
    ensures
        r == !keep_at(idxs@, j as int),
{
    let mut k: usize = 0;
    while k < idxs.len()
        invariant
            k <= idxs@.len(),
            forall|m: int| 0 <= m < k ==> idxs@[m] != j as int,
        decreases idxs@.len() - k,
    {
        if idxs[k] == j {
            return true;
        }
        k = k + 1;
    }
    false
}

/// The in-memory store of persisted conversations, in creation order.
pub struct Store {
    records: Vec<ConversationRecord>,
}

impl Store {
    /// The records the store holds, in order.
    pub closed spec fn records_seq(&self) -> Seq<ConversationRecord> {
        self.records@
    }

    /// Every record holds a non-empty conversation.
    pub open spec fn wf(&self) -> bool {
        forall|i: int|
            0 <= i < self.records_seq().len() ==> self.records_seq()[i].conversation@.len() > 0
    }

    /// An empty store.
    pub fn new() -> (s: Self)
        ensures
            s.records_seq() == Seq::<ConversationRecord>::empty(),
            s.wf(),
    {
        let s = Store { records: Vec::new() };
        proof {
            assert(s.records_seq() =~= Seq::<ConversationRecord>::empty());
        }
        s
    }

    /// How many records the store holds.
    pub fn record_count(&self) -> (n: usize)
        ensures
            n == self.records_seq().len(),
    {
        self.records.len()
    }

    /// One record, by position.
    pub fn record_at(&self, i: usize) -> (r: &ConversationRecord)
        requires
            i < self.records_seq().len(),
        ensures
            *r == self.records_seq()[i as int],
    {
        &self.records[i]
    }

    /// Appends a record.  A record with an empty conversation is never
    /// stored: the store is left as it was.
    pub fn add_record(&mut self, rec: ConversationRecord)
        ensures
            rec.conversation@.len() > 0 ==> final(self).records_seq() == old(
                self,
            ).records_seq().push(rec),
            rec.conversation@.len() == 0 ==> final(self).records_seq() == old(self).records_seq(),
            old(self).wf() ==> final(self).wf(),
    {
        if rec.conversation.len() > 0 {
            self.records.push(rec);
        }
    }
}

/// Saves a conversation under a given creation timestamp.  An empty
/// conversation is a no-op that leaves the store unchanged; otherwise exactly
/// one record joins the store, carrying the endpoint, the model, the turns
/// and the serialized context (an absent context is stored as an empty
/// token).
pub fn save_conversation_at(
    store: &mut Store,
    ts: u64,
    conversation: Vec<Chat>,
    context: Option<String>,
    conf: &Config,
)
    ensures
        conversation@.len() == 0 ==> final(store).records_seq() == old(store).records_seq(),
        conversation@.len() > 0 ==> {
            let records = final(store).records_seq();
            &&& records.len() == old(store).records_seq().len() + 1
            &&& forall|i: int|
                0 <= i < old(store).records_seq().len() ==> records[i] == old(
                    store,
                ).records_seq()[i]
            &&& records.last().timestamp == ts
            &&& records.last().host@ == conf.host@ + seq![':'] + dec_seq(conf.port as nat)
            &&& records.last().model@ == conf.model@
            &&& records.last().conversation == conversation
            &&& records.last().context@ == (match context {
                Some(c) => c@,
                None => "[]"@,
            })
        },
        old(store).wf() ==> final(store).wf(),
{
    proof {
        reveal_strlit(":");
    }
    if conversation.len() == 0 {
        return ;
    }
    let mut host = conf.host.clone();
    host.append(":");
    let port_digits = u64_to_string(conf.port as u64);
    host.append(port_digits.as_str());
    proof {
        assert(host@ =~= conf.host@ + seq![':'] + dec_seq(conf.port as nat));
    }
    let ctx = match context {
        Some(c) => c,
        None => String::from_str("[]"),
    };
    let rec = ConversationRecord {
        timestamp: ts,
        host,
        model: conf.model.clone(),
        conversation,
        context: ctx,
    };
    store.add_record(rec);
}

/// Saves a conversation keyed by the present instant.  An empty conversation
/// is a no-op: the store is unchanged.
pub fn save_conversation(
    store: &mut Store,
    conversation: Vec<Chat>,
    context: Option<String>,
    conf: &Config,
)
    ensures
        conversation@.len() == 0 ==> final(store).records_seq() == old(store).records_seq(),
        conversation@.len() > 0 ==> {
            let records = final(store).records_seq();
            &&& records.len() == old(store).records_seq().len() + 1
            &&& forall|i: int|
                0 <= i < old(store).records_seq().len() ==> records[i] == old(
                    store,
                ).records_seq()[i]
            &&& records.last().host@ == conf.host@ + seq![':'] + dec_seq(conf.port as nat)
            &&& records.last().model@ == conf.model@
            &&& records.last().conversation == conversation
            &&& records.last().context@ == (match context {
                Some(c) => c@,
                None => "[]"@,
            })
        },
        old(store).wf() ==> final(store).wf(),
{
    let now = now_millis();
    let ts: u64 = if now < 0 {
        0
    } else {
        now as u64
    };
    save_conversation_at(store, ts, conversation, context, conf)
}

/// Renders the one-line summaries of all records, oldest first.  An empty
/// store has no records to list; a timestamp the calendar cannot render
/// fails the listing.
pub fn list_conversations(store: &Store) -> (r: Result<Vec<String>, ClientError>)
    requires
        store.wf(),
    ensures
        store.records_seq().len() == 0 ==> r == Err::<Vec<String>, ClientError>(
            ClientError::NoRecords,
        ),
        store.records_seq().len() > 0 && all_renderable(store.records_seq()) ==> (r matches Ok(
            lines,
        ) && lines@.len() == store.records_seq().len() && (forall|i: int|
            0 <= i < lines@.len() ==> lines@[i]@ == summaries_spec(store.records_seq())[i])),
        store.records_seq().len() > 0 && !all_renderable(store.records_seq()) ==> r == Err::<
            Vec<String>,
            ClientError,
        >(ClientError::BadTimestamp),
{
    if store.record_count() == 0 {
        return Err(ClientError::NoRecords);
    }
    let mut lines: Vec<String> = Vec::new();
    let mut i: usize = 0;
    while i < store.record_count()
        invariant
            store.wf(),
            i <= store.records_seq().len(),
            lines@.len() == i,
            forall|j: int| 0 <= j < i ==> time_display_of(store.records_seq()[j].timestamp) is Some,
            forall|j: int| 0 <= j < i ==> lines@[j]@ == summary_spec(store.records_seq()[j]),
        decreases store.records_seq().len() - i,
    {
        let rec = store.record_at(i);
        match render_summary(rec) {
            Ok(s) => lines.push(s),
            Err(e) => {
                return Err(e);
            },
        }
        i = i + 1;
    }
    proof {
        assert(forall|i: int|
            0 <= i < store.records_seq().len() ==> summaries_spec(store.records_seq())[i]
                == summary_spec(store.records_seq()[i]));
    }
    Ok(lines)
}

/// Hands back one record's state to resume from: its context token, with
/// stray quote characters stripped, and a copy of its turns.  An empty store
/// has nothing to restore.
pub fn restore_conversation(store: &Store, idx: usize) -> (r: Result<
    (Option<String>, Vec<Chat>),
    ClientError,
>)
    requires
        store.wf(),
        store.records_seq().len() > 0 ==> idx < store.records_seq().len(),
    ensures
        store.records_seq().len() == 0 ==> r == Err::<(Option<String>, Vec<Chat>), ClientError>(
            ClientError::NoRecords,
        ),
        store.records_seq().len() > 0 ==> (r matches Ok(p) && (p.0 matches Some(c) && c@
            == without_char(store.records_seq()[idx as int].context@, '"')) && p.1@
            == store.records_seq()[idx as int].conversation@),
{
    if store.record_count() == 0 {
        return Err(ClientError::NoRecords);
    }
    let rec = store.record_at(idx);
    let ctx = remove_char(rec.context.as_str(), '"');
    let turns = dup_chats(&rec.conversation);
    Ok((Some(ctx), turns))
}

/// Deletes the records at the selected positions, keeping the order of the
/// rest.  An empty store has nothing to delete; an empty selection deletes
/// nothing.
pub fn delete_conversations(store: &mut Store, idxs: &Vec<usize>) -> (r: Result<(), ClientError>)
    requires
        old(store).wf(),
        forall|k: int| 0 <= k < idxs@.len() ==> idxs@[k] < old(store).records_seq().len(),
    ensures
        old(store).records_seq().len() == 0 ==> r == Err::<(), ClientError>(ClientError::NoRecords)
            && final(store).records_seq() == old(store).records_seq(),
        old(store).records_seq().len() > 0 ==> r is Ok && final(store).records_seq() == removed_seq(
            old(store).records_seq(),
            idxs@,
        ),
        final(store).wf(),
{
    if store.record_count() == 0 {
        return Err(ClientError::NoRecords);
    }
    let ghost orig = store.records_seq();
    let mut source: Vec<ConversationRecord> = Vec::new();
    core::mem::swap(&mut source, &mut store.records);
    let mut kept: Vec<ConversationRecord> = Vec::new();
    let mut j: usize = 0;
    let total = source.len();
    while j < total
        invariant
            total == orig.len(),
            j <= total,
            source@ == orig.subrange(j as int, total as int),
            kept@ == removed_prefix(orig, idxs@, j as int),
            forall|i: int| 0 <= i < orig.len() ==> orig[i].conversation@.len() > 0,
            forall|i: int| 0 <= i < kept@.len() ==> kept@[i].conversation@.len() > 0,
        decreases total - j,
    {
        let rec = source.remove(0);
        proof {
            assert(orig.subrange(j as int, total as int)[0] == orig[j as int]);
            assert(orig.subrange(j as int, total as int).remove(0) =~= orig.subrange(
                j + 1,
                total as int,
            ));
        }
        if !index_selected(idxs, j) {
            kept.push(rec);
        }
        proof {
            assert(kept@ =~= removed_prefix(orig, idxs@, j + 1));
        }
        j = j + 1;
    }
    store.records = kept;
    Ok(())
}

/// Law: saving a non-empty conversation then listing surfaces exactly one
/// new summary, the last one, and it carries the record's model, its
/// endpoint, and the bounded preview of its first turn.  Every earlier
/// summary is untouched.
pub proof fn lemma_save_then_list(records: Seq<ConversationRecord>, r: ConversationRecord)
    requires
        r.conversation@.len() > 0,
    ensures
        summaries_spec(records.push(r)).len() == summaries_spec(records).len() + 1,
        forall|i: int|
            0 <= i < records.len() ==> summaries_spec(records.push(r))[i] == summaries_spec(
                records,
            )[i],
        summaries_spec(records.push(r)).last() == summary_spec(r),
        contains_sub(summary_spec(r), r.model@),
        contains_sub(summary_spec(r), r.host@),
        contains_sub(summary_spec(r), preview_spec(r)),
{
    assert(summaries_spec(records.push(r)) =~= summaries_spec(records).push(summary_spec(r)));
    reveal_strlit(": ");
    reveal_strlit("@");
    reveal_strlit(" -> ");
    let s = summary_spec(r);
    let t = time_part(r.timestamp);
    let off_model: int = t.len() as int + 2;
    assert(s.subrange(off_model, off_model + r.model@.len()) =~= r.model@);
    let off_host: int = off_model + r.model@.len() + 1;
    assert(s.subrange(off_host, off_host + r.host@.len()) =~= r.host@);
    let off_prev: int = off_host + r.host@.len() + 4;
    assert(s.subrange(off_prev, off_prev + preview_spec(r).len()) =~= preview_spec(r));
}

} // verus!
