//! The inference-server client logic: generation exchanges in batch and
//! streaming mode, and the model-catalog operations list, pull and delete.
//!
//! Nothing here touches the network.  The functions that start an operation
//! return an [`HttpRequest`] describing what to send; the functions and
//! session types that finish one take the server's already-parsed records as
//! plain values and decide what they mean.
use vstd::prelude::*;
use vstd::string::*;

use crate::ClientError;
use crate::Config;
use crate::codec::get_postdata;
use crate::codec::api_url;
use crate::codec::pairs_view;
use crate::codec::postdata_of;
use crate::codec::url_of;
use crate::strutil::dec_seq;
use crate::strutil::dec_seq_signed;
use crate::strutil::str_eq;
use crate::strutil::u64_to_string;

verus! {

/// One parsed record of a generation response, batch or streaming.
pub struct GenerateResponse {
    pub error: Option<String>,
    pub model: Option<String>,
    pub created_at: Option<String>,
    pub response: Option<String>,
    pub done: Option<bool>,
    pub context: Option<Vec<i64>>,
    pub total_duration: Option<u64>,
    pub load_duration: Option<u64>,
    pub prompt_eval_count: Option<u64>,
    pub prompt_eval_duration: Option<u64>,
    pub eval_count: Option<u64>,
    pub eval_duration: Option<u64>,
}

/// The catalog answer of the tags endpoint.
pub struct ModelResponse {
    pub models: Vec<Model>,
}

/// One model of the server's catalog.
pub struct Model {
    pub name: String,
    pub modified_at: String,
    pub size: i64,
    pub digest: String,
    pub details: Details,
}

/// Details the catalog reports for a model.
pub struct Details {
    pub format: String,
    pub family: String,
    pub families: Option<Vec<String>>,
    pub parameter_size: String,
    pub quantization_level: String,
}

/// One parsed record of a pull response stream.
pub struct PullResponse {
    pub error: Option<String>,
    pub status: Option<String>,
    pub digest: Option<String>,
    pub total: Option<u64>,
    pub completed: Option<u64>,
}

/// The HTTP verb of a request the client asks the transport to send.
pub enum HttpMethod {
    Get,
    Post,
    Delete,
}

/// A request for the transport: where to send it, how, and with what body.
pub struct HttpRequest {
    pub method: HttpMethod,
    pub url: String,
    pub body: Option<String>,
}

/// The serialized form of a context token's items: decimal values joined by
/// commas.
pub open spec fn ctx_items(ctx: Seq<i64>) -> Seq<char>
    decreases ctx.len(),
{
    if ctx.len() == 0 {
        Seq::empty()
    } else if ctx.len() == 1 {
        dec_seq_signed(ctx[0] as int)
    } else {
        ctx_items(ctx.drop_last()) + seq![','] + dec_seq_signed(ctx.last() as int)
    }
}

/// The serialized form of a context token: its items between brackets.
pub open spec fn ctx_serial(ctx: Seq<i64>) -> Seq<char> {
    seq!['['] + ctx_items(ctx) + seq![']']
}

/// Serializes a context token for threading into the next request.
pub fn serialize_context(ctx: &Vec<i64>) -> (r: String)
    ensures
        r@ == ctx_serial(ctx@),
{
    proof {
        reveal_strlit("[");
        reveal_strlit("]");
        reveal_strlit(",");
    }
    let mut out = String::new();
    out.append("[");
    let mut i: usize = 0;
    while i < ctx.len()
        invariant
            i <= ctx@.len(),
            out@ == seq!['['] + ctx_items(ctx@.take(i as int)),
            "["@ == seq!['['],
            "]"@ == seq![']'],
            ","@ == seq![','],
        decreases ctx@.len() - i,
    {
        if i > 0 {
            out.append(",");
        }
        let item = crate::strutil::i64_to_string(ctx[i]);
        out.append(item.as_str());
        proof {
            assert(ctx@.take(i + 1).drop_last() =~= ctx@.take(i as int));
            assert(ctx@.take(i + 1).last() == ctx@[i as int]);
            assert(out@ =~= seq!['['] + ctx_items(ctx@.take(i + 1)));
        }
        i = i + 1;
    }
    out.append("]");
    proof {
        assert(ctx@.take(ctx@.len() as int) =~= ctx@);
        assert(out@ =~= ctx_serial(ctx@));
    }
    out
}

/// Whether a model name is in the fetched catalog.
pub open spec fn catalog_has(catalog: Seq<String>, name: Seq<char>) -> bool {
    exists|i: int| 0 <= i < catalog.len() && catalog[i]@ == name
}

/// Looks a model name up in the fetched catalog.
pub fn contains_model(catalog: &Vec<String>, name: &str) -> (r: bool)
    ensures
        r == catalog_has(catalog@, name@),
{
    let mut i: usize = 0;
    while i < catalog.len()
        invariant
            i <= catalog@.len(),
            forall|j: int| 0 <= j < i ==> catalog@[j]@ != name@,
        decreases catalog@.len() - i,
    {
        if str_eq(catalog[i].as_str(), name) {
            proof {
                assert(catalog@[i as int]@ == name@);
            }
            return true;
        }
        i = i + 1;
    }
    false
}

/// Whether some catalog entry carries the configured model name inside it,
/// so that a bare name like `llama3` matches a tagged entry like
/// `llama3:latest`.
pub open spec fn some_model_matches(catalog: Seq<String>, name: Seq<char>) -> bool {
    exists|i: int| 0 <= i < catalog.len() && crate::strutil::contains_sub(catalog[i]@, name)
}

/// Decides whether the configured model can be generated against: some
/// catalog entry must carry the name as a substring.
pub fn model_available(catalog: &Vec<String>, name: &str) -> (r: bool)
    ensures
        r == some_model_matches(catalog@, name@),
{
    let mut i: usize = 0;
    while i < catalog.len()
        invariant
            i <= catalog@.len(),
            forall|j: int| 0 <= j < i ==> !crate::strutil::contains_sub(catalog@[j]@, name@),
        decreases catalog@.len() - i,
    {
        if crate::strutil::str_contains(catalog[i].as_str(), name) {
            proof {
                assert(crate::strutil::contains_sub(catalog@[i as int]@, name@));
            }
            return true;
        }
        i = i + 1;
    }
    false
}

/// The names of the models a catalog answer lists, in order.
pub fn get_models(resp: ModelResponse) -> (r: Vec<String>)
    ensures
        r@.len() == resp.models@.len(),
        forall|i: int| 0 <= i < r@.len() ==> r@[i]@ == resp.models@[i].name@,
{
    let mut names: Vec<String> = Vec::new();
    let mut i: usize = 0;
    while i < resp.models.len()
        invariant
            i <= resp.models@.len(),
            names@.len() == i,
            forall|j: int| 0 <= j < i ==> names@[j]@ == resp.models@[j].name@,
        decreases resp.models@.len() - i,
    {
        names.push(resp.models[i].name.clone());
        i = i + 1;
    }
    names
}

/// Plans a model delete.  A name absent from the catalog fails at once with
/// the not-found outcome and no request is issued; otherwise the delete
/// request for that name is returned.
pub fn del_model(name: &String, avail_models: &Vec<String>, conf: &Config) -> (r: Result<
    HttpRequest,
    ClientError,
>)
    ensures
        catalog_has(avail_models@, name@) <==> r is Ok,
        !catalog_has(avail_models@, name@) ==> r == Err::<HttpRequest, ClientError>(
            ClientError::ModelNotFound,
        ),
        r matches Ok(req) ==> {
            &&& req.method is Delete
            &&& req.url@ == url_of(conf.host@, conf.port as nat, "/api/delete"@)
            &&& req.body matches Some(b) && b@ == postdata_of(seq![("name"@, name@)])
        },
{
    if !contains_model(avail_models, name.as_str()) {
        return Err(ClientError::ModelNotFound);
    }
    let mut pairs: Vec<(String, String)> = Vec::new();
    pairs.push((String::from_str("name"), name.clone()));
    let body = get_postdata(&pairs);
    proof {
        assert(pairs_view(pairs@) =~= seq![("name"@, name@)]);
    }
    Ok(
        HttpRequest {
            method: HttpMethod::Delete,
            url: api_url(conf.host.as_str(), conf.port, "/api/delete"),
            body: Some(body),
        },
    )
}

/// Reads the status of the answer to a delete request: only an OK status
/// deletes.
pub fn finish_delete(status: u16) -> (r: Result<(), ClientError>)
    ensures
        status == 200 <==> r is Ok,
        status != 200 ==> r == Err::<(), ClientError>(ClientError::DeleteRejected),
{
    if status == 200 {
        Ok(())
    } else {
        Err(ClientError::DeleteRejected)
    }
}

/// Plans a model pull.  A name already in the catalog is a success without
/// any network request; otherwise the streaming pull request for that name is
/// returned.
pub fn pull_model(name: &String, avail_models: &Vec<String>, conf: &Config) -> (r: Option<
    HttpRequest,
>)
    ensures
        catalog_has(avail_models@, name@) <==> r is None,
        r matches Some(req) ==> {
            &&& req.method is Post
            &&& req.url@ == url_of(conf.host@, conf.port as nat, "/api/pull"@)
            &&& req.body matches Some(b) && b@ == postdata_of(seq![("name"@, name@)])
        },
{
    if contains_model(avail_models, name.as_str()) {
        return None;
    }
    let mut pairs: Vec<(String, String)> = Vec::new();
    pairs.push((String::from_str("name"), name.clone()));
    let body = get_postdata(&pairs);
    proof {
        assert(pairs_view(pairs@) =~= seq![("name"@, name@)]);
    }
    Some(
        HttpRequest {
            method: HttpMethod::Post,
            url: api_url(conf.host.as_str(), conf.port, "/api/pull"),
            body: Some(body),
        },
    )
}

/// What one pull record meant.
pub enum PullStep {
    /// A record with a digest whose status label was not seen before: one
    /// more layer is downloading; the value is the layer count so far.
    NewLayer(usize),
    /// A record that reported no new layer; the pull goes on.
    Progress,
    /// The terminal record: the pull succeeded.
    Done,
    /// The pull failed with this error.
    Failed(ClientError),
}

/// Tracks a streaming pull: which download layers were reported, by their
/// status label, and whether the stream reached success.
pub struct PullSession {
    seen: Vec<String>,
}

impl PullSession {
    /// The status labels of the layers reported so far, in order of first
    /// sight.
    pub closed spec fn seen_labels(&self) -> Seq<Seq<char>> {
        self.seen@.map_values(|s: String| s@)
    }

    /// A fresh session with no layers seen.
    pub fn new() -> (s: Self)
        ensures
            s.seen_labels() == Seq::<Seq<char>>::empty(),
    {
        let s = PullSession { seen: Vec::new() };
        proof {
            assert(s.seen_labels() =~= Seq::<Seq<char>>::empty());
        }
        s
    }

    /// How many layers were reported so far.
    pub fn layers(&self) -> (n: usize)
        ensures
            n == self.seen_labels().len(),
    {
        self.seen.len()
    }

    /// Consumes one deframed pull record.  A server error fails the
    /// operation; the status `success` completes it; a record with a digest
    /// and an unseen status label is a new layer, deduplicated by that label;
    /// anything else is progress with nothing new.
    pub fn step(&mut self, rec: &PullResponse) -> (r: PullStep)
        ensures
            rec.error matches Some(e) ==> r == PullStep::Failed(ClientError::Server(e))
                && final(self).seen_labels() == old(self).seen_labels(),
            rec.error is None && (rec.status matches Some(st) && st@ == "success"@) ==> r
                is Done && final(self).seen_labels() == old(self).seen_labels(),
            rec.error is None && !(rec.status matches Some(st) && st@ == "success"@) ==> {
                if rec.digest is Some && (rec.status matches Some(st)
                    && !old(self).seen_labels().contains(st@)) {
                    &&& final(self).seen_labels() == old(self).seen_labels().push(
                        rec.status->0@,
                    )
                    &&& r == PullStep::NewLayer(final(self).seen_labels().len() as usize)
                } else {
                    &&& final(self).seen_labels() == old(self).seen_labels()
                    &&& r is Progress
                }
            },
    {
        if let Some(e) = &rec.error {
            return PullStep::Failed(ClientError::Server(e.clone()));
        }
        if let Some(st) = &rec.status {
            if str_eq(st.as_str(), "success") {
                return PullStep::Done;
            }
            if rec.digest.is_some() && !self.label_seen(st.as_str()) {
                self.seen.push(st.clone());
                proof {
                    assert(self.seen_labels() =~= old(self).seen_labels().push(st@));
                }
                return PullStep::NewLayer(self.seen.len());
            }
        }
        PullStep::Progress
    }

    fn label_seen(&self, label: &str) -> (r: bool)
        ensures
            r == self.seen_labels().contains(label@),
    {
        let mut i: usize = 0;
        while i < self.seen.len()
            invariant
                i <= self.seen@.len(),
                forall|j: int| 0 <= j < i ==> self.seen@[j]@ != label@,
            decreases self.seen@.len() - i,
        {
            if str_eq(self.seen[i].as_str(), label) {
                proof {
                    assert(self.seen_labels()[i as int] == label@);
                }
                return true;
            }
            i = i + 1;
        }
        proof {
            assert(forall|j: int|
                0 <= j < self.seen_labels().len() ==> self.seen_labels()[j] != label@);
        }
        false
    }
}

/// What one streaming generation record meant.
pub enum GenStep {
    /// A partial fragment was consumed; more are expected.
    Continue,
    /// The terminal fragment arrived: the serialized context token for the
    /// next turn, and the full accumulated response text.
    Done(String, String),
    /// The exchange failed with this error.
    Failed(ClientError),
}

/// Drives one streaming generation exchange, accumulating the response text
/// fragment by fragment.
pub struct GenSession {
    acc: String,
}

impl GenSession {
    /// The response text accumulated so far.
    pub closed spec fn text(&self) -> Seq<char> {
        self.acc@
    }

    /// A fresh exchange with nothing accumulated.
    pub fn new() -> (s: Self)
        ensures
            s.text() == Seq::<char>::empty(),
    {
        GenSession { acc: String::new() }
    }

    /// Consumes one deframed generation record.  A server error fails the
    /// turn at once.  Otherwise the record's response text, if any, joins the
    /// accumulator; a record marked done is terminal and must carry the
    /// context token, whose absence is a protocol error.
    pub fn step(&mut self, rec: &GenerateResponse) -> (r: GenStep)
        ensures
            rec.error matches Some(e) ==> r == GenStep::Failed(ClientError::Server(e))
                && final(self).text() == old(self).text(),
            rec.error is None ==> final(self).text() == old(self).text() + (match rec.response {
                Some(t) => t@,
                None => Seq::empty(),
            }),
            rec.error is None ==> {
                if rec.done == Some(true) {
                    match rec.context {
                        Some(c) => (r matches GenStep::Done(ctx, text) && ctx@ == ctx_serial(c@)
                            && text@ == final(self).text()),
                        None => r == GenStep::Failed(ClientError::MissingContext),
                    }
                } else {
                    r is Continue
                }
            },
    {
        if let Some(e) = &rec.error {
            return GenStep::Failed(ClientError::Server(e.clone()));
        }
        if let Some(t) = &rec.response {
            self.acc.append(t.as_str());
        }
        let done = match rec.done {
            Some(d) => d,
            None => false,
        };
        if done {
            match &rec.context {
                Some(c) => {
                    let ctx = serialize_context(c);
                    let text = self.acc.clone();
                    GenStep::Done(ctx, text)
                },
                None => GenStep::Failed(ClientError::MissingContext),
            }
        } else {
            GenStep::Continue
        }
    }
}

/// The key/value pairs of a generation request body: the model, the prompt,
/// the mode switch, and the context token of the previous turn if there is
/// one.
pub open spec fn gen_pairs(
    model: Seq<char>,
    prompt: Seq<char>,
    stream: bool,
    ctx: Option<Seq<char>>,
) -> Seq<(Seq<char>, Seq<char>)> {
    let base = seq![
        ("model"@, model),
        ("prompt"@, prompt),
        (
            "stream"@,
            if stream {
                "true"@
            } else {
                "false"@
            },
        ),
    ];
    match ctx {
        Some(c) => base.push(("context"@, c)),
        None => base,
    }
}

/// Builds the generation request for one turn.
pub fn gen_request(prompt: &String, ctx: &Option<String>, conf: &Config, stream: bool) -> (r:
    HttpRequest)
    ensures
        r.method is Post,
        r.url@ == url_of(conf.host@, conf.port as nat, "/api/generate"@),
        r.body matches Some(b) && b@ == postdata_of(
            gen_pairs(
                conf.model@,
                prompt@,
                stream,
                match ctx {
                    Some(c) => Some(c@),
                    None => None,
                },
            ),
        ),
{
    let mut pairs: Vec<(String, String)> = Vec::new();
    pairs.push((String::from_str("model"), conf.model.clone()));
    pairs.push((String::from_str("prompt"), prompt.clone()));
    let stream_val = if stream {
        String::from_str("true")
    } else {
        String::from_str("false")
    };
    pairs.push((String::from_str("stream"), stream_val));
    match ctx {
        Some(c) => pairs.push((String::from_str("context"), c.clone())),
        None => {},
    }
    let body = get_postdata(&pairs);
    proof {
        assert(pairs_view(pairs@) =~= gen_pairs(
            conf.model@,
            prompt@,
            stream,
            match ctx {
                Some(c) => Some(c@),
                None => None,
            },
        ));
    }
    HttpRequest {
        method: HttpMethod::Post,
        url: api_url(conf.host.as_str(), conf.port, "/api/generate"),
        body: Some(body),
    }
}

/// Completes a batch-mode generation: the single record's `error` field, if
/// present, fails the turn with that message; otherwise `response` and
/// `context` must both be present, and the serialized context and the
/// response text are returned.
pub fn gen(rec: GenerateResponse) -> (r: Result<(String, String), ClientError>)
    ensures
        rec.error matches Some(e) ==> r == Err::<(String, String), ClientError>(
            ClientError::Server(e),
        ),
        rec.error is None && rec.response is None ==> r == Err::<(String, String), ClientError>(
            ClientError::MissingResponse,
        ),
        rec.error is None && rec.response is Some && rec.context is None ==> r == Err::<
            (String, String),
            ClientError,
        >(ClientError::MissingContext),
        rec.error is None && rec.response is Some && rec.context is Some ==> (r matches Ok(p)
            && p.0@ == ctx_serial(rec.context->0@) && p.1 == rec.response->0),
{
    if let Some(e) = rec.error {
        return Err(ClientError::Server(e));
    }
    let response = match rec.response {
        Some(s) => s,
        None => {
            return Err(ClientError::MissingResponse);
        },
    };
    let context = match rec.context {
        Some(c) => serialize_context(&c),
        None => {
            return Err(ClientError::MissingContext);
        },
    };
    Ok((context, response))
}

/// Zero-padding a count of milliseconds to three digits.
pub open spec fn pad3(n: nat) -> Seq<char>
    recommends
        n < 1000,
{
    if n < 10 {
        seq!['0', '0'] + dec_seq(n)
    } else if n < 100 {
        seq!['0'] + dec_seq(n)
    } else {
        dec_seq(n)
    }
}

/// A duration in nanoseconds displayed as seconds with millisecond
/// precision.
pub open spec fn secs_millis_of(nanos: nat) -> Seq<char> {
    dec_seq(nanos / 1000000000) + seq!['.'] + pad3((nanos / 1000000) % 1000)
}

/// Renders a duration reported in nanoseconds as seconds with millisecond
/// precision.
pub fn format_duration_secs(nanos: u64) -> (r: String)
    ensures
        r@ == secs_millis_of(nanos as nat),
{
    proof {
        reveal_strlit(".");
        reveal_strlit("0");
        reveal_strlit("00");
    }
    let secs = nanos / 1000000000;
    let millis = (nanos / 1000000) % 1000;
    let mut s = u64_to_string(secs);
    s.append(".");
    if millis < 10 {
        s.append("00");
    } else if millis < 100 {
        s.append("0");
    }
    let m = u64_to_string(millis);
    s.append(m.as_str());
    proof {
        assert(s@ =~= secs_millis_of(nanos as nat));
    }
    s
}

/// The verbose accounting block shown after a completed turn: the model, the
/// token counts, and the time taken.
pub open spec fn verbose_info_of(
    model: Seq<char>,
    prompt_tokens: nat,
    response_tokens: nat,
    nanos: nat,
) -> Seq<char> {
    "* Model: "@ + model + "\n* Tokens in prompt: "@ + dec_seq(prompt_tokens)
        + "\n* Tokens in response: "@ + dec_seq(response_tokens) + "\n* Time taken: "@
        + secs_millis_of(nanos) + "s"@
}

/// Renders the verbose accounting for a terminal record; missing counts
/// default to zero and a missing model name reads `Unknown`.
pub fn verbose_info(rec: &GenerateResponse) -> (r: String)
    ensures
        r@ == verbose_info_of(
            match rec.model {
                Some(m) => m@,
                None => "Unknown"@,
            },
            (match rec.prompt_eval_count {
                Some(n) => n,
                None => 0,
            }) as nat,
            (match rec.eval_count {
                Some(n) => n,
                None => 0,
            }) as nat,
            (match rec.total_duration {
                Some(n) => n,
                None => 0,
            }) as nat,
        ),
{
    let mut s = String::new();
    s.append("* Model: ");
    match &rec.model {
        Some(m) => s.append(m.as_str()),
        None => s.append("Unknown"),
    }
    s.append("\n* Tokens in prompt: ");
    let p = match rec.prompt_eval_count {
        Some(n) => n,
        None => 0,
    };
    let pd = u64_to_string(p);
    s.append(pd.as_str());
    s.append("\n* Tokens in response: ");
    let e = match rec.eval_count {
        Some(n) => n,
        None => 0,
    };
    let ed = u64_to_string(e);
    s.append(ed.as_str());
    s.append("\n* Time taken: ");
    let nanos = match rec.total_duration {
        Some(n) => n,
        None => 0,
    };
    let dur = format_duration_secs(nanos);
    s.append(dur.as_str());
    s.append("s");
    proof {
        assert(s@ =~= verbose_info_of(
            match rec.model {
                Some(m) => m@,
                None => "Unknown"@,
            },
            (match rec.prompt_eval_count {
                Some(n) => n,
                None => 0,
            }) as nat,
            (match rec.eval_count {
                Some(n) => n,
                None => 0,
            }) as nat,
            (match rec.total_duration {
                Some(n) => n,
                None => 0,
            }) as nat,
        ));
    }
    s
}

} // verus!
