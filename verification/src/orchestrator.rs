//! The tool-call orchestrator: a state machine over one conversation.
//!
//! One run goes: build the conversation, have it submitted with the tool
//! catalog, execute the tool calls of the provider's first choice in the
//! order received, append each result, have the extended conversation
//! resubmitted without the catalog, and finish with the provider's final
//! reply. The embedding program performs each returned [`Action`] and
//! hands the outcome back through the matching `on_*` method.

use vstd::prelude::*;
use crate::args::{json_string_map_of, string_arg, ArgLookup};
use crate::catalog::ToolSpec;
use crate::messages::{conversation_wf, Conversation, Message, ToolCall};
use crate::text::{str_eq, strip_prefix_of};
use crate::timestamp::now_rfc3339;
use crate::tools::{
    call_arg, call_fails, call_immediate, hello_world, immediate_text_ok,
    lemma_tool_names_distinct, page_text_result, scrape_failure_text, tool_required_key,
};
use crate::weather::{
    build_weather_url, status_is_success, weather_body_text, weather_failure_text,
    weather_outcome_text, weather_query_url,
};

verus! {

/// The configuration fixed at startup, with its documented defaults.
pub struct Config {
    pub workspace: String,
    pub channel: String,
    pub trigger_word: String,
    pub weather_api_key: String,
    pub model: String,
    pub max_tokens: u16,
}

impl Default for Config {
    fn default() -> (c: Config)
        ensures
            c.workspace@ == "secondstate"@,
            c.channel@ == "test-flow"@,
            c.trigger_word@ == "tool_calls"@,
            c.weather_api_key@ == "fake_api_key"@,
            c.model@ == "gpt-3.5-turbo-0613"@,
            c.max_tokens == 512,
    {
        Config {
            workspace: String::from_str("secondstate"),
            channel: String::from_str("test-flow"),
            trigger_word: String::from_str("tool_calls"),
            weather_api_key: String::from_str("fake_api_key"),
            model: String::from_str("gpt-3.5-turbo-0613"),
            max_tokens: 512,
        }
    }
}

/// One choice of a provider response. The finish flag distinguishes a
/// tool-call completion from a normal text completion.
pub struct Choice {
    pub finish_tool_calls: bool,
    pub content: Option<String>,
    pub tool_calls: Vec<ToolCall>,
}

/// A provider response; exactly the first choice is consulted.
pub struct ProviderReply {
    pub choices: Vec<Choice>,
}

/// A weather provider response handed back by the embedding program;
/// absent when the network request itself failed.
pub struct HttpResponse {
    pub status: u16,
    pub body: Vec<u8>,
}

/// The errors that abort a run.
pub enum OrchestratorError {
    /// A tool call's raw argument payload was not a flat JSON object of
    /// strings.
    ArgumentParse { tool: String },
    /// A required argument key was absent from the parsed payload.
    MissingArgument { tool: String, key: String },
}

/// What the embedding program must do next on the orchestrator's behalf.
pub enum Action {
    /// Submit the conversation to the provider, attaching the tool
    /// catalog only when `with_tools` holds.
    SubmitCompletion { with_tools: bool },
    /// Perform an HTTP GET against the weather provider.
    HttpGet { url: String },
    /// Fetch the text of a web page.
    FetchPage { url: String },
    /// The run is over; deliver the final reply to the output sink.
    Finish { reply: String },
    /// The run failed; report the error. No retry follows.
    Fail { error: OrchestratorError },
}

/// Where one run stands.
pub enum Phase {
    AwaitingFirstCompletion,
    AwaitingWeather { next: usize, city: String },
    AwaitingPage { next: usize },
    AwaitingSecondCompletion,
    Done,
    Failed,
}

/// The first choice asks for tool use.
pub open spec fn wants_tool_use(r: ProviderReply) -> bool {
    r.choices@.len() > 0 && r.choices@[0].finish_tool_calls
}

/// The final reply: the first choice's text content verbatim, or the
/// literal fallback when the content (or the choice itself) is absent.
pub open spec fn reply_content_text(r: ProviderReply) -> Seq<char> {
    if r.choices@.len() > 0 && r.choices@[0].content is Some {
        r.choices@[0].content.unwrap()@
    } else {
        "no result"@
    }
}

/// The text recorded on the assistant turn that requested tool use.
pub open spec fn assistant_text(r: ProviderReply) -> Seq<char> {
    if r.choices@.len() > 0 && r.choices@[0].content is Some {
        r.choices@[0].content.unwrap()@
    } else {
        Seq::<char>::empty()
    }
}

pub open spec fn assistant_with(m: Message, calls: Seq<ToolCall>) -> bool {
    m matches Message::Assistant { tool_calls, .. } && tool_calls@ == calls
}

pub open spec fn assistant_present(s: Seq<Message>, calls: Seq<ToolCall>) -> bool {
    exists|j: int| 0 <= j < s.len() && assistant_with(#[trigger] s[j], calls)
}

/// The appended turn for an immediately answered call: a tool result
/// carrying the call's id and name, with the text its tool owes.
pub open spec fn result_matches(m: Message, c: ToolCall) -> bool {
    m matches Message::ToolResult { tool_call_id, tool_name, text } && tool_call_id@ == c.id@
        && tool_name@ == c.name@ && immediate_text_ok(c, text@)
}

/// The error reported for a failing call: one kind when its payload does
/// not parse, the other when the required key is absent.
pub open spec fn error_for(e: OrchestratorError, c: ToolCall) -> bool {
    match json_string_map_of(c.arguments@) {
        None => e matches OrchestratorError::ArgumentParse { tool } && tool@ == c.name@,
        Some(_) => e matches OrchestratorError::MissingArgument { tool, key } && tool@ == c.name@
            && key@ == tool_required_key(c.name@),
    }
}

/// The first index at or after `from` whose call fails or must go out on
/// the network; the length when every remaining call is answered on the
/// spot.
pub open spec fn first_stop(calls: Seq<ToolCall>, from: int) -> int
    decreases calls.len() - from when 0 <= from <= calls.len()
{
    if from == calls.len() {
        from
    } else if !call_immediate(calls[from]) {
        from
    } else {
        first_stop(calls, from + 1)
    }
}

proof fn lemma_first_stop_is(calls: Seq<ToolCall>, from: int, e: int)
    requires
        0 <= from <= e <= calls.len(),
        forall|k: int| from <= k < e ==> call_immediate(#[trigger] calls[k]),
        e < calls.len() ==> !call_immediate(calls[e]),
    ensures
        first_stop(calls, from) == e,
    decreases e - from,
{
    if from < e {
        lemma_first_stop_is(calls, from + 1, e);
    }
}

/// The weather tool's result text, determined by the HTTP outcome.
pub open spec fn weather_event_text(city: Seq<char>, response: Option<HttpResponse>) -> Seq<
    char,
> {
    match response {
        None => weather_failure_text(),
        Some(r) => weather_outcome_text(city, 200 <= r.status < 300, r.body@),
    }
}

/// The scraper tool's result text, determined by the fetch outcome.
pub open spec fn page_text_of(fetched: Option<String>) -> Seq<char> {
    match fetched {
        Some(t) => t@,
        None => scrape_failure_text(),
    }
}

/// The orchestrator of one run. It owns the conversation; the embedding
/// program owns the network.
pub struct Orchestrator {
    config: Config,
    catalog: Vec<ToolSpec>,
    conversation: Conversation,
    calls: Vec<ToolCall>,
    phase: Phase,
}

/// Everything the tool-execution loop guarantees when it resumes at
/// index `from` of the requested calls, starting from the conversation
/// `pre_conv`: one tool result per immediately answered call, appended
/// in the order the calls were listed, and the phase and action that
/// follow from the first failing or blocking call.
pub open spec fn tools_advanced(
    pre_conv: Seq<Message>,
    calls: Seq<ToolCall>,
    from: int,
    post: Orchestrator,
    action: Action,
    cfg: Config,
) -> bool {
    let stop = first_stop(calls, from);
    &&& post.conv().len() == pre_conv.len() + (stop - from)
    &&& forall|i: int| 0 <= i < pre_conv.len() ==> post.conv()[i] == pre_conv[i]
    &&& forall|k: int|
        0 <= k < stop - from ==> result_matches(
            #[trigger] post.conv()[pre_conv.len() + k],
            calls[from + k],
        )
    &&& if stop == calls.len() {
        &&& post.state() is AwaitingSecondCompletion
        &&& action matches Action::SubmitCompletion { with_tools } && !with_tools
    } else if call_fails(calls[stop]) {
        &&& post.state() is Failed
        &&& action matches Action::Fail { error } && error_for(error, calls[stop])
    } else if calls[stop].name@ == "getWeather"@ {
        &&& post.state() matches Phase::AwaitingWeather { next, city } && next as int == stop
            && city@ == call_arg(calls[stop])
        &&& action matches Action::HttpGet { url } && url@ == weather_query_url(
            call_arg(calls[stop]),
            cfg.weather_api_key@,
        )
    } else {
        &&& calls[stop].name@ == "scraper"@
        &&& post.state() matches Phase::AwaitingPage { next } && next as int == stop
        &&& action matches Action::FetchPage { url } && url@ == call_arg(calls[stop])
    }
}

impl Orchestrator {
    pub closed spec fn cfg(self) -> Config {
        self.config
    }

    pub closed spec fn catalog_seq(self) -> Seq<ToolSpec> {
        self.catalog@
    }

    pub closed spec fn conv(self) -> Seq<Message> {
        self.conversation@
    }

    pub closed spec fn calls_seq(self) -> Seq<ToolCall> {
        self.calls@
    }

    pub closed spec fn state(self) -> Phase {
        self.phase
    }

    /// The conversation invariant, and what each waiting phase remembers
    /// about the call it waits for.
    pub open spec fn wf(self) -> bool {
        &&& conversation_wf(self.conv())
        &&& match self.state() {
            Phase::AwaitingWeather { next, city } => {
                &&& (next as int) < self.calls_seq().len()
                &&& assistant_present(self.conv(), self.calls_seq())
                &&& self.calls_seq()[next as int].name@ == "getWeather"@
                &&& !call_fails(self.calls_seq()[next as int])
                &&& city@ == call_arg(self.calls_seq()[next as int])
            },
            Phase::AwaitingPage { next } => {
                &&& (next as int) < self.calls_seq().len()
                &&& assistant_present(self.conv(), self.calls_seq())
                &&& self.calls_seq()[next as int].name@ == "scraper"@
                &&& !call_fails(self.calls_seq()[next as int])
            },
            _ => true,
        }
    }

    pub fn config(&self) -> (r: &Config)
        ensures
            *r == self.cfg(),
    {
        &self.config
    }

    pub fn catalog(&self) -> (r: &Vec<ToolSpec>)
        ensures
            r@ == self.catalog_seq(),
    {
        &self.catalog
    }

    pub fn conversation_messages(&self) -> (r: &Vec<Message>)
        ensures
            r@ == self.conv(),
    {
        self.conversation.messages()
    }

    pub fn current_phase(&self) -> (r: &Phase)
        ensures
            *r == self.state(),
    {
        &self.phase
    }

    /// Opens a run: a conversation of the fixed instruction and the
    /// caller's input, ready to be submitted with the tool catalog.
    pub fn start(
        config: Config,
        catalog: Vec<ToolSpec>,
        system_prompt: String,
        user_input: String,
    ) -> (r: (Orchestrator, Action))
        ensures
            r.0.wf(),
            r.0.cfg() == config,
            r.0.catalog_seq() == catalog@,
            r.0.calls_seq() == Seq::<ToolCall>::empty(),
            r.0.state() is AwaitingFirstCompletion,
            r.0.conv().len() == 2,
            r.0.conv()[0] == (Message::System { text: system_prompt }),
            r.0.conv()[1] == (Message::User { text: user_input }),
            (r.1 matches Action::SubmitCompletion { with_tools } && with_tools),
    {
        let mut conversation = Conversation::new();
        conversation.push_system(system_prompt);
        conversation.push_user(user_input);
        let calls: Vec<ToolCall> = Vec::new();
        let o = Orchestrator {
            config,
            catalog,
            conversation,
            calls,
            phase: Phase::AwaitingFirstCompletion,
        };
        (o, Action::SubmitCompletion { with_tools: true })
    }

    /// The filter in front of the orchestrator: a message that does not
    /// begin with the configured trigger word is ignored, and no
    /// orchestrator — hence no provider call — comes to exist for it.
    /// The trigger word is stripped from a message that carries it.
    pub fn for_message(
        config: Config,
        catalog: Vec<ToolSpec>,
        system_prompt: String,
        msg: &str,
    ) -> (r: Option<(Orchestrator, Action)>)
        ensures
            match r {
                None => !config.trigger_word@.is_prefix_of(msg@),
                Some((o, action)) => {
                    &&& config.trigger_word@.is_prefix_of(msg@)
                    &&& o.wf()
                    &&& o.cfg() == config
                    &&& o.catalog_seq() == catalog@
                    &&& o.calls_seq() == Seq::<ToolCall>::empty()
                    &&& o.state() is AwaitingFirstCompletion
                    &&& o.conv().len() == 2
                    &&& o.conv()[0] matches Message::System { text } && text@ == system_prompt@
                    &&& o.conv()[1] matches Message::User { text } && text@ == msg@.skip(
                        config.trigger_word@.len() as int,
                    )
                    &&& action matches Action::SubmitCompletion { with_tools } && with_tools
                },
            },
    {
        let stripped = match strip_prefix_of(msg, config.trigger_word.as_str()) {
            None => {
                return None;
            },
            Some(s) => s,
        };
        Some(Self::start(config, catalog, system_prompt, stripped))
    }

    /// Receives a completion. On the first completion: either the first
    /// choice asks for tool use — then the assistant turn is recorded and
    /// the requested calls are executed in order — or the conversation is
    /// resubmitted as it stands. On the second completion: the run is
    /// over, and the final reply is the first choice's text content
    /// verbatim, or the literal fallback `no result` when it is absent.
    pub fn on_completion(&mut self, reply: ProviderReply) -> (action: Action)
        requires
            old(self).wf(),
            old(self).state() is AwaitingFirstCompletion || old(self).state()
                is AwaitingSecondCompletion,
        ensures
            final(self).wf(),
            final(self).cfg() == old(self).cfg(),
            final(self).catalog_seq() == old(self).catalog_seq(),
            final(self).conv().len() >= old(self).conv().len(),
            forall|i: int|
                0 <= i < old(self).conv().len() ==> final(self).conv()[i] == old(self).conv()[i],
            old(self).state() is AwaitingSecondCompletion ==> {
                &&& final(self).conv() == old(self).conv()
                &&& final(self).state() is Done
                &&& action matches Action::Finish { reply: text } && text@ == reply_content_text(
                    reply,
                )
            },
            old(self).state() is AwaitingFirstCompletion && !wants_tool_use(reply) ==> {
                &&& final(self).conv() == old(self).conv()
                &&& final(self).state() is AwaitingSecondCompletion
                &&& action matches Action::SubmitCompletion { with_tools } && !with_tools
            },
            old(self).state() is AwaitingFirstCompletion && wants_tool_use(reply) ==> {
                let calls = reply.choices@[0].tool_calls@;
                &&& final(self).calls_seq() == calls
                &&& final(self).conv().len() > old(self).conv().len()
                &&& final(self).conv()[old(self).conv().len() as int] matches Message::Assistant {
                    text,
                    tool_calls,
                } && text@ == assistant_text(reply) && tool_calls@ == calls
                &&& tools_advanced(
                    final(self).conv().take(old(self).conv().len() as int + 1),
                    calls,
                    0,
                    *final(self),
                    action,
                    old(self).cfg(),
                )
            },
    {
        match self.phase {
            Phase::AwaitingSecondCompletion => {
                let mut choices = reply.choices;
                let text = if choices.len() > 0 {
                    let first = choices.remove(0);
                    match first.content {
                        Some(t) => t,
                        None => String::from_str("no result"),
                    }
                } else {
                    String::from_str("no result")
                };
                self.phase = Phase::Done;
                Action::Finish { reply: text }
            },
            _ => {
                let wants = choices_want_tools(&reply);
                if !wants {
                    self.phase = Phase::AwaitingSecondCompletion;
                    return Action::SubmitCompletion { with_tools: false };
                }
                let mut choices = reply.choices;
                let first = choices.remove(0);
                let calls_vec = first.tool_calls;
                let atext = match first.content {
                    Some(t) => t,
                    None => String::new(),
                };
                let calls_clone = clone_calls(&calls_vec);
                let ghost pre_len = self.conversation@.len() as int;
                self.conversation.push_assistant(atext, calls_clone);
                self.calls = calls_vec;
                proof {
                    assert(assistant_with(self.conversation@[pre_len], self.calls@));
                    assert(assistant_present(self.conversation@, self.calls@));
                }
                let ghost pre1 = self.conversation@;
                let action = self.advance_tools(0);
                proof {
                    assert(self.conversation@.take(pre_len + 1) =~= pre1);
                }
                action
            },
        }
    }

    /// Receives the weather provider's outcome for the call being
    /// waited on, appends that call's result text, and carries on with
    /// the remaining calls.
    pub fn on_weather_response(&mut self, response: Option<HttpResponse>) -> (action: Action)
        requires
            old(self).wf(),
            old(self).state() matches Phase::AwaitingWeather { .. },
        ensures
            final(self).wf(),
            final(self).cfg() == old(self).cfg(),
            final(self).catalog_seq() == old(self).catalog_seq(),
            final(self).calls_seq() == old(self).calls_seq(),
            final(self).conv().len() > old(self).conv().len(),
            forall|i: int|
                0 <= i < old(self).conv().len() ==> final(self).conv()[i] == old(self).conv()[i],
            old(self).state() matches Phase::AwaitingWeather { next, city } ==> {
                let c = old(self).calls_seq()[next as int];
                &&& final(self).conv()[old(self).conv().len() as int]
                    matches Message::ToolResult { tool_call_id, tool_name, text }
                    && tool_call_id@ == c.id@ && tool_name@ == c.name@ && text@
                    == weather_event_text(city@, response)
                &&& tools_advanced(
                    final(self).conv().take(old(self).conv().len() as int + 1),
                    old(self).calls_seq(),
                    next as int + 1,
                    *final(self),
                    action,
                    old(self).cfg(),
                )
            },
    {
        let (next, city) = match &self.phase {
            Phase::AwaitingWeather { next, city } => (*next, city.clone()),
            _ => unreached(),
        };
        let text = match response {
            None => String::from_str("No city or incorrect spelling"),
            Some(resp) => {
                let ok = status_is_success(resp.status);
                weather_body_text(city.as_str(), ok, &resp.body)
            },
        };
        let id = self.calls[next].id.clone();
        let name = self.calls[next].name.clone();
        let ghost pre_len = self.conversation@.len() as int;
        proof {
            self.lemma_pending_justified(next as int, id, name, text);
        }
        self.conversation.push_tool_result(id, name, text);
        proof {
            let conv0 = old(self).conv();
            let j = choose|j: int|
                0 <= j < conv0.len() && assistant_with(#[trigger] conv0[j], old(self).calls_seq());
            assert(self.conversation@[j] == conv0[j]);
            assert(assistant_present(self.conversation@, self.calls@));
        }
        let total = self.calls.len();
        proof {
            assert(next < total);
        }
        let ghost pre1 = self.conversation@;
        let action = self.advance_tools(next + 1);
        proof {
            assert(self.conversation@.take(pre_len + 1) =~= pre1);
        }
        action
    }

    /// Receives the fetched page text (or its absence) for the call
    /// being waited on, appends that call's result text, and carries on
    /// with the remaining calls.
    pub fn on_page_text(&mut self, fetched: Option<String>) -> (action: Action)
        requires
            old(self).wf(),
            old(self).state() matches Phase::AwaitingPage { .. },
        ensures
            final(self).wf(),
            final(self).cfg() == old(self).cfg(),
            final(self).catalog_seq() == old(self).catalog_seq(),
            final(self).calls_seq() == old(self).calls_seq(),
            final(self).conv().len() > old(self).conv().len(),
            forall|i: int|
                0 <= i < old(self).conv().len() ==> final(self).conv()[i] == old(self).conv()[i],
            old(self).state() matches Phase::AwaitingPage { next } ==> {
                let c = old(self).calls_seq()[next as int];
                &&& final(self).conv()[old(self).conv().len() as int]
                    matches Message::ToolResult { tool_call_id, tool_name, text }
                    && tool_call_id@ == c.id@ && tool_name@ == c.name@ && text@ == page_text_of(
                    fetched,
                )
                &&& tools_advanced(
                    final(self).conv().take(old(self).conv().len() as int + 1),
                    old(self).calls_seq(),
                    next as int + 1,
                    *final(self),
                    action,
                    old(self).cfg(),
                )
            },
    {
        let next = match &self.phase {
            Phase::AwaitingPage { next } => *next,
            _ => unreached(),
        };
        let text = page_text_result(fetched);
        let id = self.calls[next].id.clone();
        let name = self.calls[next].name.clone();
        let ghost pre_len = self.conversation@.len() as int;
        proof {
            self.lemma_pending_justified(next as int, id, name, text);
        }
        self.conversation.push_tool_result(id, name, text);
        proof {
            let conv0 = old(self).conv();
            let j = choose|j: int|
                0 <= j < conv0.len() && assistant_with(#[trigger] conv0[j], old(self).calls_seq());
            assert(self.conversation@[j] == conv0[j]);
            assert(assistant_present(self.conversation@, self.calls@));
        }
        let total = self.calls.len();
        proof {
            assert(next < total);
        }
        let ghost pre1 = self.conversation@;
        let action = self.advance_tools(next + 1);
        proof {
            assert(self.conversation@.take(pre_len + 1) =~= pre1);
        }
        action
    }

    /// A tool result for the call at `next` is justified by the
    /// assistant turn already in the conversation.
    proof fn lemma_pending_justified(self, next: int, id: String, name: String, text: String)
        requires
            assistant_present(self.conv(), self.calls_seq()),
            0 <= next < self.calls_seq().len(),
            id@ == self.calls_seq()[next].id@,
            name@ == self.calls_seq()[next].name@,
        ensures
            exists|j: int|
                0 <= j < self.conv().len() && (Message::ToolResult {
                    tool_call_id: id,
                    tool_name: name,
                    text: text,
                }).justified_by(#[trigger] self.conv()[j]),
    {
        let j = choose|j: int|
            0 <= j < self.conv().len() && assistant_with(#[trigger] self.conv()[j], self.calls_seq());
        let m = Message::ToolResult { tool_call_id: id, tool_name: name, text: text };
        match self.conv()[j] {
            Message::Assistant { tool_calls, .. } => {
                assert(tool_calls@[next] == self.calls_seq()[next]);
                assert(m.justified_by(self.conv()[j]));
            },
            _ => {
                assert(false);
            },
        }
    }

    /// Executes the requested calls from index `from` on: immediate
    /// tools are answered and their results appended in order, a failing
    /// call aborts the run, and a network-bound tool hands an action to
    /// the embedding program and waits.
    fn advance_tools(&mut self, from: usize) -> (action: Action)
        requires
            conversation_wf(old(self).conv()),
            assistant_present(old(self).conv(), old(self).calls_seq()),
            from <= old(self).calls_seq().len(),
        ensures
            final(self).wf(),
            final(self).cfg() == old(self).cfg(),
            final(self).catalog_seq() == old(self).catalog_seq(),
            final(self).calls_seq() == old(self).calls_seq(),
            final(self).conv().len() >= old(self).conv().len(),
            forall|i: int|
                0 <= i < old(self).conv().len() ==> final(self).conv()[i] == old(self).conv()[i],
            tools_advanced(
                old(self).conv(),
                old(self).calls_seq(),
                from as int,
                *final(self),
                action,
                old(self).cfg(),
            ),
    {
        let ghost pre_conv = self.conversation@;
        let ghost calls0 = self.calls@;
        let n = self.calls.len();
        let mut i: usize = from;
        while i < n
            invariant
                pre_conv == old(self).conv(),
                calls0 == old(self).calls_seq(),
                n == self.calls@.len(),
                from <= i <= n,
                self.calls@ == calls0,
                self.config == old(self).config,
                self.catalog@ == old(self).catalog@,
                conversation_wf(self.conversation@),
                assistant_present(self.conversation@, self.calls@),
                self.conversation@.len() == pre_conv.len() + (i - from),
                forall|j: int| 0 <= j < pre_conv.len() ==> self.conversation@[j] == pre_conv[j],
                forall|k: int|
                    0 <= k < i - from ==> result_matches(
                        #[trigger] self.conversation@[pre_conv.len() + k],
                        calls0[from + k],
                    ),
                forall|k: int| from <= k < i ==> call_immediate(#[trigger] calls0[k]),
            decreases n - i,
        {
            let ghost conv_before = self.conversation@;
            proof {
                lemma_tool_names_distinct();
            }
            let id = self.calls[i].id.clone();
            let name = self.calls[i].name.clone();
            let is_hello = str_eq(name.as_str(), "helloWorld");
            let is_time = str_eq(name.as_str(), "getTimeOfDay");
            let is_weather = str_eq(name.as_str(), "getWeather");
            let is_scraper = str_eq(name.as_str(), "scraper");
            if is_hello {
                match string_arg(self.calls[i].arguments.as_str(), "appendString") {
                    ArgLookup::NoParse => {
                        self.phase = Phase::Failed;
                        proof {
                            lemma_first_stop_is(calls0, from as int, i as int);
                        }
                        return Action::Fail {
                            error: OrchestratorError::ArgumentParse { tool: name },
                        };
                    },
                    ArgLookup::Missing => {
                        self.phase = Phase::Failed;
                        proof {
                            lemma_first_stop_is(calls0, from as int, i as int);
                        }
                        return Action::Fail {
                            error: OrchestratorError::MissingArgument {
                                tool: name,
                                key: String::from_str("appendString"),
                            },
                        };
                    },
                    ArgLookup::Found(v) => {
                        let text = hello_world(v.as_str());
                        proof {
                            self.lemma_pending_justified(i as int, id, name, text);
                        }
                        self.conversation.push_tool_result(id, name, text);
                    },
                }
            } else if is_time {
                let text = now_rfc3339();
                proof {
                    self.lemma_pending_justified(i as int, id, name, text);
                }
                self.conversation.push_tool_result(id, name, text);
            } else if is_weather {
                match string_arg(self.calls[i].arguments.as_str(), "city") {
                    ArgLookup::NoParse => {
                        self.phase = Phase::Failed;
                        proof {
                            lemma_first_stop_is(calls0, from as int, i as int);
                        }
                        return Action::Fail {
                            error: OrchestratorError::ArgumentParse { tool: name },
                        };
                    },
                    ArgLookup::Missing => {
                        self.phase = Phase::Failed;
                        proof {
                            lemma_first_stop_is(calls0, from as int, i as int);
                        }
                        return Action::Fail {
                            error: OrchestratorError::MissingArgument {
                                tool: name,
                                key: String::from_str("city"),
                            },
                        };
                    },
                    ArgLookup::Found(city) => {
                        let url = build_weather_url(
                            city.as_str(),
                            self.config.weather_api_key.as_str(),
                        );
                        self.phase = Phase::AwaitingWeather { next: i, city };
                        proof {
                            lemma_first_stop_is(calls0, from as int, i as int);
                        }
                        return Action::HttpGet { url };
                    },
                }
            } else if is_scraper {
                match string_arg(self.calls[i].arguments.as_str(), "url") {
                    ArgLookup::NoParse => {
                        self.phase = Phase::Failed;
                        proof {
                            lemma_first_stop_is(calls0, from as int, i as int);
                        }
                        return Action::Fail {
                            error: OrchestratorError::ArgumentParse { tool: name },
                        };
                    },
                    ArgLookup::Missing => {
                        self.phase = Phase::Failed;
                        proof {
                            lemma_first_stop_is(calls0, from as int, i as int);
                        }
                        return Action::Fail {
                            error: OrchestratorError::MissingArgument {
                                tool: name,
                                key: String::from_str("url"),
                            },
                        };
                    },
                    ArgLookup::Found(url) => {
                        self.phase = Phase::AwaitingPage { next: i };
                        proof {
                            lemma_first_stop_is(calls0, from as int, i as int);
                        }
                        return Action::FetchPage { url };
                    },
                }
            } else {
                let text = String::new();
                proof {
                    self.lemma_pending_justified(i as int, id, name, text);
                }
                self.conversation.push_tool_result(id, name, text);
            }
            proof {
                let j = choose|j: int|
                    0 <= j < conv_before.len() && assistant_with(#[trigger] conv_before[j], calls0);
                assert(self.conversation@[j] == conv_before[j]);
                assert(assistant_present(self.conversation@, self.calls@));
            }
            i += 1;
        }
        self.phase = Phase::AwaitingSecondCompletion;
        proof {
            lemma_first_stop_is(calls0, from as int, n as int);
        }
        Action::SubmitCompletion { with_tools: false }
    }
}

/// Tool results land in the order the calls were listed: the `k`-th turn
/// appended by the execution loop carries the id and the name of the
/// `k`-th requested call, and its text is the one that call's tool owes.
pub proof fn lemma_results_follow_call_order(
    pre_conv: Seq<Message>,
    calls: Seq<ToolCall>,
    from: int,
    post: Orchestrator,
    action: Action,
    cfg: Config,
    k: int,
)
    requires
        tools_advanced(pre_conv, calls, from, post, action, cfg),
        0 <= k < first_stop(calls, from) - from,
    ensures
        (post.conv()[pre_conv.len() + k] matches Message::ToolResult { tool_call_id, tool_name, text }
            && tool_call_id@ == calls[from + k].id@ && tool_name@ == calls[from + k].name@
            && immediate_text_ok(calls[from + k], text@)),
{
    assert(result_matches(post.conv()[pre_conv.len() + k], calls[from + k]));
}

/// The first choice asks for tool use (the run's only branching point
/// on a provider response).
fn choices_want_tools(reply: &ProviderReply) -> (r: bool)
    ensures
        r == wants_tool_use(*reply),
{
    reply.choices.len() > 0 && reply.choices[0].finish_tool_calls
}

/// Each element of a tool-call list, cloned value for value.
fn clone_calls(calls: &Vec<ToolCall>) -> (r: Vec<ToolCall>)
    ensures
        r@ == calls@,
{
    let r = calls.clone();
    proof {
        assert forall|i: int| 0 <= i < calls@.len() implies r@[i] == calls@[i] by {
            assert(cloned::<ToolCall>(calls@[i], r@[i]));
        }
        assert(r@ =~= calls@);
    }
    r
}

} // verus!
