//! The per-connection session engine: a state machine from events (inbound
//! frames, timer ticks, upstream call outcomes, stream fragments) to ordered
//! outbound actions.
//!
//! The unverified shell owns the transport and the upstream clients; it
//! feeds every event that becomes ready into [`Session::step`] and performs
//! the returned actions in order.  The engine owns the conversation history
//! and never lets two request cycles overlap: a new question is only
//! accepted in `AwaitingInput`, and a generation stream is fully drained (or
//! the session closed) before the next one starts.

use vstd::prelude::*;
use vstd::string::*;
use crate::envs::Config;
use crate::llm::Role;
use crate::llm::ChatTurn;
use crate::llm::clone_history;
use crate::llm::history_block_spec;
use crate::llm::get_history_as_str;
use crate::llm::prompt_template;
use crate::llm::build_prompt;
use crate::llm::reformulation_prompt_spec;
use crate::llm::build_reformulation_prompt;
use crate::frames::FrameKind;
use crate::frames::OutboundFrame;
use crate::frames::frame_payload_of;
use crate::frames::extract_payload;
use crate::embeddings::serialized_bytes;
use crate::embeddings::serialize_vector;
use crate::resp::RespValue;
use crate::vector_store::VectorSearchResponses;
use crate::vector_store::responses_of;
use crate::vector_store::context_of;
use crate::vector_store::get_context_from_result;
use crate::vector_store::knn_query_spec;
use crate::vector_store::build_knn_query;

verus! {

/// Where a session stands in its request cycle.
pub enum EngineState {
    /// No request cycle is in flight.
    AwaitingInput,
    /// Waiting for the reformulation completion of `question`.
    Reformulating { question: String },
    /// Waiting for the embedding of the (reformulated) `question`.
    Embedding { question: String },
    /// Waiting for the similarity search issued for `question`.
    Searching { question: String },
    /// Waiting for stream fragments; `accumulated` holds the fragments seen
    /// so far, in order.
    Generating { accumulated: String },
    /// Terminal: the connection is gone.
    Closed,
}

/// One event a session may have to handle.
#[allow(inconsistent_fields)]
pub enum Event {
    /// An inbound text frame, still encoded.
    Frame { text: String },
    /// A close frame, a transport error or a connection drop.
    CloseRequested,
    /// The keepalive timer fired.
    Tick,
    /// The reformulation completion returned.
    Reformulated { outcome: Result<String, ()> },
    /// The embedding call returned (element bit patterns).
    Embedded { outcome: Result<Vec<u32>, ()> },
    /// The similarity search returned (the decoded wire reply).
    SearchResponse { outcome: Result<RespValue, ()> },
    /// One fragment of the generation stream.
    Fragment { content: String, is_final: bool },
    /// The generation stream failed mid-way.
    StreamFailed,
}

/// One outbound action; the shell performs them in order.
#[derive(Debug)]
pub enum Action {
    /// Send this frame on the transport.
    Send(OutboundFrame),
    /// Send a protocol-level keepalive ping.
    Ping,
    /// Ask the generation service for one non-streaming completion.
    Reformulate { prompt: String },
    /// Ask the generation service to embed this text.
    Embed { text: String },
    /// Run the similarity search with this query string, serialized vector,
    /// ranking width and result-window cap.
    Search { query: String, vector: Vec<u8>, k: usize, window: usize },
    /// Start a history-attached generation stream over this snapshot.
    StreamWithHistory { history: Vec<ChatTurn>, prompt: String },
    /// Start a stateless generation stream (system prompt plus prompt only).
    StreamStateless { system_prompt: String, prompt: String },
    /// Close the connection and release the session.
    Disconnect,
}

/// One live session: its settings, its conversation history and its state.
pub struct Session {
    pub use_chat_history: bool,
    pub use_index: bool,
    pub max_results: usize,
    pub result_window: usize,
    pub index_name: String,
    pub system_prompt: String,
    pub history: Vec<ChatTurn>,
    pub state: EngineState,
}

/// The read-only settings are never changed by a step.
pub open spec fn same_settings(pre: Session, post: Session) -> bool {
    &&& post.use_chat_history == pre.use_chat_history
    &&& post.use_index == pre.use_index
    &&& post.max_results == pre.max_results
    &&& post.result_window == pre.result_window
    &&& post.index_name == pre.index_name
    &&& post.system_prompt == pre.system_prompt
}

/// Whether an action sends one frame of the given kind and payload.
pub open spec fn frame_is(a: Action, k: FrameKind, payload: Seq<char>) -> bool {
    a matches Action::Send(f) && f.kind == k && f.payload@ == payload
}

/// After an upstream failure mid-cycle: one visible failure frame, history
/// untouched (no partial turn is kept), back to awaiting input.
pub open spec fn upstream_error_step(pre: Session, post: Session, actions: Seq<Action>) -> bool {
    &&& same_settings(pre, post)
    &&& post.history@ == pre.history@
    &&& post.state is AwaitingInput
    &&& actions.len() == 1
    &&& frame_is(actions[0], FrameKind::ErrorMessage, "upstream failure"@)
}

/// Starting a generation for `question` with assembled `context`: the built
/// prompt is appended to history as the cycle's one user turn, the stream is
/// started (history-attached or stateless by the setting), and the engine
/// waits for fragments with an empty accumulator.
pub open spec fn generation_start(
    pre: Session,
    post: Session,
    question: Seq<char>,
    context: Seq<char>,
    tail: Seq<Action>,
) -> bool {
    let prompt = prompt_template(context, question);
    &&& same_settings(pre, post)
    &&& post.history@.len() == pre.history@.len() + 1
    &&& post.history@.take(pre.history@.len() as int) == pre.history@
    &&& post.history@.last().role == Role::User
    &&& post.history@.last().content@ == prompt
    &&& (post.state matches EngineState::Generating { accumulated } && accumulated@
        == Seq::<char>::empty())
    &&& tail.len() == 1
    &&& if pre.use_chat_history {
        tail[0] matches Action::StreamWithHistory { history, prompt: p } && history@
            == post.history@ && p@ == prompt
    } else {
        tail[0] matches Action::StreamStateless { system_prompt, prompt: p } && system_prompt@
            == pre.system_prompt@ && p@ == prompt
    }
}

/// Dispatch of a settled question: to the embedding call when retrieval is
/// enabled, else straight to generation with an empty context.
pub open spec fn question_dispatch(
    pre: Session,
    post: Session,
    question: Seq<char>,
    tail: Seq<Action>,
) -> bool {
    if pre.use_index {
        &&& same_settings(pre, post)
        &&& post.history@ == pre.history@
        &&& (post.state matches EngineState::Embedding { question: q } && q@ == question)
        &&& tail.len() == 1
        &&& (tail[0] matches Action::Embed { text } && text@ == question)
    } else {
        generation_start(pre, post, question, Seq::empty(), tail)
    }
}

/// Handling one inbound frame, given its decoded `payload` field.  Frames
/// are only read while no cycle is in flight; a frame without a string
/// payload is a protocol error answered with a failure frame and nothing
/// else; a frame with an empty payload starts no cycle and is ignored; a
/// question is echoed and then either sent to reformulation (only when
/// chat-history mode is off and prior turns exist) or dispatched directly.
pub open spec fn frame_step(
    pre: Session,
    post: Session,
    payload: Option<Seq<char>>,
    actions: Seq<Action>,
) -> bool {
    if !(pre.state is AwaitingInput) {
        post == pre && actions.len() == 0
    } else {
        match payload {
            None => {
                &&& post == pre
                &&& actions.len() == 1
                &&& frame_is(actions[0], FrameKind::ErrorMessage, "malformed frame"@)
            },
            Some(p) => {
                if p.len() == 0 {
                    post == pre && actions.len() == 0
                } else {
                    &&& actions.len() >= 1
                    &&& frame_is(actions[0], FrameKind::UserMessage, p)
                    &&& if !pre.use_chat_history && history_block_spec(pre.history@).len() != 0 {
                        &&& same_settings(pre, post)
                        &&& post.history@ == pre.history@
                        &&& (post.state matches EngineState::Reformulating { question }
                            && question@ == p)
                        &&& actions.len() == 2
                        &&& (actions[1] matches Action::Reformulate { prompt } && prompt@
                            == reformulation_prompt_spec(history_block_spec(pre.history@), p))
                    } else {
                        question_dispatch(pre, post, p, actions.skip(1))
                    }
                }
            },
        }
    }
}

/// Handling the reformulation outcome: the reformulated text replaces the
/// question verbatim; a failure is an upstream error.
pub open spec fn reformulated_step(
    pre: Session,
    post: Session,
    outcome: Result<String, ()>,
    actions: Seq<Action>,
) -> bool {
    match pre.state {
        EngineState::Reformulating { .. } => match outcome {
            Ok(q2) => question_dispatch(pre, post, q2@, actions),
            Err(_) => upstream_error_step(pre, post, actions),
        },
        _ => post == pre && actions.len() == 0,
    }
}

/// Handling the embedding outcome: the vector is serialized and the search
/// is issued with the configured index name, ranking width and window cap.
pub open spec fn embedded_step(
    pre: Session,
    post: Session,
    outcome: Result<Vec<u32>, ()>,
    actions: Seq<Action>,
) -> bool {
    match pre.state {
        EngineState::Embedding { question } => match outcome {
            Ok(v) => {
                &&& same_settings(pre, post)
                &&& post.history@ == pre.history@
                &&& (post.state matches EngineState::Searching { question: q } && q@ == question@)
                &&& actions.len() == 1
                &&& (actions[0] matches Action::Search { query, vector, k, window } && query@
                    == knn_query_spec(pre.index_name@, pre.max_results as nat) && vector@
                    == serialized_bytes(v@) && k == pre.max_results && window == pre.result_window)
            },
            Err(_) => upstream_error_step(pre, post, actions),
        },
        _ => post == pre && actions.len() == 0,
    }
}

/// The context a search reply yields: the assembled passage texts for an
/// array reply, the empty context for any malformed reply (not an error).
pub open spec fn retrieved_context(v: RespValue) -> Seq<char> {
    match v {
        RespValue::Array(items) => context_of(responses_of(items@)),
        _ => Seq::empty(),
    }
}

/// Handling the search outcome: a reply (even empty or malformed) starts
/// generation with the context it yields; a failed call is an upstream
/// error.
pub open spec fn search_step(
    pre: Session,
    post: Session,
    outcome: Result<RespValue, ()>,
    actions: Seq<Action>,
) -> bool {
    match pre.state {
        EngineState::Searching { question } => match outcome {
            Ok(v) => generation_start(pre, post, question@, retrieved_context(v), actions),
            Err(_) => upstream_error_step(pre, post, actions),
        },
        _ => post == pre && actions.len() == 0,
    }
}

/// Handling one stream fragment: a non-final fragment is forwarded as a
/// chunk frame and accumulated; the final fragment is forwarded as the
/// stream-end frame and the whole accumulated answer becomes the cycle's
/// one assistant turn.
pub open spec fn fragment_step(
    pre: Session,
    post: Session,
    content: Seq<char>,
    is_final: bool,
    actions: Seq<Action>,
) -> bool {
    match pre.state {
        EngineState::Generating { accumulated } => {
            if !is_final {
                &&& same_settings(pre, post)
                &&& post.history@ == pre.history@
                &&& (post.state matches EngineState::Generating { accumulated: a2 } && a2@
                    == accumulated@ + content)
                &&& actions.len() == 1
                &&& frame_is(actions[0], FrameKind::BotStreamChunk, content)
            } else {
                &&& same_settings(pre, post)
                &&& post.history@.len() == pre.history@.len() + 1
                &&& post.history@.take(pre.history@.len() as int) == pre.history@
                &&& post.history@.last().role == Role::Assistant
                &&& post.history@.last().content@ == accumulated@ + content
                &&& post.state is AwaitingInput
                &&& actions.len() == 1
                &&& frame_is(actions[0], FrameKind::BotStreamEnd, content)
            }
        },
        _ => post == pre && actions.len() == 0,
    }
}

/// Handling a stream failure: an upstream error; the partial answer is
/// dropped, no assistant turn is appended.
pub open spec fn stream_failed_step(pre: Session, post: Session, actions: Seq<Action>) -> bool {
    match pre.state {
        EngineState::Generating { .. } => upstream_error_step(pre, post, actions),
        _ => post == pre && actions.len() == 0,
    }
}

/// Handling a close frame, transport error or drop: terminal from every
/// state, with no further turn appended.
pub open spec fn close_step(pre: Session, post: Session, actions: Seq<Action>) -> bool {
    &&& same_settings(pre, post)
    &&& post.history@ == pre.history@
    &&& post.state is Closed
    &&& actions.len() == 1
    &&& actions[0] is Disconnect
}

/// Handling a timer tick: a keepalive ping in every state but `Closed`,
/// never touching the rest of the session — in particular an in-flight
/// generation does not suppress it.
pub open spec fn tick_step(pre: Session, post: Session, actions: Seq<Action>) -> bool {
    &&& post == pre
    &&& if pre.state is Closed {
        actions.len() == 0
    } else {
        actions.len() == 1 && actions[0] is Ping
    }
}

/// The number of assistant turns a history holds.
pub open spec fn assistant_turns(h: Seq<ChatTurn>) -> nat
    decreases h.len(),
{
    if h.len() == 0 {
        0
    } else {
        assistant_turns(h.drop_last()) + (if h.last().role == Role::Assistant {
            1nat
        } else {
            0nat
        })
    }
}

/// Law: a fragment step appends exactly one assistant turn when it delivers
/// the final fragment of an in-flight stream, and none otherwise — so a
/// completed request cycle appends exactly one.
pub proof fn lemma_one_assistant_turn_per_cycle(
    pre: Session,
    post: Session,
    content: Seq<char>,
    is_final: bool,
    actions: Seq<Action>,
)
    requires
        fragment_step(pre, post, content, is_final, actions),
    ensures
        assistant_turns(post.history@) == assistant_turns(pre.history@) + (
        if pre.state is Generating && is_final {
            1nat
        } else {
            0nat
        }),
{
    if pre.state is Generating && is_final {
        assert(post.history@.drop_last() =~= pre.history@);
    }
}

/// Law: an aborted cycle appends no assistant turn — neither a close or
/// transport error nor a stream failure changes the count; the partial
/// answer is dropped.
pub proof fn lemma_no_assistant_turn_on_abort(pre: Session, post: Session, actions: Seq<Action>)
    requires
        close_step(pre, post, actions) || stream_failed_step(pre, post, actions),
    ensures
        assistant_turns(post.history@) == assistant_turns(pre.history@),
{
}

/// Law: accepting a question appends at most the cycle's user prompt turn,
/// never an assistant turn.
pub proof fn lemma_no_assistant_turn_on_accept(
    pre: Session,
    post: Session,
    payload: Option<Seq<char>>,
    actions: Seq<Action>,
)
    requires
        frame_step(pre, post, payload, actions),
    ensures
        assistant_turns(post.history@) == assistant_turns(pre.history@),
{
    if post.history@.len() == pre.history@.len() + 1 {
        assert(post.history@.drop_last() =~= pre.history@);
    }
}

/// Law: starting a generation appends the cycle's user prompt turn and no
/// assistant turn — the cycle's one assistant turn arrives only with the
/// final fragment.
pub proof fn lemma_no_assistant_turn_on_generation_start(
    pre: Session,
    post: Session,
    question: Seq<char>,
    context: Seq<char>,
    tail: Seq<Action>,
)
    requires
        generation_start(pre, post, question, context, tail),
    ensures
        assistant_turns(post.history@) == assistant_turns(pre.history@),
{
    assert(post.history@.drop_last() =~= pre.history@);
}

/// The concatenation of a run of fragment contents, in order.
pub open spec fn concat_contents(fs: Seq<Seq<char>>) -> Seq<char>
    decreases fs.len(),
{
    if fs.len() == 0 {
        Seq::empty()
    } else {
        concat_contents(fs.drop_last()) + fs.last()
    }
}

/// A run of non-final fragments fed to a session in order: `states[i]` and
/// `actionss[i]` are the session and the actions after the i-th fragment.
pub open spec fn stream_trace(
    s0: Session,
    frags: Seq<Seq<char>>,
    states: Seq<Session>,
    actionss: Seq<Seq<Action>>,
) -> bool {
    &&& states.len() == frags.len()
    &&& actionss.len() == frags.len()
    &&& forall|i: int|
        0 <= i < frags.len() ==> fragment_step(
            if i == 0 {
                s0
            } else {
                states[i - 1]
            },
            states[i],
            frags[i],
            false,
            #[trigger] actionss[i],
        )
}

/// The state chain of a fragment run, one index at a time: after the i-th
/// non-final fragment the session is still generating, its accumulator
/// holds the contents so far, and history and settings are untouched.
proof fn lemma_stream_prefix(
    s0: Session,
    acc0: Seq<char>,
    frags: Seq<Seq<char>>,
    states: Seq<Session>,
    actionss: Seq<Seq<Action>>,
    i: int,
)
    requires
        s0.state matches EngineState::Generating { accumulated } && accumulated@ == acc0,
        stream_trace(s0, frags, states, actionss),
        0 <= i < frags.len(),
    ensures
        states[i].history@ == s0.history@,
        same_settings(s0, states[i]),
        states[i].state matches EngineState::Generating { accumulated } && accumulated@ == acc0
            + concat_contents(frags.take(i + 1)),
    decreases i,
{
    if i > 0 {
        lemma_stream_prefix(s0, acc0, frags, states, actionss, i - 1);
    }
    let prev = if i == 0 {
        s0
    } else {
        states[i - 1]
    };
    assert(fragment_step(prev, states[i], frags[i], false, actionss[i]));
    assert(frags.take(i + 1).drop_last() =~= frags.take(i));
    assert(frags.take(i + 1).last() == frags[i]);
    if i == 0 {
        assert(frags.take(0).len() == 0);
        assert(concat_contents(frags.take(0)) == Seq::<char>::empty());
        assert(acc0 + frags[0] =~= acc0 + (Seq::<char>::empty() + frags[0]));
    } else {
        assert((acc0 + concat_contents(frags.take(i))) + frags[i] =~= acc0 + concat_contents(
            frags.take(i + 1),
        ));
    }
}

/// Law: however many non-final fragments a stream yields, feeding them in
/// order to a generating session answers each with exactly one chunk frame
/// carrying that fragment's content, in the same order, while the history
/// and settings stay untouched and the session keeps generating with the
/// concatenation accumulated.
pub proof fn lemma_stream_chunks(
    s0: Session,
    acc0: Seq<char>,
    frags: Seq<Seq<char>>,
    states: Seq<Session>,
    actionss: Seq<Seq<Action>>,
)
    requires
        s0.state matches EngineState::Generating { accumulated } && accumulated@ == acc0,
        stream_trace(s0, frags, states, actionss),
    ensures
        forall|i: int|
            0 <= i < frags.len() ==> (#[trigger] actionss[i]).len() == 1 && frame_is(
                actionss[i][0],
                FrameKind::BotStreamChunk,
                frags[i],
            ),
        forall|i: int|
            0 <= i < states.len() ==> (#[trigger] states[i]).history@ == s0.history@
                && same_settings(s0, states[i]),
        frags.len() > 0 ==> (states.last().state matches EngineState::Generating { accumulated }
            && accumulated@ == acc0 + concat_contents(frags)),
{
    let n = frags.len() as int;
    assert forall|i: int| 0 <= i < n implies (#[trigger] actionss[i]).len() == 1 && frame_is(
        actionss[i][0],
        FrameKind::BotStreamChunk,
        frags[i],
    ) by {
        if i > 0 {
            lemma_stream_prefix(s0, acc0, frags, states, actionss, i - 1);
        }
        let prev = if i == 0 {
            s0
        } else {
            states[i - 1]
        };
        assert(fragment_step(prev, states[i], frags[i], false, actionss[i]));
    }
    assert forall|i: int| 0 <= i < n implies (#[trigger] states[i]).history@ == s0.history@
        && same_settings(s0, states[i]) by {
        lemma_stream_prefix(s0, acc0, frags, states, actionss, i);
    }
    if n > 0 {
        lemma_stream_prefix(s0, acc0, frags, states, actionss, n - 1);
        assert(frags.take(n) =~= frags);
    }
}

/// Law: a whole completed stream — non-final fragments, then the final one
/// — delivers exactly one chunk frame per non-final fragment in order (the
/// lemma above), then exactly one stream-end frame, and appends exactly one
/// assistant turn holding the concatenation of every fragment's content, in
/// order, returning the session to awaiting input.
pub proof fn lemma_stream_completion(
    s0: Session,
    acc0: Seq<char>,
    frags: Seq<Seq<char>>,
    states: Seq<Session>,
    actionss: Seq<Seq<Action>>,
    post: Session,
    last_content: Seq<char>,
    end_actions: Seq<Action>,
)
    requires
        s0.state matches EngineState::Generating { accumulated } && accumulated@ == acc0,
        stream_trace(s0, frags, states, actionss),
        fragment_step(
            if frags.len() == 0 {
                s0
            } else {
                states.last()
            },
            post,
            last_content,
            true,
            end_actions,
        ),
    ensures
        end_actions.len() == 1,
        frame_is(end_actions[0], FrameKind::BotStreamEnd, last_content),
        post.history@.len() == s0.history@.len() + 1,
        post.history@.take(s0.history@.len() as int) == s0.history@,
        post.history@.last().role == Role::Assistant,
        post.history@.last().content@ == acc0 + concat_contents(frags) + last_content,
        post.state is AwaitingInput,
        same_settings(s0, post),
{
    lemma_stream_chunks(s0, acc0, frags, states, actionss);
    if frags.len() == 0 {
        assert(acc0 + concat_contents(frags) =~= acc0);
    }
}

/// The decoded payload of an already-decoded frame value.
pub open spec fn opt_view(p: Option<String>) -> Option<Seq<char>> {
    match p {
        Some(s) => Some(s@),
        None => None,
    }
}

impl Session {
    /// The session invariant: the history always starts with the system
    /// turn inserted at creation.
    pub open spec fn wf(self) -> bool {
        &&& self.history@.len() >= 1
        &&& self.history@[0].role == Role::System
    }

    /// A fresh session for one connection: the configured settings, a
    /// history holding only the system turn, no cycle in flight.
    pub fn new(config: &Config) -> (s: Session)
        ensures
            s.use_chat_history == config.use_chat_history,
            s.use_index == config.use_index,
            s.max_results == config.max_results,
            s.result_window == config.result_window,
            s.index_name@ == config.index_name@,
            s.system_prompt@ == config.system_prompt@,
            s.history@.len() == 1,
            s.history@[0].role == Role::System,
            s.history@[0].content@ == config.system_prompt@,
            s.state is AwaitingInput,
            s.wf(),
    {
        let mut history: Vec<ChatTurn> = Vec::new();
        history.push(ChatTurn::new(Role::System, config.system_prompt.clone()));
        Session {
            use_chat_history: config.use_chat_history,
            use_index: config.use_index,
            max_results: config.max_results,
            result_window: config.result_window,
            index_name: config.index_name.clone(),
            system_prompt: config.system_prompt.clone(),
            history,
            state: EngineState::AwaitingInput,
        }
    }

    /// Appends the cycle's user turn and starts the stream.
    fn start_generation(&mut self, question: String, context: String, actions: &mut Vec<Action>)
        ensures
            final(actions)@.len() == old(actions)@.len() + 1,
            final(actions)@.take(old(actions)@.len() as int) == old(actions)@,
            generation_start(
                *old(self),
                *final(self),
                question@,
                context@,
                final(actions)@.skip(old(actions)@.len() as int),
            ),
    {
        let prompt = build_prompt(context, question);
        let turn = ChatTurn::new(Role::User, prompt.clone());
        self.history.push(turn);
        proof {
            assert(self.history@.take(old(self).history@.len() as int) =~= old(self).history@);
        }
        if self.use_chat_history {
            let snapshot = clone_history(&self.history);
            actions.push(Action::StreamWithHistory { history: snapshot, prompt });
        } else {
            actions.push(
                Action::StreamStateless { system_prompt: self.system_prompt.clone(), prompt },
            );
        }
        self.state = EngineState::Generating { accumulated: String::new() };
        proof {
            assert(actions@.take(old(actions)@.len() as int) =~= old(actions)@);
            assert(actions@.skip(old(actions)@.len() as int) =~= seq![
                actions@[old(actions)@.len() as int],
            ]);
        }
    }

    /// Dispatches a settled question into retrieval or generation.
    fn dispatch_question(&mut self, question: String, actions: &mut Vec<Action>)
        ensures
            final(actions)@.len() == old(actions)@.len() + 1,
            final(actions)@.take(old(actions)@.len() as int) == old(actions)@,
            question_dispatch(
                *old(self),
                *final(self),
                question@,
                final(actions)@.skip(old(actions)@.len() as int),
            ),
    {
        if self.use_index {
            actions.push(Action::Embed { text: question.clone() });
            self.state = EngineState::Embedding { question };
            proof {
                assert(actions@.take(old(actions)@.len() as int) =~= old(actions)@);
                assert(actions@.skip(old(actions)@.len() as int) =~= seq![
                    actions@[old(actions)@.len() as int],
                ]);
            }
        } else {
            self.start_generation(question, String::new(), actions);
        }
    }

    /// One visible failure frame, back to awaiting input.
    fn upstream_error(&mut self) -> (actions: Vec<Action>)
        ensures
            upstream_error_step(*old(self), *final(self), actions@),
    {
        self.state = EngineState::AwaitingInput;
        let mut actions: Vec<Action> = Vec::new();
        actions.push(
            Action::Send(
                OutboundFrame {
                    kind: FrameKind::ErrorMessage,
                    payload: String::from_str("upstream failure"),
                },
            ),
        );
        actions
    }

    /// Handles one inbound frame given its decoded payload field.
    pub fn on_payload(&mut self, payload: Option<String>) -> (actions: Vec<Action>)
        ensures
            frame_step(*old(self), *final(self), opt_view(payload), actions@),
            old(self).wf() ==> final(self).wf(),
    {
        let awaiting = match &self.state {
            EngineState::AwaitingInput => true,
            _ => false,
        };
        if !awaiting {
            return Vec::new();
        }
        match payload {
            None => {
                let mut actions: Vec<Action> = Vec::new();
                actions.push(
                    Action::Send(
                        OutboundFrame {
                            kind: FrameKind::ErrorMessage,
                            payload: String::from_str("malformed frame"),
                        },
                    ),
                );
                actions
            },
            Some(p) => {
                if p.as_str().is_empty() {
                    // An empty question starts no request cycle.
                    return Vec::new();
                }
                let mut actions: Vec<Action> = Vec::new();
                actions.push(
                    Action::Send(OutboundFrame { kind: FrameKind::UserMessage, payload: p.clone() }),
                );
                let ghost echoed = actions@;
                if !self.use_chat_history {
                    let block = get_history_as_str(&self.history);
                    if block.as_str().is_empty() {
                        self.dispatch_question(p, &mut actions);
                        proof {
                            assert(actions@[0] == actions@.take(1)[0]);
                        }
                    } else {
                        let prompt = build_reformulation_prompt(&block, &p);
                        actions.push(Action::Reformulate { prompt });
                        self.state = EngineState::Reformulating { question: p };
                    }
                } else {
                    self.dispatch_question(p, &mut actions);
                    proof {
                        assert(actions@[0] == actions@.take(1)[0]);
                    }
                }
                actions
            },
        }
    }

    /// Decodes one inbound frame text and handles it.
    pub fn on_frame_text(&mut self, text: &str) -> (actions: Vec<Action>)
        ensures
            frame_step(*old(self), *final(self), frame_payload_of(text@), actions@),
            old(self).wf() ==> final(self).wf(),
    {
        let payload = extract_payload(text);
        self.on_payload(payload)
    }

    /// Handles the reformulation outcome.
    pub fn on_reformulated(&mut self, outcome: Result<String, ()>) -> (actions: Vec<Action>)
        ensures
            reformulated_step(*old(self), *final(self), outcome, actions@),
            old(self).wf() ==> final(self).wf(),
    {
        let reformulating = match &self.state {
            EngineState::Reformulating { .. } => true,
            _ => false,
        };
        if !reformulating {
            return Vec::new();
        }
        match outcome {
            Ok(q2) => {
                let mut actions: Vec<Action> = Vec::new();
                self.dispatch_question(q2, &mut actions);
                proof {
                    assert(actions@.skip(0) =~= actions@);
                }
                actions
            },
            Err(_) => self.upstream_error(),
        }
    }

    /// Handles the embedding outcome.
    pub fn on_embedded(&mut self, outcome: Result<Vec<u32>, ()>) -> (actions: Vec<Action>)
        ensures
            embedded_step(*old(self), *final(self), outcome, actions@),
            old(self).wf() ==> final(self).wf(),
    {
        let q_opt: Option<String> = match &self.state {
            EngineState::Embedding { question } => Some(question.clone()),
            _ => None,
        };
        match q_opt {
            None => Vec::new(),
            Some(q) => match outcome {
                Ok(v) => {
                    let query = build_knn_query(&self.index_name, self.max_results);
                    let vector = serialize_vector(&v);
                    let mut actions: Vec<Action> = Vec::new();
                    actions.push(
                        Action::Search {
                            query,
                            vector,
                            k: self.max_results,
                            window: self.result_window,
                        },
                    );
                    self.state = EngineState::Searching { question: q };
                    actions
                },
                Err(_) => self.upstream_error(),
            },
        }
    }

    /// Handles the search outcome.
    pub fn on_search_response(&mut self, outcome: Result<RespValue, ()>) -> (actions: Vec<Action>)
        ensures
            search_step(*old(self), *final(self), outcome, actions@),
            old(self).wf() ==> final(self).wf(),
    {
        let q_opt: Option<String> = match &self.state {
            EngineState::Searching { question } => Some(question.clone()),
            _ => None,
        };
        match q_opt {
            None => Vec::new(),
            Some(q) => match outcome {
                Ok(v) => {
                    let context = match VectorSearchResponses::from_redis_value(&v) {
                        Ok(rs) => get_context_from_result(&rs.responses),
                        Err(_) => String::new(),
                    };
                    let mut actions: Vec<Action> = Vec::new();
                    self.start_generation(q, context, &mut actions);
                    proof {
                        assert(actions@.skip(0) =~= actions@);
                    }
                    actions
                },
                Err(_) => self.upstream_error(),
            },
        }
    }

    /// Handles one stream fragment.
    pub fn on_fragment(&mut self, content: String, is_final: bool) -> (actions: Vec<Action>)
        ensures
            fragment_step(*old(self), *final(self), content@, is_final, actions@),
            old(self).wf() ==> final(self).wf(),
    {
        let acc_opt: Option<String> = match &self.state {
            EngineState::Generating { accumulated } => Some(accumulated.clone()),
            _ => None,
        };
        match acc_opt {
            None => Vec::new(),
            Some(acc) => {
                let mut actions: Vec<Action> = Vec::new();
                if !is_final {
                    actions.push(
                        Action::Send(
                            OutboundFrame {
                                kind: FrameKind::BotStreamChunk,
                                payload: content.clone(),
                            },
                        ),
                    );
                    let mut acc2 = acc;
                    acc2.append(content.as_str());
                    self.state = EngineState::Generating { accumulated: acc2 };
                } else {
                    actions.push(
                        Action::Send(
                            OutboundFrame { kind: FrameKind::BotStreamEnd, payload: content.clone() },
                        ),
                    );
                    let mut answer = acc;
                    answer.append(content.as_str());
                    self.history.push(ChatTurn::new(Role::Assistant, answer));
                    self.state = EngineState::AwaitingInput;
                    proof {
                        assert(self.history@.take(old(self).history@.len() as int) =~= old(
                            self,
                        ).history@);
                    }
                }
                actions
            },
        }
    }

    /// Handles a stream failure.
    pub fn on_stream_failed(&mut self) -> (actions: Vec<Action>)
        ensures
            stream_failed_step(*old(self), *final(self), actions@),
            old(self).wf() ==> final(self).wf(),
    {
        let generating = match &self.state {
            EngineState::Generating { .. } => true,
            _ => false,
        };
        if generating {
            self.upstream_error()
        } else {
            Vec::new()
        }
    }

    /// Handles a close frame, transport error or drop.
    pub fn on_close(&mut self) -> (actions: Vec<Action>)
        ensures
            close_step(*old(self), *final(self), actions@),
            old(self).wf() ==> final(self).wf(),
    {
        self.state = EngineState::Closed;
        let mut actions: Vec<Action> = Vec::new();
        actions.push(Action::Disconnect);
        actions
    }

    /// Handles a timer tick.
    pub fn on_tick(&mut self) -> (actions: Vec<Action>)
        ensures
            tick_step(*old(self), *final(self), actions@),
            old(self).wf() ==> final(self).wf(),
    {
        let closed = match &self.state {
            EngineState::Closed => true,
            _ => false,
        };
        let mut actions: Vec<Action> = Vec::new();
        if !closed {
            actions.push(Action::Ping);
        }
        actions
    }

    /// One step of the event loop: handles whichever event became ready.
    pub fn step(&mut self, event: Event) -> (actions: Vec<Action>)
        ensures
            (event matches Event::Frame { text } ==> frame_step(
                *old(self),
                *final(self),
                frame_payload_of(text@),
                actions@,
            )),
            (event is CloseRequested ==> close_step(*old(self), *final(self), actions@)),
            (event is Tick ==> tick_step(*old(self), *final(self), actions@)),
            (event matches Event::Reformulated { outcome } ==> reformulated_step(
                *old(self),
                *final(self),
                outcome,
                actions@,
            )),
            (event matches Event::Embedded { outcome } ==> embedded_step(
                *old(self),
                *final(self),
                outcome,
                actions@,
            )),
            (event matches Event::SearchResponse { outcome } ==> search_step(
                *old(self),
                *final(self),
                outcome,
                actions@,
            )),
            (event matches Event::Fragment { content, is_final } ==> fragment_step(
                *old(self),
                *final(self),
                content@,
                is_final,
                actions@,
            )),
            (event is StreamFailed ==> stream_failed_step(*old(self), *final(self), actions@)),
            old(self).wf() ==> final(self).wf(),
    {
        match event {
            Event::Frame { text } => self.on_frame_text(text.as_str()),
            Event::CloseRequested => self.on_close(),
            Event::Tick => self.on_tick(),
            Event::Reformulated { outcome } => self.on_reformulated(outcome),
            Event::Embedded { outcome } => self.on_embedded(outcome),
            Event::SearchResponse { outcome } => self.on_search_response(outcome),
            Event::Fragment { content, is_final } => self.on_fragment(content, is_final),
            Event::StreamFailed => self.on_stream_failed(),
        }
    }
}

} // verus!
