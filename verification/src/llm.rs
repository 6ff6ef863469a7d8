//! Conversation turns, prompt building and question reformulation.
//!
//! The generation service itself is an external collaborator; everything here
//! is the pure logic around it: rendering prior turns into a text block,
//! building the fixed prompt templates, and deciding whether a new question
//! needs a reformulation call at all.

use vstd::prelude::*;
use vstd::string::*;

verus! {

/// Who a conversation turn is attributed to.
#[derive(Clone, Copy, PartialEq, Eq, Structural, Debug)]
pub enum Role {
    System,
    User,
    Assistant,
}

/// One message of a conversation, immutable once created.
#[derive(Debug)]
pub struct ChatTurn {
    pub role: Role,
    pub content: String,
}

impl Clone for ChatTurn {
    fn clone(&self) -> (r: Self)
        ensures
            r == *self,
    {
        ChatTurn { role: self.role, content: self.content.clone() }
    }
}

impl ChatTurn {
    /// A turn with the given role and content.
    pub fn new(role: Role, content: String) -> (r: ChatTurn)
        ensures
            r.role == role,
            r.content == content,
    {
        ChatTurn { role, content }
    }
}

/// Copies a history so that an immutable snapshot can be handed to the
/// generation call while the session keeps ownership of the original.
pub fn clone_history(history: &Vec<ChatTurn>) -> (r: Vec<ChatTurn>)
    ensures
        r@ == history@,
{
    let mut r: Vec<ChatTurn> = Vec::new();
    let mut i: usize = 0;
    while i < history.len()
        invariant
            0 <= i <= history@.len(),
            r@ == history@.take(i as int),
        decreases history@.len() - i,
    {
        r.push(history[i].clone());
        proof {
            assert(r@ =~= history@.take(i as int + 1));
        }
        i = i + 1;
    }
    proof {
        assert(history@.take(i as int) =~= history@);
    }
    r
}

/// The chronological text block rendered from a history: each user or
/// assistant turn contributes a newline followed by its content; system
/// turns are left out.
pub open spec fn history_block_spec(h: Seq<ChatTurn>) -> Seq<char>
    decreases h.len(),
{
    if h.len() == 0 {
        Seq::empty()
    } else {
        let rest = history_block_spec(h.drop_last());
        if h.last().role == Role::System {
            rest
        } else {
            rest + "\n"@ + h.last().content@
        }
    }
}

/// Renders the user and assistant turns of a history into one chronological
/// text block.
pub fn get_history_as_str(history: &Vec<ChatTurn>) -> (r: String)
    ensures
        r@ == history_block_spec(history@),
{
    let mut r = String::new();
    let mut i: usize = 0;
    while i < history.len()
        invariant
            0 <= i <= history@.len(),
            r@ == history_block_spec(history@.take(i as int)),
        decreases history@.len() - i,
    {
        match history[i].role {
            Role::System => {},
            _ => {
                r.append("\n");
                r.append(history[i].content.as_str());
            },
        }
        proof {
            assert(history@.take(i as int + 1).drop_last() =~= history@.take(i as int));
            assert(history@.take(i as int + 1).last() == history@[i as int]);
        }
        i = i + 1;
    }
    proof {
        assert(history@.take(i as int) =~= history@);
    }
    r
}

/// The fixed generation prompt template combining retrieved context and the
/// (possibly reformulated) question.
pub open spec fn prompt_template(context: Seq<char>, query: Seq<char>) -> Seq<char> {
    "context: "@ + context + "\n------\nquestion: "@ + query + "\n------\nanswer:"@
}

/// Builds the generation prompt from a context block and a question.
pub fn build_prompt(context: String, query: String) -> (r: String)
    ensures
        r@ == prompt_template(context@, query@),
{
    let mut r = String::from_str("context: ");
    r.append(context.as_str());
    r.append("\n------\nquestion: ");
    r.append(query.as_str());
    r.append("\n------\nanswer:");
    r
}

/// The fixed instruction prompt asking the generation service for a
/// context-informed rephrasing of a question.
pub open spec fn reformulation_prompt_spec(block: Seq<char>, question: Seq<char>) -> Seq<char> {
    "chat_history:\n"@ + block + "\n----\nuser's question: "@ + question
        + "\n----\nrephrase the user's new_question so that the context of the question is clear and fully informed by the provided chat_history. Respond in the same language as the original new_question. respond only with rephrased question without any explanation.\n\nrephrased question:"@
}

/// Builds the reformulation instruction prompt.
pub fn build_reformulation_prompt(block: &String, question: &String) -> (r: String)
    ensures
        r@ == reformulation_prompt_spec(block@, question@),
{
    let mut r = String::from_str("chat_history:\n");
    r.append(block.as_str());
    r.append("\n----\nuser's question: ");
    r.append(question.as_str());
    r.append(
        "\n----\nrephrase the user's new_question so that the context of the question is clear and fully informed by the provided chat_history. Respond in the same language as the original new_question. respond only with rephrased question without any explanation.\n\nrephrased question:",
    );
    r
}

/// What the reformulation step decides: use the question verbatim, or ask
/// the generation service with the given instruction prompt.
pub enum ReformulationStep {
    UseVerbatim(String),
    CallModel(String),
}

/// Decides the reformulation step for a new question.  When the history
/// renders to an empty block (no prior user or assistant turns), the
/// question is used unchanged and no upstream call is made; otherwise the
/// instruction prompt for one non-streaming completion is built.
pub fn reformulation_request(history: &Vec<ChatTurn>, question: String) -> (r: ReformulationStep)
    ensures
        history_block_spec(history@).len() == 0 ==> (r matches ReformulationStep::UseVerbatim(q)
            && q == question),
        history_block_spec(history@).len() != 0 ==> (r matches ReformulationStep::CallModel(p)
            && p@ == reformulation_prompt_spec(history_block_spec(history@), question@)),
{
    let block = get_history_as_str(history);
    if block.as_str().is_empty() {
        ReformulationStep::UseVerbatim(question)
    } else {
        let prompt = build_reformulation_prompt(&block, &question);
        ReformulationStep::CallModel(prompt)
    }
}

/// Law: reformulation is the identity whenever the history holds only
/// system turns (in particular, only the initial system turn), whatever the
/// question: such a history renders to the empty block, on which
/// `reformulation_request` returns the question unchanged.
pub proof fn lemma_reformulation_identity(h: Seq<ChatTurn>)
    requires
        forall|i: int| 0 <= i < h.len() ==> h[i].role == Role::System,
    ensures
        history_block_spec(h).len() == 0,
    decreases h.len(),
{
    if h.len() > 0 {
        lemma_reformulation_identity(h.drop_last());
    }
}

} // verus!
