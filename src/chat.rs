use vstd::prelude::*;

use crate::ingest::ErrorKind;
use crate::models::{record_of, DocumentInfo, MetaEntry};

verus! {

/// Who wrote a message of a conversation.
#[derive(Clone, Copy, Debug, PartialEq, Eq, Structural)]
pub enum Role {
    System,
    Human,
    Ai,
    Tool,
}

/// The name of a role as it stands in a prompt.
pub open spec fn role_text(r: Role) -> Seq<char> {
    match r {
        Role::System => "system"@,
        Role::Human => "human"@,
        Role::Ai => "ai"@,
        Role::Tool => "tool"@,
    }
}

impl Role {
    pub fn name(&self) -> (r: String)
        ensures
            r@ == role_text(*self),
    {
        match self {
            Role::System => String::from_str("system"),
            Role::Human => String::from_str("human"),
            Role::Ai => String::from_str("ai"),
            Role::Tool => String::from_str("tool"),
        }
    }
}

/// One earlier message of a conversation.
#[derive(Clone, Debug)]
pub struct ConversationTurn {
    pub role: Role,
    pub content: String,
}

/// A retrieved passage: its text and the metadata stored with it.
#[derive(Clone, Debug)]
pub struct Passage {
    pub text: String,
    pub metadata: Vec<MetaEntry>,
}

impl Passage {
    /// The record of the document that the passage comes from.
    pub fn record(&self) -> (r: DocumentInfo)
        ensures
            r@ == record_of(self.metadata@),
    {
        DocumentInfo::from_metadata(&self.metadata)
    }
}

/// A generated answer, with the passages it was grounded in.
#[derive(Clone, Debug)]
pub struct ChatMessage {
    pub content: String,
    pub role: Role,
    pub sources: Vec<Passage>,
    pub timestamp: String,
}

/// One line of flattened history: `role: content` and a line break.
pub open spec fn turn_line(t: ConversationTurn) -> Seq<char> {
    role_text(t.role) + ": "@ + t.content@ + "\n"@
}

/// A conversation flattened into one block of text, one line per turn, in order.
pub open spec fn history_text(h: Seq<ConversationTurn>) -> Seq<char>
    decreases h.len(),
{
    if h.len() == 0 {
        Seq::empty()
    } else {
        history_text(h.drop_last()) + turn_line(h.last())
    }
}

/// The conversation as one block of text: `role: content` and a line break per turn.
pub fn flatten_history(history: &Vec<ConversationTurn>) -> (r: String)
    ensures
        r@ == history_text(history@),
{
    let mut out = String::new();
    let mut i: usize = 0;
    while i < history.len()
        invariant
            i <= history@.len(),
            out@ == history_text(history@.subrange(0, i as int)),
        decreases history@.len() - i,
    {
        assert(history@.subrange(0, i + 1).drop_last() == history@.subrange(0, i as int));
        let turn = &history[i];
        let role = turn.role.name();
        out.append(role.as_str());
        out.append(": ");
        out.append(turn.content.as_str());
        out.append("\n");
        i = i + 1;
    }
    assert(history@.subrange(0, history@.len() as int) == history@);
    out
}

/// The text that opens the prompt of the history-aware strategy.
pub open spec fn prompt_preamble() -> Seq<char> {
    "\nThe following is a friendly conversation between a human and an AI. The AI is talkative and provides lots of specific details from its history.\n\nCurrent conversation:\n"@
}

/// The prompt of the history-aware strategy: the preamble, the flattened history,
/// then the current message after `human: ` and an open `ai:` line.
pub open spec fn history_prompt_text(history: Seq<char>, message: Seq<char>) -> Seq<char> {
    prompt_preamble() + history + "\nhuman: "@ + message + "\nai:\n"@
}

/// The prompt that the history-aware strategy hands to the language model.
pub fn history_prompt(history: &Vec<ConversationTurn>, message: &str) -> (r: String)
    ensures
        r@ == history_prompt_text(history_text(history@), message@),
{
    let mut out = String::from_str(
        "\nThe following is a friendly conversation between a human and an AI. The AI is talkative and provides lots of specific details from its history.\n\nCurrent conversation:\n",
    );
    let h = flatten_history(history);
    out.append(h.as_str());
    out.append("\nhuman: ");
    out.append(message);
    out.append("\nai:\n");
    out
}

/// How a chat turn builds its prompt.
#[derive(Clone, Copy, Debug, PartialEq, Eq, Structural)]
pub enum ChatStrategy {
    /// History goes to the chain's memory; the template holds only the question.
    SingleTurn,
    /// History is flattened into the template, and the question is rephrased first.
    HistoryAware,
}

/// The fixed system message of the single-turn strategy.
pub fn system_message() -> (r: String)
    ensures
        r@ == "You are a helpful assistant"@,
{
    String::from_str("You are a helpful assistant")
}

/// Whether a strategy rephrases the question before generation.
pub open spec fn rephrases(s: ChatStrategy) -> bool {
    s == ChatStrategy::HistoryAware
}

/// The stage of one chat turn.
#[derive(Clone, Copy, Debug, PartialEq, Eq, Structural)]
pub enum TurnState {
    Received,
    Retrieving,
    Rephrasing,
    Generating,
    Completed,
    Failed(ErrorKind),
}

/// What the outside work of a stage came to.
#[derive(Clone, Copy, Debug, PartialEq, Eq, Structural)]
pub enum TurnEvent {
    Succeeded,
    Failed,
}

/// Whether a turn has ended.
pub open spec fn is_terminal(s: TurnState) -> bool {
    s matches TurnState::Completed || s matches TurnState::Failed(_)
}

/// The stage that follows `state` when its work came to `event`.
pub open spec fn next_stage(strategy: ChatStrategy, state: TurnState, event: TurnEvent) -> TurnState {
    if is_terminal(state) {
        state
    } else if event == TurnEvent::Failed {
        match state {
            TurnState::Retrieving => TurnState::Failed(ErrorKind::RetrievalFailure),
            TurnState::Rephrasing | TurnState::Generating => TurnState::Failed(
                ErrorKind::GenerationFailure,
            ),
            _ => TurnState::Failed(ErrorKind::RetrievalFailure),
        }
    } else {
        match state {
            TurnState::Received => TurnState::Retrieving,
            TurnState::Retrieving => if rephrases(strategy) {
                TurnState::Rephrasing
            } else {
                TurnState::Generating
            },
            TurnState::Rephrasing => TurnState::Generating,
            _ => TurnState::Completed,
        }
    }
}

impl TurnState {
    /// The next stage of a chat turn; an ended turn stays as it is.
    pub fn step(self, strategy: ChatStrategy, event: TurnEvent) -> (r: TurnState)
        ensures
            r == next_stage(strategy, self, event),
    {
        match self {
            TurnState::Completed | TurnState::Failed(_) => self,
            _ => match event {
                TurnEvent::Failed => match self {
                    TurnState::Rephrasing | TurnState::Generating => TurnState::Failed(
                        ErrorKind::GenerationFailure,
                    ),
                    _ => TurnState::Failed(ErrorKind::RetrievalFailure),
                },
                TurnEvent::Succeeded => match self {
                    TurnState::Received => TurnState::Retrieving,
                    TurnState::Retrieving => match strategy {
                        ChatStrategy::HistoryAware => TurnState::Rephrasing,
                        ChatStrategy::SingleTurn => TurnState::Generating,
                    },
                    TurnState::Rephrasing => TurnState::Generating,
                    _ => TurnState::Completed,
                },
            },
        }
    }
}

/// Generation is reached only after retrieval succeeded: a turn that completes has
/// passed through retrieval, and a failed retrieval ends the turn with no answer.
pub proof fn lemma_retrieval_precedes_generation(strategy: ChatStrategy, event: TurnEvent)
    ensures
        next_stage(strategy, TurnState::Received, event) is Retrieving || next_stage(
            strategy,
            TurnState::Received,
            event,
        ) == TurnState::Failed(ErrorKind::RetrievalFailure),
        next_stage(strategy, TurnState::Retrieving, TurnEvent::Failed) == TurnState::Failed(
            ErrorKind::RetrievalFailure,
        ),
        is_terminal(next_stage(strategy, TurnState::Retrieving, TurnEvent::Failed)),
{
}

} // verus!
