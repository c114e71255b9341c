use vstd::prelude::*;
use crate::client::BotMessage;
use crate::dispatch::{
    classify, lemma_classified_text, state_after, text_reply, text_write, transition, ConversationState, StoreWrite,
};
use crate::dto::Update;
use crate::error::BotError;

verus! {

/// A failed call to the conversation store. The store does not tell one
/// failure from another.
pub struct StoreUnavailable;

/// The reason given when the conversation store fails.
pub open spec fn store_failure_reason() -> Seq<char> {
    "FSM store is not available"@
}

/// The error reported for a failed store call.
pub fn store_error() -> (r: BotError)
    ensures
        r matches BotError::FsmError(m) && m@ == store_failure_reason(),
{
    BotError::FsmError("FSM store is not available".to_owned())
}

/// The answer to the last action, handed back by whoever performed it.
pub enum Event {
    /// The stored label was read (or the read failed).
    StateLoaded(Result<Option<String>, StoreUnavailable>),
    /// The store change was made (or it failed).
    StateStored(Result<(), StoreUnavailable>),
    /// The reply was sent (or delivery failed).
    MessageSent(Result<(), BotError>),
}

/// What has to happen next in an invocation.
pub enum Action {
    /// Read the stored label of this conversation.
    LoadState(i64),
    /// Store `label` for this conversation, replacing any earlier one.
    StoreState(i64, String),
    /// Delete the stored label of this conversation.
    ResetState(i64),
    /// Send this message.
    SendMessage(BotMessage),
    /// The invocation is over, with this outcome.
    Finish(Result<(), BotError>),
}

/// Where an invocation stands.
pub enum Stage {
    /// Waiting for the stored label.
    Loading,
    /// Waiting for the store change; the reply goes out once it is made.
    Storing(BotMessage),
    /// Waiting for the delivery outcome.
    Sending,
    /// Nothing more happens.
    Finished,
}

/// One invocation of the bot: one inbound message, at most one store read,
/// at most one store write and one send, in that order.
pub struct Session {
    pub chat_id: i64,
    pub text: String,
    pub stage: Stage,
}

/// `m` is the reply with text `reply` to conversation `chat_id`, with the
/// default display options.
pub open spec fn is_reply(m: BotMessage, chat_id: i64, reply: Seq<char>) -> bool {
    &&& m.chat_id == chat_id
    &&& m.text@ == reply
    &&& m.parse_mode == crate::client::ParseMode::Markdown
    &&& !m.disable_web_page_preview
    &&& !m.disable_notification
    &&& m.reply_to_message_id is None
}

/// The state of the conversation that a read result stands for.
pub open spec fn loaded_state(label: Option<String>) -> ConversationState {
    ConversationState::from_label_spec(
        match label {
            Some(l) => Some(l@),
            None => None,
        },
    )
}

impl Session {
    /// Whether `event` answers the action this session is waiting on.
    pub open spec fn accepts(&self, event: &Event) -> bool {
        match (self.stage, event) {
            (Stage::Loading, Event::StateLoaded(_)) => true,
            (Stage::Storing(_), Event::StateStored(_)) => true,
            (Stage::Sending, Event::MessageSent(_)) => true,
            _ => false,
        }
    }

    pub fn is_expecting(&self, event: &Event) -> (r: bool)
        ensures
            r == self.accepts(event),
    {
        match (&self.stage, event) {
            (Stage::Loading, Event::StateLoaded(_)) => true,
            (Stage::Storing(_), Event::StateStored(_)) => true,
            (Stage::Sending, Event::MessageSent(_)) => true,
            _ => false,
        }
    }

    /// Starts the invocation for a decoded update: the first thing to do is
    /// to read the conversation's state.
    pub fn start(update: Update) -> (r: (Session, Action))
        ensures
            r.0.chat_id == update.message.chat.id,
            r.0.text@ == update.message.text@,
            r.0.stage is Loading,
            r.1 matches Action::LoadState(id) && id == update.message.chat.id,
    {
        let chat_id = update.message.chat.id;
        let session = Session { chat_id, text: update.message.text, stage: Stage::Loading };
        (session, Action::LoadState(chat_id))
    }

    /// Takes the answer to the last action and decides the next one.
    pub fn handle(&mut self, event: Event) -> (r: Action)
        requires
            old(self).accepts(&event),
        ensures
            final(self).chat_id == old(self).chat_id,
            final(self).text@ == old(self).text@,
            match (old(self).stage, event) {
                (Stage::Loading, Event::StateLoaded(Err(_))) => {
                    &&& final(self).stage is Finished
                    &&& r matches Action::Finish(Err(BotError::FsmError(m)))
                    &&& m@ == crate::session::store_failure_reason()
                },
                (Stage::Loading, Event::StateLoaded(Ok(label))) => {
                    let reply = text_reply(loaded_state(label), old(self).text@);
                    match text_write(old(self).text@) {
                        StoreWrite::Keep => {
                            &&& final(self).stage is Sending
                            &&& r matches Action::SendMessage(m)
                            &&& is_reply(m, old(self).chat_id, reply)
                        },
                        StoreWrite::Store(s) => {
                            &&& final(self).stage matches Stage::Storing(m)
                            &&& is_reply(m, old(self).chat_id, reply)
                            &&& r matches Action::StoreState(id, l)
                            &&& id == old(self).chat_id
                            &&& s.label_spec() == Some(l@)
                        },
                        StoreWrite::Reset => {
                            &&& final(self).stage matches Stage::Storing(m)
                            &&& is_reply(m, old(self).chat_id, reply)
                            &&& r matches Action::ResetState(id)
                            &&& id == old(self).chat_id
                        },
                    }
                },
                (Stage::Storing(_), Event::StateStored(Err(_))) => {
                    &&& final(self).stage is Finished
                    &&& r matches Action::Finish(Err(BotError::FsmError(m)))
                    &&& m@ == crate::session::store_failure_reason()
                },
                (Stage::Storing(pending), Event::StateStored(Ok(()))) => {
                    &&& final(self).stage is Sending
                    &&& r matches Action::SendMessage(m)
                    &&& m == pending
                },
                (Stage::Sending, Event::MessageSent(outcome)) => {
                    &&& final(self).stage is Finished
                    &&& r matches Action::Finish(o)
                    &&& o == outcome
                },
                _ => false,
            },
    {
        let mut stage = Stage::Finished;
        std::mem::swap(&mut self.stage, &mut stage);
        match (stage, event) {
            (Stage::Loading, Event::StateLoaded(Err(_))) => Action::Finish(Err(store_error())),
            (Stage::Loading, Event::StateLoaded(Ok(label))) => {
                let state = ConversationState::from_label(&label);
                let command = classify(&self.text);
                let t = transition(state, command);
                proof {
                    lemma_classified_text(state, command, self.text@);
                }
                let message = BotMessage::new(self.chat_id, t.reply);
                match t.write {
                    StoreWrite::Keep => {
                        self.stage = Stage::Sending;
                        Action::SendMessage(message)
                    },
                    StoreWrite::Store(s) => {
                        self.stage = Stage::Storing(message);
                        match s.label() {
                            Some(l) => Action::StoreState(self.chat_id, l),
                            None => Action::ResetState(self.chat_id),
                        }
                    },
                    StoreWrite::Reset => {
                        self.stage = Stage::Storing(message);
                        Action::ResetState(self.chat_id)
                    },
                }
            },
            (Stage::Storing(_), Event::StateStored(Err(_))) => Action::Finish(Err(store_error())),
            (Stage::Storing(message), Event::StateStored(Ok(()))) => {
                self.stage = Stage::Sending;
                Action::SendMessage(message)
            },
            (Stage::Sending, Event::MessageSent(outcome)) => Action::Finish(outcome),
            _ => Action::Finish(Ok(())),
        }
    }
}

/// Whether a session has nothing more to do.
pub open spec fn is_over(s: &Session) -> bool {
    forall|e: Event| !#[trigger] s.accepts(&e)
}

/// A finished session accepts no further event, so after a failed read, a
/// failed write or a send nothing more is written or sent.
pub proof fn lemma_finished_session_is_over(s: Session)
    requires
        s.stage is Finished,
    ensures
        is_over(&s),
{
}

/// The conversation store seen as a map from conversation to stored label,
/// after `write` has been made for conversation `id`.
pub open spec fn store_after(store: Map<i64, Seq<char>>, id: i64, write: StoreWrite) -> Map<
    i64,
    Seq<char>,
> {
    match write {
        StoreWrite::Keep => store,
        StoreWrite::Store(s) => match s.label_spec() {
            Some(l) => store.insert(id, l),
            None => store.remove(id),
        },
        StoreWrite::Reset => store.remove(id),
    }
}

/// The state of conversation `id` as the store holds it.
pub open spec fn stored_state(store: Map<i64, Seq<char>>, id: i64) -> ConversationState {
    ConversationState::from_label_spec(
        if store.dom().contains(id) {
            Some(store[id])
        } else {
            None
        },
    )
}

/// Deleting a conversation's state twice is the same as deleting it once,
/// and leaves no state for it.
pub proof fn lemma_reset_is_idempotent(store: Map<i64, Seq<char>>, id: i64)
    ensures
        store_after(store_after(store, id, StoreWrite::Reset), id, StoreWrite::Reset)
            == store_after(store, id, StoreWrite::Reset),
        !store_after(store, id, StoreWrite::Reset).dom().contains(id),
        stored_state(store_after(store, id, StoreWrite::Reset), id)
            == ConversationState::NoSession,
{
    assert(store.remove(id).remove(id) =~= store.remove(id));
}

/// The store follows the state machine: after a write, the stored state of
/// the conversation is the state the write leads to, and no other
/// conversation is touched.
pub proof fn lemma_store_follows_transitions(
    store: Map<i64, Seq<char>>,
    id: i64,
    write: StoreWrite,
)
    ensures
        stored_state(store_after(store, id, write), id) == state_after(
            stored_state(store, id),
            write,
        ),
        store_after(store, id, write).remove(id) == store.remove(id),
{
    assert(store_after(store, id, write).remove(id) =~= store.remove(id));
}

} // verus!
