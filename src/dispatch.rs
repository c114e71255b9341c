use vstd::prelude::*;

verus! {

/// What an inbound text asks for. Commands are recognised only as an exact,
/// case-sensitive match of the whole text.
pub enum Command {
    Start,
    Restart,
    Score,
    Clear,
    Unrecognized(String),
}

/// The state a conversation is in.
#[derive(PartialEq, Eq, Structural, Clone, Copy, Debug)]
pub enum ConversationState {
    /// No label is stored for the conversation.
    NoSession,
    /// A quiz is running.
    Playing,
}

/// The change to make to the stored state of the conversation.
#[derive(PartialEq, Eq, Structural, Clone, Copy, Debug)]
pub enum StoreWrite {
    /// Leave the stored label as it is.
    Keep,
    /// Store the label of this state, replacing any earlier one.
    Store(ConversationState),
    /// Delete the stored label.
    Reset,
}

pub open spec fn start_token() -> Seq<char> {
    "/start"@
}

pub open spec fn restart_token() -> Seq<char> {
    "/restart"@
}

pub open spec fn score_token() -> Seq<char> {
    "/score"@
}

pub open spec fn clear_token() -> Seq<char> {
    "/clear"@
}

/// The label under which the `Playing` state is stored.
pub open spec fn playing_label() -> Seq<char> {
    "playing"@
}

/// Whether a text is one of the recognised commands.
pub open spec fn is_command_text(text: Seq<char>) -> bool {
    ||| text == start_token()
    ||| text == restart_token()
    ||| text == score_token()
    ||| text == clear_token()
}

impl Command {
    /// `self` is what `text` stands for.
    pub open spec fn classifies(&self, text: Seq<char>) -> bool {
        match self {
            Command::Start => text == start_token(),
            Command::Restart => text == restart_token(),
            Command::Score => text == score_token(),
            Command::Clear => text == clear_token(),
            Command::Unrecognized(t) => t@ == text && !is_command_text(text),
        }
    }
}

/// Classifies an inbound text.
pub fn classify(text: &String) -> (r: Command)
    ensures
        r.classifies(text@),
{
    proof {
        reveal_strlit("/start");
        reveal_strlit("/restart");
        reveal_strlit("/score");
        reveal_strlit("/clear");
    }
    if *text == "/start".to_owned() {
        Command::Start
    } else if *text == "/restart".to_owned() {
        Command::Restart
    } else if *text == "/score".to_owned() {
        Command::Score
    } else if *text == "/clear".to_owned() {
        Command::Clear
    } else {
        Command::Unrecognized(text.clone())
    }
}

impl ConversationState {
    /// The state that a stored label stands for: `"playing"` is `Playing`,
    /// anything else, and no label at all, is `NoSession`.
    pub open spec fn from_label_spec(label: Option<Seq<char>>) -> ConversationState {
        match label {
            Some(l) => if l == playing_label() {
                ConversationState::Playing
            } else {
                ConversationState::NoSession
            },
            None => ConversationState::NoSession,
        }
    }

    pub fn from_label(label: &Option<String>) -> (r: ConversationState)
        ensures
            r == ConversationState::from_label_spec(
                match label {
                    Some(l) => Some(l@),
                    None => None,
                },
            ),
    {
        match label {
            Some(l) => if *l == "playing".to_owned() {
                ConversationState::Playing
            } else {
                ConversationState::NoSession
            },
            None => ConversationState::NoSession,
        }
    }

    /// The label stored for a state, absent for `NoSession`.
    pub open spec fn label_spec(&self) -> Option<Seq<char>> {
        match self {
            ConversationState::NoSession => None,
            ConversationState::Playing => Some(playing_label()),
        }
    }

    pub fn label(&self) -> (r: Option<String>)
        ensures
            r matches Some(l) ==> self.label_spec() == Some(l@),
            r is None ==> self.label_spec() is None,
    {
        match self {
            ConversationState::NoSession => None,
            ConversationState::Playing => Some("playing".to_owned()),
        }
    }
}

/// Greeting sent on `/start`, ending with the first prompt of the quiz.
pub const START_MESSAGE: &'static str = "🌎 Hi there, I'm Nationguessr! With me, you get to test your knowledge about countries from all over the world by trying to guess them based on random facts about their history, culture, geography, and much more!

🔁 To play a quiz from the beginning use /restart command.
🔝 To see your highest score in quiz use /score command.
🆑 To clear all your high score history use /clear command.

Here is your first question:";

/// Acknowledgement sent on `/restart`, ending with the first prompt of the quiz.
pub const RESTART_MESSAGE: &'static str = "🔁 Your quiz starts over from the beginning.

Here is your first question:";

/// Placeholder reply to `/score`, until scores are kept.
pub const SCORE_MESSAGE: &'static str = "TODO: implement score command.";

/// Confirmation sent on `/clear`.
pub const CLEAR_MESSAGE: &'static str = "Now your high score board is empty. Use /start command to play a new game!";

/// Placeholder reply to a text sent while a quiz is running, until quiz
/// turns are played.
pub const QUIZ_TURN_MESSAGE: &'static str = "TODO: implement quiz.";

/// Text before the echoed input in the reply to an unknown command.
pub const UNRECOGNIZED_PREFIX: &'static str = "Your command *";

/// Text after the echoed input in the reply to an unknown command.
pub const UNRECOGNIZED_SUFFIX: &'static str = "* is not recognized! See the list of available commands in the *Menu* section.";

/// The reply to an unknown command, echoing the text as it was sent.
pub open spec fn unrecognized_reply(text: Seq<char>) -> Seq<char> {
    UNRECOGNIZED_PREFIX@ + text + UNRECOGNIZED_SUFFIX@
}

/// The reply for `command` in `state`. Commands are answered the same way in
/// every state; other text is answered according to the state.
pub open spec fn reply_spec(state: ConversationState, command: Command) -> Seq<char> {
    match command {
        Command::Start => START_MESSAGE@,
        Command::Restart => RESTART_MESSAGE@,
        Command::Score => SCORE_MESSAGE@,
        Command::Clear => CLEAR_MESSAGE@,
        Command::Unrecognized(t) => match state {
            ConversationState::Playing => QUIZ_TURN_MESSAGE@,
            ConversationState::NoSession => unrecognized_reply(t@),
        },
    }
}

/// The store change for `command`: `/start` and `/restart` begin a quiz,
/// `/clear` deletes the state, everything else leaves it alone.
pub open spec fn write_spec(command: Command) -> StoreWrite {
    match command {
        Command::Start => StoreWrite::Store(ConversationState::Playing),
        Command::Restart => StoreWrite::Store(ConversationState::Playing),
        Command::Score => StoreWrite::Keep,
        Command::Clear => StoreWrite::Reset,
        Command::Unrecognized(_) => StoreWrite::Keep,
    }
}

/// The state a conversation is in once `write` has been applied.
pub open spec fn state_after(state: ConversationState, write: StoreWrite) -> ConversationState {
    match write {
        StoreWrite::Keep => state,
        StoreWrite::Store(s) => s,
        StoreWrite::Reset => ConversationState::NoSession,
    }
}

/// The reply to an inbound text, read straight off the transition table.
pub open spec fn text_reply(state: ConversationState, text: Seq<char>) -> Seq<char> {
    if text == start_token() {
        START_MESSAGE@
    } else if text == restart_token() {
        RESTART_MESSAGE@
    } else if text == score_token() {
        SCORE_MESSAGE@
    } else if text == clear_token() {
        CLEAR_MESSAGE@
    } else {
        match state {
            ConversationState::Playing => QUIZ_TURN_MESSAGE@,
            ConversationState::NoSession => unrecognized_reply(text),
        }
    }
}

/// The store change for an inbound text, read straight off the transition
/// table.
pub open spec fn text_write(text: Seq<char>) -> StoreWrite {
    if text == start_token() || text == restart_token() {
        StoreWrite::Store(ConversationState::Playing)
    } else if text == clear_token() {
        StoreWrite::Reset
    } else {
        StoreWrite::Keep
    }
}

/// The four command texts are pairwise different.
pub proof fn lemma_command_tokens_distinct()
    ensures
        start_token() != restart_token(),
        start_token() != score_token(),
        start_token() != clear_token(),
        restart_token() != score_token(),
        restart_token() != clear_token(),
        score_token() != clear_token(),
{
    reveal_strlit("/start");
    reveal_strlit("/restart");
    reveal_strlit("/score");
    reveal_strlit("/clear");
    assert(start_token().len() != restart_token().len());
    assert(start_token()[2] != score_token()[2]);
    assert(start_token()[1] != clear_token()[1]);
    assert(restart_token().len() != score_token().len());
    assert(restart_token().len() != clear_token().len());
    assert(score_token()[1] != clear_token()[1]);
}

/// The table read through a classified command agrees with the table read
/// straight off the text.
pub proof fn lemma_classified_text(state: ConversationState, command: Command, text: Seq<char>)
    requires
        command.classifies(text),
    ensures
        reply_spec(state, command) == text_reply(state, text),
        write_spec(command) == text_write(text),
{
    lemma_command_tokens_distinct();
}

/// Commands take precedence over the state: each command gets the same reply
/// and leads to the same state whatever state the conversation was in.
/// `/start` and `/restart` begin a quiz, `/clear` ends the session, `/score`
/// changes nothing.
pub proof fn lemma_commands_override_state(text: Seq<char>, state: ConversationState)
    requires
        is_command_text(text),
    ensures
        text_reply(state, text) == text_reply(ConversationState::NoSession, text),
        text == start_token() ==> text_reply(state, text) == START_MESSAGE@ && state_after(
            state,
            text_write(text),
        ) == ConversationState::Playing,
        text == restart_token() ==> text_reply(state, text) == RESTART_MESSAGE@ && state_after(
            state,
            text_write(text),
        ) == ConversationState::Playing,
        text == score_token() ==> text_reply(state, text) == SCORE_MESSAGE@ && state_after(
            state,
            text_write(text),
        ) == state,
        text == clear_token() ==> text_reply(state, text) == CLEAR_MESSAGE@ && state_after(
            state,
            text_write(text),
        ) == ConversationState::NoSession,
{
    lemma_command_tokens_distinct();
}

/// Without a stored state, any text that is not a command is answered with
/// the "not recognized" reply that echoes it verbatim, and the state stays
/// absent.
pub proof fn lemma_unknown_text_is_echoed(text: Seq<char>)
    requires
        !is_command_text(text),
    ensures
        text_reply(ConversationState::NoSession, text) == unrecognized_reply(text),
        state_after(ConversationState::NoSession, text_write(text))
            == ConversationState::NoSession,
{
}

/// While a quiz is running, any text that is not a command gets the quiz
/// turn reply and the quiz goes on.
pub proof fn lemma_quiz_turn_keeps_playing(text: Seq<char>)
    requires
        !is_command_text(text),
    ensures
        text_reply(ConversationState::Playing, text) == QUIZ_TURN_MESSAGE@,
        state_after(ConversationState::Playing, text_write(text)) == ConversationState::Playing,
{
}

/// What the dispatcher decided for one inbound text.
pub struct Transition {
    pub reply: String,
    pub write: StoreWrite,
}

/// The transition table: the reply to send and the store change to make for
/// `command` received in `state`.
pub fn transition(state: ConversationState, command: Command) -> (r: Transition)
    ensures
        r.reply@ == reply_spec(state, command),
        r.write == write_spec(command),
{
    match command {
        Command::Start => Transition {
            reply: START_MESSAGE.to_owned(),
            write: StoreWrite::Store(ConversationState::Playing),
        },
        Command::Restart => Transition {
            reply: RESTART_MESSAGE.to_owned(),
            write: StoreWrite::Store(ConversationState::Playing),
        },
        Command::Score => Transition { reply: SCORE_MESSAGE.to_owned(), write: StoreWrite::Keep },
        Command::Clear => Transition { reply: CLEAR_MESSAGE.to_owned(), write: StoreWrite::Reset },
        Command::Unrecognized(t) => match state {
            ConversationState::Playing => Transition {
                reply: QUIZ_TURN_MESSAGE.to_owned(),
                write: StoreWrite::Keep,
            },
            ConversationState::NoSession => {
                let mut reply = UNRECOGNIZED_PREFIX.to_owned();
                reply.append(t.as_str());
                reply.append(UNRECOGNIZED_SUFFIX);
                Transition { reply, write: StoreWrite::Keep }
            },
        },
    }
}

} // verus!
