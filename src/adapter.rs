use vstd::prelude::*;
use crate::dto::Update;
use crate::error::BotError;

verus! {

/// The two configuration values an invocation needs.
pub struct Config {
    /// Authentication token of the bot on the messaging platform.
    pub token: String,
    /// Name of the table that holds the conversation states.
    pub table_name: String,
}

pub open spec fn missing_token_reason() -> Seq<char> {
    "Bot token is not set in environment variables"@
}

pub open spec fn missing_table_reason() -> Seq<char> {
    "FSM table name is not set in environment variables"@
}

impl Config {
    /// Builds the configuration from the values found, if any. The token is
    /// checked first.
    pub fn from_values(token: Option<String>, table_name: Option<String>) -> (r: Result<
        Config,
        BotError,
    >)
        ensures
            token is None ==> (r matches Err(BotError::EnvironmentError(m)) && m@
                == missing_token_reason()),
            token is Some && table_name is None ==> (r matches Err(
                BotError::EnvironmentError(m),
            ) && m@ == missing_table_reason()),
            token is Some && table_name is Some ==> (r matches Ok(c) && c.token@ == token->0@
                && c.table_name@ == table_name->0@),
    {
        match (token, table_name) {
            (None, _) => Err(
                BotError::EnvironmentError(
                    "Bot token is not set in environment variables".to_owned(),
                ),
            ),
            (Some(_), None) => Err(
                BotError::EnvironmentError(
                    "FSM table name is not set in environment variables".to_owned(),
                ),
            ),
            (Some(token), Some(table_name)) => Ok(Config { token, table_name }),
        }
    }
}

/// The inbound payload could not be read as an update envelope.
pub struct PayloadRejected;

pub open spec fn rejected_payload_reason() -> Seq<char> {
    "Incorrect update message from the Telegram API"@
}

pub open spec fn empty_payload_reason() -> Seq<char> {
    "Some update message fields are empty or have wrong format"@
}

/// Turns the result of decoding the request body into the update to
/// handle: a body of the wrong shape and a missing body are both
/// `ParsingError`s, each with its own reason.
pub fn update_from_payload(payload: Result<Option<Update>, PayloadRejected>) -> (r: Result<
    Update,
    BotError,
>)
    ensures
        payload is Err ==> (r matches Err(BotError::ParsingError(m)) && m@
            == rejected_payload_reason()),
        payload matches Ok(None) ==> (r matches Err(BotError::ParsingError(m)) && m@
            == empty_payload_reason()),
        payload matches Ok(Some(u)) ==> (r matches Ok(v) && v == u),
{
    match payload {
        Err(_) => Err(
            BotError::ParsingError("Incorrect update message from the Telegram API".to_owned()),
        ),
        Ok(None) => Err(
            BotError::ParsingError(
                "Some update message fields are empty or have wrong format".to_owned(),
            ),
        ),
        Ok(Some(u)) => Ok(u),
    }
}

/// The HTTP status of a handled request.
pub const STATUS_OK: u16 = 200;

/// The HTTP status of a request that failed.
pub const STATUS_BAD_REQUEST: u16 = 400;

/// The body message of a handled request.
pub const SUCCESS_MESSAGE: &'static str = "Response sent successfully.";

/// What the invocation answers its caller: a status and a readable message.
pub struct HandlerResponse {
    pub status: u16,
    pub message: String,
}

/// Encodes the outcome of an invocation: success, or a client error that
/// carries the error's description.
pub fn respond(outcome: &Result<(), BotError>) -> (r: HandlerResponse)
    ensures
        outcome is Ok ==> r.status == STATUS_OK && r.message@ == SUCCESS_MESSAGE@,
        outcome matches Err(e) ==> r.status == STATUS_BAD_REQUEST && r.message@
            == e.description_spec(),
{
    match outcome {
        Ok(()) => HandlerResponse { status: STATUS_OK, message: SUCCESS_MESSAGE.to_owned() },
        Err(e) => HandlerResponse { status: STATUS_BAD_REQUEST, message: e.description() },
    }
}

} // verus!
