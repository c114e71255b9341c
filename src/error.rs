use vstd::prelude::*;

verus! {

/// Every way one invocation of the bot can fail. Each variant carries a
/// short human-readable reason.
#[derive(Debug)]
pub enum BotError {
    /// A required configuration value is missing.
    EnvironmentError(String),
    /// The inbound payload does not have the expected shape.
    ParsingError(String),
    /// The outbound message could not be delivered.
    NetworkError(String),
    /// The conversation store could not be reached.
    FsmError(String),
}

impl BotError {
    /// The text put in front of the reason, for each kind of error.
    pub open spec fn prefix_spec(&self) -> Seq<char> {
        match self {
            BotError::EnvironmentError(_) => "Environment error occured while executing function: '"@,
            BotError::ParsingError(_) => "Error while parsing structure: '"@,
            BotError::NetworkError(_) => "Error while sending a network message: '"@,
            BotError::FsmError(_) => "Error while recording an application state: '"@,
        }
    }

    pub open spec fn reason_spec(&self) -> Seq<char> {
        match self {
            BotError::EnvironmentError(m) => m@,
            BotError::ParsingError(m) => m@,
            BotError::NetworkError(m) => m@,
            BotError::FsmError(m) => m@,
        }
    }

    /// The full description: the kind's prefix, then the quoted reason.
    pub open spec fn description_spec(&self) -> Seq<char> {
        self.prefix_spec() + self.reason_spec() + "'."@
    }

    /// Renders the error as the sentence reported to the caller.
    pub fn description(&self) -> (r: String)
        ensures
            r@ == self.description_spec(),
    {
        let (mut r, reason) = match self {
            BotError::EnvironmentError(m) => (
                "Environment error occured while executing function: '".to_owned(),
                m,
            ),
            BotError::ParsingError(m) => ("Error while parsing structure: '".to_owned(), m),
            BotError::NetworkError(m) => ("Error while sending a network message: '".to_owned(), m),
            BotError::FsmError(m) => ("Error while recording an application state: '".to_owned(), m),
        };
        r.append(reason.as_str());
        r.append("'.");
        r
    }
}

} // verus!
