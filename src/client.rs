use vstd::prelude::*;
use crate::error::BotError;

verus! {

/// How the messaging platform renders the text of a message.
#[derive(PartialEq, Eq, Structural, Clone, Copy, Debug)]
pub enum ParseMode {
    Markdown,
    HTML,
}

impl ParseMode {
    /// The name the platform's send endpoint expects for this mode.
    pub open spec fn label_spec(&self) -> Seq<char> {
        match self {
            ParseMode::Markdown => "Markdown"@,
            ParseMode::HTML => "HTML"@,
        }
    }

    pub fn label(&self) -> (r: String)
        ensures
            r@ == self.label_spec(),
    {
        match self {
            ParseMode::Markdown => "Markdown".to_owned(),
            ParseMode::HTML => "HTML".to_owned(),
        }
    }
}

/// One outbound message, with its display options.
pub struct BotMessage {
    pub chat_id: i64,
    pub text: String,
    pub parse_mode: ParseMode,
    pub disable_web_page_preview: bool,
    pub disable_notification: bool,
    pub reply_to_message_id: Option<i64>,
}

impl BotMessage {
    /// A message to `chat_id` with the default options: lightweight markup,
    /// link previews and notifications on, not a reply.
    pub fn new(chat_id: i64, text: String) -> (r: BotMessage)
        ensures
            r.chat_id == chat_id,
            r.text@ == text@,
            r.parse_mode == ParseMode::Markdown,
            !r.disable_web_page_preview,
            !r.disable_notification,
            r.reply_to_message_id is None,
    {
        BotMessage {
            chat_id,
            text,
            parse_mode: ParseMode::Markdown,
            disable_web_page_preview: false,
            disable_notification: false,
            reply_to_message_id: None,
        }
    }

    pub fn disable_web_page_preview(&mut self)
        ensures
            final(self).disable_web_page_preview,
            final(self).chat_id == old(self).chat_id,
            final(self).text@ == old(self).text@,
            final(self).parse_mode == old(self).parse_mode,
            final(self).disable_notification == old(self).disable_notification,
            final(self).reply_to_message_id == old(self).reply_to_message_id,
    {
        self.disable_web_page_preview = true;
    }

    pub fn disable_notification(&mut self)
        ensures
            final(self).disable_notification,
            final(self).chat_id == old(self).chat_id,
            final(self).text@ == old(self).text@,
            final(self).parse_mode == old(self).parse_mode,
            final(self).disable_web_page_preview == old(self).disable_web_page_preview,
            final(self).reply_to_message_id == old(self).reply_to_message_id,
    {
        self.disable_notification = true;
    }

    pub fn set_parse_mode(&mut self, parse_mode: ParseMode)
        ensures
            final(self).parse_mode == parse_mode,
            final(self).chat_id == old(self).chat_id,
            final(self).text@ == old(self).text@,
            final(self).disable_web_page_preview == old(self).disable_web_page_preview,
            final(self).disable_notification == old(self).disable_notification,
            final(self).reply_to_message_id == old(self).reply_to_message_id,
    {
        self.parse_mode = parse_mode;
    }

    pub fn set_reply_to_message(&mut self, id: i64)
        ensures
            final(self).reply_to_message_id == Some(id),
            final(self).chat_id == old(self).chat_id,
            final(self).text@ == old(self).text@,
            final(self).parse_mode == old(self).parse_mode,
            final(self).disable_web_page_preview == old(self).disable_web_page_preview,
            final(self).disable_notification == old(self).disable_notification,
    {
        self.reply_to_message_id = Some(id);
    }
}

/// The address of the platform's send endpoint for the bot holding `token`.
pub open spec fn send_message_url_spec(token: Seq<char>) -> Seq<char> {
    "https://api.telegram.org/bot"@ + token + "/sendMessage"@
}

pub fn send_message_url(token: &str) -> (r: String)
    ensures
        r@ == send_message_url_spec(token@),
{
    let mut r = "https://api.telegram.org/bot".to_owned();
    r.append(token);
    r.append("/sendMessage");
    r
}

/// The reason given when a message could not be delivered.
pub open spec fn delivery_failure_reason() -> Seq<char> {
    "Failed to send a response to the user"@
}

/// Whether an HTTP status code reports success (any 2xx).
pub open spec fn is_success_status(status: u16) -> bool {
    200 <= status <= 299
}

/// Decides the outcome of one send call: `reached` tells whether the
/// platform answered at all, `status` is the status it answered with.
pub fn send_outcome(reached: bool, status: u16) -> (r: Result<(), BotError>)
    ensures
        r is Ok <==> (reached && is_success_status(status)),
        r matches Err(e) ==> e matches BotError::NetworkError(m) && m@ == delivery_failure_reason(),
{
    if reached && 200 <= status && status <= 299 {
        Ok(())
    } else {
        Err(BotError::NetworkError("Failed to send a response to the user".to_owned()))
    }
}

} // verus!
