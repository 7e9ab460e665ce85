use vstd::prelude::*;
use vstd::string::*;
use vstd::utf8::encode_utf8;

verus! {

/// A command to run over an authenticated session. Identities are given by
/// their 128-bit identifier, dates as seconds since the Unix epoch.
#[derive(Debug, Clone)]
pub enum ConnectCommand {
    GetIdentity { id: Option<u128> },
    ImportIdentity { id: Option<u128> },
    GetMessages { application: String, limit: Option<i32>, from: Option<i64>, to: Option<i64> },
    SendMessage { application: String, text: String },
    GetEvents { block: bool, number: Option<u32> },
}

/// A message handed to the session for sending.
#[derive(Debug, Clone)]
pub struct OutgoingMessage {
    pub from_fingerprint: Option<u128>,
    pub to_fingerprint: Option<u128>,
    pub application: String,
    pub extension: String,
    pub mime: String,
    pub send_date: i64,
    pub receive_date: i64,
    pub is_file: bool,
    pub id: Option<u128>,
    pub body: Vec<u8>,
    pub file_name: String,
}

/// One request against the session's request surface.
#[derive(Debug, Clone)]
pub enum SessionCall {
    GetIdentity(Option<u128>),
    ImportIdentity(Option<u128>),
    GetMessages { application: String, limit: Option<i32> },
    GetMessagesByReceiveDate { application: String, limit: Option<i32>, from: i64, to: i64 },
    SendMessages(Vec<OutgoingMessage>),
    GetEvents { block: bool, number: Option<u32> },
}

/// `m` is the plain-text message with body `text` for `application`, sent
/// at `now`: unsigned, unaddressed, not a file, not yet received.
pub open spec fn is_text_message(m: OutgoingMessage, application: String, text: Seq<char>, now: i64) -> bool {
    &&& m.from_fingerprint is None
    &&& m.to_fingerprint is None
    &&& m.id is None
    &&& m.application == application
    &&& !m.is_file
    &&& m.extension@ == "ext"@
    &&& m.file_name@ == "nothing"@
    &&& m.mime@ == "application/text"@
    &&& m.send_date == now
    &&& m.receive_date == 0
    &&& m.body@ == encode_utf8(text)
}

/// The plain-text message carrying `text` for `application`, sent at `now`.
pub fn text_message(application: String, text: &str, now: i64) -> (m: OutgoingMessage)
    ensures
        is_text_message(m, application, text@, now),
{
    OutgoingMessage {
        from_fingerprint: None,
        to_fingerprint: None,
        application,
        extension: String::from_str("ext"),
        mime: String::from_str("application/text"),
        send_date: now,
        receive_date: 0,
        is_file: false,
        id: None,
        body: text.as_bytes_vec(),
        file_name: String::from_str("nothing"),
    }
}

/// The session request that carries out `cmd`, `now` being the current
/// time. Messages are fetched by receive date only when both ends of the
/// range are given.
pub fn plan_command(cmd: ConnectCommand, now: i64) -> (r: SessionCall)
    ensures
        match cmd {
            ConnectCommand::GetIdentity { id } => r == SessionCall::GetIdentity(id),
            ConnectCommand::ImportIdentity { id } => r == SessionCall::ImportIdentity(id),
            ConnectCommand::GetMessages { application, limit, from, to } => if from is Some
                && to is Some {
                r == (SessionCall::GetMessagesByReceiveDate {
                    application,
                    limit,
                    from: from->Some_0,
                    to: to->Some_0,
                })
            } else {
                r == (SessionCall::GetMessages { application, limit })
            },
            ConnectCommand::SendMessage { application, text } => r matches SessionCall::SendMessages(ms)
                && ms@.len() == 1 && is_text_message(ms@[0], application, text@, now),
            ConnectCommand::GetEvents { block, number } => r == (SessionCall::GetEvents { block, number }),
        },
{
    match cmd {
        ConnectCommand::GetIdentity { id } => SessionCall::GetIdentity(id),
        ConnectCommand::ImportIdentity { id } => SessionCall::ImportIdentity(id),
        ConnectCommand::GetMessages { application, limit, from, to } => match (from, to) {
            (Some(f), Some(t)) => SessionCall::GetMessagesByReceiveDate { application, limit, from: f, to: t },
            _ => SessionCall::GetMessages { application, limit },
        },
        ConnectCommand::SendMessage { application, text } => {
            let m = text_message(application, text.as_str(), now);
            let mut ms: Vec<OutgoingMessage> = Vec::new();
            ms.push(m);
            SessionCall::SendMessages(ms)
        },
        ConnectCommand::GetEvents { block, number } => SessionCall::GetEvents { block, number },
    }
}

} // verus!
