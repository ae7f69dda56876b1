//! The handshake that opens a connection: the protocol version, then
//! SCRAM-SHA-256.
//!
//! The client sends the version's magic number and its first message; the
//! server greets, then challenges; the client answers with its proof; the
//! server answers with its signature. Every message is a JSON object that
//! ends with a zero byte.

use vstd::prelude::*;
use vstd::utf8::encode_utf8;
use vstd::string::StringExecFns;
use crate::cmd::connect::Options;
use crate::datum::{json_parsed, json_text, json_writes, lemma_object_view, Datum, Json};
use crate::err::{Driver, ErrorKind, Fault, ReqlError};
use crate::frame::{le_bytes, push_le};
use crate::proto::VERSION_MAGIC;
use crate::scram::{
    auth_message, base64_bytes, base64_decode, base64_encode, client_final, client_first,
    client_proof, first_bare, has_prefix, parse_server_first, prove, salt_password, salted_password,
    server_final, server_first, server_signature, sign, starts_with,
};
use crate::session::{Session, SessionView};

verus! {

/// What the handshake waits for.
#[derive(Debug, Clone, Copy, PartialEq, Eq, Structural)]
pub enum Stage {
    /// The server's greeting, which accepts or refuses the version.
    Greeting,
    /// The server's first message: its nonce, the salt and the rounds.
    Challenge,
    /// The server's final message: its signature.
    Verdict,
    /// Nothing: the handshake succeeded.
    Done,
    /// Nothing: the handshake failed.
    Failed,
}

/// The client's side of one handshake.
#[derive(Debug)]
pub struct Handshake {
    stage: Stage,
    user: String,
    password: String,
    db: String,
    nonce: String,
    verdict: String,
}

/// The mathematical value of a [`Handshake`].
pub ghost struct HandshakeView {
    /// What the handshake waits for.
    pub stage: Stage,
    /// The user that logs in.
    pub user: Seq<char>,
    /// The user's password.
    pub password: Seq<char>,
    /// The default database of the session that the handshake ends in.
    pub db: Seq<char>,
    /// The client's nonce.
    pub nonce: Seq<char>,
    /// The final message that the server must answer with, once the client
    /// has sent its proof.
    pub verdict: Seq<char>,
}

impl View for Handshake {
    type V = HandshakeView;

    closed spec fn view(&self) -> HandshakeView {
        HandshakeView {
            stage: self.stage,
            user: self.user@,
            password: self.password@,
            db: self.db@,
            nonce: self.nonce@,
            verdict: self.verdict@,
        }
    }
}

/// What the handshake decided on a message, before anything is written.
#[derive(Debug, PartialEq, Eq)]
pub enum Move {
    /// Wait for the server's next message.
    Wait,
    /// Send this document, then wait.
    Reply(Datum),
    /// The handshake succeeded.
    Done,
}

/// What to do next in a handshake.
#[derive(Debug)]
pub enum Step {
    /// Wait for the server's next message.
    Wait,
    /// Send these bytes, then wait.
    Send(Vec<u8>),
    /// The handshake succeeded: here is the session.
    Done(Session),
}

/// The client's greeting: the version it speaks, how it authenticates, and
/// its first SCRAM message.
pub open spec fn greeting_json(user: Seq<char>, nonce: Seq<char>) -> Json {
    Json::Object(
        seq![
            ("protocol_version"@, Json::UInt(0)),
            ("authentication_method"@, Json::String("SCRAM-SHA-256"@)),
            ("authentication"@, Json::String(client_first(user, nonce))),
        ],
    )
}

/// A message that carries one SCRAM message.
pub open spec fn authentication_json(text: Seq<char>) -> Json {
    Json::Object(seq![("authentication"@, Json::String(text))])
}

/// The bytes that open a handshake: the version's magic number, then the
/// greeting, then a zero byte.
pub open spec fn greeting_bytes(user: Seq<char>, nonce: Seq<char>) -> Seq<u8> {
    le_bytes(VERSION_MAGIC as nat, 4) + json_text(greeting_json(user, nonce)) + seq![0u8]
}

/// The fault that a server's message reports: none if it says
/// `"success": true`; else an authentication failure with the server's
/// `"error"` text and `"error_code"`, as far as it sent them.
pub open spec fn refusal(j: Json) -> Option<Fault> {
    if j.get("success"@) == Some(Json::Bool(true)) {
        None
    } else {
        Some(
            Fault {
                kind: ErrorKind::Auth,
                message: match j.get("error"@) {
                    Some(Json::String(s)) => s,
                    _ => Seq::empty(),
                },
                code: match j.get("error_code"@) {
                    Some(Json::UInt(code)) => Some(code),
                    _ => None,
                },
            },
        )
    }
}

/// The SCRAM message that a server's message carries under
/// `"authentication"`.
pub open spec fn authentication(j: Json) -> Option<Seq<char>> {
    match j.get("authentication"@) {
        Some(Json::String(s)) => Some(s),
        _ => None,
    }
}

/// What the client makes of a challenge.
pub ghost struct Answer {
    /// The client's final message.
    pub reply: Seq<char>,
    /// The final message that the server must answer with.
    pub verdict: Seq<char>,
}

/// The client's answer to the server's first message `text`; the fault
/// where it must refuse: the text is no first message, the nonce does not
/// start with the client's, or the salt is no base64.
pub open spec fn answer(h: HandshakeView, text: Seq<char>) -> Result<Answer, Fault> {
    match server_first(text) {
        None => Err(Fault::new(ErrorKind::Auth, "invalid server message"@)),
        Some(first) => if !starts_with(first.nonce, h.nonce) {
            Err(Fault::new(ErrorKind::Auth, "invalid nonce"@))
        } else {
            match base64_bytes(first.salt) {
                None => Err(Fault::new(ErrorKind::Auth, "invalid salt"@)),
                Some(salt) => {
                    let salted = salted_password(h.password, salt, first.rounds);
                    let auth = encode_utf8(
                        auth_message(first_bare(h.user, h.nonce), text, first.nonce),
                    );
                    Ok(
                        Answer {
                            reply: client_final(first.nonce, client_proof(salted, auth)),
                            verdict: server_final(server_signature(salted, auth)),
                        },
                    )
                },
            }
        },
    }
}

/// What the handshake decides on a message.
pub ghost enum Decision {
    /// Wait for the server's next message.
    Wait,
    /// Send the client's final message, then wait.
    Reply(Seq<char>),
    /// The handshake succeeded.
    Done,
}

/// The fault of a message to a handshake that is over.
pub open spec fn over() -> Fault {
    Fault::new(ErrorKind::Other, "handshake is over"@)
}

impl HandshakeView {
    /// Whether the handshake takes no more messages.
    pub open spec fn is_over(self) -> bool {
        self.stage is Done || self.stage is Failed
    }

    /// The handshake, failed.
    pub open spec fn failed(self) -> HandshakeView {
        HandshakeView { stage: Stage::Failed, ..self }
    }

    /// The handshake after a message that it could not accept: failed,
    /// unless it had succeeded before.
    pub open spec fn after_failure(self) -> HandshakeView {
        if self.stage is Done {
            self
        } else {
            self.failed()
        }
    }

    /// One step of the handshake: from its state and the server's message
    /// to the next state and what to do, or to the fault that ends it.
    ///
    /// A handshake that is over takes no message. A message that does not
    /// say `"success": true` is a refusal. Otherwise the greeting is
    /// accepted as it is; the challenge is answered as [`answer`] says; the
    /// verdict must be the final message that the client expects.
    pub open spec fn step(self, j: Json) -> Result<(HandshakeView, Decision), Fault> {
        if self.is_over() {
            Err(over())
        } else if refusal(j) is Some {
            Err(refusal(j)->0)
        } else if self.stage is Greeting {
            Ok((HandshakeView { stage: Stage::Challenge, ..self }, Decision::Wait))
        } else {
            match authentication(j) {
                None => Err(Fault::new(ErrorKind::Json, "message without authentication"@)),
                Some(text) => if self.stage is Challenge {
                    match answer(self, text) {
                        Ok(a) => Ok(
                            (
                                HandshakeView { stage: Stage::Verdict, verdict: a.verdict, ..self },
                                Decision::Reply(a.reply),
                            ),
                        ),
                        Err(fault) => Err(fault),
                    }
                } else if text == self.verdict {
                    Ok((HandshakeView { stage: Stage::Done, ..self }, Decision::Done))
                } else {
                    Err(Fault::new(ErrorKind::Auth, "server signature mismatch"@))
                },
            }
        }
    }
}

/// An authentication failure that the client itself found.
fn auth_failure(what: &str) -> (e: ReqlError)
    ensures
        e@ == Fault::new(ErrorKind::Auth, what@),
{
    ReqlError::Driver(Driver::Auth(what.to_owned(), None))
}

/// `a` followed by `b`.
fn joined(a: &str, b: &str) -> (s: String)
    ensures
        s@ == a@ + b@,
{
    let mut s = a.to_owned();
    s.append(b);
    s
}

/// Builds a message that carries one SCRAM message.
fn authentication_message(text: String) -> (d: Datum)
    ensures
        d@ == authentication_json(text@),
{
    let mut members: Vec<(String, Datum)> = Vec::new();
    members.push(("authentication".to_owned(), Datum::String(text)));
    proof {
        lemma_object_view(members);
        assert(Datum::Object(members)@->Object_0 =~= authentication_json(text@)->Object_0);
    }
    Datum::Object(members)
}

/// Builds the client's greeting.
pub fn greeting(user: &str, nonce: &str) -> (d: Datum)
    ensures
        d@ == greeting_json(user@, nonce@),
{
    let mut first = joined("n,,n=", user);
    first.append(",r=");
    first.append(nonce);
    proof {
        reveal_strlit("n,,n=");
        reveal_strlit("n,,");
        reveal_strlit("n=");
        assert("n,,n="@ =~= "n,,"@ + "n="@);
        assert(first@ =~= client_first(user@, nonce@));
    }
    let mut members: Vec<(String, Datum)> = Vec::new();
    members.push(("protocol_version".to_owned(), Datum::UInt(0)));
    members.push(("authentication_method".to_owned(), Datum::text("SCRAM-SHA-256")));
    members.push(("authentication".to_owned(), Datum::String(first)));
    proof {
        lemma_object_view(members);
        assert(Datum::Object(members)@->Object_0 =~= greeting_json(user@, nonce@)->Object_0);
    }
    Datum::Object(members)
}

/// Reads the fault that a server's message reports, if it reports one.
pub fn check_success(message: &Datum) -> (r: Result<(), ReqlError>)
    ensures
        match r {
            Ok(_) => refusal(message@) is None,
            Err(e) => refusal(message@) == Some(e@),
        },
{
    let accepted = match message.get("success") {
        Some(Datum::Bool(true)) => true,
        _ => false,
    };
    if accepted {
        return Ok(());
    }
    let text = match message.get("error") {
        Some(Datum::String(s)) => s.clone(),
        _ => String::new(),
    };
    let code = match message.get("error_code") {
        Some(Datum::UInt(code)) => Some(*code),
        _ => None,
    };
    Err(ReqlError::Driver(Driver::Auth(text, code)))
}

/// Finds the end of the first message in `buf`: the position of its zero
/// byte.
pub fn message_end(buf: &[u8]) -> (r: Option<usize>)
    ensures
        match r {
            Some(at) => at < buf@.len() && buf@[at as int] == 0 && forall|k: int|
                0 <= k < at ==> buf@[k] != 0,
            None => forall|k: int| 0 <= k < buf@.len() ==> buf@[k] != 0,
        },
{
    let mut i: usize = 0;
    while i < buf.len()
        invariant
            i <= buf@.len(),
            forall|k: int| 0 <= k < i ==> buf@[k] != 0,
        decreases buf@.len() - i,
    {
        if buf[i] == 0 {
            return Some(i);
        }
        i = i + 1;
    }
    None
}

/// Writes a handshake message: the document's JSON text, then a zero byte.
fn terminated(document: &Datum) -> (r: Result<Vec<u8>, ReqlError>)
    ensures
        match r {
            Ok(bytes) => json_writes(document@) && bytes@ == json_text(document@) + seq![0u8],
            Err(e) => !json_writes(document@) && e@.kind == ErrorKind::Json,
        },
{
    match document.to_bytes() {
        Ok(mut bytes) => {
            bytes.push(0);
            proof {
                assert(bytes@ =~= json_text(document@) + seq![0u8]);
            }
            Ok(bytes)
        },
        Err(e) => Err(e),
    }
}

impl Handshake {
    /// A handshake for `options` with the client nonce `nonce`, before
    /// anything was sent.
    pub fn new(options: Options, nonce: String) -> (h: Handshake)
        ensures
            h@ == (HandshakeView {
                stage: Stage::Greeting,
                user: options@.user,
                password: options@.password,
                db: options@.db,
                nonce: nonce@,
                verdict: Seq::empty(),
            }),
    {
        Handshake {
            stage: Stage::Greeting,
            user: options.user,
            password: options.password,
            db: options.db,
            nonce,
            verdict: String::new(),
        }
    }

    /// Opens a handshake: gives its state and the bytes to send first.
    ///
    /// It succeeds exactly where the JSON writer writes the greeting; the
    /// bytes are then the magic number, the greeting and a zero byte.
    pub fn start(options: Options, nonce: String) -> (r: Result<(Handshake, Vec<u8>), ReqlError>)
        ensures
            match r {
                Ok((h, bytes)) => {
                    &&& h@ == (HandshakeView {
                        stage: Stage::Greeting,
                        user: options@.user,
                        password: options@.password,
                        db: options@.db,
                        nonce: nonce@,
                        verdict: Seq::empty(),
                    })
                    &&& json_writes(greeting_json(options@.user, nonce@))
                    &&& bytes@ == greeting_bytes(options@.user, nonce@)
                },
                Err(e) => !json_writes(greeting_json(options@.user, nonce@)) && e@.kind
                    == ErrorKind::Json,
            },
    {
        let document = greeting(options.user.as_str(), nonce.as_str());
        let text = match terminated(&document) {
            Ok(text) => text,
            Err(e) => {
                return Err(e);
            },
        };
        let mut bytes: Vec<u8> = Vec::new();
        push_le(&mut bytes, VERSION_MAGIC as u64, 4);
        let mut text = text;
        bytes.append(&mut text);
        proof {
            assert(bytes@ =~= greeting_bytes(options@.user, nonce@));
        }
        Ok((Handshake::new(options, nonce), bytes))
    }

    /// What the handshake waits for.
    pub fn stage(&self) -> (s: Stage)
        ensures
            s == self@.stage,
    {
        self.stage
    }

    /// Makes the client's answer to the server's first message.
    fn respond(&self, text: &str) -> (r: Result<(String, String), ReqlError>)
        ensures
            match r {
                Ok((reply, verdict)) => answer(self@, text@) == Ok::<Answer, Fault>(
                    Answer { reply: reply@, verdict: verdict@ },
                ),
                Err(e) => answer(self@, text@) == Err::<Answer, Fault>(e@),
            },
    {
        let first = match parse_server_first(text) {
            Some(first) => first,
            None => {
                return Err(auth_failure("invalid server message"));
            },
        };
        if !has_prefix(first.nonce.as_str(), self.nonce.as_str()) {
            return Err(auth_failure("invalid nonce"));
        }
        let salt = match base64_decode(first.salt.as_str()) {
            Some(salt) => salt,
            None => {
                return Err(auth_failure("invalid salt"));
            },
        };
        let salted = salt_password(self.password.as_str(), salt.as_slice(), first.rounds);
        let mut bare = joined("n=", self.user.as_str());
        bare.append(",r=");
        bare.append(self.nonce.as_str());
        let without_proof = joined("c=biws,r=", first.nonce.as_str());
        let mut auth = bare;
        auth.append(",");
        auth.append(text);
        auth.append(",");
        auth.append(without_proof.as_str());
        proof {
            assert(auth@ =~= auth_message(first_bare(self@.user, self@.nonce), text@, first@.nonce));
        }
        let proof_bytes = prove(salted.as_slice(), auth.as_str().as_bytes());
        let signature = sign(salted.as_slice(), auth.as_str().as_bytes());
        let mut reply = without_proof;
        reply.append(",p=");
        reply.append(base64_encode(proof_bytes.as_slice()).as_str());
        let verdict = joined("v=", base64_encode(signature.as_slice()).as_str());
        Ok((reply, verdict))
    }

    /// Takes in the server's next message, already read as a document, and
    /// decides what follows, as [`HandshakeView::step`] says. A fault fails
    /// the handshake.
    pub fn advance(&mut self, message: &Datum) -> (r: Result<Move, ReqlError>)
        ensures
            match old(self)@.step(message@) {
                Ok((next, decision)) => {
                    &&& final(self)@ == next
                    &&& match decision {
                        Decision::Wait => r matches Ok(Move::Wait),
                        Decision::Reply(text) => r matches Ok(Move::Reply(d)) && d@
                            == authentication_json(text),
                        Decision::Done => r matches Ok(Move::Done),
                    }
                },
                Err(fault) => {
                    &&& r matches Err(e) && e@ == fault
                    &&& final(self)@ == old(self)@.after_failure()
                },
            },
    {
        match self.stage {
            Stage::Done => {
                return Err(ReqlError::Driver(Driver::Other("handshake is over".to_owned())));
            },
            Stage::Failed => {
                return Err(ReqlError::Driver(Driver::Other("handshake is over".to_owned())));
            },
            _ => {},
        }
        match check_success(message) {
            Ok(()) => {},
            Err(e) => {
                self.stage = Stage::Failed;
                return Err(e);
            },
        }
        if let Stage::Greeting = self.stage {
            self.stage = Stage::Challenge;
            return Ok(Move::Wait);
        }
        let text = match message.get("authentication") {
            Some(Datum::String(s)) => s,
            _ => {
                self.stage = Stage::Failed;
                return Err(
                    ReqlError::Driver(Driver::Json("message without authentication".to_owned())),
                );
            },
        };
        if let Stage::Challenge = self.stage {
            match self.respond(text.as_str()) {
                Ok((reply, verdict)) => {
                    self.verdict = verdict;
                    self.stage = Stage::Verdict;
                    Ok(Move::Reply(authentication_message(reply)))
                },
                Err(e) => {
                    self.stage = Stage::Failed;
                    Err(e)
                },
            }
        } else {
            if *text == self.verdict {
                self.stage = Stage::Done;
                Ok(Move::Done)
            } else {
                self.stage = Stage::Failed;
                Err(auth_failure("server signature mismatch"))
            }
        }
    }

    /// Takes in the server's next message, as the bytes before its zero
    /// byte, and says what to do next.
    ///
    /// Bytes that are no JSON text fail the handshake; a document is
    /// handled as [`HandshakeView::step`] says. An answer is written as
    /// JSON text and a zero byte; it is sent exactly where the JSON writer
    /// writes it, and where the writer refuses the handshake fails. Success
    /// gives the session, with the database the options named.
    pub fn receive(&mut self, message: &[u8]) -> (r: Result<Step, ReqlError>)
        ensures
            old(self)@.is_over() ==> (r matches Err(e) && e@ == over()) && final(self)@ == old(
                self,
            )@,
            !old(self)@.is_over() ==> match json_parsed(message@) {
                None => (r matches Err(e) && e@.kind == ErrorKind::Json) && final(self)@ == old(
                    self,
                )@.failed(),
                Some(j) => match old(self)@.step(j) {
                    Err(fault) => (r matches Err(e) && e@ == fault) && final(self)@ == old(
                        self,
                    )@.failed(),
                    Ok((next, Decision::Wait)) => r matches Ok(Step::Wait) && final(self)@ == next,
                    Ok((next, Decision::Reply(text))) => match r {
                        Ok(Step::Send(bytes)) => json_writes(authentication_json(text)) && bytes@
                            == json_text(authentication_json(text)) + seq![0u8] && final(self)@
                            == next,
                        Err(e) => !json_writes(authentication_json(text)) && e@.kind
                            == ErrorKind::Json && final(self)@ == old(self)@.failed(),
                        _ => false,
                    },
                    Ok((next, Decision::Done)) => (r matches Ok(Step::Done(session))
                        && session.wf() && session@ == SessionView::fresh(old(self)@.db))
                        && final(self)@ == next,
                },
            },
    {
        match self.stage {
            Stage::Done => {
                return Err(ReqlError::Driver(Driver::Other("handshake is over".to_owned())));
            },
            Stage::Failed => {
                return Err(ReqlError::Driver(Driver::Other("handshake is over".to_owned())));
            },
            _ => {},
        }
        let document = match Datum::parse(message) {
            Ok(document) => document,
            Err(e) => {
                self.stage = Stage::Failed;
                return Err(e);
            },
        };
        let before = self.verdict.clone();
        match self.advance(&document) {
            Ok(Move::Wait) => Ok(Step::Wait),
            Ok(Move::Reply(reply)) => match terminated(&reply) {
                Ok(bytes) => Ok(Step::Send(bytes)),
                Err(e) => {
                    self.stage = Stage::Failed;
                    self.verdict = before;
                    Err(e)
                },
            },
            Ok(Move::Done) => Ok(Step::Done(Session::new(self.db.clone()))),
            Err(e) => Err(e),
        }
    }
}

} // verus!
