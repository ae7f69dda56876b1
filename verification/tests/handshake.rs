use base64::Engine;
use hmac::Mac;
use reql::cmd::connect::{Arg, Options, DEFAULT_PORT};
use reql::datum::Datum;
use reql::err::{Driver, ErrorKind, ReqlError};
use reql::handshake::{check_success, greeting, message_end, Handshake, Move, Stage, Step};
use reql::r;
use reql::scram::{
    fresh_nonce, has_prefix, parse_server_first, prove, salt_password, sign, ServerFirst,
};

const CLIENT_NONCE: &str = "rOprNGfwEbeRWgbNEkqO";
const SERVER_FIRST: &str =
    "r=rOprNGfwEbeRWgbNEkqO%hvYDpWUa2RaTCAfuxFIlj)hNlF$k0,s=W22ZaJ0SNY7soEsUEjb6gQ==,i=4096";
const AUTH_MESSAGE: &str = "n=user,r=rOprNGfwEbeRWgbNEkqO,r=rOprNGfwEbeRWgbNEkqO%hvYDpWUa2RaTCAfuxFIlj)hNlF$k0,s=W22ZaJ0SNY7soEsUEjb6gQ==,i=4096,c=biws,r=rOprNGfwEbeRWgbNEkqO%hvYDpWUa2RaTCAfuxFIlj)hNlF$k0";
const CLIENT_PROOF: &str = "dHzbZapWIk4jUhN+Ute9ytag9zjfMHgsqmmiz7AndVQ=";
const SERVER_SIGNATURE: &str = "6rriTRBi23WpRR/wtup+mMhUZUn/dB5nLTJRsjl95G4=";

fn b64(bytes: &[u8]) -> String {
    base64::engine::general_purpose::STANDARD.encode(bytes)
}

fn unb64(text: &str) -> Vec<u8> {
    base64::engine::general_purpose::STANDARD.decode(text).unwrap()
}

fn published() -> Options {
    Options::new().user("user").password("pencil")
}

fn json(text: &str) -> String {
    format!("{{\"success\":true,\"authentication\":\"{}\"}}", text)
}

#[test]
fn client_proof_matches_the_published_vector() {
    let salted = salt_password("pencil", &unb64("W22ZaJ0SNY7soEsUEjb6gQ=="), 4096);
    assert_eq!(salted.len(), 32);
    assert_eq!(b64(&prove(&salted, AUTH_MESSAGE.as_bytes())), CLIENT_PROOF);
    assert_eq!(b64(&sign(&salted, AUTH_MESSAGE.as_bytes())), SERVER_SIGNATURE);
}

#[test]
fn salted_password_has_the_length_of_a_key() {
    assert_eq!(reql::scram::KEY_LEN, 32);
    assert_eq!(salt_password("pencil", b"salt", 1).len(), 32);
    assert_eq!(prove(&salt_password("pencil", b"salt", 1), b"m").len(), 32);
}

#[test]
fn two_handshakes_use_two_nonces() {
    let first = |bytes: &[u8]| {
        let d = Datum::parse(&bytes[4..bytes.len() - 1]).unwrap();
        d.get("authentication").unwrap().as_str().unwrap().to_string()
    };
    let (_, a) = r.connect(()).unwrap();
    let (_, b) = r.connect(()).unwrap();
    assert_ne!(first(&a), first(&b));
    assert_eq!(first(&a).len(), "n,,n=admin,r=".len() + 24);
}

#[test]
fn client_proof_is_the_same_every_time() {
    let once = prove(&salt_password("pencil", b"salt", 10), b"message");
    let twice = prove(&salt_password("pencil", b"salt", 10), b"message");
    assert_eq!(once, twice);
    assert_ne!(once, prove(&salt_password("pencil", b"salt", 11), b"message"));
    assert_ne!(once, prove(&salt_password("pencil", b"salt", 10), b"massage"));
    assert_ne!(once, sign(&salt_password("pencil", b"salt", 10), b"message"));
}

#[test]
fn sign_is_hmac_under_the_server_key() {
    let salted = salt_password("", b"abc", 1);
    let mut mac = hmac::Hmac::<sha2::Sha256>::new_from_slice(&salted).unwrap();
    mac.update(b"Server Key");
    let key = mac.finalize().into_bytes();
    let mut mac = hmac::Hmac::<sha2::Sha256>::new_from_slice(&key).unwrap();
    mac.update(b"auth");
    assert_eq!(sign(&salted, b"auth"), mac.finalize().into_bytes().to_vec());
}

#[test]
fn proof_is_client_key_xor_signature() {
    let salted = salt_password("pw", b"na", 3);
    let mac = |key: &[u8], message: &[u8]| {
        let mut mac = hmac::Hmac::<sha2::Sha256>::new_from_slice(key).unwrap();
        mac.update(message);
        mac.finalize().into_bytes().to_vec()
    };
    let client_key = mac(&salted, b"Client Key");
    let stored_key = <sha2::Sha256 as sha2::Digest>::digest(&client_key).to_vec();
    let signature = mac(&stored_key, b"auth");
    let expected: Vec<u8> = client_key.iter().zip(&signature).map(|(a, b)| a ^ b).collect();
    assert_eq!(prove(&salted, b"auth"), expected);
    let mut stretched = [0u8; 32];
    pbkdf2::pbkdf2_hmac::<sha2::Sha256>(b"pw", b"na", 3, &mut stretched);
    assert_eq!(salted, stretched.to_vec());
}

#[test]
fn server_first_is_read() {
    assert_eq!(
        parse_server_first(SERVER_FIRST),
        Some(ServerFirst {
            nonce: "rOprNGfwEbeRWgbNEkqO%hvYDpWUa2RaTCAfuxFIlj)hNlF$k0".into(),
            salt: "W22ZaJ0SNY7soEsUEjb6gQ==".into(),
            rounds: 4096,
        })
    );
    assert_eq!(
        parse_server_first("r=,s=,i=1,x=y"),
        Some(ServerFirst { nonce: "".into(), salt: "".into(), rounds: 1 })
    );
    assert_eq!(
        parse_server_first("r=é,s=ß,i=2"),
        Some(ServerFirst { nonce: "é".into(), salt: "ß".into(), rounds: 2 })
    );
}

#[test]
fn malformed_server_first_is_refused() {
    for text in [
        "",
        "r=abc",
        "r=abc,s=def",
        "r=abc,s=def,i=",
        "r=abc,s=def,i=0",
        "r=abc,s=def,i=x",
        "r=abc,s=def,i=4294967296",
        "s=def,r=abc,i=1",
        "r=abc,i=1,s=def",
        "r=abc,s=def,j=1",
        "x,r=abc,s=def,i=1",
        "r:abc,s=def,i=1",
    ] {
        assert_eq!(parse_server_first(text), None, "{}", text);
    }
}

#[test]
fn prefixes() {
    assert!(has_prefix("abcdef", "abc"));
    assert!(has_prefix("abc", "abc"));
    assert!(has_prefix("abc", ""));
    assert!(!has_prefix("ab", "abc"));
    assert!(!has_prefix("abd", "abc"));
    assert!(!has_prefix("xabc", "abc"));
}

#[test]
fn nonces_are_eighteen_bytes_in_base64() {
    let nonce = fresh_nonce().unwrap();
    assert_eq!(nonce.len(), 24);
    assert_eq!(unb64(&nonce).len(), 18);
    assert_ne!(fresh_nonce().unwrap(), nonce);
}

#[test]
fn greeting_opens_with_magic_and_ends_with_zero() {
    let (h, bytes) = Handshake::start(published(), CLIENT_NONCE.to_string()).unwrap();
    assert_eq!(h.stage(), Stage::Greeting);
    assert_eq!(&bytes[..4], &[0xc3, 0xbd, 0xc2, 0x34]);
    assert_eq!(bytes.last(), Some(&0));
    assert_eq!(message_end(&bytes[4..]), Some(bytes.len() - 5));
    let d = Datum::parse(&bytes[4..bytes.len() - 1]).unwrap();
    assert_eq!(d, greeting("user", CLIENT_NONCE).to_bytes().map(|b| Datum::parse(&b).unwrap()).unwrap());
    assert_eq!(d.get("protocol_version"), Some(&Datum::UInt(0)));
    assert_eq!(d.get("authentication_method"), Some(&Datum::text("SCRAM-SHA-256")));
    assert_eq!(d.get("authentication"), Some(&Datum::text("n,,n=user,r=rOprNGfwEbeRWgbNEkqO")));
}

#[test]
fn handshake_with_the_published_exchange() {
    let (mut h, _) = Handshake::start(published().db("marvel"), CLIENT_NONCE.to_string()).unwrap();
    let greeting = b"{\"success\":true,\"min_protocol_version\":0,\"max_protocol_version\":0,\"server_version\":\"2.4.0\"}";
    assert!(matches!(h.receive(greeting), Ok(Step::Wait)));
    assert_eq!(h.stage(), Stage::Challenge);
    let sent = match h.receive(json(SERVER_FIRST).as_bytes()) {
        Ok(Step::Send(bytes)) => bytes,
        other => panic!("unexpected {:?}", other),
    };
    let expected = format!(
        "{{\"authentication\":\"c=biws,r=rOprNGfwEbeRWgbNEkqO%hvYDpWUa2RaTCAfuxFIlj)hNlF$k0,p={}\"}}\0",
        CLIENT_PROOF
    );
    assert_eq!(String::from_utf8(sent).unwrap(), expected);
    assert_eq!(h.stage(), Stage::Verdict);
    let verdict = json(&format!("v={}", SERVER_SIGNATURE));
    let mut session = match h.receive(verdict.as_bytes()) {
        Ok(Step::Done(session)) => session,
        other => panic!("unexpected {:?}", other),
    };
    assert_eq!(h.stage(), Stage::Done);
    assert_eq!(session.db(), "marvel");
    assert!(!session.is_broken());
    assert_eq!(session.connection().unwrap().token(), 1);
    assert_eq!(
        h.receive(verdict.as_bytes()).unwrap_err(),
        ReqlError::Driver(Driver::Other("handshake is over".into()))
    );
    assert_eq!(h.stage(), Stage::Done);
}

/// A server that knows the admin's empty password.
fn server_answers(client_first: &str, salt: &[u8], rounds: u32) -> (String, String) {
    let bare = client_first.strip_prefix("n,,").unwrap();
    let client_nonce = bare.split(",r=").nth(1).unwrap();
    let server_nonce = format!("{}srvnonce", client_nonce);
    let first = format!("r={},s={},i={}", server_nonce, b64(salt), rounds);
    let auth = format!("{},{},c=biws,r={}", bare, first, server_nonce);
    let mut salted = [0u8; 32];
    pbkdf2::pbkdf2_hmac::<sha2::Sha256>(b"", salt, rounds, &mut salted);
    let mut mac = hmac::Hmac::<sha2::Sha256>::new_from_slice(&salted).unwrap();
    mac.update(b"Server Key");
    let key = mac.finalize().into_bytes();
    let mut mac = hmac::Hmac::<sha2::Sha256>::new_from_slice(&key).unwrap();
    mac.update(auth.as_bytes());
    (first, format!("v={}", b64(&mac.finalize().into_bytes())))
}

#[test]
fn admin_with_empty_password_connects() {
    let (mut h, bytes) = r.connect(()).unwrap();
    let sent = Datum::parse(&bytes[4..bytes.len() - 1]).unwrap();
    let client_first = sent.get("authentication").unwrap().as_str().unwrap().to_string();
    assert!(client_first.starts_with("n,,n=admin,r="));
    let (first, verdict) = server_answers(&client_first, b"0123456789abcdef", 17);
    assert!(matches!(h.receive(b"{\"success\":true}"), Ok(Step::Wait)));
    assert!(matches!(h.receive(json(&first).as_bytes()), Ok(Step::Send(_))));
    let mut session = match h.receive(json(&verdict).as_bytes()) {
        Ok(Step::Done(session)) => session,
        other => panic!("unexpected {:?}", other),
    };
    assert_eq!(session.db(), "test");
    let (c, frame) = session.server().unwrap();
    assert_eq!(&frame[12..], b"[5]");
    assert_eq!(c.token(), 1);
}

#[test]
fn a_refused_greeting_fails_with_the_servers_words() {
    let (mut h, _) = Handshake::start(published(), CLIENT_NONCE.to_string()).unwrap();
    let e = h
        .receive(b"{\"success\":false,\"error\":\"Unknown user\",\"error_code\":17}")
        .unwrap_err();
    assert_eq!(e, ReqlError::Driver(Driver::Auth("Unknown user".into(), Some(17))));
    assert_eq!(h.stage(), Stage::Failed);
    assert_eq!(
        h.receive(b"{\"success\":true}").unwrap_err(),
        ReqlError::Driver(Driver::Other("handshake is over".into()))
    );
}

#[test]
fn a_refusal_at_any_stage_fails() {
    let (mut h, _) = Handshake::start(published(), CLIENT_NONCE.to_string()).unwrap();
    h.receive(b"{\"success\":true}").unwrap();
    let e = h.receive(b"{\"success\":false,\"error\":\"Wrong password\",\"error_code\":12}");
    assert_eq!(
        e.unwrap_err(),
        ReqlError::Driver(Driver::Auth("Wrong password".into(), Some(12)))
    );
    let (mut h, _) = Handshake::start(published(), CLIENT_NONCE.to_string()).unwrap();
    let e = h.receive(b"{}").unwrap_err();
    assert_eq!(e, ReqlError::Driver(Driver::Auth(String::new(), None)));
}

#[test]
fn a_foreign_nonce_is_refused() {
    let (mut h, _) = Handshake::start(published(), CLIENT_NONCE.to_string()).unwrap();
    h.receive(b"{\"success\":true}").unwrap();
    let e = h.receive(json("r=XOprNGfwEbeRWgbNEkqO%hv,s=W22ZaJ0SNY7soEsUEjb6gQ==,i=4096").as_bytes());
    assert_eq!(e.unwrap_err(), ReqlError::Driver(Driver::Auth("invalid nonce".into(), None)));
    assert_eq!(h.stage(), Stage::Failed);
}

#[test]
fn a_wrong_signature_is_refused() {
    let (mut h, _) = Handshake::start(published(), CLIENT_NONCE.to_string()).unwrap();
    h.receive(b"{\"success\":true}").unwrap();
    h.receive(json(SERVER_FIRST).as_bytes()).unwrap();
    let e = h.receive(json("v=6rriTRBi23WpRR/wtup+mMhUZUn/dB5nLTJRsjl95G5=").as_bytes());
    assert_eq!(
        e.unwrap_err(),
        ReqlError::Driver(Driver::Auth("server signature mismatch".into(), None))
    );
    assert_eq!(h.stage(), Stage::Failed);
}

#[test]
fn malformed_challenges_are_refused() {
    let challenge = |text: &str| {
        let (mut h, _) = Handshake::start(published(), CLIENT_NONCE.to_string()).unwrap();
        h.receive(b"{\"success\":true}").unwrap();
        let e = h.receive(text.as_bytes()).unwrap_err();
        assert_eq!(h.stage(), Stage::Failed);
        e
    };
    assert_eq!(
        challenge(&json("r=rOprNGfwEbeRWgbNEkqO")),
        ReqlError::Driver(Driver::Auth("invalid server message".into(), None))
    );
    assert_eq!(
        challenge(&json("r=rOprNGfwEbeRWgbNEkqOx,s=***,i=1")),
        ReqlError::Driver(Driver::Auth("invalid salt".into(), None))
    );
    assert_eq!(
        challenge("{\"success\":true}"),
        ReqlError::Driver(Driver::Json("message without authentication".into()))
    );
    assert_eq!(challenge("{\"success\":true,\"authentication\":5}").kind(), ErrorKind::Json);
    assert_eq!(challenge("{\"success\"").kind(), ErrorKind::Json);
}

#[test]
fn advance_decides_on_documents() {
    let mut h = Handshake::new(published(), CLIENT_NONCE.to_string());
    let ok = Datum::Object(vec![("success".to_string(), Datum::Bool(true))]);
    assert_eq!(h.advance(&ok), Ok(Move::Wait));
    let challenge = Datum::Object(vec![
        ("success".to_string(), Datum::Bool(true)),
        ("authentication".to_string(), Datum::text(SERVER_FIRST)),
    ]);
    let reply = format!(
        "c=biws,r=rOprNGfwEbeRWgbNEkqO%hvYDpWUa2RaTCAfuxFIlj)hNlF$k0,p={}",
        CLIENT_PROOF
    );
    assert_eq!(
        h.advance(&challenge),
        Ok(Move::Reply(Datum::Object(vec![("authentication".to_string(), Datum::text(&reply))])))
    );
    let verdict = Datum::Object(vec![
        ("success".to_string(), Datum::Bool(true)),
        ("authentication".to_string(), Datum::String(format!("v={}", SERVER_SIGNATURE))),
    ]);
    assert_eq!(h.advance(&verdict), Ok(Move::Done));
}

#[test]
fn success_must_be_true() {
    let with = |v: Datum| Datum::Object(vec![("success".to_string(), v)]);
    assert_eq!(check_success(&with(Datum::Bool(true))), Ok(()));
    assert_eq!(
        check_success(&with(Datum::Bool(false))),
        Err(ReqlError::Driver(Driver::Auth(String::new(), None)))
    );
    assert_eq!(
        check_success(&with(Datum::UInt(1))),
        Err(ReqlError::Driver(Driver::Auth(String::new(), None)))
    );
    assert_eq!(
        check_success(&Datum::Null),
        Err(ReqlError::Driver(Driver::Auth(String::new(), None)))
    );
}

#[test]
fn messages_end_at_the_first_zero() {
    assert_eq!(message_end(b"abc\0def\0"), Some(3));
    assert_eq!(message_end(b"\0"), Some(0));
    assert_eq!(message_end(b"abc"), None);
    assert_eq!(message_end(b""), None);
}

#[test]
fn connect_options_default_and_builders() {
    let o = Options::new();
    assert_eq!(o.host, "localhost");
    assert_eq!(o.port, 28015);
    assert_eq!(DEFAULT_PORT, 28015);
    assert_eq!(o.db, "test");
    assert_eq!(o.user, "admin");
    assert_eq!(o.password, "");
    assert_eq!(o.timeout, None);
    assert_eq!(Options::default(), o);
    assert_eq!(().into_connect_opts(), o);
    let o = o.host("db1").port(1234).db("marvel").user("bob").password("s3cret").timeout(500);
    assert_eq!(
        o,
        Options {
            host: "db1".into(),
            port: 1234,
            db: "marvel".into(),
            user: "bob".into(),
            password: "s3cret".into(),
            timeout: Some(500),
        }
    );
    assert_eq!(o.clone().into_connect_opts(), o);
}
