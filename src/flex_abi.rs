use vstd::prelude::*;
use vstd::string::*;
use vstd::utf8::{decode_utf8 as utf8_text, valid_utf8};

verus! {

/// The status codes that the host returns across the call boundary.
#[derive(Clone, Copy, Debug, PartialEq, Eq, Structural)]
pub enum Status {
    Success,
    NotFound,
    BadArgument,
    ParseFailure,
    Empty,
    CasMismatch,
    InternalFailure,
}

pub open spec fn status_of_code(code: u32) -> Option<Status> {
    if code == 0 {
        Some(Status::Success)
    } else if code == 1 {
        Some(Status::NotFound)
    } else if code == 2 {
        Some(Status::BadArgument)
    } else if code == 4 {
        Some(Status::ParseFailure)
    } else if code == 7 {
        Some(Status::Empty)
    } else if code == 8 {
        Some(Status::CasMismatch)
    } else if code == 10 {
        Some(Status::InternalFailure)
    } else {
        None
    }
}

/// Reads a numeric status code; `None` for a code the boundary does not define.
pub fn status_from_code(code: u32) -> (s: Option<Status>)
    ensures
        s == status_of_code(code),
{
    if code == 0 {
        Some(Status::Success)
    } else if code == 1 {
        Some(Status::NotFound)
    } else if code == 2 {
        Some(Status::BadArgument)
    } else if code == 4 {
        Some(Status::ParseFailure)
    } else if code == 7 {
        Some(Status::Empty)
    } else if code == 8 {
        Some(Status::CasMismatch)
    } else if code == 10 {
        Some(Status::InternalFailure)
    } else {
        None
    }
}

/// What one call across the boundary came to.
#[derive(Debug)]
pub enum Outcome {
    /// The host handed over a buffer; it is now owned here.
    Bytes(Vec<u8>),
    /// The call succeeded with nothing to return, or found nothing.
    Empty,
    /// The host answered with a status that breaks the boundary's contract.
    Fatal(u32),
}

/// A call to make: the host function's name and the encoded argument string.
pub struct BridgeCall {
    pub name: String,
    pub args: String,
}

/// What the host answered: its status code and, where it handed a buffer
/// over, the bytes taken from it.
pub struct Reply {
    pub status: u32,
    pub data: Option<Vec<u8>>,
}

/// The host side of the boundary.
pub trait Host {
    /// Invokes the host function `call.name` with the encoded arguments.
    fn invoke(&mut self, call: &BridgeCall) -> Reply;
}

/// The arguments joined with `|`, without escaping.
pub open spec fn joined(args: Seq<Seq<char>>) -> Seq<char>
    decreases args.len(),
{
    if args.len() == 0 {
        Seq::empty()
    } else if args.len() == 1 {
        args[0]
    } else {
        joined(args.drop_last()) + seq!['|'] + args.last()
    }
}

pub open spec fn views_of(args: Seq<String>) -> Seq<Seq<char>> {
    args.map_values(|a: String| a@)
}

/// Relies on String::from_utf8: the text that the bytes encode where they
/// are valid UTF-8, and an error otherwise.
#[verifier::external_body]
pub(crate) fn decode_utf8(b: Vec<u8>) -> (r: Option<String>)
    ensures
        match r {
            Some(s) => valid_utf8(b@) && s@ == utf8_text(b@),
            None => !valid_utf8(b@),
        },
{
    String::from_utf8(b).ok()
}

/// Encodes an argument list for the boundary.
pub fn encode_args(args: &[String]) -> (s: String)
    ensures
        s@ == joined(views_of(args@)),
{
    let ghost v = views_of(args@);
    let mut s = String::new();
    if args.len() == 0 {
        return s;
    }
    s.append(args[0].as_str());
    proof {
        assert(v.take(1).drop_last() =~= Seq::<Seq<char>>::empty());
    }
    let mut i: usize = 1;
    while i < args.len()
        invariant
            1 <= i <= args@.len(),
            v == views_of(args@),
            s@ == joined(v.take(i as int)),
        decreases args@.len() - i,
    {
        proof {
            reveal_strlit("|");
            assert(v.take(i + 1).drop_last() =~= v.take(i as int));
        }
        s.append("|");
        s.append(args[i].as_str());
        i = i + 1;
    }
    proof {
        assert(v.take(i as int) =~= v);
    }
    s
}

/// The call of host function `name` with `args`.
pub fn request(name: &str, args: &[String]) -> (c: BridgeCall)
    ensures
        c.name@ == name@,
        c.args@ == joined(views_of(args@)),
{
    BridgeCall { name: String::from_str(name), args: encode_args(args) }
}

/// Classifies the host's answer. A buffer is kept only with status Ok; a
/// missing status is no error; every other status is fatal.
pub fn decode(reply: Reply) -> (o: Outcome)
    ensures
        reply.status == 0 ==> match reply.data {
            Some(b) => o == Outcome::Bytes(b),
            None => o == Outcome::Empty,
        },
        reply.status == 1 ==> o == Outcome::Empty,
        reply.status != 0 && reply.status != 1 ==> o == Outcome::Fatal(reply.status),
{
    match status_from_code(reply.status) {
        Some(Status::Success) => match reply.data {
            Some(b) => Outcome::Bytes(b),
            None => Outcome::Empty,
        },
        Some(Status::NotFound) => Outcome::Empty,
        _ => Outcome::Fatal(reply.status),
    }
}

/// Makes one call across the boundary and classifies the answer.
pub fn call<H: Host>(host: &mut H, name: &str, args: &[String]) -> (o: Outcome)
    ensures
        o matches Outcome::Fatal(code) ==> code != 0 && code != 1,
{
    let c = request(name, args);
    let reply = host.invoke(&c);
    decode(reply)
}

/// The text that an environment lookup answered: the returned bytes where
/// they are valid UTF-8, nothing otherwise.
pub fn env_value(o: Outcome) -> (r: Option<String>)
    ensures
        match o {
            Outcome::Bytes(b) => match r {
                Some(s) => valid_utf8(b@) && s@ == utf8_text(b@),
                None => !valid_utf8(b@),
            },
            _ => r is None,
        },
{
    match o {
        Outcome::Bytes(b) => decode_utf8(b),
        _ => None,
    }
}

/// A call completed unless the host answered with a fatal status.
pub fn completed(o: &Outcome) -> (r: bool)
    ensures
        r == !(o is Fatal),
{
    match o {
        Outcome::Fatal(_) => false,
        _ => true,
    }
}

/// The request that logs `msg` at `level`.
pub fn log_request(level: &str, msg: String) -> (c: BridgeCall)
    ensures
        c.name@ == "flex_log"@,
        c.args@ == level@ + seq!['|'] + msg@,
{
    let mut args = String::from_str(level);
    proof {
        reveal_strlit("|");
    }
    args.append("|");
    args.append(msg.as_str());
    BridgeCall { name: String::from_str("flex_log"), args }
}

/// The request that looks up the environment variable `name`.
pub fn env_request(name: String) -> (c: BridgeCall)
    ensures
        c.name@ == "flex_get_env"@,
        c.args@ == name@,
{
    BridgeCall { name: String::from_str("flex_get_env"), args: name }
}

/// The request that registers service `name` in namespace `ns` at `uri`.
pub fn service_create_request(name: String, ns: String, uri: String) -> (c: BridgeCall)
    ensures
        c.name@ == "flex_service_create"@,
        c.args@ == name@ + seq!['|'] + ns@ + seq!['|'] + uri@,
{
    let mut args = name;
    proof {
        reveal_strlit("|");
    }
    args.append("|");
    args.append(ns.as_str());
    args.append("|");
    args.append(uri.as_str());
    BridgeCall { name: String::from_str("flex_service_create"), args }
}

/// What the host's answer to an environment lookup gives: the returned text
/// where the status is Ok and the bytes are UTF-8, nothing otherwise.
pub fn env_result(reply: Reply) -> (r: Option<String>)
    ensures
        match (reply.status, reply.data) {
            (0, Some(b)) => match r {
                Some(s) => valid_utf8(b@) && s@ == utf8_text(b@),
                None => !valid_utf8(b@),
            },
            _ => r is None,
        },
{
    env_value(decode(reply))
}

/// Whether a service registration completed: the host answered Ok or
/// NotFound, whatever the registration itself came to.
pub fn service_create_result(reply: Reply) -> (r: bool)
    ensures
        r == (reply.status == 0 || reply.status == 1),
{
    completed(&decode(reply))
}

/// Logs `msg` at `level`, best effort: the host's answer is dropped.
fn log<H: Host>(host: &mut H, level: &str, msg: String) {
    let c = log_request(level, msg);
    let _ = host.invoke(&c);
}

pub fn log_debug<H: Host>(host: &mut H, msg: String) {
    log(host, "debug", msg)
}

pub fn log_info<H: Host>(host: &mut H, msg: String) {
    log(host, "info", msg)
}

pub fn log_warn<H: Host>(host: &mut H, msg: String) {
    log(host, "warn", msg)
}

pub fn log_error<H: Host>(host: &mut H, msg: String) {
    log(host, "error", msg)
}

/// Registers a service with the host: sends `service_create_request` and
/// reads the answer with `service_create_result`.
pub fn service_create<H: Host>(host: &mut H, name: String, ns: String, uri: String) -> bool {
    let c = service_create_request(name, ns, uri);
    let reply = host.invoke(&c);
    service_create_result(reply)
}

/// Looks up an environment variable through the host: sends `env_request`
/// and reads the answer with `env_result`.
pub fn get_env<H: Host>(host: &mut H, name: String) -> (r: Option<String>)
    ensures
        r matches Some(s) ==> exists|b: Seq<u8>| valid_utf8(b) && utf8_text(b) == s@,
{
    let c = env_request(name);
    let reply = host.invoke(&c);
    let ghost rep = reply;
    let r = env_result(reply);
    proof {
        if r is Some {
            let b = rep.data->0;
            assert(valid_utf8(b@) && utf8_text(b@) == r->0@);
        }
    }
    r
}

} // verus!
