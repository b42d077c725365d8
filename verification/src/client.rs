//! The client's choices: which method to call, with what, and the exit code
//! to leave with.

use vstd::prelude::*;
use vstd::utf8::encode_utf8;
use crate::outcome::{exec_outcome_of, is_reply_of, Method, ReplyPayload};

verus! {

/// The exit code of a client whose bus call failed.
pub const BUS_FAILURE_EXIT: i32 = 111;

/// Why the client made no call.
#[derive(Clone, Copy, Debug, PartialEq, Eq)]
pub enum ClientError {
    /// The current directory is not valid UTF-8.
    WorkdirNotUtf8,
    /// No executable was named on the command line.
    NotEnoughArguments,
}

/// The call that the client makes.
#[derive(Clone, Debug, PartialEq, Eq)]
pub struct Invocation {
    pub method: Method,
    pub workdir: String,
    pub executable: String,
    pub args: Vec<String>,
}

/// An ASCII letter's lower case; any other byte unchanged.
pub open spec fn lower(b: u8) -> u8 {
    if 0x41 <= b <= 0x5a {
        (b + 0x20) as u8
    } else {
        b
    }
}

/// The four letters of "exec", in any case, stand at index `i`.
pub open spec fn exec_at(bytes: Seq<u8>, i: int) -> bool {
    &&& 0 <= i
    &&& i + 4 <= bytes.len()
    &&& lower(bytes[i]) == 0x65
    &&& lower(bytes[i + 1]) == 0x78
    &&& lower(bytes[i + 2]) == 0x65
    &&& lower(bytes[i + 3]) == 0x63
}

/// The bytes hold "exec" somewhere, in any case.
pub open spec fn names_exec(bytes: Seq<u8>) -> bool {
    exists|i: int| exec_at(bytes, i)
}

/// The method that a client started under `procname` calls: `Exec` where the
/// name holds "exec" in any case, else `Open`.
pub open spec fn method_for(procname: Seq<char>) -> Method {
    if names_exec(encode_utf8(procname)) {
        Method::Exec
    } else {
        Method::Open
    }
}

fn to_lower(b: u8) -> (l: u8)
    ensures
        l == lower(b),
{
    if 0x41 <= b && b <= 0x5a {
        b + 0x20
    } else {
        b
    }
}

/// Chooses the method by the name that the client was started under.
pub fn select_method(procname: &str) -> (method: Method)
    ensures
        method == method_for(procname@),
{
    let bytes = procname.as_bytes();
    let n: usize = bytes.len();
    if n < 4 {
        return Method::Open;
    }
    let mut i: usize = 0;
    while i <= n - 4
        invariant
            4 <= n == bytes@.len(),
            bytes@ == encode_utf8(procname@),
            i <= n,
            forall|j: int| 0 <= j < i ==> !exec_at(bytes@, j),
        decreases n - i,
    {
        if to_lower(bytes[i]) == 0x65 && to_lower(bytes[i + 1]) == 0x78 && to_lower(bytes[i + 2])
            == 0x65 && to_lower(bytes[i + 3]) == 0x63 {
            assert(exec_at(bytes@, i as int));
            return Method::Exec;
        }
        i = i + 1;
    }
    Method::Open
}

/// Plans the call from the client's current directory, `None` where it is
/// not valid UTF-8, and its command line: the name it was started under, the
/// executable, then the executable's arguments.
pub fn plan_invocation(workdir: Option<String>, sysargs: Vec<String>) -> (r: Result<
    Invocation,
    ClientError,
>)
    ensures
        match r {
            Ok(call) => workdir == Some(call.workdir) && sysargs@.len() >= 2 && call.method
                == method_for(sysargs@[0]@) && call.executable == sysargs@[1] && call.args@
                == sysargs@.skip(2),
            Err(e) => e == (if workdir is None {
                ClientError::WorkdirNotUtf8
            } else {
                ClientError::NotEnoughArguments
            }) && (workdir is None || sysargs@.len() < 2),
        },
{
    let workdir = match workdir {
        Some(w) => w,
        None => {
            return Err(ClientError::WorkdirNotUtf8);
        },
    };
    let ghost all = sysargs@;
    let mut rest = sysargs;
    if rest.len() < 2 {
        return Err(ClientError::NotEnoughArguments);
    }
    let procname = rest.remove(0);
    let executable = rest.remove(0);
    let method = select_method(procname.as_str());
    proof {
        assert(rest@ =~= all.skip(2));
    }
    Ok(Invocation { method, workdir, executable, args: rest })
}

/// The exit code for a response, `None` where the bus call itself failed.
pub open spec fn exit_code_of(method: Method, response: Option<ReplyPayload>) -> i32 {
    match (method, response) {
        (Method::Exec, Some(ReplyPayload::Status(status))) => status,
        (Method::Open, Some(ReplyPayload::Accepted)) => 0,
        (Method::Open, Some(ReplyPayload::Status(_))) => 0,
        _ => BUS_FAILURE_EXIT,
    }
}

/// The code that the client exits with: the reported status for `Exec`, 0
/// for an `Open` that was accepted, and `BUS_FAILURE_EXIT` where the call
/// failed, came back as an error, or `Exec` came back without a status.
pub fn exit_code(method: Method, response: Option<ReplyPayload>) -> (code: i32)
    ensures
        code == exit_code_of(method, response),
{
    match response {
        Some(ReplyPayload::Status(status)) => match method {
            Method::Exec => status,
            Method::Open => 0,
        },
        Some(ReplyPayload::Accepted) => match method {
            Method::Exec => BUS_FAILURE_EXIT,
            Method::Open => 0,
        },
        _ => BUS_FAILURE_EXIT,
    }
}

/// From the child to the client's own exit: a client of `Exec` leaves with
/// the exit code of the child that the service ran for it.
pub proof fn lemma_exec_exit_code_round_trip(code: i32, payload: ReplyPayload)
    requires
        is_reply_of(payload, exec_outcome_of(Ok(Some(code)))),
    ensures
        exit_code_of(Method::Exec, Some(payload)) == code,
{
}

} // verus!
