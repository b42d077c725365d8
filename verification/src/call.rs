//! Decoding the arguments of one bus message into an incoming call.

use vstd::prelude::*;
use crate::outcome::{Method, ReplyPayload};

verus! {

/// One decoded argument of a bus message.
#[derive(Clone, Debug, PartialEq, Eq)]
pub enum BusValue {
    /// A string.
    Text(String),
    /// A sequence of strings.
    TextList(Vec<String>),
    /// A stream handle, as the number under which its holder keeps it.
    Stream(i32),
    /// A value of any other type.
    Other,
}

/// The type that a position of a call's arguments asks for.
#[derive(Clone, Copy, Debug, PartialEq, Eq)]
pub enum Shape {
    Text,
    TextList,
    Stream,
}

/// The three streams that `Exec` attaches to the child.
#[derive(Clone, Copy, Debug, PartialEq, Eq)]
pub struct Stdio {
    pub stdin: i32,
    pub stdout: i32,
    pub stderr: i32,
}

/// One call, decoded.
#[derive(Clone, Debug, PartialEq, Eq)]
pub struct IncomingCall {
    pub method: Method,
    pub workdir: String,
    pub executable: String,
    pub args: Vec<String>,
    /// Present for `Exec` only.
    pub stdio: Option<Stdio>,
}

/// Why a message could not be decoded. Both name the first position, counted
/// from 0, at which decoding failed.
#[derive(Clone, Copy, Debug, PartialEq, Eq)]
pub enum DecodeError {
    /// The message has no argument at this position.
    Missing(usize),
    /// The argument at this position has another type.
    Mismatch(usize),
}

/// How many arguments a method takes.
pub open spec fn arity(method: Method) -> int {
    match method {
        Method::Open => 3,
        Method::Exec => 6,
    }
}

/// The type asked for at a position: working directory, executable,
/// arguments, then the three streams.
pub open spec fn shape_at(position: int) -> Shape {
    if position < 2 {
        Shape::Text
    } else if position == 2 {
        Shape::TextList
    } else {
        Shape::Stream
    }
}

/// Whether a value has the type asked for.
pub open spec fn fits(value: BusValue, shape: Shape) -> bool {
    match shape {
        Shape::Text => value is Text,
        Shape::TextList => value is TextList,
        Shape::Stream => value is Stream,
    }
}

/// What is wrong at one position, if anything.
pub open spec fn fault_at(values: Seq<BusValue>, position: int) -> Option<DecodeError> {
    if position >= values.len() {
        Some(DecodeError::Missing(position as usize))
    } else if !fits(values[position], shape_at(position)) {
        Some(DecodeError::Mismatch(position as usize))
    } else {
        None
    }
}

/// What is wrong at the first faulty position from `position` on, among the
/// positions that the method takes.
pub open spec fn first_fault_from(method: Method, values: Seq<BusValue>, position: int) -> Option<
    DecodeError,
>
    decreases arity(method) - position,
{
    if position >= arity(method) {
        None
    } else if fault_at(values, position) is Some {
        fault_at(values, position)
    } else {
        first_fault_from(method, values, position + 1)
    }
}

/// The call that faultless arguments decode to. Arguments beyond those that
/// the method takes are ignored.
pub open spec fn decoded(method: Method, values: Seq<BusValue>) -> IncomingCall {
    IncomingCall {
        method,
        workdir: values[0]->Text_0,
        executable: values[1]->Text_0,
        args: values[2]->TextList_0,
        stdio: match method {
            Method::Open => None,
            Method::Exec => Some(
                Stdio {
                    stdin: values[3]->Stream_0,
                    stdout: values[4]->Stream_0,
                    stderr: values[5]->Stream_0,
                },
            ),
        },
    }
}

fn take_front(values: &mut Vec<BusValue>, position: usize) -> (r: Result<BusValue, DecodeError>)
    ensures
        match r {
            Ok(v) => old(values)@.len() > 0 && v == old(values)@[0] && final(values)@ == old(values)@.remove(0),
            Err(e) => old(values)@.len() == 0 && e == DecodeError::Missing(position),
        },
{
    if values.len() == 0 {
        Err(DecodeError::Missing(position))
    } else {
        Ok(values.remove(0))
    }
}

fn take_text(values: &mut Vec<BusValue>, position: usize) -> (r: Result<String, DecodeError>)
    ensures
        match r {
            Ok(s) => old(values)@.len() > 0 && old(values)@[0] == BusValue::Text(s) && final(values)@ == old(values)@.remove(0),
            Err(e) => e == (if old(values)@.len() == 0 {
                DecodeError::Missing(position)
            } else {
                DecodeError::Mismatch(position)
            }) && (old(values)@.len() == 0 || !(old(values)@[0] is Text)),
        },
{
    match take_front(values, position) {
        Ok(BusValue::Text(s)) => Ok(s),
        Ok(_) => Err(DecodeError::Mismatch(position)),
        Err(e) => Err(e),
    }
}

fn take_text_list(values: &mut Vec<BusValue>, position: usize) -> (r: Result<
    Vec<String>,
    DecodeError,
>)
    ensures
        match r {
            Ok(l) => old(values)@.len() > 0 && old(values)@[0] == BusValue::TextList(l) && final(values)@ == old(values)@.remove(0),
            Err(e) => e == (if old(values)@.len() == 0 {
                DecodeError::Missing(position)
            } else {
                DecodeError::Mismatch(position)
            }) && (old(values)@.len() == 0 || !(old(values)@[0] is TextList)),
        },
{
    match take_front(values, position) {
        Ok(BusValue::TextList(l)) => Ok(l),
        Ok(_) => Err(DecodeError::Mismatch(position)),
        Err(e) => Err(e),
    }
}

fn take_stream(values: &mut Vec<BusValue>, position: usize) -> (r: Result<i32, DecodeError>)
    ensures
        match r {
            Ok(h) => old(values)@.len() > 0 && old(values)@[0] == BusValue::Stream(h) && final(values)@ == old(values)@.remove(0),
            Err(e) => e == (if old(values)@.len() == 0 {
                DecodeError::Missing(position)
            } else {
                DecodeError::Mismatch(position)
            }) && (old(values)@.len() == 0 || !(old(values)@[0] is Stream)),
        },
{
    match take_front(values, position) {
        Ok(BusValue::Stream(h)) => Ok(h),
        Ok(_) => Err(DecodeError::Mismatch(position)),
        Err(e) => Err(e),
    }
}

/// Decodes the arguments of a call of `method`, position by position. Every
/// position that the method takes must be there with the right type; the
/// error names the first one that is not.
pub fn decode_call(method: Method, values: Vec<BusValue>) -> (r: Result<IncomingCall, DecodeError>)
    ensures
        r == match first_fault_from(method, values@, 0) {
            Some(e) => Err::<IncomingCall, DecodeError>(e),
            None => Ok(decoded(method, values@)),
        },
{
    let ghost all = values@;
    let mut values = values;
    proof {
        reveal_with_fuel(first_fault_from, 8);
    }
    let workdir = match take_text(&mut values, 0) {
        Ok(s) => s,
        Err(e) => {
            return Err(e);
        },
    };
    assert(values@ == all.skip(1)) by {
        assert(all.remove(0) =~= all.skip(1));
    }
    let executable = match take_text(&mut values, 1) {
        Ok(s) => s,
        Err(e) => {
            return Err(e);
        },
    };
    assert(values@ == all.skip(2)) by {
        assert(all.skip(1).remove(0) =~= all.skip(2));
    }
    let args = match take_text_list(&mut values, 2) {
        Ok(l) => l,
        Err(e) => {
            return Err(e);
        },
    };
    assert(values@ == all.skip(3)) by {
        assert(all.skip(2).remove(0) =~= all.skip(3));
    }
    match method {
        Method::Open => Ok(IncomingCall { method, workdir, executable, args, stdio: None }),
        Method::Exec => {
            let stdin = match take_stream(&mut values, 3) {
                Ok(h) => h,
                Err(e) => {
                    return Err(e);
                },
            };
            assert(values@ == all.skip(4)) by {
                assert(all.skip(3).remove(0) =~= all.skip(4));
            }
            let stdout = match take_stream(&mut values, 4) {
                Ok(h) => h,
                Err(e) => {
                    return Err(e);
                },
            };
            assert(values@ == all.skip(5)) by {
                assert(all.skip(4).remove(0) =~= all.skip(5));
            }
            let stderr = match take_stream(&mut values, 5) {
                Ok(h) => h,
                Err(e) => {
                    return Err(e);
                },
            };
            Ok(
                IncomingCall {
                    method,
                    workdir,
                    executable,
                    args,
                    stdio: Some(Stdio { stdin, stdout, stderr }),
                },
            )
        },
    }
}

/// The words that an error reply gives for a decoding failure.
pub open spec fn decode_failure_text(e: DecodeError) -> Seq<char> {
    match e {
        DecodeError::Missing(_) => "missing argument"@,
        DecodeError::Mismatch(_) => "argument type mismatch"@,
    }
}

/// The reply to a message that could not be decoded: the bus's general
/// failure, answered to that caller alone.
pub fn decode_failure_reply(e: DecodeError) -> (payload: ReplyPayload)
    ensures
        payload matches ReplyPayload::Error { name, message } && name@
            == "org.freedesktop.DBus.Error.Failed"@ && message@ == decode_failure_text(e),
{
    let message = match e {
        DecodeError::Missing(_) => "missing argument",
        DecodeError::Mismatch(_) => "argument type mismatch",
    };
    ReplyPayload::Error {
        name: "org.freedesktop.DBus.Error.Failed".to_owned(),
        message: message.to_owned(),
    }
}

} // verus!
