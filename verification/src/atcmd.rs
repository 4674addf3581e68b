//! Rendering of AT commands, delegated to the `at_commands` builder.
//!
//! Each wrapper renders one command shape into a fixed 256-byte scratch
//! buffer and hands the bytes back; the contracts state the exact bytes
//! the builder writes, read off its source: a command is the (optionally
//! `AT`-prefixed) name, the shape's suffix, the parameters, and the
//! `"\r\n"` terminator, with `Err(needed)` reported when the scratch
//! buffer is too small.

use vstd::prelude::*;

verus! {

/// The `"\r\n"` command terminator the builder appends.
pub open spec fn crlf() -> Seq<u8> {
    seq![13u8, 10u8]
}

/// The `"AT"` prefix the builder prepends to query and set commands.
pub open spec fn at_prefix() -> Seq<u8> {
    seq![65u8, 84u8]
}

/// A string parameter as the builder renders it: wrapped in `'"'` quotes.
pub open spec fn quoted(s: Seq<u8>) -> Seq<u8> {
    seq![34u8] + s + seq![34u8]
}

/// Relies on `at_commands::builder::CommandBuilder::create_execute`,
/// `named` and `finish`: an execute command is the bare name followed by
/// `"\r\n"`, built whole whenever it fits the 256-byte scratch buffer,
/// and `finish` reports the needed size otherwise. A name that is empty
/// or ends in a comma is kept out: `finish` would misrender it.
#[verifier::external_body]
fn build_execute(name: &Vec<u8>) -> (r: Result<Vec<u8>, usize>)
    requires
        name@.len() >= 1,
        name@[name@.len() - 1] != 44,
    ensures
        r matches Ok(v) ==> v@ == name@ + crlf(),
        name@.len() + 2 <= 256 ==> r is Ok,
        r matches Err(needed) ==> needed > 256,
{
    let mut buf = [0u8; 256];
    match at_commands::builder::CommandBuilder::create_execute(&mut buf, false)
        .named(name.as_slice())
        .finish()
    {
        Ok(s) => Ok(s.to_vec()),
        Err(needed) => Err(needed),
    }
}

/// Relies on `at_commands::builder::CommandBuilder::create_query`,
/// `named` and `finish`: a query command is `"AT"`, the name, `"?"` and
/// `"\r\n"`, built whole whenever it fits the 256-byte scratch buffer,
/// with the needed size reported otherwise.
#[verifier::external_body]
fn build_query(name: &Vec<u8>) -> (r: Result<Vec<u8>, usize>)
    requires
        name@.len() >= 1,
    ensures
        r matches Ok(v) ==> v@ == at_prefix() + name@ + seq![63u8] + crlf(),
        name@.len() + 5 <= 256 ==> r is Ok,
        r matches Err(needed) ==> needed > 256,
{
    let mut buf = [0u8; 256];
    match at_commands::builder::CommandBuilder::create_query(&mut buf, true)
        .named(name.as_slice())
        .finish()
    {
        Ok(s) => Ok(s.to_vec()),
        Err(needed) => Err(needed),
    }
}

/// Relies on `at_commands::builder::CommandBuilder::create_set`, `named`,
/// `with_int_parameter`, `with_string_parameter` and `finish`: the set
/// command is `"AT"`, the name, `"="`, the integer (one digit for 0..=9,
/// per `formatter::write_int`), and the two quoted strings, separated by
/// commas and closed with `"\r\n"`; `finish` drops the parameter comma it
/// wrote last. Built whole whenever it fits the 256-byte scratch buffer
/// (the result is a slice of it), with the needed size reported otherwise.
#[verifier::external_body]
fn build_set_int_str_str(name: &Vec<u8>, cid: i32, p1: &Vec<u8>, p2: &Vec<u8>) -> (r: Result<
    Vec<u8>,
    usize,
>)
    requires
        name@.len() >= 1,
        0 <= cid <= 9,
    ensures
        r matches Ok(v) ==> v@ == at_prefix() + name@ + seq![61u8] + seq![(48 + cid) as u8]
            + seq![44u8] + quoted(p1@) + seq![44u8] + quoted(p2@) + crlf(),
        r matches Ok(v) ==> v@.len() <= 256,
        name@.len() + p1@.len() + p2@.len() + 12 <= 256 ==> r is Ok,
        r matches Err(needed) ==> needed > 256,
{
    let mut buf = [0u8; 256];
    match at_commands::builder::CommandBuilder::create_set(&mut buf, true)
        .named(name.as_slice())
        .with_int_parameter(cid)
        .with_string_parameter(p1.as_slice())
        .with_string_parameter(p2.as_slice())
        .finish()
    {
        Ok(s) => Ok(s.to_vec()),
        Err(needed) => Err(needed),
    }
}

/// An execute command: the bare name (already carrying any `AT`) plus the
/// terminator.
pub fn encode_execute(name: &Vec<u8>) -> (r: Result<Vec<u8>, crate::error::ModemError>)
    requires
        name@.len() >= 1,
        name@[name@.len() - 1] != 44,
        name@.len() + 2 <= 256,
    ensures
        r matches Ok(v) && v@ == name@ + crlf(),
{
    match build_execute(name) {
        Ok(v) => Ok(v),
        Err(_) => Err(crate::error::ModemError::CommandEncodingFailed),
    }
}

/// A query command: `AT`, the name, `?`, the terminator.
pub fn encode_query(name: &Vec<u8>) -> (r: Result<Vec<u8>, crate::error::ModemError>)
    requires
        name@.len() >= 1,
        name@.len() + 5 <= 256,
    ensures
        r matches Ok(v) && v@ == at_prefix() + name@ + seq![63u8] + crlf(),
{
    match build_query(name) {
        Ok(v) => Ok(v),
        Err(_) => Err(crate::error::ModemError::CommandEncodingFailed),
    }
}

/// A set command with an integer and two string parameters. Succeeds
/// exactly when the rendered command fits the encoder's 256-byte buffer,
/// i.e. when `name + p1 + p2` take at most 244 bytes together.
pub fn encode_set_int_str_str(name: &Vec<u8>, cid: i32, p1: &Vec<u8>, p2: &Vec<u8>) -> (r: Result<
    Vec<u8>,
    crate::error::ModemError,
>)
    requires
        name@.len() >= 1,
        0 <= cid <= 9,
    ensures
        r matches Ok(v) ==> v@ == at_prefix() + name@ + seq![61u8] + seq![(48 + cid) as u8]
            + seq![44u8] + quoted(p1@) + seq![44u8] + quoted(p2@) + crlf(),
        name@.len() + p1@.len() + p2@.len() + 12 <= 256 <==> r is Ok,
        r is Err ==> r == Err::<Vec<u8>, crate::error::ModemError>(
            crate::error::ModemError::CommandEncodingFailed,
        ),
{
    match build_set_int_str_str(name, cid, p1, p2) {
        Ok(v) => {
            proof {
                assert(v@.len() == name@.len() + p1@.len() + p2@.len() + 12);
            }
            Ok(v)
        },
        Err(_) => Err(crate::error::ModemError::CommandEncodingFailed),
    }
}

} // verus!
