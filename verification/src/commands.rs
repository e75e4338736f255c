//! The three commands, as functions of what the vault reported.
//!
//! Each command makes one round trip to the vault, under the service and
//! account named here. The vault's report is the value of that round trip or a
//! `StoreError`. The answer is what the caller of the command gets: a value,
//! or the vault's message as a plain string. Making the round trip is the
//! caller's part; deciding the answer is done here.

use vstd::prelude::*;
use crate::error::{ErrorKind, StoreError, StoreFault};
use crate::error::report_view;

verus! {

/// The service under which the token is kept.
pub const TOKEN_SERVICE: &'static str = "FrameFast";

/// The account under which the token is kept.
pub const TOKEN_ACCOUNT: &'static str = "auth_token";

/// The answer to storing a token: success if the vault wrote it, else the
/// vault's message, whatever the kind of failure.
pub open spec fn set_answer(report: Result<(), StoreFault>) -> Result<(), Seq<char>> {
    match report {
        Ok(_) => Ok(()),
        Err(fault) => Err(fault.message),
    }
}

/// The answer to reading the token: the token if the vault returned one,
/// nothing if the vault reports that it holds none, else the vault's message.
pub open spec fn get_answer(report: Result<Seq<char>, StoreFault>) -> Result<
    Option<Seq<char>>,
    Seq<char>,
> {
    match report {
        Ok(token) => Ok(Some(token)),
        Err(fault) => if fault.kind == ErrorKind::NotFound {
            Ok(None)
        } else {
            Err(fault.message)
        },
    }
}

/// The answer to clearing the token: success if the vault deleted it or
/// reports that it held none, else the vault's message.
pub open spec fn clear_answer(report: Result<(), StoreFault>) -> Result<(), Seq<char>> {
    match report {
        Ok(_) => Ok(()),
        Err(fault) => if fault.kind == ErrorKind::NotFound {
            Ok(())
        } else {
            Err(fault.message)
        },
    }
}

/// An answer that carries no value, with its message taken by its view.
pub open spec fn plain_answer_view(answer: Result<(), String>) -> Result<(), Seq<char>> {
    match answer {
        Ok(_) => Ok(()),
        Err(message) => Err(message@),
    }
}

/// The answer to a read, with every string taken by its view.
pub open spec fn token_answer_view(answer: Result<Option<String>, String>) -> Result<
    Option<Seq<char>>,
    Seq<char>,
> {
    match answer {
        Ok(Some(token)) => Ok(Some(token@)),
        Ok(None) => Ok(None),
        Err(message) => Err(message@),
    }
}

/// Answers the command that stores a token, given the vault's report of the
/// write.
pub fn set_auth_token(report: Result<(), StoreError>) -> (answer: Result<(), String>)
    ensures
        plain_answer_view(answer) == set_answer(report_view(report)),
{
    match report {
        Ok(_) => Ok(()),
        Err(fault) => Err(fault.message),
    }
}

/// Answers the command that reads the token, given the vault's report of the
/// read. An absent token is an answer, not a failure.
pub fn get_auth_token(report: Result<String, StoreError>) -> (answer: Result<
    Option<String>,
    String,
>)
    ensures
        token_answer_view(answer) == get_answer(report_view(report)),
{
    match report {
        Ok(token) => Ok(Some(token)),
        Err(fault) => match fault.kind {
            ErrorKind::NotFound => Ok(None),
            _ => Err(fault.message),
        },
    }
}

/// Answers the command that clears the token, given the vault's report of the
/// deletion. Deleting what is absent is a success.
pub fn clear_auth_token(report: Result<(), StoreError>) -> (answer: Result<(), String>)
    ensures
        plain_answer_view(answer) == clear_answer(report_view(report)),
{
    match report {
        Ok(_) => Ok(()),
        Err(fault) => match fault.kind {
            ErrorKind::NotFound => Ok(()),
            _ => Err(fault.message),
        },
    }
}

} // verus!
