//! The reply a caller gets when an invocation is turned down.

use vstd::prelude::*;
use vstd::string::*;
use crate::dispatch::{Caller, DispatchError, DispatchOutcome, outcome};
use crate::registry::{ContextRestriction, Registry};
use crate::text::{decimal, push_decimal};

verus! {

/// The text sent back for `err`, raised by the command `command` under the
/// prefix `prefix`; `None` where nothing is sent.
pub open spec fn reply_text(err: DispatchError, prefix: Seq<char>, command: Seq<char>) -> Option<
    Seq<char>,
> {
    match err {
        DispatchError::NotEnoughArguments { min, given } => Some(
            "`"@ + prefix + command + "` requires "@ + decimal(min as nat)
                + " arguments, but only received "@ + decimal(given as nat) + "."@,
        ),
        DispatchError::TooManyArguments { max, given } => Some(
            "`"@ + prefix + command + "` only accepts "@ + decimal(max as nat)
                + " arguments, but received "@ + decimal(given as nat) + "."@,
        ),
        DispatchError::WrongContext { required } => match required {
            ContextRestriction::GuildOnly => Some(
                "`"@ + prefix + command + "` can only be used in servers."@,
            ),
            _ => Some("`"@ + prefix + command + "` can only be used in DMs."@),
        },
        DispatchError::MissingPermission | DispatchError::MissingRole => Some(
            "You don't have permission to use `"@ + prefix + command + "`."@,
        ),
        DispatchError::RateLimited { retry_after } => Some(
            "Rate limit reached, please try again soon."@,
        ),
        DispatchError::Blocked(_) => None,
        DispatchError::CommandNotFound => None,
        DispatchError::Other(_) => None,
    }
}

/// Whether `err` is dropped without a trace: no reply and no log entry.
pub open spec fn silently_dropped(err: DispatchError) -> bool {
    err is Blocked
}

/// Whether `err` is written to the log in place of a reply.
pub open spec fn logged(err: DispatchError) -> bool {
    err is CommandNotFound || err is Other
}

/// Formats the reply for an invocation that was turned down.
pub fn error_reply(err: &DispatchError, prefix: &str, command: &str) -> (r: Option<String>)
    ensures
        match r {
            Some(s) => reply_text(*err, prefix@, command@) == Some(s@),
            None => reply_text(*err, prefix@, command@).is_none(),
        },
{
    match err {
        DispatchError::NotEnoughArguments { min, given } => {
            let mut s = String::from_str("`");
            s.append(prefix);
            s.append(command);
            s.append("` requires ");
            push_decimal(&mut s, *min as u128);
            s.append(" arguments, but only received ");
            push_decimal(&mut s, *given as u128);
            s.append(".");
            Some(s)
        },
        DispatchError::TooManyArguments { max, given } => {
            let mut s = String::from_str("`");
            s.append(prefix);
            s.append(command);
            s.append("` only accepts ");
            push_decimal(&mut s, *max as u128);
            s.append(" arguments, but received ");
            push_decimal(&mut s, *given as u128);
            s.append(".");
            Some(s)
        },
        DispatchError::WrongContext { required } => {
            let mut s = String::from_str("`");
            s.append(prefix);
            s.append(command);
            match required {
                ContextRestriction::GuildOnly => s.append("` can only be used in servers."),
                _ => s.append("` can only be used in DMs."),
            }
            Some(s)
        },
        DispatchError::MissingPermission | DispatchError::MissingRole => {
            let mut s = String::from_str("You don't have permission to use `");
            s.append(prefix);
            s.append(command);
            s.append("`.");
            Some(s)
        },
        DispatchError::RateLimited { .. } => Some(
            String::from_str("Rate limit reached, please try again soon."),
        ),
        DispatchError::Blocked(_) => None,
        DispatchError::CommandNotFound => None,
        DispatchError::Other(_) => None,
    }
}

/// Whether `err` gets neither a reply nor a log entry.
pub fn is_silent(err: &DispatchError) -> (r: bool)
    ensures
        r == silently_dropped(*err),
{
    match err {
        DispatchError::Blocked(_) => true,
        _ => false,
    }
}

/// Whether `err` goes to the log instead of the caller.
pub fn is_logged(err: &DispatchError) -> (r: bool)
    ensures
        r == logged(*err),
{
    match err {
        DispatchError::CommandNotFound => true,
        DispatchError::Other(_) => true,
        _ => false,
    }
}

/// A caller on a block list gets no reply, whichever list it is. Every other
/// rejection that names a fault of the invocation or of the caller gets one;
/// an unknown command and an unclassified error are logged instead.
pub proof fn law_only_blocked_is_silent(err: DispatchError, prefix: Seq<char>, command: Seq<char>)
    ensures
        err is Blocked ==> reply_text(err, prefix, command).is_none() && !logged(err),
        !(err is Blocked) ==> reply_text(err, prefix, command).is_some() || logged(err),
        !(err is Blocked) && !(err is CommandNotFound) && !(err is Other) ==> reply_text(
            err,
            prefix,
            command,
        ).is_some(),
{
}

/// A blocked caller whom no earlier check turns down is rejected as blocked,
/// and the rejection has no reply.
pub proof fn law_blocked_caller_gets_no_reply(
    registry: Registry,
    name: Seq<char>,
    given: usize,
    caller: Caller,
    prefix: Seq<char>,
)
    requires
        registry.resolved(name).is_some(),
        caller.blocked.is_some(),
        crate::dispatch::rejection(
            registry.commands@[registry.resolved(name).unwrap()],
            given,
            Caller { blocked: None, rate_limited: None, ..caller },
        ).is_none(),
    ensures
        outcome(registry, name, given, caller) == DispatchOutcome::Rejected(
            DispatchError::Blocked(caller.blocked.unwrap()),
        ),
        reply_text(DispatchError::Blocked(caller.blocked.unwrap()), prefix, name).is_none(),
{
}

/// A rate-limited caller whom no earlier check turns down gets exactly the
/// rate-limit reply.
pub proof fn law_rate_limited_reply(
    registry: Registry,
    name: Seq<char>,
    given: usize,
    caller: Caller,
    prefix: Seq<char>,
)
    requires
        registry.resolved(name).is_some(),
        caller.rate_limited.is_some(),
        crate::dispatch::rejection(
            registry.commands@[registry.resolved(name).unwrap()],
            given,
            Caller { rate_limited: None, ..caller },
        ).is_none(),
    ensures
        outcome(registry, name, given, caller) matches DispatchOutcome::Rejected(e) && reply_text(
            e,
            prefix,
            name,
        ) == Some("Rate limit reached, please try again soon."@),
{
}

} // verus!
