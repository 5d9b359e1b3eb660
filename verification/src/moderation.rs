//! The moderation commands: whom they act on, what they ask of the
//! platform, and what they show.

use vstd::prelude::*;
use vstd::string::*;
use crate::args::{next_argument, trim_start, user_id_of, Args};
use crate::embed::{blank, card_color, credit, Embed, EmbedModel, Requester};
use crate::text::{decimal, parsed_u64, push_decimal};

verus! {

/// How a member is removed.
#[derive(Clone, Copy, Debug, PartialEq, Eq, Structural)]
pub enum Removal {
    Kick,
    Ban,
}

/// Whom to remove and why: the first argument names the user, all that
/// follows it is the reason.
#[derive(Clone, Debug, PartialEq, Eq)]
pub struct RemovalRequest {
    pub user_id: u64,
    pub reason: String,
}

/// What a removal command says where its first argument names no user.
pub open spec fn no_target_text(kind: Removal) -> Seq<char> {
    match kind {
        Removal::Kick => "Invalid user provided for kick command"@,
        Removal::Ban => "Invalid user provided for ban command"@,
    }
}

/// What a removal command says where it was not used in a guild.
pub open spec fn no_guild_text(kind: Removal) -> Seq<char> {
    match kind {
        Removal::Kick => "Failed to kick user: not in a server"@,
        Removal::Ban => "Failed to ban user: not in a server"@,
    }
}

/// What `kick` and `ban` make of their arguments: outside a guild there is
/// nobody to remove; in a guild the first argument names the user and all
/// that follows it is the reason.
pub open spec fn removal_of(kind: Removal, remaining: Seq<char>, quoting: bool, in_guild: bool) -> Result<
    (u64, Seq<char>),
    Seq<char>,
> {
    if !in_guild {
        Err(no_guild_text(kind))
    } else {
        match next_argument(remaining, quoting) {
            Some((token, after)) => match user_id_of(token) {
                Some(id) => Ok((id, trim_start(after))),
                None => Err(no_target_text(kind)),
            },
            None => Err(no_target_text(kind)),
        }
    }
}

/// Reads the arguments of `kick` and `ban`. There is a request exactly
/// where the command was used in a guild and its first argument names a
/// user; otherwise the text of the error is given.
pub fn removal_request(kind: Removal, args: &mut Args, in_guild: bool) -> (r: Result<
    RemovalRequest,
    String,
>)
    ensures
        match r {
            Ok(request) => removal_of(kind, old(args).remaining(), old(args).quoting(), in_guild)
                == Ok::<(u64, Seq<char>), Seq<char>>((request.user_id, request.reason@)),
            Err(text) => removal_of(kind, old(args).remaining(), old(args).quoting(), in_guild)
                == Err::<(u64, Seq<char>), Seq<char>>(text@),
        },
{
    if !in_guild {
        return match kind {
            Removal::Kick => Err(String::from_str("Failed to kick user: not in a server")),
            Removal::Ban => Err(String::from_str("Failed to ban user: not in a server")),
        };
    }
    match args.single_user_id() {
        Ok(user_id) => Ok(RemovalRequest { user_id, reason: args.rest() }),
        Err(_) => match kind {
            Removal::Kick => Err(String::from_str("Invalid user provided for kick command")),
            Removal::Ban => Err(String::from_str("Invalid user provided for ban command")),
        },
    }
}

/// What a removal command says where the platform refused, with the
/// platform's own words in `cause`.
pub fn removal_failure_text(kind: Removal, cause: &str) -> (r: String)
    ensures
        r@ == match kind {
            Removal::Kick => "Failed to kick user: "@ + cause@,
            Removal::Ban => "Failed to ban user: "@ + cause@,
        },
{
    match kind {
        Removal::Kick => credit("Failed to kick user: ", cause),
        Removal::Ban => credit("Failed to ban user: ", cause),
    }
}

/// The card that reports a removal.
pub open spec fn removal_card(kind: Removal, user_id: u64, reason: Seq<char>, requester: Requester) -> EmbedModel {
    match kind {
        Removal::Kick => blank("User Kicked"@, card_color()).described(
            "Kicked user: "@ + decimal(user_id as nat) + "\nReason: "@ + reason,
        ).signed("Requested by "@ + requester.name@, requester.face@),
        Removal::Ban => blank("User Banned"@, card_color()).described(
            "Banned user: "@ + decimal(user_id as nat) + "\nReason: "@ + reason,
        ).signed("Requested by "@ + requester.name@, requester.face@),
    }
}

/// The card shown once the member was removed.
pub fn removal_report(kind: Removal, request: &RemovalRequest, requester: &Requester) -> (r: Embed)
    ensures
        r@ == removal_card(kind, request.user_id, request.reason@, *requester),
{
    let (title, lead) = match kind {
        Removal::Kick => ("User Kicked", "Kicked user: "),
        Removal::Ban => ("User Banned", "Banned user: "),
    };
    let mut card = Embed::new(title);
    let mut description = String::from_str(lead);
    push_decimal(&mut description, request.user_id as u128);
    description.append("\nReason: ");
    description.append(request.reason.as_str());
    card.describe(description.as_str());
    let footer = credit("Requested by ", requester.name.as_str());
    card.sign(footer.as_str(), requester.face.as_str());
    card
}

/// What `delete` does with its argument.
#[derive(Clone, Copy, Debug, PartialEq, Eq, Structural)]
pub enum DeletePlan {
    /// The argument is no number: the command fails.
    NotANumber,
    /// The number is out of range: the caller is told so.
    OutOfRange,
    /// Fetch the latest `fetch` messages, the command's own included, and
    /// delete them; then report `count` as deleted.
    Delete { count: u64, fetch: u64 },
}

/// The plan for the arguments `remaining`: between 1 and 100 messages can
/// be deleted at a time, and one more is fetched for the command itself.
pub open spec fn delete_plan_for(remaining: Seq<char>, quoting: bool) -> DeletePlan {
    match next_argument(remaining, quoting) {
        None => DeletePlan::NotANumber,
        Some((token, after)) => match parsed_u64(token) {
            None => DeletePlan::NotANumber,
            Some(count) => if count == 0 || count > 100 {
                DeletePlan::OutOfRange
            } else {
                DeletePlan::Delete { count, fetch: (count + 1) as u64 }
            },
        },
    }
}

/// The `delete` command: reads the number of messages and plans the deletion.
pub fn delete(args: &mut Args) -> (r: DeletePlan)
    ensures
        r == delete_plan_for(old(args).remaining(), old(args).quoting()),
{
    match args.single_u64() {
        Err(_) => DeletePlan::NotANumber,
        Ok(count) => {
            if count == 0 || count > 100 {
                DeletePlan::OutOfRange
            } else {
                DeletePlan::Delete { count, fetch: count + 1 }
            }
        },
    }
}

/// What `delete` says where the number is out of range.
pub fn delete_range_text() -> (r: String)
    ensures
        r@ == "You can only delete between 1 and 100 messages at a time."@,
{
    String::from_str("You can only delete between 1 and 100 messages at a time.")
}

/// What `delete` says once `count` messages were deleted.
pub fn deleted_text(count: u64) -> (r: String)
    ensures
        r@ == "Successfully deleted "@ + decimal(count as nat) + " messages."@,
{
    let mut s = String::from_str("Successfully deleted ");
    push_decimal(&mut s, count as u128);
    s.append(" messages.");
    s
}

} // verus!
