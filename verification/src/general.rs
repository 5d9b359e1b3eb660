//! The general commands: what they say and show, from plain values.

use vstd::prelude::*;
use vstd::string::*;
use crate::args::{next_argument, texts, trim_start, user_id_of, Args};
use crate::embed::{blank, card_color, credit, Embed, EmbedModel, Requester};
use crate::text::{decimal, push_decimal};

verus! {

/// The owner of the bot.
pub const OWNER_ID: u64 = 497682001239736329;

/// The channel that issue reports go to.
pub const REPORT_CHANNEL_ID: u64 = 1145565222875181136;

/// The channel that suggestions go to.
pub const SUGGESTION_CHANNEL_ID: u64 = 1145567850896044122;

/// What `ping` says before it measures.
pub fn pinging_text() -> (r: String)
    ensures
        r@ == "Pinging..."@,
{
    String::from_str("Pinging...")
}

/// What `ping` says once the first reply took `latency_ms` milliseconds.
pub fn pong_text(latency_ms: u128) -> (r: String)
    ensures
        r@ == "Pong! Latency: "@ + decimal(latency_ms as nat) + " ms"@,
{
    let mut s = String::from_str("Pong! Latency: ");
    push_decimal(&mut s, latency_ms);
    s.append(" ms");
    s
}

/// What `say` repeats for the text `rest` after the command: the text
/// itself, or a stand-in where there is none.
pub open spec fn said(rest: Seq<char>) -> Seq<char> {
    if trim_start(rest).len() == 0 {
        "*(silence)*"@
    } else {
        trim_start(rest)
    }
}

/// The `say` command: repeats all that follows the command.
pub fn say(args: &Args) -> (r: String)
    ensures
        r@ == said(args.remaining()),
{
    let rest = args.rest();
    if rest.as_str().is_empty() {
        String::from_str("*(silence)*")
    } else {
        rest
    }
}

/// The decimal numeral of `n`.
pub fn decimal_text(n: u64) -> (r: String)
    ensures
        r@ == decimal(n as nat),
{
    let mut s = String::new();
    push_decimal(&mut s, n as u128);
    proof {
        assert(Seq::<char>::empty() + decimal(n as nat) =~= decimal(n as nat));
    }
    s
}

/// `true` or `false`, written out.
pub open spec fn truth(b: bool) -> Seq<char> {
    if b {
        "true"@
    } else {
        "false"@
    }
}

/// What is known of a user.
#[derive(Clone, Debug)]
pub struct UserProfile {
    pub tag: String,
    pub name: String,
    pub id: u64,
    pub bot: bool,
    pub face: String,
    pub created_at: String,
}

/// What is known of a user in the guild the command came from.
#[derive(Clone, Debug)]
pub enum Membership {
    /// The command came from a direct message.
    Direct,
    /// The user is a member; `roles` holds the names of the member's roles
    /// where the guild is known.
    Member { joined_at: Option<String>, display_name: String, roles: Option<Vec<String>> },
    /// The member could not be fetched.
    Unavailable,
}

/// The names of `names` that are not empty, with a comma and a space
/// between them.
pub open spec fn role_list(names: Seq<Seq<char>>) -> Seq<char>
    decreases names.len(),
{
    if names.len() == 0 {
        Seq::empty()
    } else {
        let head = role_list(names.drop_last());
        if names.last().len() == 0 {
            head
        } else if head.len() == 0 {
            names.last()
        } else {
            head + ", "@ + names.last()
        }
    }
}

/// Joins the role names that are not empty.
pub fn join_roles(names: &Vec<String>) -> (r: String)
    ensures
        r@ == role_list(texts(names@)),
{
    let mut out = String::new();
    let mut i: usize = 0;
    while i < names.len()
        invariant
            i <= names@.len(),
            out@ == role_list(texts(names@).take(i as int)),
        decreases names@.len() - i,
    {
        proof {
            let t = texts(names@);
            assert(t.take(i + 1).drop_last() =~= t.take(i as int));
            assert(t.take(i + 1).last() == names@[i as int]@);
        }
        if !names[i].as_str().is_empty() {
            if !out.as_str().is_empty() {
                out.append(", ");
            }
            out.append(names[i].as_str());
            proof {
                assert(Seq::<char>::empty() + names@[i as int]@ =~= names@[i as int]@);
            }
        }
        i += 1;
    }
    proof {
        assert(texts(names@).take(names@.len() as int) =~= texts(names@));
    }
    out
}

/// When the member joined, as shown on the card.
pub open spec fn joined_text(membership: Membership) -> Seq<char> {
    match membership {
        Membership::Member { joined_at: Some(at), .. } => at@,
        _ => "N/A"@,
    }
}

/// The card of `user` without what is known of the membership.
pub open spec fn user_card_base(user: UserProfile, membership: Membership, requester: Requester) -> EmbedModel {
    blank("User Info for "@ + user.tag@, card_color()).with_small_picture(user.face@).with_field(
        "User"@,
        user.name@,
        true,
    ).with_field("ID"@, decimal(user.id as nat), true).with_field(
        "Bot"@,
        truth(user.bot),
        true,
    ).with_field("Account Created"@, user.created_at@, true).with_field(
        "Server Joined"@,
        joined_text(membership),
        true,
    ).signed("Requested by "@ + requester.name@, requester.face@)
}

/// The card of `user`: for a member also the nickname and, where the roles
/// are known, their names. `None` where the member could not be fetched.
pub open spec fn user_card(user: UserProfile, membership: Membership, requester: Requester) -> Option<
    EmbedModel,
> {
    let base = user_card_base(user, membership, requester);
    match membership {
        Membership::Direct => Some(base),
        Membership::Unavailable => None,
        Membership::Member { joined_at, display_name, roles } => {
            let named = base.with_field("Nickname"@, display_name@, true);
            match roles {
                Some(names) => Some(named.with_field("Roles"@, role_list(texts(names@)), true)),
                None => Some(named),
            }
        },
    }
}

/// What `userinfo` says where its argument names no user.
pub open spec fn invalid_user_text() -> Seq<char> {
    "Invalid user provided."@
}

/// What `userinfo` says where the user could not be fetched.
pub open spec fn user_unavailable_text() -> Seq<char> {
    "Failed to fetch user information."@
}

/// What `userinfo` says where the member could not be fetched.
pub open spec fn member_unavailable_text() -> Seq<char> {
    "Failed to fetch member information."@
}

/// The first step of `userinfo`: reads the user to look up from the next
/// argument. Where the argument names no user, or none is left, the
/// answer is the text to say instead, and nothing is to be looked up.
pub fn userinfo_target(args: &mut Args) -> (r: Result<u64, String>)
    ensures
        match next_argument(old(args).remaining(), old(args).quoting()) {
            Some((token, after)) => match user_id_of(token) {
                Some(id) => r.is_ok() && r.unwrap() == id && final(args).remaining() == after,
                None => r.is_err() && r.unwrap_err()@ == invalid_user_text(),
            },
            None => r.is_err() && r.unwrap_err()@ == invalid_user_text(),
        },
{
    match args.single_user_id() {
        Ok(id) => Ok(id),
        Err(_) => Err(String::from_str("Invalid user provided.")),
    }
}

/// What `userinfo` answers once the lookups were made: for a user that
/// could not be fetched, the text that says so; for a member that could
/// not be fetched, the text that says so; otherwise the card of the user.
pub open spec fn userinfo_answer(user: Option<&UserProfile>, membership: Membership, requester: Requester) -> Result<
    EmbedModel,
    Seq<char>,
> {
    match user {
        None => Err(user_unavailable_text()),
        Some(user) => match user_card(*user, membership, requester) {
            Some(card) => Ok(card),
            None => Err(member_unavailable_text()),
        },
    }
}

/// The `userinfo` command, once the lookups were made: `user` is what the
/// lookup of the user gave, `membership` what is known of the user where
/// the command came from. The answer is the card to show, or the one text
/// to say instead.
pub fn userinfo(user: Option<&UserProfile>, membership: &Membership, requester: &Requester) -> (r:
    Result<Embed, String>)
    ensures
        match r {
            Ok(card) => userinfo_answer(user, *membership, *requester) == Ok::<
                EmbedModel,
                Seq<char>,
            >(card@),
            Err(text) => userinfo_answer(user, *membership, *requester) == Err::<
                EmbedModel,
                Seq<char>,
            >(text@),
        },
{
    let user = match user {
        Some(user) => user,
        None => {
            return Err(String::from_str("Failed to fetch user information."));
        },
    };
    let title = credit("User Info for ", user.tag.as_str());
    let mut card = Embed::new(title.as_str());
    card.small_picture(user.face.as_str());
    card.field("User", user.name.as_str(), true);
    let id = decimal_text(user.id);
    card.field("ID", id.as_str(), true);
    if user.bot {
        card.field("Bot", "true", true);
    } else {
        card.field("Bot", "false", true);
    }
    card.field("Account Created", user.created_at.as_str(), true);
    match membership {
        Membership::Member { joined_at: Some(at), .. } => {
            card.field("Server Joined", at.as_str(), true);
        },
        _ => {
            card.field("Server Joined", "N/A", true);
        },
    }
    let footer = credit("Requested by ", requester.name.as_str());
    card.sign(footer.as_str(), requester.face.as_str());
    match membership {
        Membership::Direct => Ok(card),
        Membership::Unavailable => Err(String::from_str("Failed to fetch member information.")),
        Membership::Member { joined_at, display_name, roles } => {
            card.field("Nickname", display_name.as_str(), true);
            match roles {
                Some(names) => {
                    let joined = join_roles(names);
                    card.field("Roles", joined.as_str(), true);
                },
                None => {},
            }
            Ok(card)
        },
    }
}

/// The card of the bot.
pub open spec fn bot_card(
    name: Seq<char>,
    id: u64,
    face: Seq<char>,
    servers: u64,
    users: u64,
    requester: Requester,
) -> EmbedModel {
    blank("Bot Info"@, card_color()).with_small_picture(face).with_field(
        "Owner"@,
        "<@"@ + decimal(OWNER_ID as nat) + ">"@,
        true,
    ).with_field("Name"@, name, true).with_field("ID"@, decimal(id as nat), true).with_field(
        "Description"@,
        "A small project of mine written in Rust hence the name Rusty "@,
        false,
    ).with_field(
        "Statistics"@,
        "Server Count: "@ + decimal(servers as nat) + "\nUser Count: "@ + decimal(users as nat),
        false,
    ).with_field("Version"@, "`0.15`"@, true).with_field(
        "Website GitHub"@,
        "[Website GitHub Repository](https://example.com)"@,
        true,
    ).with_field("Bot GitHub"@, "[GitHub Repository](https://example.com)"@, true).with_field(
        "Recent Updates"@,
        "`Added Info commands`"@,
        false,
    ).signed("Requested by "@ + requester.name@, requester.face@)
}

/// The `botinfo` command: the card of the bot.
pub fn botinfo(name: &str, id: u64, face: &str, servers: u64, users: u64, requester: &Requester) -> (r:
    Embed)
    ensures
        r@ == bot_card(name@, id, face@, servers, users, *requester),
{
    let mut card = Embed::new("Bot Info");
    card.small_picture(face);
    let mut owner = String::from_str("<@");
    push_decimal(&mut owner, OWNER_ID as u128);
    owner.append(">");
    card.field("Owner", owner.as_str(), true);
    card.field("Name", name, true);
    let id_text = decimal_text(id);
    card.field("ID", id_text.as_str(), true);
    card.field(
        "Description",
        "A small project of mine written in Rust hence the name Rusty ",
        false,
    );
    let mut statistics = String::from_str("Server Count: ");
    push_decimal(&mut statistics, servers as u128);
    statistics.append("\nUser Count: ");
    push_decimal(&mut statistics, users as u128);
    card.field("Statistics", statistics.as_str(), false);
    card.field("Version", "`0.15`", true);
    card.field("Website GitHub", "[Website GitHub Repository](https://example.com)", true);
    card.field("Bot GitHub", "[GitHub Repository](https://example.com)", true);
    card.field("Recent Updates", "`Added Info commands`", false);
    let footer = credit("Requested by ", requester.name.as_str());
    card.sign(footer.as_str(), requester.face.as_str());
    card
}

/// The card with the link that invites the bot.
pub open spec fn invite_card(requester: Requester) -> EmbedModel {
    blank("Bot Invite Link"@, card_color()).described(
        "Click [here](https://discord.com/api/oauth2/authorize?client_id=1143479237882417282&permissions=8&scope=bot) to invite the bot to your server."@,
    ).signed("Command Requested by: "@ + requester.name@, requester.face@)
}

/// The `invite` command: the card with the link that invites the bot.
pub fn invite(requester: &Requester) -> (r: Embed)
    ensures
        r@ == invite_card(*requester),
{
    let mut card = Embed::new("Bot Invite Link");
    card.describe(
        "Click [here](https://discord.com/api/oauth2/authorize?client_id=1143479237882417282&permissions=8&scope=bot) to invite the bot to your server.",
    );
    let footer = credit("Command Requested by: ", requester.name.as_str());
    card.sign(footer.as_str(), requester.face.as_str());
    card
}

/// What a user can send to the bot's keepers.
#[derive(Clone, Copy, Debug, PartialEq, Eq, Structural)]
pub enum Feedback {
    Report,
    Suggestion,
}

/// The channel that feedback of `kind` goes to.
pub open spec fn feedback_channel(kind: Feedback) -> u64 {
    match kind {
        Feedback::Report => REPORT_CHANNEL_ID,
        Feedback::Suggestion => SUGGESTION_CHANNEL_ID,
    }
}

/// The card that carries feedback to its channel.
pub open spec fn feedback_card(kind: Feedback, text: Seq<char>, author: Requester) -> EmbedModel {
    match kind {
        Feedback::Report => blank("New Issue Report"@, card_color()).described(text).signed(
            "Reported by: "@ + author.name@,
            author.face@,
        ),
        Feedback::Suggestion => blank("New Suggestion"@, card_color()).described(text).signed(
            "Suggested by: "@ + author.name@,
            author.face@,
        ),
    }
}

/// What the author is told once the feedback was sent.
pub open spec fn feedback_thanks(kind: Feedback) -> Seq<char> {
    match kind {
        Feedback::Report => "Your issue has been reported in <#"@ + decimal(
            REPORT_CHANNEL_ID as nat,
        ) + ">. Thank you for your feedback!"@,
        Feedback::Suggestion => "Your suggestion has been sent to <#"@ + decimal(
            SUGGESTION_CHANNEL_ID as nat,
        ) + ">. Thank you for your feedback!"@,
    }
}

/// The `report` and `suggest` commands: the channel to write to, and the
/// card that carries all that follows the command.
pub fn feedback(kind: Feedback, args: &Args, author: &Requester) -> (r: (u64, Embed))
    ensures
        r.0 == feedback_channel(kind),
        r.1@ == feedback_card(kind, trim_start(args.remaining()), *author),
{
    let text = args.rest();
    match kind {
        Feedback::Report => {
            let mut card = Embed::new("New Issue Report");
            card.describe(text.as_str());
            let footer = credit("Reported by: ", author.name.as_str());
            card.sign(footer.as_str(), author.face.as_str());
            (REPORT_CHANNEL_ID, card)
        },
        Feedback::Suggestion => {
            let mut card = Embed::new("New Suggestion");
            card.describe(text.as_str());
            let footer = credit("Suggested by: ", author.name.as_str());
            card.sign(footer.as_str(), author.face.as_str());
            (SUGGESTION_CHANNEL_ID, card)
        },
    }
}

/// What the author of feedback is told: thanks where the channel was
/// found, and that it was not found otherwise.
pub fn feedback_answer(kind: Feedback, channel_found: bool) -> (r: String)
    ensures
        r@ == if channel_found {
            feedback_thanks(kind)
        } else {
            "Failed to find the designated channel."@
        },
{
    if !channel_found {
        return String::from_str("Failed to find the designated channel.");
    }
    match kind {
        Feedback::Report => {
            let mut s = String::from_str("Your issue has been reported in <#");
            push_decimal(&mut s, REPORT_CHANNEL_ID as u128);
            s.append(">. Thank you for your feedback!");
            s
        },
        Feedback::Suggestion => {
            let mut s = String::from_str("Your suggestion has been sent to <#");
            push_decimal(&mut s, SUGGESTION_CHANNEL_ID as u128);
            s.append(">. Thank you for your feedback!");
            s
        },
    }
}

} // verus!
