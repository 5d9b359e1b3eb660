//! The help command: what is shown for a command that is asked about.

use vstd::prelude::*;
use vstd::string::*;
use crate::args::{next_argument, Args};
use crate::embed::{blank, help_color, credit, Color, Embed, EmbedModel};
use crate::registry::{command_prefix, CommandDescriptor, Registry};

verus! {

/// What the help command answers.
#[derive(Clone, Debug, PartialEq, Eq)]
pub enum HelpAnswer {
    /// Nothing was asked about: the card lists all commands.
    Listing(Embed),
    /// The card of the command that was asked about.
    Card(Embed),
    /// No command is called what was asked about, but one has a name that
    /// is close; the text names it.
    Suggestion(String),
    /// No command is called what was asked about; the text says so.
    NotFound(String),
}

/// The text of `s`, or `fallback` where there is none.
pub open spec fn text_or(s: Option<&'static str>, fallback: Seq<char>) -> Seq<char> {
    match s {
        Some(s) => s@,
        None => fallback,
    }
}

/// The card that describes a command: its name, what it does and how it
/// is used.
pub open spec fn command_card(descriptor: CommandDescriptor) -> EmbedModel {
    blank("Command: "@ + descriptor.name@, help_color()).described(
        text_or(descriptor.description, "No description provided."@),
    ).with_field("Usage"@, text_or(descriptor.usage, "No information available."@), true)
}

/// Builds the card that describes a command.
pub fn describe_command(descriptor: &CommandDescriptor) -> (r: Embed)
    ensures
        r@ == command_card(*descriptor),
{
    let title = credit("Command: ", descriptor.name);
    let mut card = Embed::new(title.as_str());
    card.set_color(Color { red: 255, green: 165, blue: 0 });
    match descriptor.description {
        Some(text) => card.describe(text),
        None => card.describe("No description provided."),
    }
    match descriptor.usage {
        Some(text) => card.field("Usage", text, true),
        None => card.field("Usage", "No information available.", true),
    }
    card
}

/// The card that lists the first `upto` of `commands`: a field for each,
/// named by the prefix and the command's name, that says what it does.
pub open spec fn listing_card(prefix: Seq<char>, commands: Seq<CommandDescriptor>, upto: int) -> EmbedModel
    decreases upto,
{
    if upto <= 0 {
        blank("Commands"@, help_color()).described(
            "To get more information about a specific command, use `rhelp <command>`"@,
        )
    } else {
        listing_card(prefix, commands, upto - 1).with_field(
            prefix + commands[upto - 1].name@,
            text_or(commands[upto - 1].description, "No description provided."@),
            false,
        )
    }
}

/// Builds the card that lists all commands of `registry`.
pub fn listing(registry: &Registry, prefix: &str) -> (r: Embed)
    ensures
        r@ == listing_card(prefix@, registry.commands@, registry.commands@.len() as int),
{
    let mut card = Embed::new("Commands");
    card.set_color(Color { red: 255, green: 165, blue: 0 });
    card.describe("To get more information about a specific command, use `rhelp <command>`");
    let mut i: usize = 0;
    while i < registry.commands.len()
        invariant
            i <= registry.commands@.len(),
            card@ == listing_card(prefix@, registry.commands@, i as int),
        decreases registry.commands@.len() - i,
    {
        let command = &registry.commands[i];
        let name = credit(prefix, command.name);
        match command.description {
            Some(text) => card.field(name.as_str(), text, false),
            None => card.field(name.as_str(), "No description provided.", false),
        }
        i += 1;
    }
    card
}

/// The least of three numbers.
pub open spec fn least_of(a: nat, b: nat, c: nat) -> nat {
    if a <= b && a <= c {
        a
    } else if b <= c {
        b
    } else {
        c
    }
}

/// The edit distance of two texts: the least number of characters to
/// insert, delete or replace to make one of the other.
pub open spec fn edit_distance(a: Seq<char>, b: Seq<char>) -> nat
    decreases a.len() + b.len(),
{
    if a.len() == 0 {
        b.len()
    } else if b.len() == 0 {
        a.len()
    } else {
        let replace: nat = if a.last() == b.last() {
            0
        } else {
            1
        };
        least_of(
            edit_distance(a.drop_last(), b) + 1,
            edit_distance(a, b.drop_last()) + 1,
            edit_distance(a.drop_last(), b.drop_last()) + replace,
        )
    }
}

/// Wraps `levenshtein::levenshtein`, which counts the edit distance of two
/// texts in characters.
#[verifier::external_body]
fn distance(a: &str, b: &str) -> (r: usize)
    ensures
        r == edit_distance(a@, b@),
{
    levenshtein::levenshtein(a, b)
}

/// How far a name may be from what was asked about to be suggested.
pub const MAX_SUGGESTION_DISTANCE: usize = 3;

/// Whether the command at `i` is the one to suggest for `query`: its name
/// is within the suggestion distance, no name is closer, and no earlier
/// name is as close.
pub open spec fn is_suggestion(commands: Seq<CommandDescriptor>, query: Seq<char>, i: int) -> bool {
    &&& 0 <= i < commands.len()
    &&& edit_distance(commands[i].name@, query) <= MAX_SUGGESTION_DISTANCE
    &&& forall|j: int|
        0 <= j < commands.len() ==> edit_distance(commands[i].name@, query) <= edit_distance(
            (#[trigger] commands[j]).name@,
            query,
        )
    &&& forall|j: int|
        0 <= j < i ==> edit_distance(commands[i].name@, query) < edit_distance(
            (#[trigger] commands[j]).name@,
            query,
        )
}

/// Whether no command has a name within the suggestion distance of `query`.
pub open spec fn nothing_close(commands: Seq<CommandDescriptor>, query: Seq<char>) -> bool {
    forall|j: int|
        0 <= j < commands.len() ==> edit_distance((#[trigger] commands[j]).name@, query)
            > MAX_SUGGESTION_DISTANCE
}

/// The command whose name is closest to `query`, if one is close enough.
pub fn suggest(registry: &Registry, query: &str) -> (r: Option<usize>)
    ensures
        match r {
            Some(i) => is_suggestion(registry.commands@, query@, i as int),
            None => nothing_close(registry.commands@, query@),
        },
{
    let mut best: Option<(usize, usize)> = None;
    let mut i: usize = 0;
    while i < registry.commands.len()
        invariant
            i <= registry.commands@.len(),
            match best {
                Some((at, d)) => {
                    &&& at < i
                    &&& d == edit_distance(registry.commands@[at as int].name@, query@)
                    &&& d <= MAX_SUGGESTION_DISTANCE
                    &&& forall|j: int|
                        0 <= j < i ==> d <= edit_distance(
                            (#[trigger] registry.commands@[j]).name@,
                            query@,
                        )
                    &&& forall|j: int|
                        0 <= j < at ==> d < edit_distance(
                            (#[trigger] registry.commands@[j]).name@,
                            query@,
                        )
                },
                None => forall|j: int|
                    0 <= j < i ==> edit_distance((#[trigger] registry.commands@[j]).name@, query@)
                        > MAX_SUGGESTION_DISTANCE,
            },
        decreases registry.commands@.len() - i,
    {
        let d = distance(registry.commands[i].name, query);
        match best {
            Some((_, least)) => {
                if d < least {
                    best = Some((i, d));
                }
            },
            None => {
                if d <= MAX_SUGGESTION_DISTANCE {
                    best = Some((i, d));
                }
            },
        }
        i += 1;
    }
    match best {
        Some((at, _)) => Some(at),
        None => None,
    }
}

/// What is said of a name that no command answers to and none is close to.
pub open spec fn not_found_text() -> Seq<char> {
    "Command not found. Use `rhelp` to list available commands."@
}

/// What is said of a name that is close to the command name `name`.
pub open spec fn suggestion_text(name: Seq<char>) -> Seq<char> {
    "Did you mean `"@ + name + "`?"@
}

/// The `help` command: without arguments all commands are listed;
/// otherwise the first argument is looked up, by exact name or alias, and
/// the command it names is described. Where it names none, the command
/// with the closest name is suggested, if one is close enough.
pub fn help(registry: &Registry, args: &mut Args) -> (r: HelpAnswer)
    ensures
        match next_argument(old(args).remaining(), old(args).quoting()) {
            None => r matches HelpAnswer::Listing(card) && card@ == listing_card(
                "r"@,
                registry.commands@,
                registry.commands@.len() as int,
            ),
            Some((query, after)) => match registry.resolved(query) {
                Some(i) => r matches HelpAnswer::Card(card) && card@ == command_card(
                    registry.commands@[i],
                ),
                None => if nothing_close(registry.commands@, query) {
                    r matches HelpAnswer::NotFound(text) && text@ == not_found_text()
                } else {
                    r matches HelpAnswer::Suggestion(text) && exists|i: int|
                        is_suggestion(registry.commands@, query, i) && text@ == suggestion_text(
                            (#[trigger] registry.commands@[i]).name@,
                        )
                },
            },
        },
{
    if args.is_empty() {
        return HelpAnswer::Listing(listing(registry, command_prefix()));
    }
    let query = match args.single() {
        Some(query) => query,
        None => String::new(),
    };
    match registry.resolve(query.as_str()) {
        Some(i) => HelpAnswer::Card(describe_command(&registry.commands[i])),
        None => match suggest(registry, query.as_str()) {
            Some(i) => {
                let mut text = String::from_str("Did you mean `");
                text.append(registry.commands[i].name);
                text.append("`?");
                proof {
                    assert(!nothing_close(registry.commands@, query@));
                }
                HelpAnswer::Suggestion(text)
            },
            None => HelpAnswer::NotFound(
                String::from_str("Command not found. Use `rhelp` to list available commands."),
            ),
        },
    }
}

} // verus!
