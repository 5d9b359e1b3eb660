//! The commands the bot knows: one descriptor per command, and the lookup of
//! a descriptor by name or alias.

use vstd::prelude::*;

verus! {

/// Where a command may be used.
#[derive(Clone, Copy, Debug, PartialEq, Eq, Structural)]
pub enum ContextRestriction {
    Any,
    DmOnly,
    GuildOnly,
}

/// Permission bit: the member may kick other members.
pub const KICK_MEMBERS: u64 = 0x2;

/// Permission bit: the member may ban other members.
pub const BAN_MEMBERS: u64 = 0x4;

/// Permission bit: the member may delete the messages of others.
pub const MANAGE_MESSAGES: u64 = 0x2000;

/// What is known of a command before it runs.
#[derive(Clone, Debug)]
pub struct CommandDescriptor {
    pub name: &'static str,
    pub aliases: Vec<&'static str>,
    pub description: Option<&'static str>,
    pub usage: Option<&'static str>,
    pub min_args: Option<u16>,
    pub max_args: Option<u16>,
    /// Permission bits, all of which the caller must hold.
    pub required_permissions: u64,
    /// Role ids, one of which the caller must hold; empty where no role is asked.
    pub allowed_roles: Vec<u64>,
    pub context: ContextRestriction,
    pub owner_only: bool,
}

impl CommandDescriptor {
    /// Whether the command is called `name`, by its name or by an alias.
    pub open spec fn answers_to(&self, name: Seq<char>) -> bool {
        self.name@ == name || exists|i: int|
            0 <= i < self.aliases@.len() && (#[trigger] self.aliases@[i])@ == name
    }

    /// Decides `answers_to`.
    pub fn is_called(&self, name: &str) -> (r: bool)
        ensures
            r == self.answers_to(name@),
    {
        if same_text(self.name, name) {
            return true;
        }
        let mut i: usize = 0;
        while i < self.aliases.len()
            invariant
                i <= self.aliases@.len(),
                self.name@ != name@,
                forall|j: int| 0 <= j < i ==> (#[trigger] self.aliases@[j])@ != name@,
            decreases self.aliases.len() - i,
        {
            if same_text(self.aliases[i], name) {
                return true;
            }
            i += 1;
        }
        false
    }
}

/// Whether two texts hold the same characters. Wraps `==` on `str`.
#[verifier::external_body]
pub(crate) fn same_text(a: &str, b: &str) -> (r: bool)
    ensures
        r == (a@ == b@),
{
    a == b
}

/// The first index at or after `from` of a descriptor that answers to `name`.
pub open spec fn first_match(commands: Seq<CommandDescriptor>, name: Seq<char>, from: int) -> Option<int>
    decreases commands.len() - from,
{
    if from < 0 || from >= commands.len() {
        None
    } else if commands[from].answers_to(name) {
        Some(from)
    } else {
        first_match(commands, name, from + 1)
    }
}

/// A lookup gives the first descriptor that answers to the name, and
/// nothing only where no descriptor answers to it.
pub proof fn law_first_match_is_least(commands: Seq<CommandDescriptor>, name: Seq<char>, from: int)
    requires
        0 <= from <= commands.len(),
    ensures
        match first_match(commands, name, from) {
            Some(i) => from <= i < commands.len() && commands[i].answers_to(name) && forall|j: int|
                from <= j < i ==> !(#[trigger] commands[j]).answers_to(name),
            None => forall|j: int|
                from <= j < commands.len() ==> !(#[trigger] commands[j]).answers_to(name),
        },
    decreases commands.len() - from,
{
    if from < commands.len() && !commands[from].answers_to(name) {
        law_first_match_is_least(commands, name, from + 1);
    }
}

/// The table of commands, in the order in which names are looked up.
pub struct Registry {
    pub commands: Vec<CommandDescriptor>,
}

impl Registry {
    /// The index of the command that `name` calls.
    pub open spec fn resolved(&self, name: Seq<char>) -> Option<int> {
        first_match(self.commands@, name, 0)
    }

    /// Looks `name` up: the first descriptor whose name or alias is exactly
    /// `name`, by its index in the table.
    pub fn resolve(&self, name: &str) -> (r: Option<usize>)
        ensures
            match r {
                Some(i) => self.resolved(name@) == Some(i as int) && i < self.commands@.len(),
                None => self.resolved(name@).is_none(),
            },
    {
        let mut i: usize = 0;
        while i < self.commands.len()
            invariant
                i <= self.commands@.len(),
                first_match(self.commands@, name@, 0) == first_match(self.commands@, name@, i as int),
            decreases self.commands.len() - i,
        {
            if self.commands[i].is_called(name) {
                return Some(i);
            }
            i += 1;
        }
        None
    }

    /// The descriptor at `index`.
    pub fn get(&self, index: usize) -> (r: Option<&CommandDescriptor>)
        ensures
            match r {
                Some(d) => index < self.commands@.len() && *d == self.commands@[index as int],
                None => index >= self.commands@.len(),
            },
    {
        if index < self.commands.len() {
            Some(&self.commands[index])
        } else {
            None
        }
    }
}

/// One row of the command table: the name, what the command does, how it
/// is used, the least and the most arguments, and the permission bits asked.
pub struct CommandRow {
    pub name: &'static str,
    pub description: Option<&'static str>,
    pub usage: Option<&'static str>,
    pub min_args: Option<u16>,
    pub max_args: Option<u16>,
    pub required_permissions: u64,
}

/// Whether `descriptor` is the command of `row`: usable anywhere, by
/// anyone who holds the permissions, under its name alone.
pub open spec fn describes(descriptor: CommandDescriptor, row: CommandRow) -> bool {
    &&& descriptor.name == row.name
    &&& descriptor.aliases@.len() == 0
    &&& descriptor.description == row.description
    &&& descriptor.usage == row.usage
    &&& descriptor.min_args == row.min_args
    &&& descriptor.max_args == row.max_args
    &&& descriptor.required_permissions == row.required_permissions
    &&& descriptor.allowed_roles@.len() == 0
    &&& descriptor.context == ContextRestriction::Any
    &&& !descriptor.owner_only
}

/// The bot's commands.
pub open spec fn command_table() -> Seq<CommandRow> {
    seq![
        CommandRow { name: "ping", description: Some("Shows Latency"), usage: None, min_args: Some(0u16), max_args: Some(0u16), required_permissions: 0 },
        CommandRow { name: "say", description: Some("Makes the bot say anything"), usage: Some("rsay <message>"), min_args: None, max_args: None, required_permissions: 0 },
        CommandRow { name: "userinfo", description: Some("Displays information about a user"), usage: Some("ruserinfo @barry"), min_args: None, max_args: None, required_permissions: 0 },
        CommandRow { name: "botinfo", description: Some("Displays detailed information about the bot. Use  rinfo"), usage: Some("rbotinfo"), min_args: None, max_args: None, required_permissions: 0 },
        CommandRow { name: "invite", description: Some("Get an invite link for the bot that requires Administrator permission to join a server."), usage: Some("rinvite"), min_args: None, max_args: None, required_permissions: 0 },
        CommandRow { name: "report", description: Some("Report an issue with the bot"), usage: Some("rreport <issue>"), min_args: Some(1u16), max_args: None, required_permissions: 0 },
        CommandRow { name: "suggest", description: Some("Suggest a feature for the bot"), usage: Some("rsuggest <suggestion>"), min_args: Some(1u16), max_args: None, required_permissions: 0 },
        CommandRow { name: "help", description: None, usage: None, min_args: None, max_args: None, required_permissions: 0 },
        CommandRow { name: "aibeach", description: Some("Shows a random beach image"), usage: None, min_args: Some(0u16), max_args: Some(0u16), required_permissions: 0 },
        CommandRow { name: "shiba", description: Some("Shows a random shiba"), usage: None, min_args: Some(0u16), max_args: Some(0u16), required_permissions: 0 },
        CommandRow { name: "base64", description: Some("Encodes or decodes text using Base64"), usage: Some("rbase64 <encode/decode> <text>"), min_args: None, max_args: None, required_permissions: 0 },
        CommandRow { name: "hex", description: Some("Encodes or decodes text using hexadecimal"), usage: Some("rhex <encode/decode> <text>"), min_args: None, max_args: None, required_permissions: 0 },
        CommandRow { name: "binary", description: Some("Encodes or decodes text using binary"), usage: Some("rbinary <encode/decode> <text>"), min_args: None, max_args: None, required_permissions: 0 },
        CommandRow { name: "reverse", description: Some("Reverses the input text"), usage: Some("rreverse <text>"), min_args: None, max_args: None, required_permissions: 0 },
        CommandRow { name: "qr", description: Some("Generates a QR code from the given content"), usage: Some("rqr <content>"), min_args: None, max_args: None, required_permissions: 0 },
        CommandRow { name: "eightball", description: Some("Ask the 8-Ball a question"), usage: Some("reightball <question>"), min_args: None, max_args: None, required_permissions: 0 },
        CommandRow { name: "guess", description: Some("Start a customizable number guessing game"), usage: Some("rguess <min> <max> <attempts>"), min_args: None, max_args: None, required_permissions: 0 },
        CommandRow { name: "kick", description: Some("Kicks a user from the server"), usage: Some("rkick <user mention> <reason>"), min_args: None, max_args: None, required_permissions: KICK_MEMBERS },
        CommandRow { name: "ban", description: Some("Bans a user from the server"), usage: Some("rban <user mention or ID> <reason>"), min_args: None, max_args: None, required_permissions: BAN_MEMBERS },
        CommandRow { name: "delete", description: Some("Delete a specified number of messages"), usage: Some("rdelete <count>"), min_args: None, max_args: None, required_permissions: MANAGE_MESSAGES },
    ]
}

/// The prefix that starts a command.
pub fn command_prefix() -> (r: &'static str)
    ensures
        r@ == "r"@,
{
    "r"
}

impl Registry {
    /// The registry of the commands in `rows`, in their order.
    pub fn from_rows(rows: Vec<CommandRow>) -> (r: Registry)
        ensures
            r.commands@.len() == rows@.len(),
            forall|i: int| 0 <= i < rows@.len() ==> describes(#[trigger] r.commands@[i], rows@[i]),
    {
        let mut commands: Vec<CommandDescriptor> = Vec::new();
        let mut i: usize = 0;
        while i < rows.len()
            invariant
                i <= rows@.len(),
                commands@.len() == i,
                forall|j: int| 0 <= j < i ==> describes(#[trigger] commands@[j], rows@[j]),
            decreases rows@.len() - i,
        {
            let row = &rows[i];
            commands.push(
                CommandDescriptor {
                    name: row.name,
                    aliases: Vec::new(),
                    description: row.description,
                    usage: row.usage,
                    min_args: row.min_args,
                    max_args: row.max_args,
                    required_permissions: row.required_permissions,
                    allowed_roles: Vec::new(),
                    context: ContextRestriction::Any,
                    owner_only: false,
                },
            );
            i += 1;
        }
        Registry { commands }
    }

    /// The registry of the bot's commands.
    pub fn standard() -> (r: Registry)
        ensures
            r.commands@.len() == command_table().len(),
            forall|i: int|
                0 <= i < command_table().len() ==> describes(
                    #[trigger] r.commands@[i],
                    command_table()[i],
                ),
    {
        let rows = vec![
            CommandRow { name: "ping", description: Some("Shows Latency"), usage: None, min_args: Some(0u16), max_args: Some(0u16), required_permissions: 0 },
            CommandRow { name: "say", description: Some("Makes the bot say anything"), usage: Some("rsay <message>"), min_args: None, max_args: None, required_permissions: 0 },
            CommandRow { name: "userinfo", description: Some("Displays information about a user"), usage: Some("ruserinfo @barry"), min_args: None, max_args: None, required_permissions: 0 },
            CommandRow { name: "botinfo", description: Some("Displays detailed information about the bot. Use  rinfo"), usage: Some("rbotinfo"), min_args: None, max_args: None, required_permissions: 0 },
            CommandRow { name: "invite", description: Some("Get an invite link for the bot that requires Administrator permission to join a server."), usage: Some("rinvite"), min_args: None, max_args: None, required_permissions: 0 },
            CommandRow { name: "report", description: Some("Report an issue with the bot"), usage: Some("rreport <issue>"), min_args: Some(1u16), max_args: None, required_permissions: 0 },
            CommandRow { name: "suggest", description: Some("Suggest a feature for the bot"), usage: Some("rsuggest <suggestion>"), min_args: Some(1u16), max_args: None, required_permissions: 0 },
            CommandRow { name: "help", description: None, usage: None, min_args: None, max_args: None, required_permissions: 0 },
            CommandRow { name: "aibeach", description: Some("Shows a random beach image"), usage: None, min_args: Some(0u16), max_args: Some(0u16), required_permissions: 0 },
            CommandRow { name: "shiba", description: Some("Shows a random shiba"), usage: None, min_args: Some(0u16), max_args: Some(0u16), required_permissions: 0 },
            CommandRow { name: "base64", description: Some("Encodes or decodes text using Base64"), usage: Some("rbase64 <encode/decode> <text>"), min_args: None, max_args: None, required_permissions: 0 },
            CommandRow { name: "hex", description: Some("Encodes or decodes text using hexadecimal"), usage: Some("rhex <encode/decode> <text>"), min_args: None, max_args: None, required_permissions: 0 },
            CommandRow { name: "binary", description: Some("Encodes or decodes text using binary"), usage: Some("rbinary <encode/decode> <text>"), min_args: None, max_args: None, required_permissions: 0 },
            CommandRow { name: "reverse", description: Some("Reverses the input text"), usage: Some("rreverse <text>"), min_args: None, max_args: None, required_permissions: 0 },
            CommandRow { name: "qr", description: Some("Generates a QR code from the given content"), usage: Some("rqr <content>"), min_args: None, max_args: None, required_permissions: 0 },
            CommandRow { name: "eightball", description: Some("Ask the 8-Ball a question"), usage: Some("reightball <question>"), min_args: None, max_args: None, required_permissions: 0 },
            CommandRow { name: "guess", description: Some("Start a customizable number guessing game"), usage: Some("rguess <min> <max> <attempts>"), min_args: None, max_args: None, required_permissions: 0 },
            CommandRow { name: "kick", description: Some("Kicks a user from the server"), usage: Some("rkick <user mention> <reason>"), min_args: None, max_args: None, required_permissions: KICK_MEMBERS },
            CommandRow { name: "ban", description: Some("Bans a user from the server"), usage: Some("rban <user mention or ID> <reason>"), min_args: None, max_args: None, required_permissions: BAN_MEMBERS },
            CommandRow { name: "delete", description: Some("Delete a specified number of messages"), usage: Some("rdelete <count>"), min_args: None, max_args: None, required_permissions: MANAGE_MESSAGES },
        ];
        assert(rows@ =~= command_table());
        Registry::from_rows(rows)
    }
}

} // verus!
