//! Deciding whether a command runs: the checks made before a handler is
//! invoked, in the order in which a caller learns of them.

use vstd::prelude::*;
use crate::args::{invocation_of, texts, tokenize, words, ParsedInvocation};
use crate::registry::{CommandDescriptor, ContextRestriction, Registry};

verus! {

/// Which block list a caller was found on.
#[derive(Clone, Copy, Debug, PartialEq, Eq, Structural)]
pub enum BlockKind {
    User,
    Guild,
    Channel,
}

/// Why an invocation was turned down before its handler ran.
#[derive(Clone, Debug, PartialEq, Eq)]
pub enum DispatchError {
    NotEnoughArguments { min: u16, given: usize },
    TooManyArguments { max: u16, given: usize },
    WrongContext { required: ContextRestriction },
    MissingPermission,
    MissingRole,
    RateLimited { retry_after: u64 },
    Blocked(BlockKind),
    CommandNotFound,
    Other(String),
}

/// What the dispatcher decided: run the handler of the command at `command`
/// in the registry, or turn the invocation down.
#[derive(Clone, Debug, PartialEq, Eq)]
pub enum DispatchOutcome {
    Invoked { command: usize },
    Rejected(DispatchError),
}

/// What is known of the caller and of the place the message came from.
#[derive(Clone, Debug)]
pub struct Caller {
    /// The message came from a guild channel, not from a direct message.
    pub in_guild: bool,
    pub is_owner: bool,
    /// The permission bits the caller holds.
    pub permissions: u64,
    /// The ids of the roles the caller holds.
    pub roles: Vec<u64>,
    /// The block list that holds the caller, the guild or the channel, if any.
    pub blocked: Option<BlockKind>,
    /// Seconds to wait, where the caller's bucket for the command is exhausted.
    pub rate_limited: Option<u64>,
}

/// Whether `granted` holds every bit of `required`.
pub open spec fn holds_all(granted: u64, required: u64) -> bool {
    granted & required == required
}

/// Whether some role of `held` is among `allowed`.
pub open spec fn shares_role(allowed: Seq<u64>, held: Seq<u64>) -> bool {
    exists|i: int, j: int|
        0 <= i < allowed.len() && 0 <= j < held.len() && #[trigger] allowed[i] == #[trigger] held[j]
}

/// The context a command asks for that the caller is not in, if any.
pub open spec fn context_mismatch(descriptor: CommandDescriptor, caller: Caller) -> Option<
    ContextRestriction,
> {
    match descriptor.context {
        ContextRestriction::DmOnly => if caller.in_guild {
            Some(ContextRestriction::DmOnly)
        } else {
            None
        },
        ContextRestriction::GuildOnly => if caller.in_guild {
            None
        } else {
            Some(ContextRestriction::GuildOnly)
        },
        ContextRestriction::Any => None,
    }
}

/// Whether the caller lacks a permission that the command asks for, or is not
/// an owner where the command is for owners only.
pub open spec fn lacks_permission(descriptor: CommandDescriptor, caller: Caller) -> bool {
    (descriptor.owner_only && !caller.is_owner) || !holds_all(
        caller.permissions,
        descriptor.required_permissions,
    )
}

/// Whether the command asks for a role and the caller holds none of those asked.
pub open spec fn lacks_role(descriptor: CommandDescriptor, caller: Caller) -> bool {
    descriptor.allowed_roles@.len() > 0 && !shares_role(descriptor.allowed_roles@, caller.roles@)
}

/// The first check that fails for a caller who gave `given` arguments to the
/// command, in this order: too few arguments, too many, the wrong context,
/// a missing permission, a missing role, a block, an exhausted rate limit.
pub open spec fn rejection(descriptor: CommandDescriptor, given: usize, caller: Caller) -> Option<
    DispatchError,
> {
    if descriptor.min_args.is_some() && given < descriptor.min_args.unwrap() {
        Some(DispatchError::NotEnoughArguments { min: descriptor.min_args.unwrap(), given })
    } else if descriptor.max_args.is_some() && given > descriptor.max_args.unwrap() {
        Some(DispatchError::TooManyArguments { max: descriptor.max_args.unwrap(), given })
    } else if context_mismatch(descriptor, caller).is_some() {
        Some(DispatchError::WrongContext { required: context_mismatch(descriptor, caller).unwrap() })
    } else if lacks_permission(descriptor, caller) {
        Some(DispatchError::MissingPermission)
    } else if lacks_role(descriptor, caller) {
        Some(DispatchError::MissingRole)
    } else if caller.blocked.is_some() {
        Some(DispatchError::Blocked(caller.blocked.unwrap()))
    } else if caller.rate_limited.is_some() {
        Some(DispatchError::RateLimited { retry_after: caller.rate_limited.unwrap() })
    } else {
        None
    }
}

/// What the dispatcher decides for the command name `name` given with `given`
/// arguments by `caller`.
pub open spec fn outcome(registry: Registry, name: Seq<char>, given: usize, caller: Caller) -> DispatchOutcome {
    match registry.resolved(name) {
        None => DispatchOutcome::Rejected(DispatchError::CommandNotFound),
        Some(i) => match rejection(registry.commands@[i], given, caller) {
            Some(e) => DispatchOutcome::Rejected(e),
            None => DispatchOutcome::Invoked { command: i as usize },
        },
    }
}

/// Decides `shares_role`.
pub fn holds_allowed_role(allowed: &Vec<u64>, held: &Vec<u64>) -> (r: bool)
    ensures
        r == shares_role(allowed@, held@),
{
    let mut i: usize = 0;
    while i < allowed.len()
        invariant
            i <= allowed@.len(),
            forall|a: int, b: int|
                0 <= a < i && 0 <= b < held@.len() ==> #[trigger] allowed@[a] != #[trigger] held@[b],
        decreases allowed.len() - i,
    {
        let mut j: usize = 0;
        while j < held.len()
            invariant
                i < allowed@.len(),
                j <= held@.len(),
                forall|a: int, b: int|
                    0 <= a < i && 0 <= b < held@.len() ==> #[trigger] allowed@[a] != #[trigger] held@[b],
                forall|b: int| 0 <= b < j ==> allowed@[i as int] != #[trigger] held@[b],
            decreases held.len() - j,
        {
            if allowed[i] == held[j] {
                return true;
            }
            j += 1;
        }
        i += 1;
    }
    false
}

/// Checks a caller against a command's descriptor and names the first check
/// that fails; `None` where the handler may run.
pub fn check(descriptor: &CommandDescriptor, given: usize, caller: &Caller) -> (r: Option<DispatchError>)
    ensures
        r == rejection(*descriptor, given, *caller),
{
    if let Some(min) = descriptor.min_args {
        if given < min as usize {
            return Some(DispatchError::NotEnoughArguments { min, given });
        }
    }
    if let Some(max) = descriptor.max_args {
        if given > max as usize {
            return Some(DispatchError::TooManyArguments { max, given });
        }
    }
    match descriptor.context {
        ContextRestriction::DmOnly => {
            if caller.in_guild {
                return Some(DispatchError::WrongContext { required: ContextRestriction::DmOnly });
            }
        },
        ContextRestriction::GuildOnly => {
            if !caller.in_guild {
                return Some(DispatchError::WrongContext { required: ContextRestriction::GuildOnly });
            }
        },
        ContextRestriction::Any => {},
    }
    if descriptor.owner_only && !caller.is_owner {
        return Some(DispatchError::MissingPermission);
    }
    if caller.permissions & descriptor.required_permissions != descriptor.required_permissions {
        return Some(DispatchError::MissingPermission);
    }
    if descriptor.allowed_roles.len() > 0 && !holds_allowed_role(
        &descriptor.allowed_roles,
        &caller.roles,
    ) {
        return Some(DispatchError::MissingRole);
    }
    if let Some(kind) = caller.blocked {
        return Some(DispatchError::Blocked(kind));
    }
    if let Some(retry_after) = caller.rate_limited {
        return Some(DispatchError::RateLimited { retry_after });
    }
    None
}

/// Decides what becomes of an invocation of `name` with `given` arguments:
/// the command is looked up, the caller is checked against its descriptor,
/// and only where nothing fails is its handler to be invoked.
pub fn dispatch(registry: &Registry, name: &str, given: usize, caller: &Caller) -> (r: DispatchOutcome)
    ensures
        r == outcome(*registry, name@, given, *caller),
{
    match registry.resolve(name) {
        None => DispatchOutcome::Rejected(DispatchError::CommandNotFound),
        Some(i) => match check(&registry.commands[i], given, caller) {
            Some(e) => DispatchOutcome::Rejected(e),
            None => DispatchOutcome::Invoked { command: i },
        },
    }
}

/// Decides what becomes of an invocation that was taken apart: the number
/// of arguments given is the number of its argument tokens.
pub fn dispatch_invocation(registry: &Registry, invocation: &ParsedInvocation, caller: &Caller) -> (r:
    DispatchOutcome)
    ensures
        r == outcome(*registry, invocation.name@, invocation.args@.len() as usize, *caller),
{
    dispatch(registry, invocation.name.as_str(), invocation.args.len(), caller)
}

/// Takes a message apart and decides what becomes of it. `None` where the
/// message invokes no command under `prefix`; otherwise the invocation and
/// the outcome for its name and the number of words after the name.
pub fn dispatch_message(registry: &Registry, prefix: &str, content: &str, caller: &Caller) -> (r:
    Option<(ParsedInvocation, DispatchOutcome)>)
    ensures
        match r {
            None => invocation_of(content@, prefix@).is_none(),
            Some((invocation, decided)) => {
                &&& invocation_of(content@, prefix@) == Some((invocation.name@, invocation.rest@))
                &&& texts(invocation.args@) == words(invocation.rest@)
                &&& decided == outcome(
                    *registry,
                    invocation.name@,
                    words(invocation.rest@).len() as usize,
                    *caller,
                )
            },
        },
{
    match tokenize(content, prefix) {
        None => None,
        Some(invocation) => {
            proof {
                assert(texts(invocation.args@).len() == invocation.args@.len());
            }
            let decided = dispatch_invocation(registry, &invocation, caller);
            Some((invocation, decided))
        },
    }
}

/// The lists of those whose messages are dropped.
#[derive(Clone, Debug)]
pub struct BlockList {
    pub users: Vec<u64>,
    pub guilds: Vec<u64>,
    pub channels: Vec<u64>,
}

/// The list that holds the author, the guild or the channel of a message:
/// the user list is looked at first, then the guild list, then the channel list.
pub open spec fn blocked_by(list: BlockList, user: u64, guild: Option<u64>, channel: u64) -> Option<
    BlockKind,
> {
    if list.users@.contains(user) {
        Some(BlockKind::User)
    } else if guild.is_some() && list.guilds@.contains(guild.unwrap()) {
        Some(BlockKind::Guild)
    } else if list.channels@.contains(channel) {
        Some(BlockKind::Channel)
    } else {
        None
    }
}

/// Whether `id` is among `ids`.
fn holds(ids: &Vec<u64>, id: u64) -> (r: bool)
    ensures
        r == ids@.contains(id),
{
    let mut i: usize = 0;
    while i < ids.len()
        invariant
            i <= ids@.len(),
            forall|j: int| 0 <= j < i ==> ids@[j] != id,
        decreases ids.len() - i,
    {
        if ids[i] == id {
            return true;
        }
        i += 1;
    }
    false
}

impl BlockList {
    /// Lists that hold nobody.
    pub fn new() -> (r: BlockList)
        ensures
            r.users@.len() == 0,
            r.guilds@.len() == 0,
            r.channels@.len() == 0,
    {
        BlockList { users: Vec::new(), guilds: Vec::new(), channels: Vec::new() }
    }

    /// Looks a message's author, guild and channel up in the lists.
    pub fn find(&self, user: u64, guild: Option<u64>, channel: u64) -> (r: Option<BlockKind>)
        ensures
            r == blocked_by(*self, user, guild, channel),
    {
        if holds(&self.users, user) {
            return Some(BlockKind::User);
        }
        if let Some(g) = guild {
            if holds(&self.guilds, g) {
                return Some(BlockKind::Guild);
            }
        }
        if holds(&self.channels, channel) {
            return Some(BlockKind::Channel);
        }
        None
    }
}

/// A command given fewer arguments than its minimum is turned down for that,
/// whatever else holds of the caller, and the error carries the minimum and
/// the number of arguments that were given.
pub proof fn law_too_few_arguments(registry: Registry, name: Seq<char>, given: usize, caller: Caller)
    requires
        registry.resolved(name).is_some(),
        registry.commands@[registry.resolved(name).unwrap()].min_args.is_some(),
        given < registry.commands@[registry.resolved(name).unwrap()].min_args.unwrap(),
    ensures
        outcome(registry, name, given, caller) == DispatchOutcome::Rejected(
            DispatchError::NotEnoughArguments {
                min: registry.commands@[registry.resolved(name).unwrap()].min_args.unwrap(),
                given,
            },
        ),
{
}

/// A command used in the wrong place, with a number of arguments that it
/// accepts, is turned down for the place: neither permissions, roles, blocks
/// nor rate limits are looked at before.
pub proof fn law_context_before_permission(
    registry: Registry,
    name: Seq<char>,
    given: usize,
    caller: Caller,
)
    requires
        registry.resolved(name).is_some(),
        ({
            let d = registry.commands@[registry.resolved(name).unwrap()];
            &&& (d.min_args.is_some() ==> given >= d.min_args.unwrap())
            &&& (d.max_args.is_some() ==> given <= d.max_args.unwrap())
            &&& (d.context == ContextRestriction::DmOnly && caller.in_guild || d.context
                == ContextRestriction::GuildOnly && !caller.in_guild)
        }),
    ensures
        outcome(registry, name, given, caller) == DispatchOutcome::Rejected(
            DispatchError::WrongContext {
                required: registry.commands@[registry.resolved(name).unwrap()].context,
            },
        ),
{
}

/// A caller whose rate limit is exhausted, and whom no earlier check turns
/// down, is turned down for the rate limit: the handler is not invoked.
pub proof fn law_rate_limited_not_invoked(
    registry: Registry,
    name: Seq<char>,
    given: usize,
    caller: Caller,
)
    requires
        registry.resolved(name).is_some(),
        caller.rate_limited.is_some(),
        rejection(
            registry.commands@[registry.resolved(name).unwrap()],
            given,
            Caller { rate_limited: None, ..caller },
        ).is_none(),
    ensures
        outcome(registry, name, given, caller) == DispatchOutcome::Rejected(
            DispatchError::RateLimited { retry_after: caller.rate_limited.unwrap() },
        ),
        !(outcome(registry, name, given, caller) is Invoked),
{
}

/// A handler is invoked only for a command that the registry knows and a
/// caller whom no check turns down.
pub proof fn law_invoked_only_when_accepted(
    registry: Registry,
    name: Seq<char>,
    given: usize,
    caller: Caller,
)
    ensures
        outcome(registry, name, given, caller) is Invoked <==> (registry.resolved(name).is_some()
            && rejection(
            registry.commands@[registry.resolved(name).unwrap()],
            given,
            caller,
        ).is_none()),
{
}

} // verus!
