//! ZslashID{name?}: the ID Discord gave a slash command, looked up in the
//! guild's commands and then the global ones.
use vstd::prelude::*;
use crate::args::arg_spec;
use crate::bot::commands::{CommandKind, CommandRegistry};
use crate::context::{is_error, DiscordContext, FnOutput};
use crate::decimal::{decimal, parse_unsigned_spec};
use crate::error_messages::requires_set_first_text;

verus! {

/// What the function does after reading its arguments.
pub enum SlashIdStep {
    /// It answers at once.
    Answer(FnOutput),
    /// It looks the name up: among the guild's commands where the guild is
    /// known, then among the global commands.
    Search { name: String, guild_id: Option<u64> },
}

/// The running command is a slash command: its trigger names one.
pub open spec fn running_slash(ctx: DiscordContext, reg: CommandRegistry) -> bool {
    match ctx.trigger {
        Some(t) => match reg.lookup(t@) {
            Some(i) => reg.commands@[i].kind == CommandKind::Slash,
            None => false,
        },
        None => false,
    }
}

/// The name looked up is argument 0 where given (even empty); without it, the
/// running command's name, which must be a slash command. Without an HTTP
/// client the answer is empty.
pub open spec fn step_spec(
    args: Seq<String>,
    ctx: DiscordContext,
    reg: CommandRegistry,
    has_http: bool,
    r: SlashIdStep,
) -> bool {
    let name = match arg_spec(args, 0) {
        Some(n) => Some(n),
        None => if running_slash(ctx, reg) {
            Some(ctx.command_name@)
        } else {
            None
        },
    };
    match name {
        None => r matches SlashIdStep::Answer(o) && is_error(
            o,
            "slashID"@,
            requires_set_first_text("command type to slash"@),
        ),
        Some(n) => if !has_http {
            r matches SlashIdStep::Answer(FnOutput::Text(t)) && t@.len() == 0
        } else {
            r matches SlashIdStep::Search { name, guild_id } && name@ == n && match guild_id {
                Some(g) => parse_unsigned_spec(ctx.guild_id@, u64::MAX as nat) == Some(g as nat),
                None => parse_unsigned_spec(ctx.guild_id@, u64::MAX as nat) is None,
            }
        },
    }
}

/// Decides what to look up.
pub fn run(args: Vec<String>, ctx: &DiscordContext, reg: &CommandRegistry, has_http: bool) -> (r:
    SlashIdStep)
    requires
        reg.wf(),
    ensures
        step_spec(args@, *ctx, *reg, has_http, r),
{
    let name = if args.len() > 0 {
        args[0].clone()
    } else {
        let is_slash = match &ctx.trigger {
            Some(t) => match reg.get(t.as_str()) {
                Some(i) => reg.commands[i].kind == CommandKind::Slash,
                None => false,
            },
            None => false,
        };
        if !is_slash {
            let m = crate::error_messages::requires_set_first("command type to slash");
            return SlashIdStep::Answer(FnOutput::error("slashID", m.as_str()));
        }
        ctx.command_name.clone()
    };
    if !has_http {
        return SlashIdStep::Answer(FnOutput::Text(String::new()));
    }
    SlashIdStep::Search { name, guild_id: crate::decimal::parse_u64(ctx.guild_id.as_str()) }
}

/// The ID of the first command named `name`, if any.
pub open spec fn first_named(cmds: Seq<(String, u64)>, name: Seq<char>) -> Option<u64>
    decreases cmds.len(),
{
    if cmds.len() == 0 {
        None
    } else {
        match first_named(cmds.drop_last(), name) {
            Some(id) => Some(id),
            None => if cmds.last().0@ == name {
                Some(cmds.last().1)
            } else {
                None
            },
        }
    }
}

/// The ID of the first of the registered commands (name, ID) named `name`.
pub fn find_id(cmds: &Vec<(String, u64)>, name: &str) -> (r: Option<u64>)
    ensures
        r == first_named(cmds@, name@),
{
    let mut found: Option<u64> = None;
    let mut i: usize = 0;
    while i < cmds.len()
        invariant
            i <= cmds.len(),
            found == first_named(cmds@.take(i as int), name@),
        decreases cmds.len() - i,
    {
        assert(cmds@.take(i + 1).drop_last() =~= cmds@.take(i as int));
        assert(cmds@.take(i + 1).last() == cmds@[i as int]);
        if found.is_none() && crate::text::str_eq(cmds[i].0.as_str(), name) {
            found = Some(cmds[i].1);
        }
        i = i + 1;
    }
    assert(cmds@.take(cmds.len() as int) =~= cmds@);
    found
}

/// The ID found, in decimal, or the empty text.
pub fn finish(id: Option<u64>) -> (r: FnOutput)
    ensures
        r matches FnOutput::Text(t) && t@ == match id {
            Some(v) => decimal(v as nat),
            None => Seq::empty(),
        },
{
    match id {
        Some(v) => FnOutput::Text(crate::decimal::u64_text(v)),
        None => FnOutput::Text(String::new()),
    }
}

} // verus!
