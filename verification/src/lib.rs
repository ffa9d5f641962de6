//! A declarative slash-command framework: an annotation compiler that turns an
//! annotated, function-like declaration into an immutable command descriptor,
//! and a runtime registry that collects descriptors, prepares their
//! registration with the chat platform, and dispatches inbound named events to
//! the right callback.
//!
//! The compile-time half (annotation grammar, value coercion, declaration
//! shape validation, descriptor synthesis) lives in [`attributes`],
//! [`structures`], [`utils`] and [`synth`]. The runtime half (builder,
//! registry, dispatch) lives in [`builder`] and [`handler`]. The platform
//! itself (network transport, event loop) is outside this crate: the registry
//! emits the registration actions it wants performed and consumes their
//! outcomes, so every decision it makes is verified here.

pub mod ast;
pub mod attributes;
pub mod builder;
pub mod error;
pub mod ext;
pub mod handler;
pub mod structures;
pub mod synth;
pub mod utils;

pub use builder::SlashCommandBuilder;
pub use builder::SlashCommandCallback;
pub use error::SlashCommandError;
pub use handler::DefaultSlashCommandHandler;
pub use handler::SlashCommandEntry;

use vstd::prelude::*;

use crate::builder::{
    CommandPermission, CreateApplicationCommand, CreateApplicationCommandPermissionsData,
    PermissionRule,
};

verus! {

/// The permission entries the rule units contribute, in order.
pub open spec fn rules_entries(rules: Seq<PermissionRule>) -> Seq<CommandPermission> {
    Seq::new(
        rules.len(),
        |i: int|
            CommandPermission { kind: rules[i].kind, id: rules[i].id, allow: rules[i].allow },
    )
}

/// The immutable runtime descriptor of one command: its name, its scopes
/// (`None` meaning global), the settings its creation payload gets, the
/// permission-rule units it applies, the option-schema units it references,
/// and the callback token the host dispatches to.
#[derive(Debug)]
pub struct SlashCommand {
    pub name: String,
    pub guilds: Option<Vec<u64>>,
    pub description: Option<String>,
    pub default_permission: bool,
    pub permission_rules: Vec<PermissionRule>,
    pub option_names: Vec<String>,
    pub callback: SlashCommandCallback,
}

/// How the entry built for a descriptor relates to the descriptor: the same
/// name and scopes, a creation payload carrying the descriptor's name,
/// description, default-permission flag and option references, and a
/// permission payload carrying its rules, each list in declaration order.
pub open spec fn entry_of_command(cmd: SlashCommand, entry: SlashCommandEntry) -> bool {
    &&& entry.name == cmd.name
    &&& (cmd.guilds matches Some(g) ==> entry.guilds matches Some(g2) && g2@ == g@)
    &&& cmd.guilds is None ==> entry.guilds is None
    &&& entry.create.name == Some(cmd.name)
    &&& entry.create.description == cmd.description
    &&& entry.create.default_permission == Some(cmd.default_permission)
    &&& entry.create.options@ == cmd.option_names@
    &&& entry.permissions.permissions@ == rules_entries(cmd.permission_rules@)
}

impl SlashCommand {
    /// Configure the creation payload: the default-permission flag, the
    /// description if one was declared, and each referenced option schema in
    /// declaration order. The payload's name is left to the caller.
    #[verifier::loop_isolation(false)]
    pub fn create(&self, c: &mut CreateApplicationCommand)
        ensures
            final(c).name == old(c).name,
            final(c).default_permission == Some(self.default_permission),
            self.description matches Some(d) ==> final(c).description == Some(d),
            self.description is None ==> final(c).description == old(c).description,
            final(c).options@ == old(c).options@ + self.option_names@,
    {
        c.default_permission(self.default_permission);
        match &self.description {
            Some(d) => {
                c.description(d.clone());
            },
            None => {},
        }
        let ghost mid = *c;
        let mut i: usize = 0;
        while i < self.option_names.len()
            invariant
                0 <= i <= self.option_names@.len(),
                c.name == mid.name,
                c.description == mid.description,
                c.default_permission == mid.default_permission,
                c.options@ =~= mid.options@ + self.option_names@.take(i as int),
            decreases self.option_names@.len() - i,
        {
            c.create_option(self.option_names[i].clone());
            proof {
                assert(mid.options@ + self.option_names@.take(i as int + 1) =~= (mid.options@
                    + self.option_names@.take(i as int)).push(self.option_names@[i as int]));
            }
            i += 1;
        }
        proof {
            assert(self.option_names@.take(self.option_names@.len() as int)
                =~= self.option_names@);
        }
    }

    /// Apply each referenced permission rule, in declaration order, to the
    /// permission payload.
    #[verifier::loop_isolation(false)]
    pub fn permissions(&self, p: &mut CreateApplicationCommandPermissionsData)
        ensures
            final(p).permissions@ == old(p).permissions@ + rules_entries(self.permission_rules@),
    {
        let mut i: usize = 0;
        while i < self.permission_rules.len()
            invariant
                0 <= i <= self.permission_rules@.len(),
                p.permissions@ =~= old(p).permissions@ + rules_entries(
                    self.permission_rules@,
                ).take(i as int),
            decreases self.permission_rules@.len() - i,
        {
            let rule = self.permission_rules[i];
            rule.apply(p);
            proof {
                assert(old(p).permissions@ + rules_entries(self.permission_rules@).take(
                    i as int + 1,
                ) =~= (old(p).permissions@ + rules_entries(self.permission_rules@).take(
                    i as int,
                )).push(rules_entries(self.permission_rules@)[i as int]));
            }
            i += 1;
        }
        proof {
            assert(rules_entries(self.permission_rules@).take(
                self.permission_rules@.len() as int,
            ) =~= rules_entries(self.permission_rules@));
        }
    }

    /// Register this command into the registry: its entry joins the pending
    /// list and its callback is stored under its name. Requires the
    /// registry's accumulation phase and an unused name.
    pub fn register(&self, handler: &mut DefaultSlashCommandHandler)
        requires
            old(handler).to_add is Some,
            !old(handler).has_callback(self.name@),
        ensures
            final(handler).callbacks@.len() == old(handler).callbacks@.len() + 1,
            final(handler).callbacks@.take(old(handler).callbacks@.len() as int) == old(
                handler,
            ).callbacks@,
            final(handler).callbacks@.last().0 == self.name,
            final(handler).callbacks@.last().1 == self.callback,
            final(handler).to_add matches Some(v) && old(handler).to_add matches Some(v0) && v@
                .len() == v0@.len() + 1 && v@.take(v0@.len() as int) == v0@ && entry_of_command(
                *self,
                v@.last(),
            ),
            final(handler).globals == old(handler).globals,
    {
        let mut builder = SlashCommandBuilder::default();
        builder.name(self.name.clone());
        builder.callback(self.callback);
        let mut create = CreateApplicationCommand::new();
        self.create(&mut create);
        create.name(self.name.clone());
        builder.create_application_command(create);
        let mut permissions = CreateApplicationCommandPermissionsData::new();
        self.permissions(&mut permissions);
        builder.create_permissions(permissions);
        match &self.guilds {
            Some(g) => {
                let mut guilds: Vec<u64> = Vec::new();
                let mut i: usize = 0;
                while i < g.len()
                    invariant
                        0 <= i <= g@.len(),
                        guilds@ =~= g@.take(i as int),
                    decreases g@.len() - i,
                {
                    guilds.push(g[i]);
                    proof {
                        assert(guilds@ =~= g@.take(i as int + 1));
                    }
                    i += 1;
                }
                proof {
                    assert(g@.take(g@.len() as int) =~= g@);
                }
                builder.guilds(guilds);
            },
            None => {},
        }
        handler.create_slash_command(builder);
        proof {
            assert(final(handler).callbacks@.take(old(handler).callbacks@.len() as int) =~= old(
                handler,
            ).callbacks@);
            assert(final(handler).to_add->0@.take(old(handler).to_add->0@.len() as int) =~= old(
                handler,
            ).to_add->0@);
        }
    }
}

impl DefaultSlashCommandHandler {
    /// Register a command descriptor: the entry point command definitions go
    /// through.
    pub fn register_slash_command(&mut self, command: &SlashCommand)
        requires
            old(self).to_add is Some,
            !old(self).has_callback(command.name@),
        ensures
            final(self).callbacks@.len() == old(self).callbacks@.len() + 1,
            final(self).callbacks@.take(old(self).callbacks@.len() as int) == old(self).callbacks@,
            final(self).callbacks@.last().0 == command.name,
            final(self).callbacks@.last().1 == command.callback,
            final(self).to_add matches Some(v) && old(self).to_add matches Some(v0) && v@.len()
                == v0@.len() + 1 && v@.take(v0@.len() as int) == v0@ && entry_of_command(
                *command,
                v@.last(),
            ),
            final(self).globals == old(self).globals,
    {
        command.register(self);
    }
}

} // verus!
