//! The runtime builder side: the platform-facing creation and permission
//! payloads, the reusable permission-rule unit, and the
//! [`SlashCommandBuilder`] that assembles one immutable command entry from
//! its four mandatory parts.

use vstd::prelude::*;

use crate::handler::SlashCommandEntry;

verus! {

/// The kind of subject a permission rule applies to.
#[derive(Debug, Clone, Copy, PartialEq, Eq, Structural)]
pub enum ApplicationCommandPermissionType {
    User,
    Role,
}

/// One permission entry of a command: allow or deny the subject with `id`.
#[derive(Debug, Clone, Copy, PartialEq, Eq, Structural)]
pub struct CommandPermission {
    pub kind: ApplicationCommandPermissionType,
    pub id: u64,
    pub allow: bool,
}

/// The creation payload handed to the platform for one command: its name,
/// optional description, default-permission flag, and the option schemas
/// applied to it, each identified by its unit's name, in application order.
#[derive(Debug, Clone, PartialEq)]
#[verifier::ext_equal]
pub struct CreateApplicationCommand {
    pub name: Option<String>,
    pub description: Option<String>,
    pub default_permission: Option<bool>,
    pub options: Vec<String>,
}

impl CreateApplicationCommand {
    /// The empty payload.
    pub fn new() -> (r: CreateApplicationCommand)
        ensures
            r.name is None,
            r.description is None,
            r.default_permission is None,
            r.options@ == Seq::<String>::empty(),
    {
        CreateApplicationCommand {
            name: None,
            description: None,
            default_permission: None,
            options: Vec::new(),
        }
    }

    /// Set the command's name.
    pub fn name(&mut self, name: String)
        ensures
            *final(self) == (CreateApplicationCommand { name: Some(name), ..*old(self) }),
    {
        self.name = Some(name);
    }

    /// Set the command's description.
    pub fn description(&mut self, description: String)
        ensures
            *final(self) == (CreateApplicationCommand {
                description: Some(description),
                ..*old(self)
            }),
    {
        self.description = Some(description);
    }

    /// Set the command's default-permission flag.
    pub fn default_permission(&mut self, default_permission: bool)
        ensures
            *final(self) == (CreateApplicationCommand {
                default_permission: Some(default_permission),
                ..*old(self)
            }),
    {
        self.default_permission = Some(default_permission);
    }

    /// Apply one option schema, identified by its unit's name, as the next
    /// sub-option.
    pub fn create_option(&mut self, option: String)
        ensures
            final(self).options@ == old(self).options@.push(option),
            final(self).name == old(self).name,
            final(self).description == old(self).description,
            final(self).default_permission == old(self).default_permission,
    {
        self.options.push(option);
    }

    /// A copy of the payload: the same settings and the same option names.
    pub fn clone_payload(&self) -> (r: CreateApplicationCommand)
        ensures
            r.name == self.name,
            r.description == self.description,
            r.default_permission == self.default_permission,
            r.options@ == self.options@,
    {
        let mut options: Vec<String> = Vec::new();
        let mut i: usize = 0;
        while i < self.options.len()
            invariant
                0 <= i <= self.options@.len(),
                options@ =~= self.options@.take(i as int),
            decreases self.options@.len() - i,
        {
            options.push(self.options[i].clone());
            proof {
                assert(options@ =~= self.options@.take(i as int + 1));
            }
            i += 1;
        }
        proof {
            assert(self.options@.take(self.options@.len() as int) =~= self.options@);
        }
        CreateApplicationCommand {
            name: match &self.name {
                Some(n) => Some(n.clone()),
                None => None,
            },
            description: match &self.description {
                Some(d) => Some(d.clone()),
                None => None,
            },
            default_permission: self.default_permission,
            options,
        }
    }
}

/// The permission payload handed to the platform for one command: its
/// permission entries, in application order.
#[derive(Debug, Clone, PartialEq)]
#[verifier::ext_equal]
pub struct CreateApplicationCommandPermissionsData {
    pub permissions: Vec<CommandPermission>,
}

impl CreateApplicationCommandPermissionsData {
    /// The empty payload.
    pub fn new() -> (r: CreateApplicationCommandPermissionsData)
        ensures
            r.permissions@ == Seq::<CommandPermission>::empty(),
    {
        CreateApplicationCommandPermissionsData { permissions: Vec::new() }
    }

    /// Append one permission entry.
    pub fn create_permission(&mut self, permission: CommandPermission)
        ensures
            final(self).permissions@ == old(self).permissions@.push(permission),
    {
        self.permissions.push(permission);
    }

    /// A copy of the payload: the same permission entries.
    pub fn clone_payload(&self) -> (r: CreateApplicationCommandPermissionsData)
        ensures
            r.permissions@ == self.permissions@,
    {
        let mut permissions: Vec<CommandPermission> = Vec::new();
        let mut i: usize = 0;
        while i < self.permissions.len()
            invariant
                0 <= i <= self.permissions@.len(),
                permissions@ =~= self.permissions@.take(i as int),
            decreases self.permissions@.len() - i,
        {
            permissions.push(self.permissions[i]);
            proof {
                assert(permissions@ =~= self.permissions@.take(i as int + 1));
            }
            i += 1;
        }
        proof {
            assert(self.permissions@.take(self.permissions@.len() as int) =~= self.permissions@);
        }
        CreateApplicationCommandPermissionsData { permissions }
    }
}

/// A reusable permission-rule unit: applying it appends its single entry to
/// a permission payload.
#[derive(Debug, Clone, Copy, PartialEq, Eq, Structural)]
pub struct PermissionRule {
    pub kind: ApplicationCommandPermissionType,
    pub id: u64,
    pub allow: bool,
}

impl PermissionRule {
    /// Apply this rule to the permission payload.
    pub fn apply(&self, p: &mut CreateApplicationCommandPermissionsData)
        ensures
            final(p).permissions@ == old(p).permissions@.push(
                CommandPermission { kind: self.kind, id: self.id, allow: self.allow },
            ),
    {
        p.create_permission(CommandPermission { kind: self.kind, id: self.id, allow: self.allow });
    }
}

/// The token under which the host registered a command's callback; invoking
/// the callback itself is the host's work, so the registry only routes this
/// token.
#[derive(Debug, Clone, Copy, PartialEq, Eq, Structural)]
pub struct SlashCommandCallback(pub u64);

/// The imperative assembly object for one command entry: name, optional
/// scopes, callback, creation payload and permission payload. All but the
/// scopes are mandatory at `build` time.
#[derive(Debug)]
pub struct SlashCommandBuilder {
    pub name: Option<String>,
    pub guilds: Option<Vec<u64>>,
    pub callback: Option<SlashCommandCallback>,
    pub create: Option<CreateApplicationCommand>,
    pub permissions: Option<CreateApplicationCommandPermissionsData>,
}

impl Default for SlashCommandBuilder {
    fn default() -> (r: Self)
        ensures
            r.name is None,
            r.guilds is None,
            r.callback is None,
            r.create is None,
            r.permissions is None,
    {
        SlashCommandBuilder {
            name: None,
            guilds: None,
            callback: None,
            create: None,
            permissions: None,
        }
    }
}

impl SlashCommandBuilder {
    /// Whether every mandatory field has been set; building an incomplete
    /// builder is a programmer error.
    pub open spec fn is_complete(self) -> bool {
        &&& self.name is Some
        &&& self.callback is Some
        &&& self.create is Some
        &&& self.permissions is Some
    }

    /// Set the command's name.
    pub fn name(&mut self, name: String)
        ensures
            *final(self) == (SlashCommandBuilder { name: Some(name), ..*old(self) }),
    {
        self.name = Some(name);
    }

    /// Restrict the command to the given scopes.
    pub fn guilds(&mut self, guilds: Vec<u64>)
        ensures
            *final(self) == (SlashCommandBuilder { guilds: Some(guilds), ..*old(self) }),
    {
        self.guilds = Some(guilds);
    }

    /// Set the callback token the host dispatches to.
    pub fn callback(&mut self, callback: SlashCommandCallback)
        ensures
            *final(self) == (SlashCommandBuilder { callback: Some(callback), ..*old(self) }),
    {
        self.callback = Some(callback);
    }

    /// Set the configured creation payload.
    pub fn create_application_command(&mut self, create: CreateApplicationCommand)
        ensures
            *final(self) == (SlashCommandBuilder { create: Some(create), ..*old(self) }),
    {
        self.create = Some(create);
    }

    /// Set the configured permission payload.
    pub fn create_permissions(&mut self, permissions: CreateApplicationCommandPermissionsData)
        ensures
            *final(self) == (SlashCommandBuilder { permissions: Some(permissions), ..*old(self) }),
    {
        self.permissions = Some(permissions);
    }

    /// Assemble the immutable command entry and its callback. Every field
    /// but the scopes must have been set.
    pub fn build(self) -> (r: (SlashCommandEntry, SlashCommandCallback))
        requires
            self.is_complete(),
        ensures
            r.0.name == self.name->0,
            r.0.guilds == self.guilds,
            r.0.create == self.create->0,
            r.0.permissions == self.permissions->0,
            r.1 == self.callback->0,
    {
        let SlashCommandBuilder { name, guilds, callback, create, permissions } = self;
        let name = name.unwrap();
        let callback = callback.unwrap();
        let create = create.unwrap();
        let permissions = permissions.unwrap();
        (SlashCommandEntry { name, guilds, create, permissions }, callback)
    }
}

} // verus!
