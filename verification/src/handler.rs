//! The runtime registry and dispatcher. The registry accumulates command
//! entries and their callbacks; publication drains the pending entries
//! exactly once, feeding global entries into the accumulated batch and
//! turning scoped ones into a [`PublicationRun`] — a step machine that emits
//! each per-scope registration action in order, consumes its outcome, and
//! stops at the first failure. Dispatch routes an inbound named event to the
//! callback registered under that name.

use vstd::prelude::*;
use vstd::string::StringExecFns;

use crate::builder::{
    CreateApplicationCommand, CreateApplicationCommandPermissionsData, SlashCommandBuilder,
    SlashCommandCallback,
};
use crate::error::{PlatformError, SlashCommandError};

verus! {

/// The platform-facing registration record of one command: its name, its
/// scopes (`None` meaning global), and its configured creation and
/// permission payloads.
#[derive(Debug, PartialEq)]
pub struct SlashCommandEntry {
    pub name: String,
    pub guilds: Option<Vec<u64>>,
    pub create: CreateApplicationCommand,
    pub permissions: CreateApplicationCommandPermissionsData,
}

/// The callback registered under `name`, scanning the map in insertion
/// order.
pub open spec fn lookup(
    cbs: Seq<(String, SlashCommandCallback)>,
    name: Seq<char>,
) -> Option<SlashCommandCallback>
    decreases cbs.len(),
{
    if cbs.len() == 0 {
        None
    } else if cbs[0].0@ == name {
        Some(cbs[0].1)
    } else {
        lookup(cbs.drop_first(), name)
    }
}

/// The entries that need per-scope registration: those with a non-empty
/// scope list, in order.
pub open spec fn scoped_entries(entries: Seq<SlashCommandEntry>) -> Seq<SlashCommandEntry>
    decreases entries.len(),
{
    if entries.len() == 0 {
        Seq::empty()
    } else {
        let rest = scoped_entries(entries.drop_first());
        if entries[0].guilds matches Some(g) && g@.len() > 0 {
            seq![entries[0]] + rest
        } else {
            rest
        }
    }
}

/// The creation payloads of the global entries (those with no scope list),
/// in order.
pub open spec fn global_creates(entries: Seq<SlashCommandEntry>) -> Seq<CreateApplicationCommand>
    decreases entries.len(),
{
    if entries.len() == 0 {
        Seq::empty()
    } else {
        let rest = global_creates(entries.drop_first());
        if entries[0].guilds is None {
            seq![entries[0].create] + rest
        } else {
            rest
        }
    }
}

/// Where a publication run stands: about to create the current command
/// under the current scope, about to apply its permissions to the command
/// the platform just created, or finished (successfully or with the first
/// failure).
#[derive(Debug, PartialEq)]
pub enum RunPhase {
    Creating,
    Applying { command_id: u64 },
    Done { failure: Option<PlatformError> },
}

/// The next registration action a publication run asks the host to perform,
/// or the run's final outcome.
#[derive(Debug, PartialEq)]
pub enum PublishAction {
    CreateCommand { guild_id: u64, create: CreateApplicationCommand },
    ApplyPermissions {
        guild_id: u64,
        command_id: u64,
        permissions: CreateApplicationCommandPermissionsData,
    },
    Finished { failure: Option<PlatformError> },
}

/// Whether two creation payloads carry the same settings and option names.
pub open spec fn payload_like(a: CreateApplicationCommand, b: CreateApplicationCommand) -> bool {
    &&& a.name == b.name
    &&& a.description == b.description
    &&& a.default_permission == b.default_permission
    &&& a.options@ == b.options@
}

/// Whether two actions ask for the same thing: equal except that a carried
/// payload may be a copy.
pub open spec fn action_like(a: PublishAction, b: PublishAction) -> bool {
    match (a, b) {
        (
            PublishAction::CreateCommand { guild_id: g1, create: c1 },
            PublishAction::CreateCommand { guild_id: g2, create: c2 },
        ) => g1 == g2 && payload_like(c1, c2),
        (
            PublishAction::ApplyPermissions { guild_id: g1, command_id: i1, permissions: p1 },
            PublishAction::ApplyPermissions { guild_id: g2, command_id: i2, permissions: p2 },
        ) => g1 == g2 && i1 == i2 && p1.permissions@ == p2.permissions@,
        (
            PublishAction::Finished { failure: f1 },
            PublishAction::Finished { failure: f2 },
        ) => f1 == f2,
        _ => false,
    }
}

/// One publication pass over the scoped entries: a step machine. The host
/// asks for the next action, performs it against the platform, and reports
/// the outcome; each scope of each command is registered in order — created
/// first, its permissions applied second — and the first reported failure
/// finishes the run with no further action emitted.
#[derive(Debug)]
pub struct PublicationRun {
    pub entries: Vec<SlashCommandEntry>,
    pub cmd: usize,
    pub guild: usize,
    pub phase: RunPhase,
}

impl PublicationRun {
    /// Well-formedness: every entry is scoped with at least one scope, and
    /// an unfinished run points at a real scope of a real entry.
    pub open spec fn wf(self) -> bool {
        &&& forall|i: int|
            0 <= i < self.entries@.len() ==> ((#[trigger] self.entries@[i]).guilds matches Some(g)
                && g@.len() > 0)
        &&& !(self.phase is Done) ==> self.cmd < self.entries@.len() && (
        self.entries@[self.cmd as int].guilds matches Some(g) && self.guild < g@.len())
    }

    /// Whether the run is finished.
    pub open spec fn is_done(self) -> bool {
        self.phase is Done
    }

    /// The scope id the run currently points at.
    pub open spec fn current_guild(self) -> u64
        recommends
            self.wf(),
            !self.is_done(),
    {
        self.entries@[self.cmd as int].guilds->0@[self.guild as int]
    }

    /// The action the run wants performed next.
    pub open spec fn next_action_spec(self) -> PublishAction
        recommends
            self.wf(),
    {
        match self.phase {
            RunPhase::Done { failure } => PublishAction::Finished { failure },
            RunPhase::Creating => PublishAction::CreateCommand {
                guild_id: self.current_guild(),
                create: self.entries@[self.cmd as int].create,
            },
            RunPhase::Applying { command_id } => PublishAction::ApplyPermissions {
                guild_id: self.current_guild(),
                command_id,
                permissions: self.entries@[self.cmd as int].permissions,
            },
        }
    }

    /// Begin a publication pass over the given scoped entries; with none,
    /// the run is already finished successfully.
    pub fn new(entries: Vec<SlashCommandEntry>) -> (r: PublicationRun)
        requires
            forall|i: int|
                0 <= i < entries@.len() ==> ((#[trigger] entries@[i]).guilds matches Some(g)
                    && g@.len() > 0),
        ensures
            r.wf(),
            r.entries == entries,
            r.cmd == 0,
            r.guild == 0,
            entries@.len() == 0 ==> r.phase == (RunPhase::Done { failure: None }),
            entries@.len() > 0 ==> r.phase == RunPhase::Creating,
    {
        let phase = if entries.len() == 0 {
            RunPhase::Done { failure: None }
        } else {
            RunPhase::Creating
        };
        PublicationRun { entries, cmd: 0, guild: 0, phase }
    }

    /// The action the run wants performed next.
    pub fn next_action(&self) -> (a: PublishAction)
        requires
            self.wf(),
        ensures
            action_like(a, self.next_action_spec()),
    {
        match &self.phase {
            RunPhase::Done { failure } => PublishAction::Finished {
                failure: match failure {
                    Some(e) => Some(PlatformError { message: e.message.clone() }),
                    None => None,
                },
            },
            RunPhase::Creating => {
                let entry = &self.entries[self.cmd];
                let guild_id = match &entry.guilds {
                    Some(g) => g[self.guild],
                    None => 0,
                };
                PublishAction::CreateCommand { guild_id, create: entry.create.clone_payload() }
            },
            RunPhase::Applying { command_id } => {
                let entry = &self.entries[self.cmd];
                let guild_id = match &entry.guilds {
                    Some(g) => g[self.guild],
                    None => 0,
                };
                PublishAction::ApplyPermissions {
                    guild_id,
                    command_id: *command_id,
                    permissions: entry.permissions.clone_payload(),
                }
            },
        }
    }

    /// Report that the platform created the current command under the
    /// current scope, handing back the platform's command id; its
    /// permissions are applied next, under the same scope.
    pub fn created(&mut self, command_id: u64)
        requires
            old(self).wf(),
            old(self).phase is Creating,
        ensures
            final(self).wf(),
            *final(self) == (PublicationRun {
                phase: RunPhase::Applying { command_id },
                ..*old(self)
            }),
    {
        self.phase = RunPhase::Applying { command_id };
    }

    /// Report that the platform applied the current command's permissions:
    /// the run advances to the next scope, or the next command, or finishes
    /// successfully.
    pub fn applied(&mut self)
        requires
            old(self).wf(),
            old(self).phase is Applying,
        ensures
            final(self).wf(),
            final(self).entries == old(self).entries,
            ({
                let glen = old(self).entries@[old(self).cmd as int].guilds->0@.len();
                if old(self).guild + 1 < glen {
                    final(self).cmd == old(self).cmd && final(self).guild == old(self).guild + 1
                        && final(self).phase == RunPhase::Creating
                } else if old(self).cmd + 1 < old(self).entries@.len() {
                    final(self).cmd == old(self).cmd + 1 && final(self).guild == 0
                        && final(self).phase == RunPhase::Creating
                } else {
                    final(self).phase == (RunPhase::Done { failure: None })
                }
            }),
    {
        proof {
            assert(self.cmd < self.entries@.len());
        }
        let n = self.entries.len();
        let glen = match &self.entries[self.cmd] {
            SlashCommandEntry { guilds: Some(g), .. } => g.len(),
            _ => 0,
        };
        if self.guild + 1 < glen {
            self.guild = self.guild + 1;
            self.phase = RunPhase::Creating;
        } else if self.cmd + 1 < n {
            self.cmd = self.cmd + 1;
            self.guild = 0;
            self.phase = RunPhase::Creating;
        } else {
            self.phase = RunPhase::Done { failure: None };
        }
    }

    /// Report that the platform rejected the current action: the run
    /// finishes at once with that failure, and no scope after the failing
    /// one is attempted — the next action is `Finished` carrying the
    /// failure.
    pub fn failed(&mut self, error: PlatformError)
        requires
            old(self).wf(),
            !old(self).is_done(),
        ensures
            final(self).wf(),
            final(self).is_done(),
            *final(self) == (PublicationRun {
                phase: RunPhase::Done { failure: Some(error) },
                ..*old(self)
            }),
            final(self).next_action_spec() == (PublishAction::Finished { failure: Some(error) }),
    {
        self.phase = RunPhase::Done { failure: Some(error) };
    }

    /// The finished run's outcome: success, or the first failure converted
    /// into the registry's umbrella error.
    pub fn result(&self) -> (r: Result<(), SlashCommandError>)
        requires
            self.phase is Done,
        ensures
            (match self.phase {
                RunPhase::Done { failure: None } => r is Ok,
                RunPhase::Done { failure: Some(e) } => r == Err::<(), SlashCommandError>(
                    SlashCommandError::Platform(e),
                ),
                _ => false,
            }),
    {
        match &self.phase {
            RunPhase::Done { failure: None } => Ok(()),
            RunPhase::Done { failure: Some(e) } => Err(
                SlashCommandError::Platform(PlatformError { message: e.message.clone() }),
            ),
            _ => Ok(()),
        }
    }
}

/// Once a failure has been reported, a publication run emits no further
/// registration action: every later `next_action` is `Finished` with that
/// failure, so no scope after the failing one is ever attempted.
pub proof fn lemma_publication_short_circuit(run: PublicationRun, error: PlatformError)
    requires
        run.phase == (RunPhase::Done { failure: Some(error) }),
    ensures
        run.next_action_spec() == (PublishAction::Finished { failure: Some(error) }),
{
}

/// The registry: the pending entries not yet published, the accumulated
/// global creation batch the platform adapter submits on its own, and the
/// name-to-callback map dispatch reads.
#[derive(Debug)]
pub struct DefaultSlashCommandHandler {
    pub to_add: Option<Vec<SlashCommandEntry>>,
    pub globals: Option<Vec<CreateApplicationCommand>>,
    pub callbacks: Vec<(String, SlashCommandCallback)>,
}

impl Default for DefaultSlashCommandHandler {
    fn default() -> (r: Self)
        ensures
            r.to_add matches Some(v) && v@ == Seq::<SlashCommandEntry>::empty(),
            r.globals matches Some(v) && v@ == Seq::<CreateApplicationCommand>::empty(),
            r.callbacks@ == Seq::<(String, SlashCommandCallback)>::empty(),
    {
        DefaultSlashCommandHandler {
            to_add: Some(Vec::new()),
            globals: Some(Vec::new()),
            callbacks: Vec::new(),
        }
    }
}

impl DefaultSlashCommandHandler {
    /// Whether a callback is registered under `name`.
    pub open spec fn has_callback(self, name: Seq<char>) -> bool {
        lookup(self.callbacks@, name) is Some
    }

    /// The callback registered under `name`, if any.
    pub fn get_callback(&self, name: &str) -> (r: Option<SlashCommandCallback>)
        ensures
            r == lookup(self.callbacks@, name@),
    {
        let mut i: usize = 0;
        proof {
            assert(self.callbacks@.skip(0) =~= self.callbacks@);
        }
        while i < self.callbacks.len()
            invariant
                0 <= i <= self.callbacks@.len(),
                lookup(self.callbacks@, name@) == lookup(self.callbacks@.skip(i as int), name@),
            decreases self.callbacks@.len() - i,
        {
            let ghost rest0 = self.callbacks@.skip(i as int);
            let entry = &self.callbacks[i];
            proof {
                assert(rest0[0] == self.callbacks@[i as int]);
                assert(rest0.drop_first() =~= self.callbacks@.skip(i as int + 1));
            }
            if entry.0 == String::from_str(name) {
                return Some(entry.1);
            }
            i += 1;
        }
        proof {
            assert(self.callbacks@.skip(self.callbacks@.len() as int) =~= Seq::<
                (String, SlashCommandCallback),
            >::empty());
        }
        None
    }

    /// Register one command from a fully configured builder: its callback
    /// is stored under the command's name, and its entry joins the pending
    /// list. Requires the accumulation phase (the pending list has not been
    /// drained) and a name nobody has registered: a duplicate name is a
    /// caller error.
    pub fn create_slash_command(&mut self, builder: SlashCommandBuilder)
        requires
            builder.is_complete(),
            old(self).to_add is Some,
            !old(self).has_callback(builder.name->0@),
        ensures
            final(self).callbacks@ == old(self).callbacks@.push(
                (builder.name->0, builder.callback->0),
            ),
            final(self).to_add matches Some(v) && old(self).to_add matches Some(v0) && v@ == v0@
                .push(
                SlashCommandEntry {
                    name: builder.name->0,
                    guilds: builder.guilds,
                    create: builder.create->0,
                    permissions: builder.permissions->0,
                },
            ),
            final(self).globals == old(self).globals,
    {
        let (entry, callback) = builder.build();
        let name = entry.name.clone();
        self.callbacks.push((name, callback));
        match &mut self.to_add {
            Some(v) => {
                v.push(entry);
            },
            None => {},
        }
    }

    /// Drain the pending list — exactly once: a repeat call finds nothing
    /// pending, changes nothing and returns an already-successful run. The
    /// global entries' creation payloads join the accumulated batch, in
    /// order; the scoped entries become the returned publication run, in
    /// order.
    #[verifier::loop_isolation(false)]
    pub fn create_application_commands(&mut self) -> (run: PublicationRun)
        ensures
            run.wf(),
            old(self).to_add is None ==> run.entries@ == Seq::<SlashCommandEntry>::empty()
                && run.phase == (RunPhase::Done { failure: None }) && *final(self) == *old(self),
            old(self).to_add matches Some(pending) ==> {
                &&& final(self).to_add is None
                &&& final(self).callbacks == old(self).callbacks
                &&& run.entries@ == scoped_entries(pending@)
                &&& (old(self).globals matches Some(g) ==> final(self).globals matches Some(g2)
                    && g2@ == g@ + global_creates(pending@))
                &&& old(self).globals is None ==> final(self).globals is None
                &&& scoped_entries(pending@).len() == 0 ==> run.phase == (RunPhase::Done {
                    failure: None,
                })
                &&& scoped_entries(pending@).len() > 0 ==> run.phase == RunPhase::Creating && run
                    .cmd == 0 && run.guild == 0
            },
    {
        let pending = match self.to_add.take() {
            Some(p) => p,
            None => {
                return PublicationRun::new(Vec::new());
            },
        };
        let ghost orig = pending@;
        let mut rest = pending;
        let mut scoped: Vec<SlashCommandEntry> = Vec::new();
        while rest.len() > 0
            invariant
                scoped_entries(orig) == scoped@ + scoped_entries(rest@),
                (old(self).globals matches Some(g) ==> (self.globals matches Some(g2) && g2@
                    + global_creates(rest@) =~= g@ + global_creates(orig))),
                old(self).globals is None ==> self.globals is None,
                self.to_add is None,
                self.callbacks == old(self).callbacks,
                forall|i: int|
                    0 <= i < scoped@.len() ==> ((#[trigger] scoped@[i]).guilds matches Some(g)
                        && g@.len() > 0),
            decreases rest.len(),
        {
            let ghost rest0 = rest@;
            let ghost old_scoped = scoped@;
            let ghost gl0 = self.globals;
            let entry = rest.remove(0);
            proof {
                assert(rest0[0] == entry);
                assert(rest@ =~= rest0.drop_first());
            }
            let is_scoped = match &entry.guilds {
                Some(g) => g.len() > 0,
                None => false,
            };
            let is_global = match &entry.guilds {
                Some(_) => false,
                None => true,
            };
            if is_scoped {
                scoped.push(entry);
                proof {
                    assert(old_scoped + (seq![rest0[0]] + scoped_entries(rest@)) =~= scoped@
                        + scoped_entries(rest@));
                }
            } else if is_global {
                let create = entry.create;
                match &mut self.globals {
                    Some(g) => {
                        g.push(create);
                    },
                    None => {},
                }
                proof {
                    assert(global_creates(rest0) =~= seq![rest0[0].create] + global_creates(
                        rest@,
                    ));
                    if old(self).globals is Some {
                        let g2old = gl0->0@;
                        assert(g2old.push(rest0[0].create) + global_creates(rest@) =~= g2old
                            + global_creates(rest0));
                    }
                }
            } else {
                // A scope list that is present but empty: nothing to
                // register for this entry.
                proof {
                    assert(scoped@ + scoped_entries(rest@) =~= scoped@ + scoped_entries(rest0));
                }
            }
        }
        proof {
            assert(scoped_entries(rest@) =~= Seq::<SlashCommandEntry>::empty());
            assert(scoped@ + Seq::<SlashCommandEntry>::empty() =~= scoped@);
            assert(global_creates(rest@) =~= Seq::<CreateApplicationCommand>::empty());
            if old(self).globals is Some {
                let g2 = self.globals->0@;
                assert(g2 =~= g2 + global_creates(rest@));
            }
        }
        PublicationRun::new(scoped)
    }

    /// Route an inbound event: the callback registered under `name` is to be
    /// invoked with the payload, which passes through unchanged; an
    /// unregistered name is the unhandled-command error carrying that name.
    pub fn interaction_create<P>(&self, name: &str, payload: P) -> (r: Result<
        (SlashCommandCallback, P),
        SlashCommandError,
    >)
        ensures
            (match lookup(self.callbacks@, name@) {
                Some(cb) => r matches Ok(t) && t.0 == cb && t.1 == payload,
                None => r matches Err(e) && e matches
                    SlashCommandError::UnhandledSlashCommand(n) && n@ == name@,
            }),
    {
        match self.get_callback(name) {
            Some(cb) => Ok((cb, payload)),
            None => Err(SlashCommandError::UnhandledSlashCommand(String::from_str(name))),
        }
    }
}

} // verus!
