//! The commands of a client by name, and its error handler.

use vstd::prelude::*;
use vstd::string::StringExecFns;
use ahash::AHashMap;
use crate::error::RSError;

verus! {

/// The entries of a map from command names to positions: each name that is
/// present, with the position stored under it.
pub uninterp spec fn slot_entries(m: AHashMap<String, usize>) -> Map<Seq<char>, usize>;

/// `AHashMap::new`: a map without entries.
#[verifier::external_body]
fn slots_new() -> (m: AHashMap<String, usize>)
    ensures
        forall|k: Seq<char>| !slot_entries(m).contains_key(k),
{
    AHashMap::new()
}

/// `AHashMap::get`: the position stored under `name`, if the name is present.
#[verifier::external_body]
fn slots_get(m: &AHashMap<String, usize>, name: &str) -> (r: Option<usize>)
    ensures
        r == slot_entries(*m).get(name@),
{
    m.get(name).copied()
}

/// `AHashMap::insert`: afterwards `name` maps to `slot`; every other entry is as before.
#[verifier::external_body]
fn slots_insert(m: &mut AHashMap<String, usize>, name: String, slot: usize)
    ensures
        slot_entries(*final(m)) == slot_entries(*old(m)).insert(name@, slot),
{
    m.insert(name, slot);
}

/// A command registry: the commands of a client by name, and the handler
/// that its errors go to, if one is set.
pub struct CommandRegistry<C, E> {
    prefix: String,
    slots: AHashMap<String, usize>,
    commands: Vec<C>,
    error_handler: Option<E>,
}

/// What is to be done on a request for a command.
pub enum Execution<'a, C, E> {
    /// The command with the requested name: it is to be run.
    Run(&'a C),
    /// There is no command with the requested name. The error says so, and
    /// goes to the error handler. If none is set, the error is dropped.
    NotFound { error: RSError, handler: Option<&'a E> },
}

/// The text of the error for a command that was not found.
pub open spec fn not_found_message(name: Seq<char>) -> Seq<char> {
    "Command '"@ + name + "' not found"@
}

impl<C, E> CommandRegistry<C, E> {
    /// The registered commands by name.
    pub closed spec fn commands(&self) -> Map<Seq<char>, C> {
        Map::new(
            |name: Seq<char>| slot_entries(self.slots).contains_key(name),
            |name: Seq<char>| self.commands@[slot_entries(self.slots)[name] as int],
        )
    }

    /// What a message begins with when it asks for a command.
    pub closed spec fn spec_prefix(&self) -> &String {
        &self.prefix
    }

    /// What a message begins with when it asks for a command.
    #[verifier::when_used_as_spec(spec_prefix)]
    pub fn prefix(&self) -> (prefix: &String)
        ensures
            *prefix == self.spec_prefix(),
    {
        &self.prefix
    }

    /// The error handler, if one is set.
    pub closed spec fn error_handler(&self) -> Option<E> {
        self.error_handler
    }

    /// Every name has a command of its own.
    pub closed spec fn wf(&self) -> bool {
        &&& forall|name: Seq<char>| #[trigger]
            slot_entries(self.slots).contains_key(name) ==> slot_entries(self.slots)[name]
                < self.commands@.len()
        &&& forall|a: Seq<char>, b: Seq<char>|
            slot_entries(self.slots).contains_key(a) && slot_entries(self.slots).contains_key(b)
                && a != b ==> #[trigger] slot_entries(self.slots)[a] != #[trigger] slot_entries(
                self.slots,
            )[b]
    }

    /// Creates a new [`CommandRegistry`]
    pub fn new(prefix: String) -> (registry: Self)
        ensures
            registry.wf(),
            *registry.prefix() == prefix,
            registry.commands() == Map::<Seq<char>, C>::empty(),
            registry.error_handler() is None,
    {
        let registry = CommandRegistry {
            prefix,
            slots: slots_new(),
            commands: Vec::new(),
            error_handler: None,
        };
        assert(registry.commands() =~= Map::<Seq<char>, C>::empty());
        registry
    }

    /// Registers a new command under a name. A command that had the name
    /// before is replaced.
    pub fn register_command(&mut self, command_name: String, command: C)
        requires
            old(self).wf(),
        ensures
            final(self).wf(),
            final(self).prefix() == old(self).prefix(),
            final(self).error_handler() == old(self).error_handler(),
            final(self).commands() == old(self).commands().insert(command_name@, command),
    {
        match slots_get(&self.slots, command_name.as_str()) {
            Some(slot) => {
                self.commands.set(slot, command);
            },
            None => {
                let slot = self.commands.len();
                self.commands.push(command);
                slots_insert(&mut self.slots, command_name, slot);
            },
        }
        assert(self.commands() =~= old(self).commands().insert(command_name@, command));
    }

    /// Sets the specified error handler in the command registry
    pub fn set_error_handler(&mut self, error_handler: E)
        requires
            old(self).wf(),
        ensures
            final(self).wf(),
            final(self).prefix() == old(self).prefix(),
            final(self).commands() == old(self).commands(),
            final(self).error_handler() == Some(error_handler),
    {
        self.error_handler = Some(error_handler);
    }

    /// Looks up the command to execute by its name. Where there is none, the
    /// error that says so is handed out with the error handler it goes to.
    pub fn execute_command(&self, command_name: &str) -> (r: Execution<'_, C, E>)
        requires
            self.wf(),
        ensures
            (match r {
                Execution::Run(command) => self.commands().contains_key(command_name@)
                    && *command == self.commands()[command_name@],
                Execution::NotFound { error, handler } => {
                    &&& !self.commands().contains_key(command_name@)
                    &&& error matches RSError::CommandNotFound(message)
                    &&& message@ == not_found_message(command_name@)
                    &&& match handler {
                        Some(handler) => self.error_handler() == Some(*handler),
                        None => self.error_handler() is None,
                    }
                },
            }),
    {
        match slots_get(&self.slots, command_name) {
            Some(slot) => Execution::Run(&self.commands[slot]),
            None => {
                let message = "Command '".to_owned().concat(command_name).concat("' not found");
                Execution::NotFound {
                    error: RSError::CommandNotFound(message),
                    handler: self.error_handler.as_ref(),
                }
            },
        }
    }

    /// The handler that an error goes to. Where none is set, the error is to
    /// be dropped, which [`RSError::ErrorHandlerNotSet`] tells.
    pub fn handle_error(&self) -> (r: Result<&E, RSError>)
        ensures
            (match r {
                Ok(handler) => self.error_handler() == Some(*handler),
                Err(error) => self.error_handler() is None && error
                    == RSError::ErrorHandlerNotSet,
            }),
    {
        match &self.error_handler {
            Some(handler) => Ok(handler),
            None => Err(RSError::ErrorHandlerNotSet),
        }
    }
}

} // verus!
