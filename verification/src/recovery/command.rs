//! The commands that concern the recovery partition, and what they come to.

use crate::recovery::error::RecoveryError;
use crate::text::same_text;
use vstd::prelude::*;

verus! {

/// What can be asked for.
#[derive(Clone, Copy, Debug, PartialEq, Eq, Structural)]
pub enum Command {
    /// Make the recovery partition the default boot entry. Declared, and not
    /// yet done by anything.
    DefaultBoot,
    /// Upgrade the recovery partition from an installer image.
    Upgrade,
}

impl Command {
    /// The command of that name, if there is one.
    pub open spec fn named(name: Seq<char>) -> Option<Command> {
        if name == "default-boot"@ {
            Some(Command::DefaultBoot)
        } else if name == "upgrade"@ {
            Some(Command::Upgrade)
        } else {
            None
        }
    }

    /// Reads the name of a command.
    pub fn parse(name: &str) -> (command: Option<Command>)
        ensures
            command == Command::named(name@),
    {
        if same_text(name, "default-boot") {
            Some(Command::DefaultBoot)
        } else if same_text(name, "upgrade") {
            Some(Command::Upgrade)
        } else {
            None
        }
    }
}

/// What the search for the recovery partition came to.
#[derive(Debug)]
pub enum Probed {
    /// The disks could not be scanned.
    Failed(std::io::Error),
    /// No partition qualifies.
    NotFound,
    /// A partition qualifies, and this is how its upgrade ended.
    Found(Result<(), RecoveryError>),
}

/// The result of an upgrade after a search that ended in `probed`.
pub open spec fn upgraded(probed: Probed) -> Result<(), RecoveryError> {
    match probed {
        Probed::Failed(why) => Err(RecoveryError::Probe(why)),
        Probed::NotFound => Err(RecoveryError::RecoveryNotFound),
        Probed::Found(result) => result,
    }
}

/// The result of an upgrade after a search that ended in `probed`: a failed
/// scan and a missing partition are failures of their own kinds, and the
/// upgrade of a found partition ends as it ended.
pub fn probe_outcome(probed: Probed) -> (result: Result<(), RecoveryError>)
    ensures
        result == upgraded(probed),
{
    match probed {
        Probed::Failed(why) => Err(RecoveryError::Probe(why)),
        Probed::NotFound => Err(RecoveryError::RecoveryNotFound),
        Probed::Found(result) => result,
    }
}

/// Carries out a command. An upgrade searches for the recovery partition
/// through `probe`, which also upgrades the partition it finds. The command
/// that exists in name only fails as not implemented, and searches nothing.
pub fn recovery<P: FnOnce() -> Probed>(command: Command, probe: P) -> (result: Result<
    (),
    RecoveryError,
>)
    requires
        command == Command::Upgrade ==> call_requires(probe, ()),
    ensures
        match command {
            Command::DefaultBoot => result == Err::<(), RecoveryError>(
                RecoveryError::NotImplemented,
            ),
            Command::Upgrade => exists|probed: Probed|
                call_ensures(probe, (), probed) && result == upgraded(probed),
        },
{
    match command {
        Command::DefaultBoot => Err(RecoveryError::NotImplemented),
        Command::Upgrade => probe_outcome(probe()),
    }
}

} // verus!
