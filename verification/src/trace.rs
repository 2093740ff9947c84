//! Laws over whole startup histories: however the host drives the
//! supervisor, at most one child process is ever created, and a terminal
//! state — completed or aborted — is never left again.

use vstd::prelude::*;

use crate::supervisor::BuildConfig;
use crate::supervisor::LoggingOutcome;
use crate::supervisor::Phase;
use crate::supervisor::SetupError;
use crate::supervisor::SpawnError;
use crate::supervisor::SpawnOutcome;
use crate::supervisor::Supervisor;

verus! {

/// One report the host may hand the supervisor: the result of a spawn
/// attempt or of a logging registration.
#[derive(Clone, Copy, Debug, PartialEq, Eq, Structural)]
pub enum Outcome {
    Spawn(SpawnOutcome),
    Logging(LoggingOutcome),
}

/// The supervisor after one host report of either kind.
pub open spec fn apply(s: Supervisor, o: Outcome) -> Supervisor {
    match o {
        Outcome::Spawn(so) => s.after_spawn(so),
        Outcome::Logging(lo) => s.after_logging(lo),
    }
}

/// The supervisor after a whole history of host reports, oldest first.
pub open spec fn apply_all(s: Supervisor, os: Seq<Outcome>) -> Supervisor
    decreases os.len(),
{
    if os.len() == 0 {
        s
    } else {
        apply_all(apply(s, os[0]), os.subrange(1, os.len() as int))
    }
}

/// One host report keeps the supervisor well-formed.
pub proof fn lemma_apply_preserves_wf(s: Supervisor, o: Outcome)
    requires
        s.wf(),
    ensures
        apply(s, o).wf(),
{
}

/// Any history of host reports keeps the supervisor well-formed.
pub proof fn lemma_apply_all_preserves_wf(s: Supervisor, os: Seq<Outcome>)
    requires
        s.wf(),
    ensures
        apply_all(s, os).wf(),
    decreases os.len(),
{
    if os.len() > 0 {
        lemma_apply_preserves_wf(s, os[0]);
        lemma_apply_all_preserves_wf(apply(s, os[0]), os.subrange(1, os.len() as int));
    }
}

/// Law: a terminal supervisor — running or aborted — absorbs every further
/// report unchanged. Setup cannot be re-entered.
pub proof fn lemma_terminal_absorbs(s: Supervisor, o: Outcome)
    requires
        s.is_terminal(),
    ensures
        apply(s, o) == s,
{
}

/// Law: a terminal supervisor stays exactly as it is under any further
/// history of reports.
pub proof fn lemma_terminal_is_final(s: Supervisor, os: Seq<Outcome>)
    requires
        s.is_terminal(),
    ensures
        apply_all(s, os) == s,
    decreases os.len(),
{
    if os.len() > 0 {
        lemma_terminal_absorbs(s, os[0]);
        lemma_terminal_is_final(s, os.subrange(1, os.len() as int));
    }
}

/// Law (spawn once): from the initial state, no history of host reports —
/// however long, and whatever it contains — ever records more than one
/// child creation, and every startup that completed recorded exactly one.
pub proof fn lemma_spawn_once(config: BuildConfig, os: Seq<Outcome>)
    ensures
        apply_all(Supervisor::initial(config), os).children_spawned <= 1,
        apply_all(Supervisor::initial(config), os).phase is Running
            ==> apply_all(Supervisor::initial(config), os).children_spawned == 1,
{
    lemma_apply_all_preserves_wf(Supervisor::initial(config), os);
}

/// Law (fatal on missing executable): if the spawn attempt reports the
/// backend executable missing, the supervisor aborts with exactly that
/// error, asks for nothing more, and no further history of reports ever
/// brings it to the running state: the event loop never starts.
pub proof fn lemma_missing_executable_aborts(config: BuildConfig, os: Seq<Outcome>)
    ensures
        ({
            let s = apply(
                Supervisor::initial(config),
                Outcome::Spawn(SpawnOutcome::Failed(SpawnError::ExecutableMissing)),
            );
            &&& s.phase == Phase::Aborted(SetupError::SpawnFailed(SpawnError::ExecutableMissing))
            &&& s.spec_pending() is None
            &&& apply_all(s, os) == s
            &&& !(apply_all(s, os).phase is Running)
        }),
{
    let s = apply(
        Supervisor::initial(config),
        Outcome::Spawn(SpawnOutcome::Failed(SpawnError::ExecutableMissing)),
    );
    lemma_terminal_is_final(s, os);
}

} // verus!
