//! The supervisor's global guarantees, proved over whole runs of the state
//! machine: a run is a fold of `spec_step` over a sequence of events, and
//! the command trace it emits (directory creation, launches, the settle
//! sleep — report lines and kills aside) is always a prefix of one fixed,
//! platform-determined sequence.  From that follow the ordering of the two
//! launch attempts, the irrelevance of the directory-creation outcome, the
//! independence of the backend launch from the database outcome, and the
//! completeness of teardown.

use vstd::prelude::*;

use crate::platform::{Platform, spec_supports_database};
use crate::process::{Handle, LaunchError, Role, spec_backend_launch, spec_database_launch};
use crate::supervisor::{
    ActionModel, Event, Phase, Report, SupervisorModel, SETTLE_DELAY_MS, spec_kills_for,
    spec_new, spec_step,
};

verus! {

/// A whole run: the state after consuming `events` one by one, and every
/// action emitted along the way, in order of issue.
pub open spec fn spec_run(s: SupervisorModel, events: Seq<Event>) -> (SupervisorModel, Seq<ActionModel>)
    decreases events.len(),
{
    if events.len() == 0 {
        (s, Seq::empty())
    } else {
        let first = spec_step(s, events[0]);
        let rest = spec_run(first.0, events.drop_first());
        (rest.0, first.1 + rest.1)
    }
}

/// An action that commands outside work, as opposed to a report line or a
/// fire-and-forget kill.
pub open spec fn is_command(a: ActionModel) -> bool {
    ||| a is CreateDataDir
    ||| a is LaunchDatabase
    ||| a is Sleep
    ||| a is LaunchBackend
}

/// The subsequence of commands in an action trace, in order of issue.
pub open spec fn commands(acts: Seq<ActionModel>) -> Seq<ActionModel>
    decreases acts.len(),
{
    if acts.len() == 0 {
        Seq::empty()
    } else if is_command(acts[0]) {
        seq![acts[0]] + commands(acts.drop_first())
    } else {
        commands(acts.drop_first())
    }
}

/// Every command a full startup issues, in its fixed order: on a platform
/// with the database, directory creation, then the database launch, then
/// the settle sleep, then the backend launch; on the excluded platform,
/// the settle sleep and the backend launch alone.
pub open spec fn full_commands(s0: SupervisorModel) -> Seq<ActionModel> {
    if spec_supports_database(s0.platform) {
        seq![
            ActionModel::CreateDataDir(s0.data_dir),
            ActionModel::LaunchDatabase(spec_database_launch(s0.engine_module, s0.data_dir)),
            ActionModel::Sleep(SETTLE_DELAY_MS),
            ActionModel::LaunchBackend(spec_backend_launch()),
        ]
    } else {
        seq![ActionModel::Sleep(SETTLE_DELAY_MS), ActionModel::LaunchBackend(spec_backend_launch())]
    }
}

/// How many of the full startup commands have been issued once the machine
/// stands in `phase` (meaningless for `Closed`, where the count is frozen
/// at whatever it was when the window went away).
pub open spec fn commands_before(platform: Platform, phase: Phase) -> int {
    if spec_supports_database(platform) {
        match phase {
            Phase::Boot => 0,
            Phase::DirPending => 1,
            Phase::DatabasePending => 2,
            Phase::Settling => 3,
            Phase::BackendPending => 4,
            Phase::Running => 4,
            Phase::Closed => 0,
        }
    } else {
        match phase {
            Phase::Boot => 0,
            Phase::Settling => 1,
            Phase::BackendPending => 2,
            Phase::Running => 2,
            _ => 0,
        }
    }
}

/// The invariant a run maintains between its start state `s0`, the state
/// `s` reached so far, and the actions `acts` emitted so far.
pub open spec fn trace_inv(s0: SupervisorModel, s: SupervisorModel, acts: Seq<ActionModel>) -> bool {
    &&& s.platform == s0.platform
    &&& s.engine_module == s0.engine_module
    &&& s.data_dir == s0.data_dir
    &&& commands(acts).is_prefix_of(full_commands(s0))
    &&& (s.phase !is Closed ==> commands(acts) == full_commands(s0).take(
        commands_before(s0.platform, s.phase),
    ))
    &&& ((s.phase is DirPending || s.phase is DatabasePending) ==> spec_supports_database(
        s0.platform,
    ))
}

proof fn lemma_commands_one(a: ActionModel)
    ensures
        commands(seq![a]) == if is_command(a) {
            seq![a]
        } else {
            Seq::<ActionModel>::empty()
        },
{
    reveal_with_fuel(commands, 2);
    assert(seq![a].drop_first() =~= Seq::<ActionModel>::empty());
    assert(commands(Seq::<ActionModel>::empty()) == Seq::<ActionModel>::empty());
    if is_command(a) {
        assert(commands(seq![a]) =~= seq![a]);
    }
}

proof fn lemma_commands_two(a: ActionModel, b: ActionModel)
    ensures
        commands(seq![a, b]) == (if is_command(a) {
            seq![a]
        } else {
            Seq::<ActionModel>::empty()
        }) + (if is_command(b) {
            seq![b]
        } else {
            Seq::<ActionModel>::empty()
        }),
{
    reveal_with_fuel(commands, 2);
    lemma_commands_one(b);
    assert(seq![a, b].drop_first() =~= seq![b]);
    if is_command(a) {
        if is_command(b) {
            assert(commands(seq![a, b]) =~= seq![a] + seq![b]);
        } else {
            assert(commands(seq![a, b]) =~= seq![a] + Seq::<ActionModel>::empty());
        }
    } else {
        if is_command(b) {
            assert(commands(seq![a, b]) =~= Seq::<ActionModel>::empty() + seq![b]);
        } else {
            assert(commands(seq![a, b]) =~= Seq::<ActionModel>::empty()
                + Seq::<ActionModel>::empty());
        }
    }
}

proof fn lemma_commands_add(a: Seq<ActionModel>, b: Seq<ActionModel>)
    ensures
        commands(a + b) == commands(a) + commands(b),
    decreases a.len(),
{
    if a.len() == 0 {
        assert(a + b =~= b);
        assert(commands(a) + commands(b) =~= commands(b));
    } else {
        lemma_commands_add(a.drop_first(), b);
        assert((a + b).drop_first() =~= a.drop_first() + b);
        assert((a + b)[0] == a[0]);
        if is_command(a[0]) {
            assert(seq![a[0]] + (commands(a.drop_first()) + commands(b)) =~= (seq![a[0]]
                + commands(a.drop_first())) + commands(b));
        }
    }
}

/// The teardown actions — reports and kills — contain no command.
proof fn lemma_commands_of_kills(d: Option<Handle>, b: Option<Handle>)
    ensures
        commands(spec_kills_for(d, Role::Database) + spec_kills_for(b, Role::Backend))
            == Seq::<ActionModel>::empty(),
{
    lemma_commands_add(spec_kills_for(d, Role::Database), spec_kills_for(b, Role::Backend));
    match d {
        Some(h) => lemma_commands_two(
            ActionModel::Report(Report::TerminationIssued(Role::Database, h.pid)),
            ActionModel::Kill(h.pid),
        ),
        None => assert(commands(spec_kills_for(d, Role::Database)) =~= Seq::<ActionModel>::empty()),
    }
    match b {
        Some(h) => lemma_commands_two(
            ActionModel::Report(Report::TerminationIssued(Role::Backend, h.pid)),
            ActionModel::Kill(h.pid),
        ),
        None => assert(commands(spec_kills_for(b, Role::Backend)) =~= Seq::<ActionModel>::empty()),
    }
    assert(commands(spec_kills_for(d, Role::Database) + spec_kills_for(b, Role::Backend))
        =~= Seq::<ActionModel>::empty());
}

/// One step of the machine preserves the run invariant.
proof fn lemma_step_preserves_trace_inv(
    s0: SupervisorModel,
    s: SupervisorModel,
    acts: Seq<ActionModel>,
    e: Event,
)
    requires
        trace_inv(s0, s, acts),
    ensures
        trace_inv(s0, spec_step(s, e).0, acts + spec_step(s, e).1),
{
    let (s1, emitted) = spec_step(s, e);
    let full = full_commands(s0);
    lemma_commands_add(acts, emitted);
    match (s.phase, e) {
        (Phase::Boot, Event::Start) => {
            if spec_supports_database(s.platform) {
                lemma_commands_one(ActionModel::CreateDataDir(s.data_dir));
                assert(full.take(1) =~= full.take(0) + seq![full[0]]);
            } else {
                lemma_commands_one(ActionModel::Sleep(SETTLE_DELAY_MS));
                assert(full.take(1) =~= full.take(0) + seq![full[0]]);
            }
        },
        (Phase::DirPending, Event::DirDone(_)) => {
            lemma_commands_one(
                ActionModel::LaunchDatabase(spec_database_launch(s.engine_module, s.data_dir)),
            );
            assert(full.take(2) =~= full.take(1) + seq![full[1]]);
        },
        (Phase::DatabasePending, Event::DatabaseLaunched(r)) => {
            match r {
                Ok(h) => lemma_commands_two(
                    ActionModel::Report(Report::LaunchSucceeded(Role::Database, h.pid)),
                    ActionModel::Sleep(SETTLE_DELAY_MS),
                ),
                Err(err) => lemma_commands_two(
                    ActionModel::Report(Report::LaunchFailed(Role::Database, err)),
                    ActionModel::Sleep(SETTLE_DELAY_MS),
                ),
            }
            lemma_commands_one(ActionModel::Sleep(SETTLE_DELAY_MS));
            assert(full.take(3) =~= full.take(2) + seq![full[2]]);
        },
        (Phase::Settling, Event::SettleElapsed) => {
            lemma_commands_one(ActionModel::LaunchBackend(spec_backend_launch()));
            if spec_supports_database(s.platform) {
                assert(full.take(4) =~= full.take(3) + seq![full[3]]);
            } else {
                assert(full.take(2) =~= full.take(1) + seq![full[1]]);
            }
        },
        (Phase::BackendPending, Event::BackendLaunched(r)) => {
            match r {
                Ok(h) => lemma_commands_one(
                    ActionModel::Report(Report::LaunchSucceeded(Role::Backend, h.pid)),
                ),
                Err(err) => lemma_commands_one(
                    ActionModel::Report(Report::LaunchFailed(Role::Backend, err)),
                ),
            }
            assert(commands(acts + emitted) =~= commands(acts));
        },
        (_, Event::WindowDestroyed) => {
            lemma_commands_of_kills(s.registry.database, s.registry.backend);
            assert(commands(acts + emitted) =~= commands(acts));
            if s.phase !is Closed {
                assert(full.take(commands_before(s0.platform, s.phase)).is_prefix_of(full));
            }
        },
        _ => {
            assert(acts + emitted =~= acts);
        },
    }
}

/// The run invariant holds along every run.
proof fn lemma_run_preserves_trace_inv(
    s0: SupervisorModel,
    s: SupervisorModel,
    acts: Seq<ActionModel>,
    events: Seq<Event>,
)
    requires
        trace_inv(s0, s, acts),
    ensures
        trace_inv(s0, spec_run(s, events).0, acts + spec_run(s, events).1),
    decreases events.len(),
{
    if events.len() == 0 {
        assert(acts + spec_run(s, events).1 =~= acts);
    } else {
        let (s1, a1) = spec_step(s, events[0]);
        lemma_step_preserves_trace_inv(s0, s, acts, events[0]);
        lemma_run_preserves_trace_inv(s0, s1, acts + a1, events.drop_first());
        assert((acts + a1) + spec_run(s1, events.drop_first()).1 =~= acts + spec_run(s, events).1);
    }
}

/// The run invariant, established at the initial state and carried through
/// an arbitrary event sequence.
pub proof fn lemma_run_trace_inv(
    platform: Platform,
    resource_dir: Seq<char>,
    local_data_root: Seq<char>,
    events: Seq<Event>,
)
    ensures
        ({
            let s0 = spec_new(platform, resource_dir, local_data_root);
            let r = spec_run(s0, events);
            trace_inv(s0, r.0, r.1)
        }),
{
    let s0 = spec_new(platform, resource_dir, local_data_root);
    assert(commands(Seq::empty()) =~= Seq::<ActionModel>::empty());
    assert(full_commands(s0).take(0) =~= Seq::<ActionModel>::empty());
    assert(trace_inv(s0, s0, Seq::empty()));
    lemma_run_preserves_trace_inv(s0, s0, Seq::empty(), events);
    assert(Seq::empty() + spec_run(s0, events).1 =~= spec_run(s0, events).1);
}

/// Ordering: whatever events arrive and in whatever order, the command
/// trace of a run is a prefix of the fixed startup sequence — so on a
/// platform with the database, the database launch attempt comes strictly
/// after directory creation and strictly before the backend launch attempt,
/// with the settle sleep between the two launches.
pub proof fn lemma_startup_ordering(
    platform: Platform,
    resource_dir: Seq<char>,
    local_data_root: Seq<char>,
    events: Seq<Event>,
)
    ensures
        ({
            let s0 = spec_new(platform, resource_dir, local_data_root);
            let acts = spec_run(s0, events).1;
            commands(acts).is_prefix_of(full_commands(s0))
        }),
        spec_supports_database(platform) ==> {
            let s0 = spec_new(platform, resource_dir, local_data_root);
            &&& full_commands(s0)[0] is CreateDataDir
            &&& full_commands(s0)[1] is LaunchDatabase
            &&& full_commands(s0)[2] == ActionModel::Sleep(SETTLE_DELAY_MS)
            &&& full_commands(s0)[3] == ActionModel::LaunchBackend(spec_backend_launch())
        },
{
    lemma_run_trace_inv(platform, resource_dir, local_data_root, events);
}

/// A command somewhere in a trace appears in the trace's command
/// subsequence.
proof fn lemma_commands_contains(acts: Seq<ActionModel>, i: int)
    requires
        0 <= i < acts.len(),
        is_command(acts[i]),
    ensures
        commands(acts).contains(acts[i]),
    decreases acts.len(),
{
    if i == 0 {
        assert(commands(acts)[0] == acts[0]);
    } else {
        lemma_commands_contains(acts.drop_first(), i - 1);
        let rest = commands(acts.drop_first());
        let j = choose|j: int| 0 <= j < rest.len() && rest[j] == acts.drop_first()[i - 1];
        if is_command(acts[0]) {
            assert(commands(acts)[j + 1] == acts[i]);
        }
    }
}

/// On the excluded platform a run never asks for directory creation and
/// never attempts the database launch, whatever events arrive.
pub proof fn lemma_excluded_platform_skips_database(
    platform: Platform,
    resource_dir: Seq<char>,
    local_data_root: Seq<char>,
    events: Seq<Event>,
)
    requires
        !spec_supports_database(platform),
    ensures
        ({
            let s0 = spec_new(platform, resource_dir, local_data_root);
            let acts = spec_run(s0, events).1;
            forall|i: int|
                0 <= i < acts.len() ==> !(#[trigger] acts[i] is CreateDataDir) && !(acts[i]
                    is LaunchDatabase)
        }),
{
    let s0 = spec_new(platform, resource_dir, local_data_root);
    let acts = spec_run(s0, events).1;
    lemma_run_trace_inv(platform, resource_dir, local_data_root, events);
    let cmds = commands(acts);
    assert forall|i: int|
        0 <= i < acts.len() implies !(#[trigger] acts[i] is CreateDataDir) && !(acts[i]
        is LaunchDatabase) by {
        if acts[i] is CreateDataDir || acts[i] is LaunchDatabase {
            lemma_commands_contains(acts, i);
            let j = choose|j: int| 0 <= j < cmds.len() && cmds[j] == acts[i];
            assert(cmds[j] == full_commands(s0).subrange(0, cmds.len() as int)[j]);
            assert(cmds[j] == full_commands(s0)[j]);
        }
    }
}

/// The outcome of directory creation is irrelevant: both outcomes lead to
/// the same successor state and the same emitted actions, from every state
/// of the machine.  In particular a second creation of an already-existing
/// directory cannot derail the startup sequence.
pub proof fn lemma_dir_outcome_irrelevant(s: SupervisorModel, first: bool, second: bool)
    ensures
        spec_step(s, Event::DirDone(first)) == spec_step(s, Event::DirDone(second)),
{
}

/// Independence: when the database launch fails, the settle sleep, the
/// backend launch attempt and the arrival at the running phase all proceed
/// exactly as they would have after a success.
pub proof fn lemma_database_failure_keeps_backend(
    s: SupervisorModel,
    err: LaunchError,
    outcome: Result<Handle, LaunchError>,
)
    requires
        s.phase is DatabasePending,
    ensures
        ({
            let s1 = spec_step(s, Event::DatabaseLaunched(Err(err))).0;
            let (s2, a2) = spec_step(s1, Event::SettleElapsed);
            let (s3, a3) = spec_step(s2, Event::BackendLaunched(outcome));
            &&& a2 == seq![ActionModel::LaunchBackend(spec_backend_launch())]
            &&& s3.phase is Running
            &&& (outcome matches Ok(h) ==> s3.registry.spec_slot(Role::Backend) == Some(h))
        }),
{
}

/// Teardown completeness: the window-destroyed event empties both registry
/// slots, whatever phase the machine was in, and issues exactly one
/// termination signal per handle that was held — each preceded by its
/// report line, each role independent of the other.
pub proof fn lemma_teardown_complete(s: SupervisorModel)
    ensures
        ({
            let (s1, acts) = spec_step(s, Event::WindowDestroyed);
            &&& s1.phase is Closed
            &&& s1.registry.spec_is_empty()
            &&& acts == spec_kills_for(s.registry.database, Role::Database) + spec_kills_for(
                s.registry.backend,
                Role::Backend,
            )
            &&& (s.registry.database matches Some(h) ==> acts[1] == ActionModel::Kill(h.pid))
        }),
{
}

} // verus!
