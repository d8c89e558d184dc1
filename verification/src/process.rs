//! The data the supervisor exchanges with the process-spawning shell: which
//! role a dependent plays, the immutable specification of a launch, the
//! handle a successful launch yields, and the errors a failed one reports.

use vstd::prelude::*;
use vstd::string::*;

verus! {

/// Role of a supervised dependent process.
#[derive(Clone, Copy, PartialEq, Eq, Structural, Debug)]
pub enum Role {
    Database,
    Backend,
}

/// Handle to one running external process: the OS process identifier,
/// through which the shell's kill capability is addressed.
#[derive(Clone, Copy, PartialEq, Eq, Structural, Debug)]
pub struct Handle {
    pub pid: u32,
}

/// Why a launch attempt failed.  Non-fatal either way: the application
/// continues with that dependent considered absent.
#[derive(Clone, Copy, PartialEq, Eq, Structural, Debug)]
pub enum LaunchError {
    /// The executable could not be found.
    NotFound,
    /// The operating system refused to spawn the process.
    SpawnRefused,
}

/// Mathematical value of a [`LaunchSpec`].
#[verifier::ext_equal]
pub struct LaunchSpecModel {
    pub program: Seq<char>,
    pub args: Seq<Seq<char>>,
    pub working_dir: Option<Seq<char>>,
}

/// The immutable input to one launch: program identifier, ordered argument
/// list, and an optional working/data directory.  Built fresh at startup and
/// never mutated afterwards.
#[derive(Debug, PartialEq, Eq)]
pub struct LaunchSpec {
    pub program: String,
    pub args: Vec<String>,
    pub working_dir: Option<String>,
}

impl View for LaunchSpec {
    type V = LaunchSpecModel;

    open spec fn view(&self) -> LaunchSpecModel {
        LaunchSpecModel {
            program: self.program@,
            args: self.args.deep_view(),
            working_dir: self.working_dir.deep_view(),
        }
    }
}

impl DeepView for LaunchSpec {
    type V = LaunchSpecModel;

    open spec fn deep_view(&self) -> LaunchSpecModel {
        self.view()
    }
}

/// Fixed listening port the embedded database is started on.
pub const DATABASE_PORT: u16 = 6379;

/// Logical program name of the graph-database engine.
pub open spec fn spec_database_program() -> Seq<char> {
    "graph-engine"@
}

/// Logical program name of the backend server.
pub open spec fn spec_backend_program() -> Seq<char> {
    "cvprd-backend"@
}

/// The launch specification for the database process: fixed port, the
/// resolved module path, the resolved data directory, non-daemonizing mode.
pub open spec fn spec_database_launch(engine_module: Seq<char>, data_dir: Seq<char>) -> LaunchSpecModel {
    LaunchSpecModel {
        program: spec_database_program(),
        args: seq![
            "--port"@,
            "6379"@,
            "--loadmodule"@,
            engine_module,
            "--dir"@,
            data_dir,
            "--daemonize"@,
            "no"@,
        ],
        working_dir: Some(data_dir),
    }
}

/// The launch specification for the backend process: no arguments, no
/// working directory.
pub open spec fn spec_backend_launch() -> LaunchSpecModel {
    LaunchSpecModel { program: spec_backend_program(), args: Seq::empty(), working_dir: None }
}

/// Builds the database launch specification from the resolved paths.
pub fn database_launch_spec(engine_module: String, data_dir: String) -> (s: LaunchSpec)
    ensures
        s@ == spec_database_launch(engine_module@, data_dir@),
{
    let dir_copy: String = data_dir.clone();
    let mut args: Vec<String> = Vec::new();
    args.push(String::from_str("--port"));
    args.push(String::from_str("6379"));
    args.push(String::from_str("--loadmodule"));
    args.push(engine_module);
    args.push(String::from_str("--dir"));
    args.push(data_dir);
    args.push(String::from_str("--daemonize"));
    args.push(String::from_str("no"));
    let s = LaunchSpec {
        program: String::from_str("graph-engine"),
        args,
        working_dir: Some(dir_copy),
    };
    proof {
        assert(s@.args =~= spec_database_launch(s@.args[3], s@.args[5]).args);
        assert(s@ =~= spec_database_launch(s@.args[3], s@.args[5]));
    }
    s
}

/// Builds the backend launch specification.
pub fn backend_launch_spec() -> (s: LaunchSpec)
    ensures
        s@ == spec_backend_launch(),
{
    let args: Vec<String> = Vec::new();
    let s = LaunchSpec { program: String::from_str("cvprd-backend"), args, working_dir: None };
    proof {
        assert(s@.args =~= Seq::<Seq<char>>::empty());
        assert(s@ =~= spec_backend_launch());
    }
    s
}

} // verus!
