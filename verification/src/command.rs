//! The command facade: a process-builder-shaped interface whose execution
//! records the invocation, looks the signature up in the registry, and
//! synthesizes a result without spawning anything.

use vstd::prelude::*;
use vstd::slice::slice_to_vec;

use crate::model::default_output;
use crate::model::find_spec;
use crate::model::synth_output;
use crate::model::OutView;
use crate::model::Sig;
use crate::recorder::record_executed_command;
use crate::recorder::ExecutedCommand;
use crate::registry::find_mock;
use crate::registry::MockDefinition;

verus! {

/// The exit status of a synthesized result, carrying the raw code a mock
/// prescribed. A zero code reports success, any other code failure.
pub struct ExitStatus {
    code: i32,
}

impl View for ExitStatus {
    type V = int;

    closed spec fn view(&self) -> int {
        self.code as int
    }
}

impl ExitStatus {
    /// Wraps a raw exit code.
    pub fn from_raw(code: i32) -> (status: Self)
        ensures
            status@ == code as int,
    {
        ExitStatus { code }
    }

    /// Whether the status reports success, that is, whether the code is zero.
    pub fn success(&self) -> (r: bool)
        ensures
            r == (self@ == 0),
    {
        self.code == 0
    }

    /// The raw exit code.
    pub fn code(&self) -> (code: i32)
        ensures
            code as int == self@,
    {
        self.code
    }
}

/// The synthesized result of one invocation: an exit status and the bytes
/// the mocked command wrote to standard output and standard error.
pub struct Output {
    pub status: ExitStatus,
    pub stdout: Vec<u8>,
    pub stderr: Vec<u8>,
}

impl View for Output {
    type V = OutView;

    open spec fn view(&self) -> OutView {
        OutView { status: self.status@, stdout: self.stdout@, stderr: self.stderr@ }
    }
}

/// A command in the course of being configured: a program, the arguments
/// accumulated so far, and an optional working directory. Executing it with
/// [`Command::output`] never spawns a process; it is answered from the given
/// registry and recorded in the given log.
pub struct Command {
    program: String,
    args: Vec<String>,
    current_dir: Option<String>,
}

impl View for Command {
    type V = Sig;

    closed spec fn view(&self) -> Sig {
        Sig {
            program: self.program@,
            args: self.args.deep_view(),
            current_dir: self.current_dir.deep_view(),
        }
    }
}

impl Command {
    /// A command for `program`, with no arguments and no working directory.
    pub fn new(program: &str) -> (command: Self)
        ensures
            command@ == (Sig { program: program@, args: Seq::empty(), current_dir: None }),
    {
        let command = Command { program: program.to_owned(), args: Vec::new(), current_dir: None };
        proof {
            assert(command@ =~= (Sig {
                program: program@,
                args: Seq::empty(),
                current_dir: None,
            }));
        }
        command
    }

    /// Appends one argument to the command's signature.
    pub fn arg(&mut self, arg: &str)
        ensures
            final(self)@ == (Sig { args: old(self)@.args.push(arg@), ..old(self)@ }),
    {
        self.args.push(arg.to_owned());
        proof {
            assert(self@.args =~= old(self)@.args.push(arg@));
        }
    }

    /// Appends each given argument, in order, to the command's signature.
    pub fn args(&mut self, args: &Vec<String>)
        ensures
            final(self)@ == (Sig { args: old(self)@.args + args.deep_view(), ..old(self)@ }),
    {
        let mut i: usize = 0;
        while i < args.len()
            invariant
                0 <= i <= args.len(),
                self.args@.len() == old(self).args@.len() + i,
                forall|k: int| 0 <= k < old(self).args@.len() ==> self.args@[k] == old(
                    self,
                ).args@[k],
                forall|k: int|
                    0 <= k < i ==> self.args@[old(self).args@.len() + k]@ == args@[k]@,
                self.program == old(self).program,
                self.current_dir == old(self).current_dir,
            decreases args.len() - i,
        {
            self.args.push(args[i].clone());
            i += 1;
        }
        proof {
            assert(self@.args =~= old(self)@.args + args.deep_view());
            assert(self@ =~= (Sig { args: old(self)@.args + args.deep_view(), ..old(self)@ }));
        }
    }

    /// Sets the command's working directory; the last call wins.
    pub fn current_dir(&mut self, dir: &str)
        ensures
            final(self)@ == (Sig { current_dir: Some(dir@), ..old(self)@ }),
    {
        self.current_dir = Some(dir.to_owned());
        proof {
            assert(self@ =~= (Sig { current_dir: Some(dir@), ..old(self)@ }));
        }
    }

    /// Executes the command against the given registry and log: appends
    /// exactly one record with the command's signature — whether or not any
    /// definition matches — and synthesizes the result prescribed by the
    /// first matching definition, or the silent success default when none
    /// matches. Never fails and never spawns a process.
    pub fn output(&self, mocks: &Vec<MockDefinition>, log: &mut Vec<ExecutedCommand>) -> (out:
        Output)
        ensures
            final(log).deep_view() == old(log).deep_view().push(self@),
            out@ == (match find_spec(mocks.deep_view(), self@) {
                Some(d) => synth_output(d),
                None => default_output(),
            }),
    {
        record_executed_command(log, &self.program, &self.args, &self.current_dir);
        let found = find_mock(mocks, &self.program, &self.args, &self.current_dir);
        synthesize_output(&found)
    }
}

/// Builds the result a looked-up definition prescribes — its stored exit
/// status or 0, its stored output bytes or empty ones — or the silent
/// success default when the lookup found nothing.
pub fn synthesize_output(found: &Option<MockDefinition>) -> (out: Output)
    ensures
        out@ == (match found.deep_view() {
            Some(d) => synth_output(d),
            None => default_output(),
        }),
{
    match found {
        Some(definition) => {
            let code = match definition.exit_status {
                Some(code) => code,
                None => 0,
            };
            let stdout = match &definition.stdout {
                Some(bytes) => slice_to_vec(bytes.as_slice()),
                None => Vec::new(),
            };
            let stderr = match &definition.stderr {
                Some(bytes) => slice_to_vec(bytes.as_slice()),
                None => Vec::new(),
            };
            Output { status: ExitStatus::from_raw(code), stdout, stderr }
        },
        None => Output { status: ExitStatus::from_raw(0), stdout: Vec::new(), stderr: Vec::new() },
    }
}

} // verus!
