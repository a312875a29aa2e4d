//! Fluent construction of mock definitions: a builder accumulates a
//! signature and a canned result, and on finalization publishes an immutable
//! definition into a registry.

use vstd::prelude::*;
use vstd::slice::slice_to_vec;

use crate::model::DefView;
use crate::model::Sig;
use crate::registry::register_mock;
use crate::registry::MockDefinition;
use crate::strings::clone_strings;

verus! {

/// A mock definition in the course of being described. Each setter consumes
/// the builder and hands it back for further chaining; the result setters
/// overwrite (the last call wins), while `with_arg` appends. Finalizing with
/// `build` or `register` consumes the builder for good.
pub struct CommandMockBuilder {
    program: String,
    args: Vec<String>,
    current_dir: Option<String>,
    exit_status: Option<i32>,
    stdout: Option<Vec<u8>>,
    stderr: Option<Vec<u8>>,
}

impl View for CommandMockBuilder {
    type V = DefView;

    closed spec fn view(&self) -> DefView {
        DefView {
            sig: Sig {
                program: self.program@,
                args: self.args.deep_view(),
                current_dir: self.current_dir.deep_view(),
            },
            exit_status: self.exit_status,
            stdout: self.stdout.deep_view(),
            stderr: self.stderr.deep_view(),
        }
    }
}

/// Begins declaring a mock for `program`: the entry point of the builder
/// chain, seeded with no arguments, no working directory, and no result
/// fields.
pub fn mock(program: &str) -> (builder: CommandMockBuilder)
    ensures
        builder@ == (DefView {
            sig: Sig { program: program@, args: Seq::empty(), current_dir: None },
            exit_status: None,
            stdout: None,
            stderr: None,
        }),
{
    CommandMockBuilder::new(program)
}

impl CommandMockBuilder {
    /// A builder seeded with `program` and empty everything else.
    pub fn new(program: &str) -> (builder: Self)
        ensures
            builder@ == (DefView {
                sig: Sig { program: program@, args: Seq::empty(), current_dir: None },
                exit_status: None,
                stdout: None,
                stderr: None,
            }),
    {
        let builder = CommandMockBuilder {
            program: program.to_owned(),
            args: Vec::new(),
            current_dir: None,
            exit_status: None,
            stdout: None,
            stderr: None,
        };
        proof {
            assert(builder@ =~= (DefView {
                sig: Sig { program: program@, args: Seq::empty(), current_dir: None },
                exit_status: None,
                stdout: None,
                stderr: None,
            }));
        }
        builder
    }

    /// Appends one argument to the signature being described.
    pub fn with_arg(self, arg: &str) -> (r: Self)
        ensures
            r@ == (DefView { sig: Sig { args: self@.sig.args.push(arg@), ..self@.sig }, ..self@ }),
    {
        let mut builder = self;
        builder.args.push(arg.to_owned());
        proof {
            assert(builder@.sig.args =~= self@.sig.args.push(arg@));
        }
        builder
    }

    /// Replaces the whole argument list of the signature being described.
    pub fn with_args(self, args: &Vec<String>) -> (r: Self)
        ensures
            r@ == (DefView { sig: Sig { args: args.deep_view(), ..self@.sig }, ..self@ }),
    {
        let mut builder = self;
        builder.args = clone_strings(args);
        builder
    }

    /// Sets the working directory of the signature being described; a
    /// definition with one matches only an invocation with the same one.
    pub fn current_dir(self, dir: &str) -> (r: Self)
        ensures
            r@ == (DefView { sig: Sig { current_dir: Some(dir@), ..self@.sig }, ..self@ }),
    {
        let mut builder = self;
        builder.current_dir = Some(dir.to_owned());
        builder
    }

    /// Sets the exit status the mocked command reports.
    pub fn with_status(self, status: i32) -> (r: Self)
        ensures
            r@ == (DefView { exit_status: Some(status), ..self@ }),
    {
        let mut builder = self;
        builder.exit_status = Some(status);
        builder
    }

    /// Sets the bytes the mocked command writes to standard output.
    pub fn with_stdout(self, stdout: &[u8]) -> (r: Self)
        ensures
            r@ == (DefView { stdout: Some(stdout@), ..self@ }),
    {
        let mut builder = self;
        builder.stdout = Some(slice_to_vec(stdout));
        builder
    }

    /// Sets the bytes the mocked command writes to standard error.
    pub fn with_stderr(self, stderr: &[u8]) -> (r: Self)
        ensures
            r@ == (DefView { stderr: Some(stderr@), ..self@ }),
    {
        let mut builder = self;
        builder.stderr = Some(slice_to_vec(stderr));
        builder
    }

    /// Consumes the builder, returning the immutable definition it described.
    pub fn build(self) -> (definition: MockDefinition)
        ensures
            definition@ == self@,
    {
        MockDefinition {
            program: self.program,
            args: self.args,
            current_dir: self.current_dir,
            exit_status: self.exit_status,
            stdout: self.stdout,
            stderr: self.stderr,
        }
    }

    /// Consumes the builder and publishes the definition it described into
    /// the registry.
    pub fn register(self, mocks: &mut Vec<MockDefinition>)
        ensures
            final(mocks).deep_view() == old(mocks).deep_view().push(self@),
    {
        let definition = self.build();
        register_mock(mocks, definition);
    }
}

} // verus!
