//! The mock registry: an ordered, append-only sequence of definitions, with
//! registration and exact-signature lookup.

use vstd::prelude::*;

use crate::model::first_match_at;
use crate::model::find_spec;
use crate::model::has_match;
use crate::model::lemma_find_exact_match;
use crate::model::lemma_first_registration_wins;
use crate::model::DefView;
use crate::model::Sig;
use crate::strings::clone_opt_bytes;
use crate::strings::clone_opt_string;
use crate::strings::clone_strings;
use crate::strings::opt_strings_equal;
use crate::strings::string_vecs_equal;

verus! {

/// One stored mock: a signature and the canned result to synthesize for it.
/// Once registered it is never changed; an absent result field means
/// "exit status 0" or "empty output".
pub struct MockDefinition {
    pub program: String,
    pub args: Vec<String>,
    pub current_dir: Option<String>,
    pub exit_status: Option<i32>,
    pub stdout: Option<Vec<u8>>,
    pub stderr: Option<Vec<u8>>,
}

impl View for MockDefinition {
    type V = DefView;

    open spec fn view(&self) -> DefView {
        DefView {
            sig: Sig {
                program: self.program@,
                args: self.args.deep_view(),
                current_dir: self.current_dir.deep_view(),
            },
            exit_status: self.exit_status,
            stdout: self.stdout.deep_view(),
            stderr: self.stderr.deep_view(),
        }
    }
}

impl DeepView for MockDefinition {
    type V = DefView;

    open spec fn deep_view(&self) -> DefView {
        self.view()
    }
}

impl Clone for MockDefinition {
    /// A copy with the same signature and the same canned result.
    fn clone(&self) -> (r: Self)
        ensures
            r@ == self@,
    {
        let r = MockDefinition {
            program: self.program.clone(),
            args: clone_strings(&self.args),
            current_dir: clone_opt_string(&self.current_dir),
            exit_status: self.exit_status,
            stdout: clone_opt_bytes(&self.stdout),
            stderr: clone_opt_bytes(&self.stderr),
        };
        proof {
            assert(r@ =~= self@);
        }
        r
    }
}

/// Appends a definition to the registry. Registration never fails and never
/// deduplicates: a definition whose signature is already registered is stored
/// after the earlier one, which keeps winning at lookup.
pub fn register_mock(mocks: &mut Vec<MockDefinition>, definition: MockDefinition)
    ensures
        final(mocks).deep_view() == old(mocks).deep_view().push(definition@),
{
    mocks.push(definition);
    proof {
        assert(mocks.deep_view() =~= old(mocks).deep_view().push(definition@));
    }
}

/// Whether this definition's stored signature equals the queried one exactly.
fn sig_matches(d: &MockDefinition, program: &String, args: &Vec<String>, current_dir: &Option<
    String>) -> (r: bool)
    ensures
        r == (d@.sig == (Sig {
            program: program@,
            args: args.deep_view(),
            current_dir: current_dir.deep_view(),
        })),
{
    let program_ok = d.program == *program;
    let args_ok = string_vecs_equal(&d.args, args);
    let dir_ok = opt_strings_equal(&d.current_dir, current_dir);
    let r = program_ok && args_ok && dir_ok;
    proof {
        let q = Sig {
            program: program@,
            args: args.deep_view(),
            current_dir: current_dir.deep_view(),
        };
        if r {
            assert(d@.sig =~= q);
        }
    }
    r
}

/// Scans the registry in insertion order and returns a copy of the first
/// definition whose stored signature equals the query exactly, or nothing
/// when no definition matches.
pub fn find_mock(mocks: &Vec<MockDefinition>, program: &String, args: &Vec<String>, current_dir: &Option<
    String>) -> (found: Option<MockDefinition>)
    ensures
        found.deep_view() == find_spec(mocks.deep_view(), Sig {
            program: program@,
            args: args.deep_view(),
            current_dir: current_dir.deep_view(),
        }),
{
    let ghost q = Sig {
        program: program@,
        args: args.deep_view(),
        current_dir: current_dir.deep_view(),
    };
    let mut i: usize = 0;
    while i < mocks.len()
        invariant
            0 <= i <= mocks.len(),
            q == (Sig {
                program: program@,
                args: args.deep_view(),
                current_dir: current_dir.deep_view(),
            }),
            forall|j: int| 0 <= j < i ==> mocks.deep_view()[j].sig != q,
        decreases mocks.len() - i,
    {
        let matched = sig_matches(&mocks[i], program, args, current_dir);
        proof {
            assert(mocks.deep_view()[i as int] == mocks@[i as int]@);
        }
        if matched {
            proof {
                assert(first_match_at(mocks.deep_view(), q, i as int));
                lemma_first_registration_wins(mocks.deep_view(), q, i as int);
            }
            return Some(mocks[i].clone());
        }
        i += 1;
    }
    proof {
        lemma_find_exact_match(mocks.deep_view(), q);
        assert(!has_match(mocks.deep_view(), q));
    }
    None
}

} // verus!
