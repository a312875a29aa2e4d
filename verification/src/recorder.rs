//! The invocation recorder: an ordered, append-only log of every command
//! issued through the facade, with the verification query over it.

use vstd::prelude::*;

use crate::model::pieces_sig;
use crate::model::recorded;
use crate::model::Sig;
use crate::strings::clone_opt_string;
use crate::strings::clone_strings;
use crate::strings::opt_strings_equal;

verus! {

/// A record of one invocation that went through the command facade: the
/// exact signature under which it was issued. Records are appended once and
/// never mutated or removed.
pub struct ExecutedCommand {
    pub program: String,
    pub args: Vec<String>,
    pub current_dir: Option<String>,
}

impl View for ExecutedCommand {
    type V = Sig;

    open spec fn view(&self) -> Sig {
        Sig {
            program: self.program@,
            args: self.args.deep_view(),
            current_dir: self.current_dir.deep_view(),
        }
    }
}

impl DeepView for ExecutedCommand {
    type V = Sig;

    open spec fn deep_view(&self) -> Sig {
        self.view()
    }
}

impl Clone for ExecutedCommand {
    /// A copy with the same signature.
    fn clone(&self) -> (r: Self)
        ensures
            r@ == self@,
    {
        let r = ExecutedCommand {
            program: self.program.clone(),
            args: clone_strings(&self.args),
            current_dir: clone_opt_string(&self.current_dir),
        };
        proof {
            assert(r@ =~= self@);
        }
        r
    }
}

/// Appends one record with exactly the given signature to the log. Recording
/// never fails and records unconditionally, whether or not any mock matches.
pub fn record_executed_command(log: &mut Vec<ExecutedCommand>, program: &String, args: &Vec<
    String>, current_dir: &Option<String>)
    ensures
        final(log).deep_view() == old(log).deep_view().push(Sig {
            program: program@,
            args: args.deep_view(),
            current_dir: current_dir.deep_view(),
        }),
{
    let record = ExecutedCommand {
        program: program.clone(),
        args: clone_strings(args),
        current_dir: clone_opt_string(current_dir),
    };
    proof {
        assert(record@ =~= (Sig {
            program: program@,
            args: args.deep_view(),
            current_dir: current_dir.deep_view(),
        }));
    }
    log.push(record);
    proof {
        assert(log.deep_view() =~= old(log).deep_view().push(record@));
    }
}

/// Returns a snapshot copy of every record made so far, in call order; the
/// log itself stays behind and cannot be reached through the copy.
pub fn get_executed_commands(log: &Vec<ExecutedCommand>) -> (snapshot: Vec<ExecutedCommand>)
    ensures
        snapshot.deep_view() == log.deep_view(),
{
    let mut snapshot: Vec<ExecutedCommand> = Vec::new();
    let mut i: usize = 0;
    while i < log.len()
        invariant
            0 <= i <= log.len(),
            snapshot@.len() == i,
            forall|k: int| 0 <= k < i ==> snapshot@[k]@ == log@[k]@,
        decreases log.len() - i,
    {
        snapshot.push(log[i].clone());
        i += 1;
    }
    proof {
        assert(snapshot.deep_view() =~= log.deep_view());
    }
    snapshot
}

/// Whether this record's signature is exactly the one described by the
/// non-empty `pieces` (program first, then the arguments) and the optional
/// working directory.
fn executed_matches(record: &ExecutedCommand, pieces: &Vec<String>, current_dir: &Option<
    String>) -> (r: bool)
    requires
        pieces@.len() > 0,
    ensures
        r == (record@ == pieces_sig(pieces.deep_view(), current_dir.deep_view())),
{
    let ghost q = pieces_sig(pieces.deep_view(), current_dir.deep_view());
    if !(record.program == pieces[0]) {
        proof {
            assert(pieces.deep_view()[0] == pieces@[0]@);
        }
        return false;
    }
    if record.args.len() != pieces.len() - 1 {
        proof {
            assert(record@.args.len() == record.args@.len());
            assert(q.args.len() == pieces.deep_view().len() - 1);
        }
        return false;
    }
    let mut j: usize = 0;
    while j < record.args.len()
        invariant
            0 <= j <= record.args.len(),
            pieces@.len() > 0,
            record.args@.len() == pieces@.len() - 1,
            q == pieces_sig(pieces.deep_view(), current_dir.deep_view()),
            forall|k: int| 0 <= k < j ==> record.args.deep_view()[k] == pieces.deep_view()[k + 1],
        decreases record.args.len() - j,
    {
        if !(record.args[j] == pieces[j + 1]) {
            proof {
                assert(record.args.deep_view()[j as int] == record.args@[j as int]@);
                assert(pieces.deep_view()[j + 1 as int] == pieces@[j + 1 as int]@);
                assert(q.args[j as int] == pieces.deep_view()[j + 1 as int]);
            }
            return false;
        }
        j += 1;
    }
    let dir_ok = opt_strings_equal(&record.current_dir, current_dir);
    proof {
        if dir_ok {
            assert(record@.args =~= q.args);
            assert(record@ =~= q);
        }
    }
    dir_ok
}

/// Returns whether at least one recorded invocation has exactly the
/// signature described by the non-empty `pieces` (program first, then the
/// arguments) and the optional working directory; repeats count as present.
pub fn was_command_executed(log: &Vec<ExecutedCommand>, pieces: &Vec<String>, current_dir: &Option<
    String>) -> (r: bool)
    requires
        pieces@.len() > 0,
    ensures
        r == recorded(log.deep_view(), pieces_sig(pieces.deep_view(), current_dir.deep_view())),
{
    let ghost q = pieces_sig(pieces.deep_view(), current_dir.deep_view());
    let mut i: usize = 0;
    while i < log.len()
        invariant
            0 <= i <= log.len(),
            pieces@.len() > 0,
            q == pieces_sig(pieces.deep_view(), current_dir.deep_view()),
            forall|j: int| 0 <= j < i ==> log.deep_view()[j] != q,
        decreases log.len() - i,
    {
        let matched = executed_matches(&log[i], pieces, current_dir);
        proof {
            assert(log.deep_view()[i as int] == log@[i as int]@);
        }
        if matched {
            return true;
        }
        i += 1;
    }
    proof {
        assert(log.deep_view().len() == log@.len());
    }
    false
}

} // verus!
