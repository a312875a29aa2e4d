//! The mathematical model of the library: signatures, stored definitions,
//! synthesized results, and the matching and recording relations that the
//! executable functions' contracts are stated over.

use vstd::prelude::*;

verus! {

/// The signature under which a command is registered, invoked, and queried:
/// a program name, an ordered argument list, and an optional working
/// directory. Matching anywhere in the library is exact equality of this
/// whole triple — case-sensitive, order-sensitive on the arguments, and a
/// definition without a working directory matches only an invocation that
/// also has none.
#[verifier::ext_equal]
pub ghost struct Sig {
    pub program: Seq<char>,
    pub args: Seq<Seq<char>>,
    pub current_dir: Option<Seq<char>>,
}

/// The content of one stored mock definition: its signature and the canned
/// result fields, each optional exactly as the builder left it.
#[verifier::ext_equal]
pub ghost struct DefView {
    pub sig: Sig,
    pub exit_status: Option<i32>,
    pub stdout: Option<Seq<u8>>,
    pub stderr: Option<Seq<u8>>,
}

/// The content of one synthesized result: an exit status and the two output
/// byte streams.
#[verifier::ext_equal]
pub ghost struct OutView {
    pub status: int,
    pub stdout: Seq<u8>,
    pub stderr: Seq<u8>,
}

/// The result a stored definition prescribes: absent fields fall back to
/// exit status 0 and empty output.
pub open spec fn synth_output(d: DefView) -> OutView {
    OutView {
        status: (match d.exit_status {
            Some(code) => code as int,
            None => 0,
        }),
        stdout: (match d.stdout {
            Some(bytes) => bytes,
            None => Seq::empty(),
        }),
        stderr: (match d.stderr {
            Some(bytes) => bytes,
            None => Seq::empty(),
        }),
    }
}

/// The result synthesized when no definition matches: silent success.
pub open spec fn default_output() -> OutView {
    OutView { status: 0, stdout: Seq::empty(), stderr: Seq::empty() }
}

/// The first definition in `mocks` (insertion order) whose signature equals
/// `s`, if any.
pub open spec fn find_spec(mocks: Seq<DefView>, s: Sig) -> Option<DefView>
    decreases mocks.len(),
{
    if mocks.len() == 0 {
        None
    } else if mocks[0].sig == s {
        Some(mocks[0])
    } else {
        find_spec(mocks.drop_first(), s)
    }
}

/// Whether some definition in `mocks` has signature `s`.
pub open spec fn has_match(mocks: Seq<DefView>, s: Sig) -> bool {
    exists|i: int| 0 <= i < mocks.len() && mocks[i].sig == s
}

/// Whether position `i` holds the first definition in `mocks` whose
/// signature is `s`.
pub open spec fn first_match_at(mocks: Seq<DefView>, s: Sig, i: int) -> bool {
    &&& 0 <= i < mocks.len()
    &&& mocks[i].sig == s
    &&& forall|j: int| 0 <= j < i ==> mocks[j].sig != s
}

/// Whether the invocation log contains a record with signature `s`.
pub open spec fn recorded(log: Seq<Sig>, s: Sig) -> bool {
    exists|i: int| 0 <= i < log.len() && log[i] == s
}

/// The signature described by a non-empty `pieces` sequence — the program
/// first, then the arguments — together with an optional working directory.
pub open spec fn pieces_sig(pieces: Seq<Seq<char>>, current_dir: Option<Seq<char>>) -> Sig
    recommends
        pieces.len() > 0,
{
    Sig { program: pieces[0], args: pieces.drop_first(), current_dir }
}

/// Exact-match law: a lookup succeeds exactly when some stored definition's
/// signature equals the query — a query differing in the program, in any
/// argument, in argument order, or in the optional working directory finds
/// nothing — and whatever it returns bears the queried signature.
pub proof fn lemma_find_exact_match(mocks: Seq<DefView>, s: Sig)
    ensures
        find_spec(mocks, s) is Some <==> has_match(mocks, s),
        find_spec(mocks, s) matches Some(d) ==> d.sig == s,
    decreases mocks.len(),
{
    if mocks.len() == 0 {
    } else if mocks[0].sig == s {
        assert(has_match(mocks, s));
    } else {
        lemma_find_exact_match(mocks.drop_first(), s);
        if has_match(mocks, s) {
            let i = choose|i: int| 0 <= i < mocks.len() && mocks[i].sig == s;
            assert(mocks.drop_first()[i - 1] == mocks[i]);
            assert(has_match(mocks.drop_first(), s));
        }
        if has_match(mocks.drop_first(), s) {
            let i = choose|i: int| 0 <= i < mocks.drop_first().len()
                && mocks.drop_first()[i].sig == s;
            assert(mocks[i + 1] == mocks.drop_first()[i]);
            assert(has_match(mocks, s));
        }
    }
}

/// First-registration-wins law: when position `i` holds the first definition
/// with signature `s`, a lookup for `s` returns exactly that definition —
/// a later definition with the same signature is never returned.
pub proof fn lemma_first_registration_wins(mocks: Seq<DefView>, s: Sig, i: int)
    requires
        first_match_at(mocks, s, i),
    ensures
        find_spec(mocks, s) == Some(mocks[i]),
    decreases mocks.len(),
{
    if i == 0 {
    } else {
        assert(mocks[0].sig != s);
        let tail = mocks.drop_first();
        assert(tail[i - 1] == mocks[i]);
        assert forall|j: int| 0 <= j < i - 1 implies tail[j].sig != s by {
            assert(tail[j] == mocks[j + 1]);
        }
        lemma_first_registration_wins(tail, s, i - 1);
    }
}

/// Verification-completeness law: a signature just appended to the log is
/// reported as executed, and appending it does not make any other
/// never-recorded signature appear executed.
pub proof fn lemma_verification_completeness(log: Seq<Sig>, s: Sig, q: Sig)
    ensures
        recorded(log.push(s), s),
        q != s && !recorded(log, q) ==> !recorded(log.push(s), q),
{
    assert(log.push(s)[log.len() as int] == s);
    if q != s && !recorded(log, q) && recorded(log.push(s), q) {
        let i = choose|i: int| 0 <= i < log.push(s).len() && log.push(s)[i] == q;
        if i < log.len() {
            assert(log[i] == q);
        }
        assert(false);
    }
}

} // verus!
