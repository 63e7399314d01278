//! The differential check of a fuzzing run: the reference interpreter and the
//! Lean model execute the same program, and their outcomes are compared.
use vstd::prelude::*;
use vstd::string::StrSliceExecFns;
use crate::protocol::LeanVmState;

verus! {

/// `2` raised to `k`.
pub open spec fn pow2(k: nat) -> nat {
    vstd::arithmetic::power2::pow2(k)
}

/// The instruction budget of a run whose drawn exponent is `max_steps_log`:
/// two to the power of three plus the exponent modulo ten (8 to 4096).
pub fn max_steps_for(max_steps_log: u8) -> (steps: u64)
    ensures
        steps == pow2(3 + (max_steps_log % 10) as nat),
        8 <= steps <= 4096,
{
    let k: u64 = 3 + (max_steps_log % 10) as u64;
    proof {
        vstd::arithmetic::power2::lemma2_to64();
        vstd::bits::lemma_u64_shl_is_mul(1, k);
        vstd::arithmetic::power2::lemma_pow2_strictly_increases(3, 12);
        if k > 3 {
            vstd::arithmetic::power2::lemma_pow2_strictly_increases(3, k as nat);
        }
        if k < 12 {
            vstd::arithmetic::power2::lemma_pow2_strictly_increases(k as nat, 12);
        }
    }
    1u64 << k
}

/// The versions of the SBPF instruction set.
#[derive(Clone, Copy, Debug, PartialEq, Eq, Structural)]
pub enum SbpfVersion {
    V0,
    V1,
    V2,
    V3,
    V4,
    /// A version reserved for the future.
    Reserved,
}

/// The number by which the Lean model knows a version: its index for the
/// defined versions, five for any other.
pub open spec fn version_number(v: SbpfVersion) -> u8 {
    match v {
        SbpfVersion::V0 => 0,
        SbpfVersion::V1 => 1,
        SbpfVersion::V2 => 2,
        SbpfVersion::V3 => 3,
        SbpfVersion::V4 => 4,
        SbpfVersion::Reserved => 5,
    }
}

/// The number by which the Lean model knows version `v`.
pub fn sbpf_version_number(v: SbpfVersion) -> (n: u8)
    ensures
        n == version_number(v),
{
    match v {
        SbpfVersion::V0 => 0,
        SbpfVersion::V1 => 1,
        SbpfVersion::V2 => 2,
        SbpfVersion::V3 => 3,
        SbpfVersion::V4 => 4,
        _ => 5,
    }
}

/// What the reference interpreter reported for a run.
pub struct ReferenceRun {
    /// The debug text of the interpreter's whole result.
    pub result_text: String,
    /// The debug text of the interpreter's error, when the run failed.
    pub error_text: Option<String>,
    /// The registers the interpreter reports, the program counter last.
    pub registers: Option<Vec<u64>>,
    /// The input memory after the run.
    pub memory: Vec<u8>,
}

/// How the two runs compare.
#[derive(Clone, Copy, Debug, PartialEq, Eq, Structural)]
pub enum RunVerdict {
    /// Both succeeded with the same result, registers and memory.
    Agree,
    /// Both failed, and one error text contains the other.
    SameFailure,
    /// The results differ.
    ResultDivergence,
    /// The results agree but the interpreter reported no registers.
    MissingRegisters,
    /// The results agree but the registers differ.
    RegisterMismatch,
    /// Results and registers agree but the memory that the Lean model
    /// reports after its run differs from the interpreter's.
    MemoryMismatch,
    /// The Lean model failed where the interpreter succeeded.
    LeanFailedAlone,
    /// Both failed, and neither error text contains the other.
    ErrorMismatch,
}

/// Whether `needle` occurs in `hay` as a contiguous run.
pub open spec fn contains_text(hay: Seq<char>, needle: Seq<char>) -> bool {
    exists|i: int| 0 <= i && i + needle.len() <= hay.len() && #[trigger] hay.subrange(i, i + needle.len()) == needle
}

/// The interpreter's registers without the program counter that it reports
/// last (an empty list stays empty).
pub open spec fn without_pc(regs: Seq<u64>) -> Seq<u64> {
    if regs.len() > 0 {
        regs.drop_last()
    } else {
        regs
    }
}

/// How the reference run `r` and the Lean model's outcome `lean` compare;
/// `lean_memory` is the memory that the Lean model reports after its run,
/// when its reply carries one (there is nothing to compare memory with
/// otherwise).
pub open spec fn run_verdict(r: ReferenceRun, lean: Result<LeanVmState, String>, lean_memory: Option<Vec<u8>>) -> RunVerdict {
    match lean {
        Ok(st) => if r.result_text@ != st.program_result@ {
            RunVerdict::ResultDivergence
        } else {
            match r.registers {
                None => RunVerdict::MissingRegisters,
                Some(regs) => if without_pc(regs@) != st.regs@ {
                    RunVerdict::RegisterMismatch
                } else if lean_memory matches Some(m) && r.memory@ != m@ {
                    RunVerdict::MemoryMismatch
                } else {
                    RunVerdict::Agree
                },
            }
        },
        Err(e) => match r.error_text {
            None => RunVerdict::LeanFailedAlone,
            Some(t) => if !contains_text(e@, t@) && !contains_text(t@, e@) {
                RunVerdict::ErrorMismatch
            } else {
                RunVerdict::SameFailure
            },
        },
    }
}

fn text_chars(s: &str) -> (v: Vec<char>)
    ensures
        v@ == s@,
{
    let n = s.unicode_len();
    let mut v: Vec<char> = Vec::new();
    let mut i: usize = 0;
    while i < n
        invariant
            i <= n,
            n == s@.len(),
            v@ == s@.subrange(0, i as int),
        decreases n - i,
    {
        v.push(s.get_char(i));
        assert(s@.subrange(0, i as int + 1) == s@.subrange(0, i as int).push(s@[i as int]));
        i = i + 1;
    }
    assert(s@.subrange(0, n as int) == s@);
    v
}

fn occurs_at(hay: &Vec<char>, needle: &Vec<char>, at: usize) -> (b: bool)
    requires
        at + needle@.len() <= hay@.len(),
    ensures
        b == (hay@.subrange(at as int, at + needle@.len()) == needle@),
{
    let mut k: usize = 0;
    while k < needle.len()
        invariant
            k <= needle@.len(),
            at + needle@.len() <= hay@.len(),
            hay@.len() == hay.len(),
            forall|j: int| 0 <= j < k ==> hay@[at + j] == needle@[j],
        decreases needle@.len() - k,
    {
        if hay[at + k] != needle[k] {
            assert(hay@.subrange(at as int, at + needle@.len())[k as int] != needle@[k as int]);
            return false;
        }
        k = k + 1;
    }
    assert(hay@.subrange(at as int, at + needle@.len()) =~= needle@);
    true
}

/// Whether the text `needle` occurs in the text `hay`, as `str::contains` answers.
pub fn text_contains(hay: &str, needle: &str) -> (b: bool)
    ensures
        b == contains_text(hay@, needle@),
{
    let h = text_chars(hay);
    let n = text_chars(needle);
    if n.len() > h.len() {
        return false;
    }
    let last = h.len() - n.len();
    let mut i: usize = 0;
    loop
        invariant
            i <= last,
            last + n@.len() == h@.len(),
            h@ == hay@,
            n@ == needle@,
            forall|j: int| 0 <= j < i ==> #[trigger] h@.subrange(j, j + n@.len()) != n@,
        decreases last - i,
    {
        if occurs_at(&h, &n, i) {
            return true;
        }
        if i == last {
            assert(forall|j: int| 0 <= j && j + n@.len() <= h@.len() ==> #[trigger] h@.subrange(j, j + n@.len()) != n@);
            return false;
        }
        i = i + 1;
    }
}

fn same_u64s(a: &Vec<u64>, b: &Vec<u64>) -> (r: bool)
    ensures
        r == (a@ == b@),
{
    if a.len() != b.len() {
        return false;
    }
    let mut i: usize = 0;
    while i < a.len()
        invariant
            i <= a@.len(),
            a@.len() == b@.len(),
            forall|j: int| 0 <= j < i ==> a@[j] == b@[j],
        decreases a@.len() - i,
    {
        if a[i] != b[i] {
            return false;
        }
        i = i + 1;
    }
    assert(a@ =~= b@);
    true
}

fn same_bytes(a: &Vec<u8>, b: &Vec<u8>) -> (r: bool)
    ensures
        r == (a@ == b@),
{
    if a.len() != b.len() {
        return false;
    }
    let mut i: usize = 0;
    while i < a.len()
        invariant
            i <= a@.len(),
            a@.len() == b@.len(),
            forall|j: int| 0 <= j < i ==> a@[j] == b@[j],
        decreases a@.len() - i,
    {
        if a[i] != b[i] {
            return false;
        }
        i = i + 1;
    }
    assert(a@ =~= b@);
    true
}

/// Compares the reference run with the Lean model's outcome: when the model
/// succeeded, first the result texts, then the registers (the interpreter's
/// last register, the program counter, left out), then the memory, where
/// `lean_memory` holds the memory that the model reports after its run; when
/// it failed, whether the interpreter failed too with an error text that
/// contains, or is contained in, the model's.
pub fn judge_runs(reference: &ReferenceRun, lean: &Result<LeanVmState, String>, lean_memory: &Option<Vec<u8>>) -> (v: RunVerdict)
    ensures
        v == run_verdict(*reference, *lean, *lean_memory),
        lean is Err && reference.error_text is Some ==> (v == RunVerdict::ErrorMismatch <==> {
            let e = lean->Err_0@;
            let t = reference.error_text->0@;
            &&& forall|i: int| 0 <= i && i + t.len() <= e.len() ==> #[trigger] e.subrange(i, i + t.len()) != t
            &&& forall|i: int| 0 <= i && i + e.len() <= t.len() ==> #[trigger] t.subrange(i, i + e.len()) != e
        }),
{
    match lean {
        Ok(st) => {
            if reference.result_text != st.program_result {
                return RunVerdict::ResultDivergence;
            }
            match &reference.registers {
                None => RunVerdict::MissingRegisters,
                Some(regs) => {
                    let mut regs = regs.clone();
                    assert(regs@ =~= reference.registers->0@);
                    let ghost before = regs@;
                    let _ = regs.pop();
                    assert(regs@ == without_pc(before));
                    if !same_u64s(&regs, &st.regs) {
                        RunVerdict::RegisterMismatch
                    } else {
                        match lean_memory {
                            Some(m) => if !same_bytes(&reference.memory, m) {
                                RunVerdict::MemoryMismatch
                            } else {
                                RunVerdict::Agree
                            },
                            None => RunVerdict::Agree,
                        }
                    }
                },
            }
        },
        Err(e) => match &reference.error_text {
            None => RunVerdict::LeanFailedAlone,
            Some(t) => {
                if !text_contains(e.as_str(), t.as_str()) && !text_contains(t.as_str(), e.as_str()) {
                    RunVerdict::ErrorMismatch
                } else {
                    RunVerdict::SameFailure
                }
            },
        },
    }
}

/// Two failures with the same error text are never reported as a mismatch.
pub proof fn lemma_same_error_text_is_no_mismatch(r: ReferenceRun, e: String, lean_memory: Option<Vec<u8>>)
    requires
        r.error_text matches Some(t) && t@ == e@,
    ensures
        run_verdict(r, Err(e), lean_memory) == RunVerdict::SameFailure,
{
    let t = r.error_text->0;
    assert(e@.subrange(0int, 0int + t@.len()) =~= t@);
    assert(t@.subrange(0int, 0int + e@.len()) =~= e@);
}

/// The runs agree exactly when the results, the registers (program counter
/// aside) and, where the Lean model reports memory, the memory all agree.
pub proof fn lemma_agree_means_same_state(r: ReferenceRun, st: LeanVmState, lean_memory: Option<Vec<u8>>)
    ensures
        run_verdict(r, Ok(st), lean_memory) == RunVerdict::Agree <==> {
            &&& r.result_text@ == st.program_result@
            &&& r.registers is Some
            &&& without_pc(r.registers->0@) == st.regs@
            &&& lean_memory matches Some(m) ==> r.memory@ == m@
        },
{
}

/// When both runs fail, the failures differ exactly when neither error text
/// occurs anywhere in the other, both texts taken whole; otherwise they are
/// the same failure.
pub proof fn law_failures_differ_when_neither_text_contains_the_other(
    r: ReferenceRun,
    e: String,
    lean_memory: Option<Vec<u8>>,
)
    requires
        r.error_text is Some,
    ensures
        run_verdict(r, Err(e), lean_memory) == RunVerdict::ErrorMismatch <==> {
            let t = r.error_text->0@;
            &&& forall|i: int| 0 <= i && i + t.len() <= e@.len() ==> #[trigger] e@.subrange(i, i + t.len()) != t
            &&& forall|i: int| 0 <= i && i + e@.len() <= t.len() ==> #[trigger] t.subrange(i, i + e@.len()) != e@
        },
        run_verdict(r, Err(e), lean_memory) == RunVerdict::ErrorMismatch
            || run_verdict(r, Err(e), lean_memory) == RunVerdict::SameFailure,
{
}

/// Two different error texts of the same length are different failures.
pub proof fn law_different_errors_of_equal_length_mismatch(r: ReferenceRun, e: String, lean_memory: Option<Vec<u8>>)
    requires
        r.error_text is Some,
        r.error_text->0@.len() == e@.len(),
        r.error_text->0@ != e@,
    ensures
        run_verdict(r, Err(e), lean_memory) == RunVerdict::ErrorMismatch,
{
    let t = r.error_text->0@;
    assert forall|i: int| 0 <= i && i + t.len() <= e@.len() implies #[trigger] e@.subrange(i, i + t.len()) != t by {
        assert(i == 0);
        assert(e@.subrange(0, e@.len() as int) =~= e@);
    }
    assert forall|i: int| 0 <= i && i + e@.len() <= t.len() implies #[trigger] t.subrange(i, i + e@.len()) != e@ by {
        assert(i == 0);
        assert(t.subrange(0, t.len() as int) =~= t);
    }
}

/// An interpreter error that occurs in the model's error, at any position, is
/// the same failure.
pub proof fn law_contained_error_is_same_failure(r: ReferenceRun, e: String, lean_memory: Option<Vec<u8>>, at: int)
    requires
        r.error_text is Some,
        0 <= at,
        at + r.error_text->0@.len() <= e@.len(),
        e@.subrange(at, at + r.error_text->0@.len()) == r.error_text->0@,
    ensures
        run_verdict(r, Err(e), lean_memory) == RunVerdict::SameFailure,
{
    law_failures_differ_when_neither_text_contains_the_other(r, e, lean_memory);
}

} // verus!
