//! The request that the harness sends to the Lean model, the reply that the
//! model sends back, and the machine state that the harness reads from it.
//!
//! Numbers travel as decimal text; the JSON framing around these values is
//! done by the caller.
use vstd::prelude::*;
use crate::decimal::{decimal, parsed_or_zero, u64_to_decimal, parse_u64_or_zero};

verus! {

/// One entry of a function registry: a key, the function's symbol and its
/// address as decimal text.
pub struct FunctionRegistryEntry {
    pub key: u32,
    pub symbol: Vec<u8>,
    pub address: String,
}

/// An execution request for the Lean model.
pub struct Request {
    pub code: Vec<u8>,
    pub input: Vec<u8>,
    pub code_vaddr: String,
    pub pc: String,
    pub version: u8,
    pub remaining_steps: String,
    pub max_call_depth: String,
    pub stack_len: String,
    pub function_registry: Vec<FunctionRegistryEntry>,
    pub loader_function_registry: Vec<FunctionRegistryEntry>,
}

/// The Lean model's reply to a [`Request`].
pub struct Response {
    pub status: String,
    pub regs: Vec<String>,
    pub pc: String,
    pub program_result: String,
    pub halted: bool,
}

/// The machine state that the Lean model reports after an execution.
pub struct LeanVmState {
    pub input: Vec<u8>,
    pub regs: Vec<u64>,
    pub pc: u64,
    pub halted: bool,
    pub program_result: String,
}

/// The register values that the reply's register texts denote, each text
/// that denotes no number read as zero.
pub open spec fn reply_registers(regs: Seq<String>) -> Seq<u64> {
    regs.map_values(|s: String| parsed_or_zero(s@))
}

impl FunctionRegistryEntry {
    /// The entry for a function of the program's registry, at `address`.
    pub fn registry_entry(key: u32, symbol: Vec<u8>, address: u64) -> (e: FunctionRegistryEntry)
        ensures
            e.key == key,
            e.symbol@ == symbol@,
            e.address@ == decimal(address as nat),
    {
        FunctionRegistryEntry { key, symbol, address: u64_to_decimal(address) }
    }

    /// The entry for a function of the loader's registry, whose address is
    /// always given as zero.
    pub fn loader_registry_entry(key: u32, symbol: Vec<u8>) -> (e: FunctionRegistryEntry)
        ensures
            e.key == key,
            e.symbol@ == symbol@,
            e.address@ == seq!['0'],
    {
        let e = FunctionRegistryEntry::registry_entry(key, symbol, 0);
        assert(decimal(0) == seq!['0']);
        e
    }
}

impl Request {
    /// The request to run `code` on `input`: numbers are written as decimal
    /// text, everything else is carried as it is.
    pub fn lean_request(
        code: Vec<u8>,
        input: &Vec<u8>,
        code_vaddr: u64,
        pc: u64,
        version: u8,
        remaining_steps: u64,
        max_call_depth: u64,
        stack_len: u64,
        function_registry: Vec<FunctionRegistryEntry>,
        loader_function_registry: Vec<FunctionRegistryEntry>,
    ) -> (r: Request)
        ensures
            r.code@ == code@,
            r.input@ == input@,
            r.code_vaddr@ == decimal(code_vaddr as nat),
            r.pc@ == decimal(pc as nat),
            r.version == version,
            r.remaining_steps@ == decimal(remaining_steps as nat),
            r.max_call_depth@ == decimal(max_call_depth as nat),
            r.stack_len@ == decimal(stack_len as nat),
            r.function_registry@ == function_registry@,
            r.loader_function_registry@ == loader_function_registry@,
    {
        let input_copy = input.clone();
        assert(input_copy@ =~= input@);
        Request {
            code,
            input: input_copy,
            code_vaddr: u64_to_decimal(code_vaddr),
            pc: u64_to_decimal(pc),
            version,
            remaining_steps: u64_to_decimal(remaining_steps),
            max_call_depth: u64_to_decimal(max_call_depth),
            stack_len: u64_to_decimal(stack_len),
            function_registry,
            loader_function_registry,
        }
    }
}

impl LeanVmState {
    /// The machine state that `response` reports for a run on `input`:
    /// registers and program counter are read from their decimal text, a
    /// text that denotes no number giving zero.
    pub fn from_response(input: Vec<u8>, response: Response) -> (s: LeanVmState)
        ensures
            s.input@ == input@,
            s.regs@ == reply_registers(response.regs@),
            s.regs@.len() == response.regs@.len(),
            forall|i: int| 0 <= i < s.regs@.len() ==> #[trigger] s.regs@[i] == parsed_or_zero(response.regs@[i]@),
            s.pc == parsed_or_zero(response.pc@),
            s.halted == response.halted,
            s.program_result@ == response.program_result@,
    {
        let mut regs: Vec<u64> = Vec::new();
        let n = response.regs.len();
        let mut i: usize = 0;
        while i < n
            invariant
                i <= n,
                n == response.regs@.len(),
                regs@ == reply_registers(response.regs@.subrange(0, i as int)),
            decreases n - i,
        {
            let v = parse_u64_or_zero(response.regs[i].as_str());
            regs.push(v);
            assert(response.regs@.subrange(0, i as int + 1) == response.regs@.subrange(0, i as int).push(response.regs@[i as int]));
            assert(regs@ =~= reply_registers(response.regs@.subrange(0, i as int + 1)));
            i = i + 1;
        }
        assert(response.regs@.subrange(0, n as int) == response.regs@);
        let pc = parse_u64_or_zero(response.pc.as_str());
        LeanVmState { input, regs, pc, halted: response.halted, program_result: response.program_result }
    }
}

/// Every register text of a reply gives one register, in order: the list is
/// as long as the reply's, and register `i` is what text `i` denotes (zero
/// where it denotes no number).
pub proof fn law_every_reply_register_kept(regs: Seq<String>)
    ensures
        reply_registers(regs).len() == regs.len(),
        forall|i: int| 0 <= i < regs.len() ==> #[trigger] reply_registers(regs)[i] == parsed_or_zero(regs[i]@),
{
}

/// A longer reply gives a longer register list whose front is the shorter
/// reply's list: appending a register text appends its value.
pub proof fn law_reply_registers_extend(regs: Seq<String>, s: String)
    ensures
        reply_registers(regs.push(s)) == reply_registers(regs).push(parsed_or_zero(s@)),
{
    assert(reply_registers(regs.push(s)) =~= reply_registers(regs).push(parsed_or_zero(s@)));
}

} // verus!
