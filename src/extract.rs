//! Decoding of pool token pairs from a resolved transaction.
//!
//! The watched program lays out its pool-creation accounts at fixed
//! positions: the two tokens sit at indices 8 and 9 of the account list.
use vstd::prelude::*;
use crate::model::{Address, Instruction, PoolTokenPair, TransactionRecord};

verus! {

/// Position of the first token in a pool-creation instruction's accounts.
pub const TOKEN0_INDEX: usize = 8;

/// Position of the second token in a pool-creation instruction's accounts.
pub const TOKEN1_INDEX: usize = 9;

/// Fewest accounts a pool-creation instruction can carry.
pub const MIN_ACCOUNTS: usize = 10;

#[derive(Clone, Copy, Debug, PartialEq, Eq, Structural)]
pub enum ExtractError {
    /// An instruction of the watched program has too few accounts to hold
    /// both tokens.
    MalformedInstruction,
}

/// The instruction was issued to the watched program.
pub open spec fn qualifies(ins: Instruction, program: Address) -> bool {
    ins.issuing_program == program
}

/// The instruction was issued to the watched program but breaks its layout.
pub open spec fn malformed(ins: Instruction, program: Address) -> bool {
    qualifies(ins, program) && ins.accounts@.len() < MIN_ACCOUNTS
}

/// Some instruction of the sequence is malformed.
pub open spec fn any_malformed(instrs: Seq<Instruction>, program: Address) -> bool {
    exists|i: int| 0 <= i < instrs.len() && #[trigger] malformed(instrs[i], program)
}

/// The pair read from an instruction's fixed account positions.
pub open spec fn pair_of(ins: Instruction) -> PoolTokenPair {
    PoolTokenPair {
        token0: ins.accounts@[TOKEN0_INDEX as int],
        token1: ins.accounts@[TOKEN1_INDEX as int],
    }
}

/// One pair per qualifying instruction, in transaction order.
pub open spec fn pairs_of(instrs: Seq<Instruction>, program: Address) -> Seq<PoolTokenPair>
    decreases instrs.len(),
{
    if instrs.len() == 0 {
        Seq::empty()
    } else {
        let rest = pairs_of(instrs.drop_last(), program);
        if qualifies(instrs.last(), program) {
            rest.push(pair_of(instrs.last()))
        } else {
            rest
        }
    }
}

/// How many instructions of the sequence qualify.
pub open spec fn count_qualifying(instrs: Seq<Instruction>, program: Address) -> nat
    decreases instrs.len(),
{
    if instrs.len() == 0 {
        0
    } else {
        count_qualifying(instrs.drop_last(), program) + if qualifies(instrs.last(), program) {
            1nat
        } else {
            0nat
        }
    }
}

/// What `extract` owes on `instrs`: a failure exactly when an instruction
/// of `program` is malformed, and otherwise one pair per qualifying
/// instruction, in transaction order.
pub open spec fn extract_outcome(
    instrs: Seq<Instruction>,
    program: Address,
    r: Result<Vec<PoolTokenPair>, ExtractError>,
) -> bool {
    &&& r is Err <==> any_malformed(instrs, program)
    &&& r is Err ==> r->Err_0 == ExtractError::MalformedInstruction
    &&& r is Ok ==> r->Ok_0@ == pairs_of(instrs, program)
}

/// Decodes every pool token pair of `record` issued to `program`.
///
/// Fails when an instruction of `program` has fewer than `MIN_ACCOUNTS`
/// accounts; no pair is returned then.
pub fn extract(record: &TransactionRecord, program: &Address) -> (r: Result<
    Vec<PoolTokenPair>,
    ExtractError,
>)
    ensures
        extract_outcome(record.instructions@, *program, r),
{
    let instrs = &record.instructions;
    let mut pairs: Vec<PoolTokenPair> = Vec::new();
    let mut i: usize = 0;
    while i < instrs.len()
        invariant
            0 <= i <= instrs@.len(),
            instrs@ == record.instructions@,
            !any_malformed(instrs@.take(i as int), *program),
            pairs@ == pairs_of(instrs@.take(i as int), *program),
        decreases instrs@.len() - i,
    {
        let ins = &instrs[i];
        assert(instrs@.take(i + 1).drop_last() =~= instrs@.take(i as int));
        if ins.issuing_program.same_as(program) {
            if ins.accounts.len() < MIN_ACCOUNTS {
                assert(malformed(record.instructions@[i as int], *program));
                assert(any_malformed(record.instructions@, *program));
                return Err(ExtractError::MalformedInstruction);
            }
            pairs.push(PoolTokenPair { token0: ins.accounts[TOKEN0_INDEX], token1: ins.accounts[TOKEN1_INDEX] });
        }
        assert(!any_malformed(instrs@.take(i + 1), *program)) by {
            assert forall|j: int| 0 <= j < i + 1 implies !malformed(
                #[trigger] instrs@.take(i + 1)[j],
                *program,
            ) by {
                if j < i {
                    assert(instrs@.take(i + 1)[j] == instrs@.take(i as int)[j]);
                }
            }
        }
        i = i + 1;
    }
    assert(instrs@.take(i as int) =~= instrs@);
    Ok(pairs)
}

/// The pairs are exactly one per qualifying instruction: as many as there
/// are qualifying instructions, and none when no instruction qualifies.
pub proof fn lemma_one_pair_per_qualifying(instrs: Seq<Instruction>, program: Address)
    ensures
        pairs_of(instrs, program).len() == count_qualifying(instrs, program),
        (forall|i: int| 0 <= i < instrs.len() ==> !#[trigger] qualifies(instrs[i], program))
            ==> pairs_of(instrs, program).len() == 0,
    decreases instrs.len(),
{
    if instrs.len() > 0 {
        lemma_one_pair_per_qualifying(instrs.drop_last(), program);
        if forall|i: int| 0 <= i < instrs.len() ==> !#[trigger] qualifies(instrs[i], program) {
            assert forall|i: int| 0 <= i < instrs.drop_last().len() implies !#[trigger] qualifies(
                instrs.drop_last()[i],
                program,
            ) by {
                assert(instrs.drop_last()[i] == instrs[i]);
            }
            assert(!qualifies(instrs[instrs.len() - 1], program));
        }
    }
}

/// Decoding has no hidden state: two results that both meet `extract`'s
/// contract on the same record and program are the same.
pub proof fn lemma_extract_deterministic(
    record: TransactionRecord,
    program: Address,
    first: Result<Vec<PoolTokenPair>, ExtractError>,
    second: Result<Vec<PoolTokenPair>, ExtractError>,
)
    requires
        extract_outcome(record.instructions@, program, first),
        extract_outcome(record.instructions@, program, second),
    ensures
        first is Ok <==> second is Ok,
        first is Ok ==> first->Ok_0@ == second->Ok_0@,
        first is Err ==> first == second,
{
}

} // verus!
