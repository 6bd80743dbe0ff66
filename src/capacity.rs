use vstd::prelude::*;

use crate::chain::{CellOutput, ChainHeader, TransactionBody, WithdrawError};
use crate::epoch::lemma_wide_product;

verus! {

/// Shannons of capacity that one byte of storage takes.
pub const BYTE_SHANNONS: u64 = 100_000_000;

/// Capacity, in shannons, that `n` bytes of storage take.
pub open spec fn bytes_capacity(n: int) -> int {
    n * BYTE_SHANNONS
}

/// Capacity that an output and its data take on chain.
pub open spec fn occupied_of(output: CellOutput) -> int {
    bytes_capacity(output.base_size + output.data@.len())
}

/// The output declares enough capacity for its own storage.
pub open spec fn covers_storage(output: CellOutput) -> bool {
    output.capacity >= occupied_of(output)
}

/// Every output of the transaction covers its own storage.
pub open spec fn all_cover_storage(tx: TransactionBody) -> bool {
    forall|i: int| 0 <= i < tx.outputs@.len() ==> covers_storage(#[trigger] tx.outputs@[i])
}

/// `e` names the first output of `tx` that does not cover its own storage.
pub open spec fn names_first_short_output(tx: TransactionBody, e: WithdrawError) -> bool {
    e matches WithdrawError::InsufficientCapacity { output_index } && (output_index
        < tx.outputs@.len() && !covers_storage(tx.outputs@[output_index as int]) && forall|
        j: int,
    | 0 <= j < output_index ==> covers_storage(#[trigger] tx.outputs@[j]))
}

/// Largest amount a deposit redeems: the occupied part as it is, the rest grown by the
/// ratio of accumulated rates, truncated toward zero.
pub open spec fn withdraw_amount(
    deposit_rate: int,
    prepare_rate: int,
    output_capacity: int,
    occupied_capacity: int,
) -> int {
    occupied_capacity + (output_capacity - occupied_capacity) * prepare_rate / deposit_rate
}

/// Capacity of `n` bytes of storage, or `None` when it does not fit in 64 bits.
pub fn capacity_of_bytes(n: u64) -> (r: Option<u64>)
    ensures
        r is Some <==> bytes_capacity(n as int) <= u64::MAX,
        r matches Some(v) ==> v == bytes_capacity(n as int),
{
    n.checked_mul(BYTE_SHANNONS)
}

/// Capacity that an output and its data take on chain.
pub fn occupied_capacity(output: &CellOutput) -> (r: Result<u64, WithdrawError>)
    ensures
        r is Ok <==> occupied_of(*output) <= u64::MAX,
        r matches Ok(v) ==> v == occupied_of(*output),
        r matches Err(e) ==> e == WithdrawError::ArithmeticOverflow,
{
    let data_len: u64 = output.data.len() as u64;
    match output.base_size.checked_add(data_len) {
        Some(size) => match capacity_of_bytes(size) {
            Some(v) => Ok(v),
            None => Err(WithdrawError::ArithmeticOverflow),
        },
        None => {
            assert(occupied_of(*output) > u64::MAX) by (nonlinear_arith)
                requires
                    output.base_size + output.data@.len() > u64::MAX,
                    occupied_of(*output) == (output.base_size + output.data@.len())
                        * BYTE_SHANNONS,
            ;
            Err(WithdrawError::ArithmeticOverflow)
        },
    }
}

/// Largest amount, in shannons, that a deposit of `output_capacity` (of which
/// `occupied_capacity` is storage) redeems when prepared under `prepare_header`.
pub fn maximum_withdraw(
    deposit_header: &ChainHeader,
    prepare_header: &ChainHeader,
    output_capacity: u64,
    occupied_capacity: u64,
) -> (r: Result<u64, WithdrawError>)
    ensures
        ({
            let amount = withdraw_amount(
                deposit_header.dao.accumulated_rate as int,
                prepare_header.dao.accumulated_rate as int,
                output_capacity as int,
                occupied_capacity as int,
            );
            if output_capacity < occupied_capacity {
                r == Err::<u64, WithdrawError>(WithdrawError::InvalidCapacity)
            } else if deposit_header.dao.accumulated_rate == 0 {
                r == Err::<u64, WithdrawError>(WithdrawError::InvalidRate)
            } else if amount > u64::MAX {
                r == Err::<u64, WithdrawError>(WithdrawError::ArithmeticOverflow)
            } else {
                r == Ok::<u64, WithdrawError>(amount as u64)
            }
        }),
{
    if output_capacity < occupied_capacity {
        return Err(WithdrawError::InvalidCapacity);
    }
    let deposit_rate: u64 = deposit_header.dao.accumulated_rate;
    let prepare_rate: u64 = prepare_header.dao.accumulated_rate;
    if deposit_rate == 0 {
        return Err(WithdrawError::InvalidRate);
    }
    let counted: u64 = output_capacity - occupied_capacity;
    proof {
        lemma_wide_product(counted, prepare_rate);
    }
    let grown: u128 = counted as u128 * prepare_rate as u128 / deposit_rate as u128;
    if grown > (u64::MAX - occupied_capacity) as u128 {
        return Err(WithdrawError::ArithmeticOverflow);
    }
    Ok(occupied_capacity + grown as u64)
}

/// The amount grows with the prepare rate, and equals the whole output capacity when
/// the two rates are equal.
pub proof fn lemma_withdraw_monotone(
    deposit_rate: int,
    prepare_rate: int,
    higher_rate: int,
    output_capacity: int,
    occupied_capacity: int,
)
    requires
        deposit_rate > 0,
        0 <= prepare_rate <= higher_rate,
        0 <= occupied_capacity <= output_capacity,
    ensures
        withdraw_amount(deposit_rate, prepare_rate, output_capacity, occupied_capacity)
            <= withdraw_amount(deposit_rate, higher_rate, output_capacity, occupied_capacity),
        withdraw_amount(deposit_rate, deposit_rate, output_capacity, occupied_capacity)
            == output_capacity,
{
    let counted = output_capacity - occupied_capacity;
    assert(counted * prepare_rate <= counted * higher_rate) by (nonlinear_arith)
        requires
            counted >= 0,
            prepare_rate <= higher_rate,
    ;
    vstd::arithmetic::div_mod::lemma_div_is_ordered(
        counted * prepare_rate,
        counted * higher_rate,
        deposit_rate,
    );
    vstd::arithmetic::div_mod::lemma_div_multiples_vanish(counted, deposit_rate);
    assert(counted * deposit_rate == deposit_rate * counted) by (nonlinear_arith);
}

/// Outputs of `tx`, each checked in order against its own storage; the first output
/// that declares too little capacity is named in the error.
pub fn check_lack_of_capacity(tx: &TransactionBody) -> (r: Result<(), WithdrawError>)
    ensures
        r is Ok <==> all_cover_storage(*tx),
        r matches Err(e) ==> names_first_short_output(*tx, e),
{
    let n: usize = tx.outputs.len();
    let mut i: usize = 0;
    while i < n
        invariant
            n == tx.outputs@.len(),
            i <= n,
            forall|j: int| 0 <= j < i ==> covers_storage(#[trigger] tx.outputs@[j]),
        decreases n - i,
    {
        let output = &tx.outputs[i];
        let enough = match occupied_capacity(output) {
            Ok(occupied) => output.capacity >= occupied,
            Err(_) => false,
        };
        if !enough {
            return Err(WithdrawError::InsufficientCapacity { output_index: i });
        }
        i = i + 1;
    }
    Ok(())
}

} // verus!
