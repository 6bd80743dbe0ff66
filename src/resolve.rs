use vstd::prelude::*;

use crate::capacity::{
    all_cover_storage, check_lack_of_capacity, names_first_short_output, maximum_withdraw, occupied_capacity, occupied_of,
    withdraw_amount, BYTE_SHANNONS,
};
use crate::chain::{
    CellReference, ChainClient, ChainHeader, Hash256, OutPoint, ResolvedDeposit, Stage,
    TransactionBody, TxRecord, WithdrawError,
};

verus! {

/// A resolved deposit as the chain can produce it: well-formed epochs, the deposit
/// strictly before the prepare, and an occupied capacity made of whole bytes.
pub open spec fn plausible_deposit(d: ResolvedDeposit) -> bool {
    &&& d.deposit_header.epoch.well_formed()
    &&& d.prepare_header.epoch.well_formed()
    &&& !d.prepare_header.epoch.le(d.deposit_header.epoch)
    &&& d.occupied_capacity % BYTE_SHANNONS == 0
}

/// What a node's answer on a transaction means for a withdrawal: the committing block
/// and the transaction, or the reason there are none.
pub fn committed_transaction(stage: Stage, record: Option<TxRecord>) -> (r: Result<
    (Hash256, TransactionBody),
    WithdrawError,
>)
    ensures
        match record {
            None => r == Err::<(Hash256, TransactionBody), WithdrawError>(
                WithdrawError::NotFound(stage),
            ),
            Some(rec) => match rec.block_hash {
                None => r == Err::<(Hash256, TransactionBody), WithdrawError>(
                    WithdrawError::NotCommitted(stage),
                ),
                Some(block_hash) => match rec.transaction {
                    None => r == Err::<(Hash256, TransactionBody), WithdrawError>(
                        WithdrawError::Rejected(stage),
                    ),
                    Some(tx) => r == Ok::<(Hash256, TransactionBody), WithdrawError>(
                        (block_hash, tx),
                    ),
                },
            },
        },
{
    match record {
        None => Err(WithdrawError::NotFound(stage)),
        Some(rec) => match rec.block_hash {
            None => Err(WithdrawError::NotCommitted(stage)),
            Some(block_hash) => match rec.transaction {
                None => Err(WithdrawError::Rejected(stage)),
                Some(tx) => Ok((block_hash, tx)),
            },
        },
    }
}

/// The deposit cell that the prepare transaction spent: its input at the index of the
/// prepared cell.
pub fn deposit_out_point(prepare_tx: &TransactionBody, prepare_cell: &CellReference) -> (r:
    Result<OutPoint, WithdrawError>)
    ensures
        prepare_cell.output_index < prepare_tx.inputs@.len() ==> r == Ok::<
            OutPoint,
            WithdrawError,
        >(prepare_tx.inputs@[prepare_cell.output_index as int]),
        prepare_cell.output_index >= prepare_tx.inputs@.len() ==> r == Err::<
            OutPoint,
            WithdrawError,
        >(WithdrawError::MalformedPrepareTx),
{
    let i: usize = prepare_cell.output_index as usize;
    if i < prepare_tx.inputs.len() {
        Ok(prepare_tx.inputs[i])
    } else {
        Err(WithdrawError::MalformedPrepareTx)
    }
}

/// Declared and occupied capacity of the deposit cell.
pub fn deposit_capacities(deposit_tx: &TransactionBody, out_point: &OutPoint) -> (r: Result<
    (u64, u64),
    WithdrawError,
>)
    ensures
        out_point.index >= deposit_tx.outputs@.len() ==> r == Err::<(u64, u64), WithdrawError>(
            WithdrawError::MalformedDepositTx,
        ),
        out_point.index < deposit_tx.outputs@.len() ==> ({
            let cell = deposit_tx.outputs@[out_point.index as int];
            if occupied_of(cell) <= u64::MAX {
                r == Ok::<(u64, u64), WithdrawError>((cell.capacity, occupied_of(cell) as u64))
            } else {
                r == Err::<(u64, u64), WithdrawError>(WithdrawError::ArithmeticOverflow)
            }
        }),
{
    let i: usize = out_point.index as usize;
    if i >= deposit_tx.outputs.len() {
        return Err(WithdrawError::MalformedDepositTx);
    }
    let cell = &deposit_tx.outputs[i];
    match occupied_capacity(cell) {
        Ok(occupied) => Ok((cell.capacity, occupied)),
        Err(e) => Err(e),
    }
}

/// Puts the fetched headers and the deposit cell's capacities together, checking that
/// both headers came back and that the deposit epoch is strictly before the prepare
/// epoch.
pub fn assemble_deposit(
    deposit_header: Option<ChainHeader>,
    prepare_header: Option<ChainHeader>,
    output_capacity: u64,
    occupied_capacity: u64,
) -> (r: Result<ResolvedDeposit, WithdrawError>)
    ensures
        match (deposit_header, prepare_header) {
            (None, _) => r == Err::<ResolvedDeposit, WithdrawError>(
                WithdrawError::HeaderUnavailable(Stage::Deposit),
            ),
            (Some(_), None) => r == Err::<ResolvedDeposit, WithdrawError>(
                WithdrawError::HeaderUnavailable(Stage::Prepare),
            ),
            (Some(d), Some(p)) => {
                let resolved = ResolvedDeposit {
                    deposit_header: d,
                    prepare_header: p,
                    output_capacity,
                    occupied_capacity,
                };
                if d.epoch.well_formed() && p.epoch.well_formed() && !p.epoch.le(d.epoch) {
                    r == Ok::<ResolvedDeposit, WithdrawError>(resolved)
                } else {
                    r == Err::<ResolvedDeposit, WithdrawError>(WithdrawError::MalformedPrepareTx)
                }
            },
        },
{
    let d = match deposit_header {
        Some(d) => d,
        None => return Err(WithdrawError::HeaderUnavailable(Stage::Deposit)),
    };
    let p = match prepare_header {
        Some(p) => p,
        None => return Err(WithdrawError::HeaderUnavailable(Stage::Prepare)),
    };
    if !d.epoch.is_well_formed() || !p.epoch.is_well_formed() || p.epoch.is_at_most(&d.epoch) {
        return Err(WithdrawError::MalformedPrepareTx);
    }
    Ok(ResolvedDeposit {
        deposit_header: d,
        prepare_header: p,
        output_capacity,
        occupied_capacity,
    })
}

/// A committed transaction fetched from the node.
fn fetch_committed<C: ChainClient>(client: &mut C, stage: Stage, tx_hash: &Hash256) -> (r:
    Result<(Hash256, TransactionBody), WithdrawError>) {
    match client.get_transaction(tx_hash) {
        Ok(record) => committed_transaction(stage, record),
        Err(message) => Err(WithdrawError::TransportError(message)),
    }
}

/// A header fetched from the node; `None` when the node has none.
fn fetch_header<C: ChainClient>(client: &mut C, block_hash: &Hash256) -> (r: Result<
    Option<ChainHeader>,
    WithdrawError,
>) {
    match client.get_header(block_hash) {
        Ok(header) => Ok(header),
        Err(message) => Err(WithdrawError::TransportError(message)),
    }
}

/// Traces a prepared cell back to its deposit: the prepare transaction, the deposit
/// cell it spent, the deposit transaction, and the headers of both committing blocks.
/// The node is asked in that order, and the first failure ends the resolution.
pub fn resolve<C: ChainClient>(client: &mut C, prepare_cell: &CellReference) -> (r: Result<
    ResolvedDeposit,
    WithdrawError,
>)
    ensures
        r matches Ok(d) ==> plausible_deposit(d),
{
    let (prepare_block, prepare_tx) = fetch_committed(
        client,
        Stage::Prepare,
        &prepare_cell.tx_hash,
    )?;
    let out_point = deposit_out_point(&prepare_tx, prepare_cell)?;
    let (deposit_block, deposit_tx) = fetch_committed(client, Stage::Deposit, &out_point.tx_hash)?;
    let (output_capacity, occupied) = deposit_capacities(&deposit_tx, &out_point)?;
    let deposit_header = fetch_header(client, &deposit_block)?;
    let prepare_header = fetch_header(client, &prepare_block)?;
    proof {
        if out_point.index < deposit_tx.outputs@.len() {
            let cell = deposit_tx.outputs@[out_point.index as int];
            assert(occupied_of(cell) % (BYTE_SHANNONS as int) == 0) by (nonlinear_arith)
                requires
                    occupied_of(cell) == (cell.base_size + cell.data@.len()) * BYTE_SHANNONS,
            ;
        }
    }
    assemble_deposit(deposit_header, prepare_header, output_capacity, occupied)
}

/// Largest amount that the deposit behind a prepared cell redeems, computed from the
/// chain data that `resolve` gathers.
pub fn calculate_dao_maximum_withdraw<C: ChainClient>(
    client: &mut C,
    prepare_cell: &CellReference,
) -> (r: Result<u64, WithdrawError>)
    ensures
        r matches Ok(v) ==> exists|d: ResolvedDeposit|
            plausible_deposit(d) && d.occupied_capacity <= d.output_capacity && v
                == withdraw_amount(
                d.deposit_header.dao.accumulated_rate as int,
                d.prepare_header.dao.accumulated_rate as int,
                d.output_capacity as int,
                d.occupied_capacity as int,
            ),
{
    let d = resolve(client, prepare_cell)?;
    let v = maximum_withdraw(
        &d.deposit_header,
        &d.prepare_header,
        d.output_capacity,
        d.occupied_capacity,
    )?;
    assert(plausible_deposit(d));
    Ok(v)
}

/// Sends a withdrawal transaction once every output covers its own storage; shows it
/// first when `debug` is set. The node's answer is passed on unchanged.
pub fn send_transaction<C: ChainClient>(client: &mut C, tx: &TransactionBody, debug: bool) -> (r:
    Result<Hash256, WithdrawError>)
    ensures
        all_cover_storage(*tx) ==> (r is Ok || r matches Err(WithdrawError::TransportError(_))),
        !all_cover_storage(*tx) ==> (r matches Err(e) && names_first_short_output(*tx, e)),
{
    check_lack_of_capacity(tx)?;
    if debug {
        client.show_preview(tx);
    }
    match client.send_transaction(tx) {
        Ok(hash) => Ok(hash),
        Err(message) => Err(WithdrawError::TransportError(message)),
    }
}

} // verus!
