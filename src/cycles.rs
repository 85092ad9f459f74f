use vstd::prelude::*;

verus! {

/// Cycles charged for one asset registration, before the price is applied.
pub const BANK_REGISTER_CYCLES: u64 = 21000;

/// An action whose cost is metered in cycles.
#[derive(Clone, Copy, Debug, PartialEq, Eq, Structural)]
pub enum CyclesAction {
    BankRegister,
}

/// The cycles that an action costs at a price of one.
pub open spec fn action_cycles(action: CyclesAction) -> nat {
    match action {
        CyclesAction::BankRegister => BANK_REGISTER_CYCLES as nat,
    }
}

/// The cost of an action at the given cycle price.
pub open spec fn action_cost(action: CyclesAction, price: u64) -> int {
    action_cycles(action) * price
}

/// The meter refused to charge beyond the limit.
#[derive(Clone, Copy, Debug, PartialEq, Eq, Structural)]
pub enum CyclesError {
    OutOfCycles,
}

pub fn get_cycles(action: CyclesAction) -> (r: u64)
    ensures
        r == action_cycles(action),
{
    match action {
        CyclesAction::BankRegister => BANK_REGISTER_CYCLES,
    }
}

/// Adds the cost of `action` at `cycles_price` to `fee`, unless the sum would
/// exceed `limit`; then fails and leaves `fee` as it was.
pub fn consume_cycles(action: CyclesAction, cycles_price: u64, fee: &mut u64, limit: &u64) -> (r:
    Result<(), CyclesError>)
    ensures
        r is Ok <==> *old(fee) + action_cost(action, cycles_price) <= *limit,
        r is Ok ==> *final(fee) == *old(fee) + action_cost(action, cycles_price),
        r is Err ==> r == Err::<(), CyclesError>(CyclesError::OutOfCycles) && *final(fee) == *old(fee),
{
    let cycles = get_cycles(action);
    let cost = match cycles.checked_mul(cycles_price) {
        Some(c) => c,
        None => {
            proof {
                assert(action_cost(action, cycles_price) > u64::MAX);
            }
            return Err(CyclesError::OutOfCycles);
        },
    };
    let total = match fee.checked_add(cost) {
        Some(t) => t,
        None => {
            return Err(CyclesError::OutOfCycles);
        },
    };
    if total > *limit {
        return Err(CyclesError::OutOfCycles);
    }
    *fee = total;
    Ok(())
}

} // verus!
