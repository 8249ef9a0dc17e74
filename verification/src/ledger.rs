//! The balances that a transfer touches, and the fund movements of a
//! transfer, carried out as one step that takes effect wholly or not at all.

use vstd::prelude::*;
use crate::errors::HostError;

verus! {

/// The two currencies of the ledger.
#[derive(Clone, Copy, Debug, PartialEq, Eq, Structural)]
pub enum Asset {
    /// The stablecoin that is bridged.
    Usdc,
    /// The native currency of the ledger.
    Native,
}

/// Where a fund movement pays to. Every movement pays from the requester.
#[derive(Clone, Copy, Debug, PartialEq, Eq, Structural)]
pub enum Payee {
    FeeCollectorUsdc,
    FeeCollectorSol,
    GasDropCollectorUsdc,
    GasDropCollectorSol,
    /// The holding area from which the net amount is burned.
    Custody,
}

impl Payee {
    /// The currency in which the payee is paid.
    pub open spec fn asset(self) -> Asset {
        match self {
            Payee::FeeCollectorSol | Payee::GasDropCollectorSol => Asset::Native,
            _ => Asset::Usdc,
        }
    }

    /// The movement into custody is the one that the custodian authorizes.
    pub open spec fn needs_custodian(self) -> bool {
        self == Payee::Custody
    }

    /// The currency in which the payee is paid.
    pub fn currency(self) -> (a: Asset)
        ensures
            a == self.asset(),
    {
        match self {
            Payee::FeeCollectorSol | Payee::GasDropCollectorSol => Asset::Native,
            _ => Asset::Usdc,
        }
    }

    /// Tells whether the custodian has to authorize the movement.
    pub fn custodian_signs(self) -> (b: bool)
        ensures
            b == self.needs_custodian(),
    {
        match self {
            Payee::Custody => true,
            _ => false,
        }
    }
}

/// One payment from the requester.
#[derive(Clone, Copy, Debug, PartialEq, Eq, Structural)]
pub struct FundMovement {
    pub payee: Payee,
    pub amount: u64,
}

/// The fund movements of a transfer, in the order in which they are made:
/// the stablecoin fee; in native mode the server fee and, if there is one,
/// the gas drop, both in native currency; otherwise the gas drop in
/// stablecoin, if there is one; last the net amount into custody.
pub open spec fn fund_movements(
    usdc_fee_amount: u64,
    fee: u64,
    gas_drop_amount: u64,
    fee_is_native: bool,
    amount: u64,
) -> Seq<FundMovement> {
    let first = seq![FundMovement { payee: Payee::FeeCollectorUsdc, amount: usdc_fee_amount }];
    let server = if fee_is_native {
        seq![FundMovement { payee: Payee::FeeCollectorSol, amount: fee }]
    } else {
        Seq::<FundMovement>::empty()
    };
    let gas = if gas_drop_amount == 0 {
        Seq::<FundMovement>::empty()
    } else if fee_is_native {
        seq![FundMovement { payee: Payee::GasDropCollectorSol, amount: gas_drop_amount }]
    } else {
        seq![FundMovement { payee: Payee::GasDropCollectorUsdc, amount: gas_drop_amount }]
    };
    let last = seq![FundMovement { payee: Payee::Custody, amount }];
    first + server + gas + last
}

/// Lists the fund movements of a transfer in the order in which they are
/// made.
pub fn plan_fund_movements(
    usdc_fee_amount: u64,
    fee: u64,
    gas_drop_amount: u64,
    fee_is_native: bool,
    amount: u64,
) -> (movements: Vec<FundMovement>)
    ensures
        movements@ == fund_movements(usdc_fee_amount, fee, gas_drop_amount, fee_is_native, amount),
{
    let mut movements: Vec<FundMovement> = Vec::new();
    movements.push(FundMovement { payee: Payee::FeeCollectorUsdc, amount: usdc_fee_amount });
    if fee_is_native {
        movements.push(FundMovement { payee: Payee::FeeCollectorSol, amount: fee });
        if gas_drop_amount > 0 {
            movements.push(
                FundMovement { payee: Payee::GasDropCollectorSol, amount: gas_drop_amount },
            );
        }
    } else {
        if gas_drop_amount > 0 {
            movements.push(
                FundMovement { payee: Payee::GasDropCollectorUsdc, amount: gas_drop_amount },
            );
        }
    }
    movements.push(FundMovement { payee: Payee::Custody, amount });
    assert(movements@ =~= fund_movements(
        usdc_fee_amount,
        fee,
        gas_drop_amount,
        fee_is_native,
        amount,
    ));
    movements
}

/// The balances that a transfer touches: those of the requester, of the four
/// collectors, and of the custody holding area.
#[derive(Clone, Copy, Debug, PartialEq, Eq, Structural)]
pub struct Balances {
    pub owner_usdc: u64,
    pub owner_native: u64,
    pub fee_collector_usdc: u64,
    pub fee_collector_sol: u64,
    pub gas_drop_collector_usdc: u64,
    pub gas_drop_collector_sol: u64,
    pub custody: u64,
}

impl Balances {
    /// What the requester holds in the currency of a payee.
    pub open spec fn payer_balance(&self, payee: Payee) -> u64 {
        match payee.asset() {
            Asset::Usdc => self.owner_usdc,
            Asset::Native => self.owner_native,
        }
    }

    /// What a payee holds.
    pub open spec fn payee_balance(&self, payee: Payee) -> u64 {
        match payee {
            Payee::FeeCollectorUsdc => self.fee_collector_usdc,
            Payee::FeeCollectorSol => self.fee_collector_sol,
            Payee::GasDropCollectorUsdc => self.gas_drop_collector_usdc,
            Payee::GasDropCollectorSol => self.gas_drop_collector_sol,
            Payee::Custody => self.custody,
        }
    }

    /// All stablecoin on the books.
    pub open spec fn total_usdc(&self) -> int {
        self.owner_usdc + self.fee_collector_usdc + self.gas_drop_collector_usdc + self.custody
    }

    /// All native currency on the books.
    pub open spec fn total_native(&self) -> int {
        self.owner_native + self.fee_collector_sol + self.gas_drop_collector_sol
    }

    /// The balances with the requester's holdings replaced.
    pub open spec fn with_payer(&self, asset: Asset, balance: u64) -> Balances {
        match asset {
            Asset::Usdc => Balances { owner_usdc: balance, ..*self },
            Asset::Native => Balances { owner_native: balance, ..*self },
        }
    }

    /// The balances with the holdings of one payee replaced.
    pub open spec fn with_payee(&self, payee: Payee, balance: u64) -> Balances {
        match payee {
            Payee::FeeCollectorUsdc => Balances { fee_collector_usdc: balance, ..*self },
            Payee::FeeCollectorSol => Balances { fee_collector_sol: balance, ..*self },
            Payee::GasDropCollectorUsdc => Balances { gas_drop_collector_usdc: balance, ..*self },
            Payee::GasDropCollectorSol => Balances { gas_drop_collector_sol: balance, ..*self },
            Payee::Custody => Balances { custody: balance, ..*self },
        }
    }

    /// The balances after one movement, or the reason for which it fails: the
    /// requester holds too little, or else the payee would hold too much.
    pub open spec fn after(&self, movement: FundMovement) -> Result<Balances, HostError> {
        if self.payer_balance(movement.payee) < movement.amount {
            Err(HostError::InsufficientFunds)
        } else if self.payee_balance(movement.payee) + movement.amount > u64::MAX {
            Err(HostError::BalanceOverflow)
        } else {
            Ok(
                self.with_payer(
                    movement.payee.asset(),
                    (self.payer_balance(movement.payee) - movement.amount) as u64,
                ).with_payee(
                    movement.payee,
                    (self.payee_balance(movement.payee) + movement.amount) as u64,
                ),
            )
        }
    }

    /// The balances after all movements in turn, or the failure of the first
    /// movement that fails.
    pub open spec fn after_all(&self, movements: Seq<FundMovement>) -> Result<Balances, HostError>
        decreases movements.len(),
    {
        if movements.len() == 0 {
            Ok(*self)
        } else {
            match self.after(movements[0]) {
                Ok(next) => next.after_all(movements.subrange(1, movements.len() as int)),
                Err(e) => Err(e),
            }
        }
    }

    /// Carries out one movement, or fails and changes nothing.
    pub fn apply(&mut self, movement: FundMovement) -> (r: Result<(), HostError>)
        ensures
            match old(self).after(movement) {
                Ok(next) => r == Ok::<(), HostError>(()) && *final(self) == next,
                Err(e) => r == Err::<(), HostError>(e) && *final(self) == *old(self),
            },
    {
        let from_usdc: bool = match movement.payee.currency() {
            Asset::Usdc => true,
            Asset::Native => false,
        };
        let payer: u64 = if from_usdc {
            self.owner_usdc
        } else {
            self.owner_native
        };
        if payer < movement.amount {
            return Err(HostError::InsufficientFunds);
        }
        let payee: u64 = match movement.payee {
            Payee::FeeCollectorUsdc => self.fee_collector_usdc,
            Payee::FeeCollectorSol => self.fee_collector_sol,
            Payee::GasDropCollectorUsdc => self.gas_drop_collector_usdc,
            Payee::GasDropCollectorSol => self.gas_drop_collector_sol,
            Payee::Custody => self.custody,
        };
        if payee > u64::MAX - movement.amount {
            return Err(HostError::BalanceOverflow);
        }
        if from_usdc {
            self.owner_usdc = payer - movement.amount;
        } else {
            self.owner_native = payer - movement.amount;
        }
        match movement.payee {
            Payee::FeeCollectorUsdc => {
                self.fee_collector_usdc = payee + movement.amount;
            },
            Payee::FeeCollectorSol => {
                self.fee_collector_sol = payee + movement.amount;
            },
            Payee::GasDropCollectorUsdc => {
                self.gas_drop_collector_usdc = payee + movement.amount;
            },
            Payee::GasDropCollectorSol => {
                self.gas_drop_collector_sol = payee + movement.amount;
            },
            Payee::Custody => {
                self.custody = payee + movement.amount;
            },
        }
        Ok(())
    }

    /// Carries out all movements in turn. If one of them fails, none takes
    /// effect.
    pub fn execute(&mut self, movements: &Vec<FundMovement>) -> (r: Result<(), HostError>)
        ensures
            match old(self).after_all(movements@) {
                Ok(done) => r == Ok::<(), HostError>(()) && *final(self) == done,
                Err(e) => r == Err::<(), HostError>(e) && *final(self) == *old(self),
            },
    {
        let mut work: Balances = *self;
        let mut i: usize = 0;
        assert(movements@.subrange(0, movements@.len() as int) =~= movements@);
        while i < movements.len()
            invariant
                i <= movements.len(),
                *self == *old(self),
                old(self).after_all(movements@) == work.after_all(
                    movements@.subrange(i as int, movements@.len() as int),
                ),
            decreases movements.len() - i,
        {
            let ghost rest = movements@.subrange(i as int, movements@.len() as int);
            assert(rest[0] == movements@[i as int]);
            assert(rest.subrange(1, rest.len() as int) =~= movements@.subrange(
                i as int + 1,
                movements@.len() as int,
            ));
            match work.apply(movements[i]) {
                Ok(()) => {},
                Err(e) => {
                    return Err(e);
                },
            }
            i = i + 1;
        }
        assert(movements@.subrange(i as int, movements@.len() as int).len() == 0);
        *self = work;
        Ok(())
    }
}

/// No movement creates or destroys funds: after any movements that succeed,
/// the books hold as much of each currency as before.
pub proof fn lemma_movements_conserve_funds(before: Balances, movements: Seq<FundMovement>)
    ensures
        before.after_all(movements) matches Ok(done) ==> done.total_usdc() == before.total_usdc()
            && done.total_native() == before.total_native(),
    decreases movements.len(),
{
    if movements.len() > 0 {
        match before.after(movements[0]) {
            Ok(next) => {
                lemma_movements_conserve_funds(
                    next,
                    movements.subrange(1, movements.len() as int),
                );
            },
            Err(_) => {},
        }
    }
}

/// Movements are carried out front to back: the first, then the rest on
/// what the first leaves.
pub proof fn lemma_first_then_rest(before: Balances, first: FundMovement, rest: Seq<FundMovement>)
    ensures
        before.after_all(seq![first] + rest) == match before.after(first) {
            Ok(next) => next.after_all(rest),
            Err(e) => Err(e),
        },
{
    let all = seq![first] + rest;
    assert(all[0] == first);
    assert(all.subrange(1, all.len() as int) =~= rest);
}

} // verus!
