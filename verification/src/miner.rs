//! The configuration that every submission is made under, and the entry
//! points that start one.

use crate::engine::balance_suffices;
use crate::engine::initial_state;
use crate::engine::sufficient_balance;
use crate::engine::well_formed;
use crate::engine::Submission;
use crate::engine::TerminalError;
use crate::instruction::batch_view;
use crate::instruction::Instruction;
use vstd::prelude::*;

verus! {

/// How the compute budget of a batch is found.
#[derive(Clone, Copy, Debug, PartialEq, Eq, Structural)]
pub enum ComputeBudget {
    /// By simulating the batch. Not offered: a submission that asks for it
    /// fails at once.
    Dynamic,
    /// This many compute units.
    Fixed(u32),
}

/// The settings of one client.
#[derive(Debug)]
pub struct Miner {
    pub keypair_filepath: Option<String>,
    pub priority_fee: Option<u64>,
    pub dynamic_fee_url: Option<String>,
    pub dynamic_fee: bool,
    pub fee_payer_filepath: Option<String>,
}

/// The price of a compute unit where none is estimated: the configured one,
/// or nothing.
pub open spec fn static_fee(priority_fee: Option<u64>) -> u64 {
    match priority_fee {
        Some(fee) => fee,
        None => 0,
    }
}

/// An estimated price held under the configured one, which is its ceiling
/// where there is one.
pub open spec fn capped_fee(priority_fee: Option<u64>, estimate: u64) -> u64 {
    match priority_fee {
        Some(ceiling) => if estimate > ceiling {
            ceiling
        } else {
            estimate
        },
        None => estimate,
    }
}

impl Miner {
    /// A client with these settings.
    pub fn new(
        priority_fee: Option<u64>,
        keypair_filepath: Option<String>,
        dynamic_fee_url: Option<String>,
        dynamic_fee: bool,
        fee_payer_filepath: Option<String>,
    ) -> (miner: Miner)
        ensures
            miner.priority_fee == priority_fee,
            miner.keypair_filepath == keypair_filepath,
            miner.dynamic_fee_url == dynamic_fee_url,
            miner.dynamic_fee == dynamic_fee,
            miner.fee_payer_filepath == fee_payer_filepath,
    {
        Miner { keypair_filepath, priority_fee, dynamic_fee_url, dynamic_fee, fee_payer_filepath }
    }

    /// Starts the submission of `ixs`. A fixed budget gives a submission that
    /// waits for the signer's balance, its batch led by the budget limit and
    /// the configured price; a dynamic budget is refused before anything is
    /// sent.
    pub fn send_and_confirm(
        &self,
        ixs: Vec<Instruction>,
        compute_budget: ComputeBudget,
        skip_confirm: bool,
    ) -> (started: Result<Submission, TerminalError>)
        ensures
            match compute_budget {
                ComputeBudget::Dynamic => started == Err::<Submission, TerminalError>(
                    TerminalError::UnsupportedFeePolicy,
                ),
                ComputeBudget::Fixed(units) => {
                    &&& started is Ok
                    &&& started->Ok_0@ == initial_state(
                        units,
                        static_fee(self.priority_fee),
                        self.dynamic_fee,
                        skip_confirm,
                        batch_view(ixs@),
                    )
                    &&& well_formed(started->Ok_0@)
                },
            },
    {
        match compute_budget {
            ComputeBudget::Dynamic => Err(TerminalError::UnsupportedFeePolicy),
            ComputeBudget::Fixed(units) => {
                let fee = match self.priority_fee {
                    Some(fee) => fee,
                    None => 0,
                };
                Ok(Submission::start(ixs, units, fee, self.dynamic_fee, skip_confirm))
            },
        }
    }

    /// Holds an estimated price under the configured one.
    pub fn cap_fee(&self, estimate: u64) -> (fee: u64)
        ensures
            fee == capped_fee(self.priority_fee, estimate),
    {
        match self.priority_fee {
            Some(ceiling) => if estimate > ceiling {
                ceiling
            } else {
                estimate
            },
            None => estimate,
        }
    }

    /// Holds a balance report against the least balance that a signer needs:
    /// `Ok` exactly when the balance was fetched and reaches `MIN_BALANCE`.
    pub fn check_balance(&self, balance: Option<u64>) -> (checked: Result<(), TerminalError>)
        ensures
            balance_suffices(balance) <==> checked is Ok,
            checked is Err ==> checked == Err::<(), TerminalError>(
                TerminalError::InsufficientBalance,
            ),
    {
        if sufficient_balance(balance) {
            Ok(())
        } else {
            Err(TerminalError::InsufficientBalance)
        }
    }
}

} // verus!
