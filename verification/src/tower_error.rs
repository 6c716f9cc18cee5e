//! Errors of Tower proof submission: their numeric codes, their messages, and
//! how a transaction's execution status maps to one of them.

use vstd::prelude::*;
use crate::decimal::{decimal, decimal_reads_back, digits_value, u64_to_decimal};

verus! {

/// Where a Move program aborted or failed: a function of a module (given by
/// the module's 16-byte account address and its name), or a script.
#[derive(Clone, Debug, PartialEq, Eq)]
pub enum AbortLocation {
    /// In a module, published under `address` with the name `name`.
    Module { address: [u8; 16], name: String },
    /// In a script.
    Script,
}

/// The status with which the VM kept an executed transaction.
#[derive(Clone, Debug, PartialEq, Eq)]
pub enum ExecutionStatus {
    /// The transaction ran to its end.
    Executed,
    /// The transaction ran out of gas.
    OutOfGas,
    /// Move code aborted with `code`.
    MoveAbort { location: AbortLocation, code: u64 },
    /// The VM could not continue execution (a division by zero, a missing
    /// resource, ...).
    ExecutionFailure { location: AbortLocation, function: u16, code_offset: u16 },
    /// Any other error.
    MiscellaneousError,
}

/// Common errors in Tower transaction submission
#[derive(Clone, Debug, PartialEq, Eq)]
pub enum TowerError {
    ///
    Unknown,
    ///
    Other(ExecutionStatus),
    ///
    AppConfigs,
    /// No local blocks to be found
    NoLocalBlocks,
    ///
    ProverError,
    /// 404 defined in txs::submit_tx.rs
    NoClientCx,
    /// 1004 defined in txs::submit_tx.rs and DiemAccount.move
    AccountDNE,
    /// 1005 defined in DiemAccount.move
    OutOfGas,
    /// 130102 defined in TowerState.move
    WrongDifficulty,
    /// 130108 defined in TowerState.move
    TooManyProofs,
    /// 130109 defined in TowerState.move
    Discontinuity,
    /// 130110 defined in TowerState.move
    Invalid,
}

/// The error that a Move abort with `code` stands for, where the code is one
/// that the Tower and account modules define.
pub open spec fn abort_code_error(code: u64) -> Option<TowerError> {
    if code == 404 {
        Some(TowerError::NoClientCx)
    } else if code == 1004 {
        Some(TowerError::AccountDNE)
    } else if code == 130102 {
        Some(TowerError::WrongDifficulty)
    } else if code == 130108 {
        Some(TowerError::TooManyProofs)
    } else if code == 130109 {
        Some(TowerError::Discontinuity)
    } else if code == 130110 {
        Some(TowerError::Invalid)
    } else {
        None
    }
}

/// The abort codes that name an error of their own.
pub open spec fn is_known_abort_code(code: u64) -> bool {
    code == 404 || code == 1004 || code == 130102 || code == 130108 || code == 130109
        || code == 130110
}

/// The error that an execution status is reported as: running out of gas is
/// `OutOfGas`, an abort with a known code is that code's error, and every
/// other status is carried in `Other`.
pub open spec fn status_error(status: ExecutionStatus) -> TowerError {
    match status {
        ExecutionStatus::OutOfGas => TowerError::OutOfGas,
        ExecutionStatus::MoveAbort { code, .. } => match abort_code_error(code) {
            Some(e) => e,
            None => TowerError::Other(status),
        },
        _ => TowerError::Other(status),
    }
}

impl TowerError {
    /// The numeric representation of the error.
    pub open spec fn code(self) -> u64 {
        match self {
            TowerError::Unknown => 100,
            TowerError::Other(_) => 101,
            TowerError::AppConfigs => 103,
            TowerError::NoLocalBlocks => 104,
            TowerError::ProverError => 105,
            TowerError::NoClientCx => 404,
            TowerError::AccountDNE => 1004,
            TowerError::OutOfGas => 1005,
            TowerError::WrongDifficulty => 130102,
            TowerError::TooManyProofs => 130108,
            TowerError::Discontinuity => 130109,
            TowerError::Invalid => 130110,
        }
    }

    /// The words of the error's message that come before its code.
    pub open spec fn label(self) -> Seq<char> {
        match self {
            TowerError::Unknown => "Unknown: "@,
            TowerError::Other(_) => "Other: "@,
            TowerError::AppConfigs => "App configuration file issue: "@,
            TowerError::NoLocalBlocks => "No local blocks found in dir: "@,
            TowerError::ProverError => "Cannot create: "@,
            TowerError::NoClientCx => "Cannot Connect to client: "@,
            TowerError::AccountDNE => "Account does not exist: "@,
            TowerError::OutOfGas => "Account out of gas, or price insufficient: "@,
            TowerError::WrongDifficulty => "Wrong VDF difficulty being used: "@,
            TowerError::TooManyProofs => "Too many proofs submitted in epoch: "@,
            TowerError::Discontinuity => "Proof submitted does not match previous: "@,
            TowerError::Invalid => "VDF Proof is invalid, cannot verify: "@,
        }
    }

    /// The error's message: its label followed by its code in decimal.
    pub open spec fn message(self) -> Seq<char> {
        self.label() + decimal(self.code() as nat)
    }

    /// get numeric representation
    pub fn value(&self) -> (r: u64)
        ensures
            r == self.code(),
    {
        match *self {
            //
            TowerError::Unknown => 100,
            //
            TowerError::Other(_) => 101,
            //
            TowerError::AppConfigs => 103,
            //
            TowerError::NoLocalBlocks => 104,
            //
            TowerError::ProverError => 105,
            // 404 defined in txs::submit_tx.rs
            TowerError::NoClientCx => 404,
            // 1004 defined in txs::submit_tx.rs and DiemAccount.move
            TowerError::AccountDNE => 1004,
            // 1005 defined in DiemAccount.move
            TowerError::OutOfGas => 1005,
            // 130102 defined in TowerState.move
            TowerError::WrongDifficulty => 130102,
            // 130108 defined in TowerState.move
            TowerError::TooManyProofs => 130108,
            // 130109 defined in TowerState.move
            TowerError::Discontinuity => 130109,
            // 130110 defined in TowerState.move
            TowerError::Invalid => 130110,
        }
    }

    /// The words of the message that come before the code.
    fn label_str(&self) -> (s: &'static str)
        ensures
            s@ == self.label(),
    {
        match self {
            TowerError::Unknown => "Unknown: ",
            TowerError::Other(_) => "Other: ",
            TowerError::AppConfigs => "App configuration file issue: ",
            TowerError::NoLocalBlocks => "No local blocks found in dir: ",
            TowerError::ProverError => "Cannot create: ",
            TowerError::NoClientCx => "Cannot Connect to client: ",
            TowerError::AccountDNE => "Account does not exist: ",
            TowerError::OutOfGas => "Account out of gas, or price insufficient: ",
            TowerError::WrongDifficulty => "Wrong VDF difficulty being used: ",
            TowerError::TooManyProofs => "Too many proofs submitted in epoch: ",
            TowerError::Discontinuity => "Proof submitted does not match previous: ",
            TowerError::Invalid => "VDF Proof is invalid, cannot verify: ",
        }
    }

    /// The error's message, such as "Account does not exist: 1004": what the
    /// error displays as.
    pub fn to_string(&self) -> (s: String)
        ensures
            s@ == self.message(),
    {
        let mut s = String::from_str(self.label_str());
        let digits = u64_to_decimal(self.value());
        s.append(digits.as_str());
        s
    }
}

/// The error that a transaction's execution status is reported as.
pub fn parse_error(status: ExecutionStatus) -> (e: TowerError)
    ensures
        e == status_error(status),
{
    // status
    match &status {
        ExecutionStatus::OutOfGas => TowerError::OutOfGas,
        ExecutionStatus::MoveAbort { location: _, code } => match *code {
            404 => TowerError::NoClientCx,
            1004 => TowerError::AccountDNE,
            130102 => TowerError::WrongDifficulty,
            130108 => TowerError::TooManyProofs,
            130109 => TowerError::Discontinuity,
            130110 => TowerError::Invalid,
            _ => TowerError::Other(status),
        },
        _ => TowerError::Other(status),
    }
}

/// The code of the error that a status is reported as is 1005 for running
/// out of gas, the abort code itself for an abort with a known code, and 101
/// (an `Other` error that carries the status) for every other status.
pub proof fn reported_code(status: ExecutionStatus)
    ensures
        status_error(status).code() == (match status {
            ExecutionStatus::OutOfGas => 1005,
            ExecutionStatus::MoveAbort { code, .. } => if is_known_abort_code(code) {
                code
            } else {
                101
            },
            _ => 101,
        }),
        status_error(status).code() == 101 <==> status_error(status) == TowerError::Other(status),
{
}

/// Errors with the same code are the same error, but for `Other` errors,
/// which all have code 101 whatever status they carry.
pub proof fn code_identifies_error(a: TowerError, b: TowerError)
    requires
        a.code() == b.code(),
    ensures
        a == b || (a is Other && b is Other),
{
}

/// A reported status never becomes one of the errors of the local side of
/// submission (`Unknown`, `AppConfigs`, `NoLocalBlocks`, `ProverError`).
pub proof fn reported_error_is_not_local(status: ExecutionStatus)
    ensures
        !(status_error(status) is Unknown),
        !(status_error(status) is AppConfigs),
        !(status_error(status) is NoLocalBlocks),
        !(status_error(status) is ProverError),
{
}

/// An error's message ends with its code, written in decimal, and the code
/// can be read back from that ending.
pub proof fn message_ends_with_code(e: TowerError)
    ensures
        decimal(e.code() as nat).is_suffix_of(e.message()),
        digits_value(
            e.message().subrange(e.label().len() as int, e.message().len() as int),
        ) == e.code(),
{
    let m = e.message();
    let d = decimal(e.code() as nat);
    assert(m.subrange(e.label().len() as int, m.len() as int) =~= d);
    assert(m.subrange((m.len() - d.len()) as int, m.len() as int) =~= d);
    decimal_reads_back(e.code() as nat);
}

/// Each error's message is one fixed text per kind of error: an `Other`
/// error reads "Other: 101" whatever status it carries, and every other
/// error reads as its own words and code.
pub proof fn message_of_each_error(e: TowerError)
    ensures
        e.message() == (match e {
            TowerError::Unknown => "Unknown: 100"@,
            TowerError::Other(_) => "Other: 101"@,
            TowerError::AppConfigs => "App configuration file issue: 103"@,
            TowerError::NoLocalBlocks => "No local blocks found in dir: 104"@,
            TowerError::ProverError => "Cannot create: 105"@,
            TowerError::NoClientCx => "Cannot Connect to client: 404"@,
            TowerError::AccountDNE => "Account does not exist: 1004"@,
            TowerError::OutOfGas => "Account out of gas, or price insufficient: 1005"@,
            TowerError::WrongDifficulty => "Wrong VDF difficulty being used: 130102"@,
            TowerError::TooManyProofs => "Too many proofs submitted in epoch: 130108"@,
            TowerError::Discontinuity => "Proof submitted does not match previous: 130109"@,
            TowerError::Invalid => "VDF Proof is invalid, cannot verify: 130110"@,
        }),
{
    reveal_with_fuel(decimal, 7);
    match e {
        TowerError::Unknown => {
            reveal_strlit("Unknown: ");
            reveal_strlit("Unknown: 100");
            assert(e.message() =~= "Unknown: 100"@);
        },
        TowerError::Other(_) => {
            reveal_strlit("Other: ");
            reveal_strlit("Other: 101");
            assert(e.message() =~= "Other: 101"@);
        },
        TowerError::AppConfigs => {
            reveal_strlit("App configuration file issue: ");
            reveal_strlit("App configuration file issue: 103");
            assert(e.message() =~= "App configuration file issue: 103"@);
        },
        TowerError::NoLocalBlocks => {
            reveal_strlit("No local blocks found in dir: ");
            reveal_strlit("No local blocks found in dir: 104");
            assert(e.message() =~= "No local blocks found in dir: 104"@);
        },
        TowerError::ProverError => {
            reveal_strlit("Cannot create: ");
            reveal_strlit("Cannot create: 105");
            assert(e.message() =~= "Cannot create: 105"@);
        },
        TowerError::NoClientCx => {
            reveal_strlit("Cannot Connect to client: ");
            reveal_strlit("Cannot Connect to client: 404");
            assert(e.message() =~= "Cannot Connect to client: 404"@);
        },
        TowerError::AccountDNE => {
            reveal_strlit("Account does not exist: ");
            reveal_strlit("Account does not exist: 1004");
            assert(e.message() =~= "Account does not exist: 1004"@);
        },
        TowerError::OutOfGas => {
            reveal_strlit("Account out of gas, or price insufficient: ");
            reveal_strlit("Account out of gas, or price insufficient: 1005");
            assert(e.message() =~= "Account out of gas, or price insufficient: 1005"@);
        },
        TowerError::WrongDifficulty => {
            reveal_strlit("Wrong VDF difficulty being used: ");
            reveal_strlit("Wrong VDF difficulty being used: 130102");
            assert(e.message() =~= "Wrong VDF difficulty being used: 130102"@);
        },
        TowerError::TooManyProofs => {
            reveal_strlit("Too many proofs submitted in epoch: ");
            reveal_strlit("Too many proofs submitted in epoch: 130108");
            assert(e.message() =~= "Too many proofs submitted in epoch: 130108"@);
        },
        TowerError::Discontinuity => {
            reveal_strlit("Proof submitted does not match previous: ");
            reveal_strlit("Proof submitted does not match previous: 130109");
            assert(e.message() =~= "Proof submitted does not match previous: 130109"@);
        },
        TowerError::Invalid => {
            reveal_strlit("VDF Proof is invalid, cannot verify: ");
            reveal_strlit("VDF Proof is invalid, cannot verify: 130110");
            assert(e.message() =~= "VDF Proof is invalid, cannot verify: 130110"@);
        },
    }
}

/// The message of an `Other` error does not depend on the status it carries.
pub proof fn other_message_ignores_status(a: ExecutionStatus, b: ExecutionStatus)
    ensures
        TowerError::Other(a).message() == TowerError::Other(b).message(),
        TowerError::Other(a).message() == "Other: 101"@,
{
    message_of_each_error(TowerError::Other(a));
    message_of_each_error(TowerError::Other(b));
}

} // verus!
