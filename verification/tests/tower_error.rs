use libra_tools::decimal::u64_to_decimal;
use libra_tools::tower_error::{parse_error, AbortLocation, ExecutionStatus, TowerError};

fn all_errors() -> Vec<TowerError> {
    vec![
        TowerError::Unknown,
        TowerError::Other(ExecutionStatus::Executed),
        TowerError::AppConfigs,
        TowerError::NoLocalBlocks,
        TowerError::ProverError,
        TowerError::NoClientCx,
        TowerError::AccountDNE,
        TowerError::OutOfGas,
        TowerError::WrongDifficulty,
        TowerError::TooManyProofs,
        TowerError::Discontinuity,
        TowerError::Invalid,
    ]
}

fn module_location() -> AbortLocation {
    let mut address = [0u8; 16];
    address[15] = 1;
    AbortLocation::Module { address, name: "TowerState".to_string() }
}

fn abort(code: u64) -> ExecutionStatus {
    ExecutionStatus::MoveAbort { location: module_location(), code }
}

#[test]
fn value_of_each_error() {
    let codes: Vec<u64> = all_errors().iter().map(|e| e.value()).collect();
    assert_eq!(
        codes,
        vec![100, 101, 103, 104, 105, 404, 1004, 1005, 130102, 130108, 130109, 130110]
    );
}

#[test]
fn other_value_ignores_the_status() {
    assert_eq!(TowerError::Other(ExecutionStatus::MiscellaneousError).value(), 101);
    assert_eq!(TowerError::Other(abort(7)).value(), 101);
}

#[test]
fn message_of_each_error() {
    let messages: Vec<String> = all_errors().iter().map(|e| e.to_string()).collect();
    assert_eq!(
        messages,
        vec![
            "Unknown: 100",
            "Other: 101",
            "App configuration file issue: 103",
            "No local blocks found in dir: 104",
            "Cannot create: 105",
            "Cannot Connect to client: 404",
            "Account does not exist: 1004",
            "Account out of gas, or price insufficient: 1005",
            "Wrong VDF difficulty being used: 130102",
            "Too many proofs submitted in epoch: 130108",
            "Proof submitted does not match previous: 130109",
            "VDF Proof is invalid, cannot verify: 130110",
        ]
    );
}

#[test]
fn parse_out_of_gas() {
    assert_eq!(parse_error(ExecutionStatus::OutOfGas), TowerError::OutOfGas);
}

#[test]
fn parse_known_abort_codes() {
    assert_eq!(parse_error(abort(404)), TowerError::NoClientCx);
    assert_eq!(parse_error(abort(1004)), TowerError::AccountDNE);
    assert_eq!(parse_error(abort(130102)), TowerError::WrongDifficulty);
    assert_eq!(parse_error(abort(130108)), TowerError::TooManyProofs);
    assert_eq!(parse_error(abort(130109)), TowerError::Discontinuity);
    assert_eq!(parse_error(abort(130110)), TowerError::Invalid);
}

#[test]
fn parse_abort_in_a_script() {
    let status = ExecutionStatus::MoveAbort { location: AbortLocation::Script, code: 130108 };
    assert_eq!(parse_error(status), TowerError::TooManyProofs);
}

#[test]
fn parse_unknown_abort_code_keeps_status() {
    assert_eq!(parse_error(abort(1005)), TowerError::Other(abort(1005)));
    assert_eq!(parse_error(abort(0)), TowerError::Other(abort(0)));
    assert_eq!(parse_error(abort(130103)), TowerError::Other(abort(130103)));
}

#[test]
fn parse_other_statuses() {
    let failure = ExecutionStatus::ExecutionFailure {
        location: module_location(),
        function: 3,
        code_offset: 17,
    };
    assert_eq!(parse_error(failure.clone()), TowerError::Other(failure));
    assert_eq!(
        parse_error(ExecutionStatus::Executed),
        TowerError::Other(ExecutionStatus::Executed)
    );
    assert_eq!(
        parse_error(ExecutionStatus::MiscellaneousError),
        TowerError::Other(ExecutionStatus::MiscellaneousError)
    );
}

#[test]
fn reported_code_matches_abort_code() {
    for code in [404u64, 1004, 130102, 130108, 130109, 130110] {
        assert_eq!(parse_error(abort(code)).value(), code);
    }
    for code in [1u64, 100, 1005, 999_999] {
        assert_eq!(parse_error(abort(code)).value(), 101);
    }
    assert_eq!(parse_error(ExecutionStatus::OutOfGas).value(), 1005);
}

#[test]
fn reported_errors_are_not_local() {
    let statuses = vec![
        ExecutionStatus::Executed,
        ExecutionStatus::OutOfGas,
        abort(100),
        abort(103),
        abort(404),
        ExecutionStatus::MiscellaneousError,
    ];
    for s in statuses {
        let e = parse_error(s);
        assert!(!matches!(
            e,
            TowerError::Unknown
                | TowerError::AppConfigs
                | TowerError::NoLocalBlocks
                | TowerError::ProverError
        ));
    }
}

#[test]
fn codes_are_distinct() {
    let errors = all_errors();
    for (i, a) in errors.iter().enumerate() {
        for (j, b) in errors.iter().enumerate() {
            assert_eq!(a.value() == b.value(), i == j);
        }
    }
}

#[test]
fn messages_end_with_code() {
    for e in all_errors() {
        let code = e.value().to_string();
        assert!(e.to_string().ends_with(&code));
    }
}

#[test]
fn decimal_text() {
    assert_eq!(u64_to_decimal(0), "0");
    assert_eq!(u64_to_decimal(7), "7");
    assert_eq!(u64_to_decimal(10), "10");
    assert_eq!(u64_to_decimal(1004), "1004");
    assert_eq!(u64_to_decimal(130110), "130110");
    assert_eq!(u64_to_decimal(u64::MAX), "18446744073709551615");
}

#[test]
fn decimal_text_reads_back() {
    for n in [0u64, 9, 10, 99, 100, 12345, u64::MAX] {
        assert_eq!(u64_to_decimal(n).parse::<u64>().unwrap(), n);
    }
}
