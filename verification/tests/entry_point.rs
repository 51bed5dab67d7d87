use quack_rs::abi::{AbiCheck, AbiPolicy};
use quack_rs::entry_point::{check_access, check_api_version, policy_verdict, AbiVerdict};

fn all_checks() -> [AbiCheck; 6] {
    [
        AbiCheck::Compatible {
            engine_version: "v1.5.5".into(),
            slots: 546,
        },
        AbiCheck::StableOnly,
        AbiCheck::LayoutMismatch {
            engine_version: "v1.5.0".into(),
            engine_slots: 545,
            compiled_slots: 546,
        },
        AbiCheck::UnknownEngineVersion {
            engine_version: "v9.9.9".into(),
            compiled_slots: 546,
        },
        AbiCheck::EngineVersionUnavailable {
            compiled_slots: 546,
        },
        AbiCheck::DeclaredVersionMismatch {
            declared_version: "v1.2.0".into(),
            declared_slots: 0,
            compiled_slots: 546,
        },
    ]
}

/// Every policy against every kind of check result.
#[test]
fn every_policy_against_every_check_result() {
    let checks = all_checks();
    // Expected verdict per check, in the order above: L = load,
    // W = warn and load, R = refuse.
    let table: [(AbiPolicy, [char; 6]); 4] = [
        (AbiPolicy::Strict, ['L', 'L', 'R', 'R', 'R', 'R']),
        (AbiPolicy::Warn, ['L', 'L', 'W', 'W', 'W', 'W']),
        (
            AbiPolicy::AllowUnknownEngine,
            ['L', 'L', 'R', 'L', 'R', 'R'],
        ),
        (AbiPolicy::Trust, ['L', 'L', 'L', 'L', 'L', 'L']),
    ];
    for (policy, row) in table {
        for (check, want) in checks.iter().zip(row) {
            let got = policy_verdict(policy, check);
            let message = check.error_message();
            let expected = match want {
                'L' => AbiVerdict::Load,
                'W' => AbiVerdict::Warn(message.expect("a failing check has a message")),
                _ => AbiVerdict::Refuse(message.expect("a failing check has a message")),
            };
            assert_eq!(got, expected, "{policy:?} on {check:?}");
        }
    }
}

#[test]
fn allow_unknown_engine_only_forgives_the_unknown_case() {
    // The policy must not become a blanket opt-out: a layout DuckDB can be
    // shown to lay out differently is still refused.
    let unknown = AbiCheck::UnknownEngineVersion {
        engine_version: "v1.6.0".into(),
        compiled_slots: 546,
    };
    let mismatch = AbiCheck::LayoutMismatch {
        engine_version: "v1.5.0".into(),
        engine_slots: 545,
        compiled_slots: 546,
    };
    assert!(matches!(unknown, AbiCheck::UnknownEngineVersion { .. }));
    assert!(!matches!(mismatch, AbiCheck::UnknownEngineVersion { .. }));
    assert!(mismatch.error_message().is_some());
    assert_eq!(
        policy_verdict(AbiPolicy::AllowUnknownEngine, &unknown),
        AbiVerdict::Load
    );
    assert!(matches!(
        policy_verdict(AbiPolicy::AllowUnknownEngine, &mismatch),
        AbiVerdict::Refuse(_)
    ));
}

#[test]
fn api_version_with_interior_nul_is_rejected_before_ffi() {
    let err = check_api_version("v1.2\0.0").expect_err("interior NUL must be rejected");
    assert!(err.as_str().contains("NUL"), "{err:?}");
    assert!(check_api_version("v1.2.0").is_ok());
}

#[test]
fn the_default_policy_is_strict() {
    assert_eq!(AbiPolicy::default(), AbiPolicy::Strict);
}

#[test]
fn passing_checks_have_no_message_and_failing_ones_name_their_numbers() {
    let checks = all_checks();
    assert_eq!(checks[0].error_message(), None);
    assert_eq!(checks[1].error_message(), None);
    assert_eq!(
        checks[2].error_message().unwrap(),
        "DuckDB v1.5.0 lays out the C extension API with 545 function slots, but this \
         extension was compiled against 546; calling into it would reach the wrong functions"
    );
    assert!(checks[3].error_message().unwrap().contains("v9.9.9"));
    assert!(checks[4].error_message().unwrap().contains("(546 function slots)"));
    assert!(checks[5]
        .error_message()
        .unwrap()
        .contains("declares DuckDB v1.2.0 (0 function slots)"));
}

#[test]
fn a_broken_access_struct_is_refused() {
    assert!(check_access(true, true).is_ok());
    assert_eq!(
        check_access(false, true).unwrap_err().as_str(),
        "DuckDB passed a null extension access struct"
    );
    assert_eq!(
        check_access(false, false).unwrap_err().as_str(),
        "DuckDB passed a null extension access struct"
    );
    assert_eq!(
        check_access(true, false).unwrap_err().as_str(),
        "DuckDB passed no get_api function, so the C API cannot be initialised"
    );
}
