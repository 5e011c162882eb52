use near_apps::{CallOutcome, ContractArgs, ForwardOutcome, NearApps, PromiseDecision, Tags};

fn sample_tags() -> Tags {
    Tags::new(
        "Mike".to_string(),
        "Near.org".to_string(),
        "testing".to_string(),
    )
}

fn sample_args() -> ContractArgs {
    ContractArgs::new("set_status".to_string(), "hello world".to_string())
}

const DEPOSIT: u128 = 10;
const PREPAID_GAS: u64 = 300_000_000_000_000;

#[test]
fn simulate_successful_call() {
    // A freshly deployed gateway approves nothing and has both blanket flags
    // off, so this call passes the tag check and is then silently skipped.
    let gw = NearApps::default();
    let outcome = gw.call(
        Some(sample_tags()),
        "status".to_string(),
        sample_args(),
        DEPOSIT,
        PREPAID_GAS,
    );
    assert!(matches!(outcome, CallOutcome::TargetNotApproved));
}

#[test]
fn any_target_flag_overrides_allowlist() {
    let mut gw = NearApps::default();
    gw.any_contracts_allowed(true);
    assert!(gw.verify_contract(&"never-approved".to_string()));
    assert!(gw.verify_contract(&"".to_string()));
    gw.any_contracts_allowed(false);
    assert!(!gw.verify_contract(&"never-approved".to_string()));
}

#[test]
fn unapproved_target_skips_forwarding() {
    let mut gw = NearApps::default();
    gw.add_contract("status".to_string());
    let outcome = gw.call(
        Some(sample_tags()),
        "unknown".to_string(),
        sample_args(),
        DEPOSIT,
        PREPAID_GAS,
    );
    assert!(matches!(outcome, CallOutcome::TargetNotApproved));
}

#[test]
fn missing_tags_rejected_before_forwarding() {
    let mut gw = NearApps::default();
    gw.add_contract("status".to_string());
    let outcome = gw.call(None, "status".to_string(), sample_args(), DEPOSIT, PREPAID_GAS);
    assert!(matches!(outcome, CallOutcome::TagsRejected));
}

#[test]
fn present_tags_pass_strict_policy() {
    let gw = NearApps::default();
    assert!(gw.verify_tags(&Some(sample_tags())));
    assert!(!gw.verify_tags(&None));
    let empty = Tags::new(String::new(), String::new(), String::new());
    assert!(gw.verify_tags(&Some(empty)));
}

#[test]
fn add_contract_idempotent() {
    let mut once = NearApps::default();
    once.add_contract("status".to_string());
    let mut twice = NearApps::default();
    twice.add_contract("status".to_string());
    twice.add_contract("status".to_string());
    assert_eq!(once.approved_contracts, twice.approved_contracts);
    assert_eq!(once.approved_contracts, vec!["status".to_string()]);
}

#[test]
fn remove_contract_absent_is_noop() {
    let mut gw = NearApps::default();
    gw.add_contract("status".to_string());
    gw.remove_contract("unknown".to_string());
    assert_eq!(gw.approved_contracts, vec!["status".to_string()]);
}

#[test]
fn remove_contract_withdraws_approval() {
    let mut gw = NearApps::default();
    gw.add_contract("status".to_string());
    assert!(gw.verify_contract(&"status".to_string()));
    gw.remove_contract("status".to_string());
    assert!(!gw.verify_contract(&"status".to_string()));
    assert_eq!(gw.approved_contracts, Vec::<String>::new());
}

#[test]
fn budget_split_is_two_exact_thirds() {
    let mut gw = NearApps::default();
    gw.add_contract("status".to_string());
    let outcome = gw.call(
        Some(sample_tags()),
        "status".to_string(),
        sample_args(),
        DEPOSIT,
        100,
    );
    match outcome {
        CallOutcome::Forward(action) => {
            assert_eq!(action.call_gas, 33);
            assert_eq!(action.callback_gas, 33);
            assert_eq!(100 - action.call_gas - action.callback_gas, 34);
        }
        _ => panic!("expected a forwarded invocation"),
    }
    let outcome = gw.call(Some(sample_tags()), "status".to_string(), sample_args(), 0, 10);
    match outcome {
        CallOutcome::Forward(action) => {
            assert_eq!(action.call_gas, 3);
            assert_eq!(action.callback_gas, 3);
        }
        _ => panic!("expected a forwarded invocation"),
    }
}

#[test]
fn approved_target_forwards_and_audits_on_success() {
    let mut gw = NearApps::default();
    gw.add_contract("status".to_string());
    let outcome = gw.call(
        Some(sample_tags()),
        "status".to_string(),
        sample_args(),
        DEPOSIT,
        PREPAID_GAS,
    );
    match outcome {
        CallOutcome::Forward(action) => {
            assert_eq!(action.target, "status".to_string());
            assert_eq!(action.args.function_name, "set_status".to_string());
            assert_eq!(action.args.params, "hello world".to_string());
            assert_eq!(action.attached_deposit, DEPOSIT);
            assert_eq!(action.call_gas, PREPAID_GAS / 3);
            assert_eq!(action.callback_gas, PREPAID_GAS / 3);
            let decision = gw.check_promise(action.tags, ForwardOutcome::Successful(Vec::new()));
            match decision {
                PromiseDecision::Audit(line) => {
                    assert_eq!(line, "Person: Mike\nCompany: Near.org\nPurpose: testing");
                }
                _ => panic!("expected an audit record"),
            }
        }
        _ => panic!("expected a forwarded invocation"),
    }
}

#[test]
fn forwarded_failure_aborts_without_audit() {
    let mut gw = NearApps::default();
    gw.add_contract("status".to_string());
    let outcome = gw.call(
        Some(sample_tags()),
        "status".to_string(),
        sample_args(),
        DEPOSIT,
        PREPAID_GAS,
    );
    match outcome {
        CallOutcome::Forward(action) => {
            let decision = gw.check_promise(action.tags, ForwardOutcome::Failed);
            assert!(matches!(decision, PromiseDecision::Abort));
        }
        _ => panic!("expected a forwarded invocation"),
    }
}

#[test]
fn absent_tags_with_blanket_permission_forward_without_audit() {
    let mut gw = NearApps::default();
    gw.add_contract("status".to_string());
    gw.any_tags_allowed(true);
    let outcome = gw.call(None, "status".to_string(), sample_args(), DEPOSIT, PREPAID_GAS);
    match outcome {
        CallOutcome::Forward(action) => {
            assert!(action.tags.is_none());
            let decision = gw.check_promise(action.tags, ForwardOutcome::Successful(Vec::new()));
            assert!(matches!(decision, PromiseDecision::NoAudit));
        }
        _ => panic!("expected a forwarded invocation"),
    }
}

#[test]
fn audit_record_formats_each_field() {
    let line = near_apps::audit_record(&sample_tags());
    assert_eq!(line, "Person: Mike\nCompany: Near.org\nPurpose: testing");
    let empty = Tags::new(String::new(), String::new(), String::new());
    assert_eq!(
        near_apps::audit_record(&empty),
        "Person: \nCompany: \nPurpose: "
    );
}

#[test]
fn default_policy_permits_nothing() {
    let gw = NearApps::default();
    assert!(!gw.any_contracts);
    assert!(!gw.any_tags);
    assert!(gw.approved_contracts.is_empty());
    assert!(!gw.verify_contract(&"status".to_string()));
}
