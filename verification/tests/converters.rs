use safe_gateway::errors::ApiError;
use safe_gateway::models::backend::{
    Confirmation, EthereumTransaction, ModuleTransaction, MultisigTransaction, TransactionDto,
    TransferDto,
};
use safe_gateway::models::commons::{DataDecoded, Operation, ParamValue, Parameter};
use safe_gateway::models::service::{
    SettingsInfo, TransactionInfo, TransactionStatus, TransferInfo,
};
use safe_gateway::providers::{AddressInfo, FixedInfoProvider, SafeInfo};

fn param(name: &str, value: &str) -> Parameter {
    Parameter {
        name: name.to_string(),
        value: ParamValue::SingleValue(value.to_string()),
        value_decoded: None,
    }
}

fn decoded(method: &str, params: Vec<Parameter>) -> DataDecoded {
    DataDecoded {
        method: method.to_string(),
        parameters: Some(params),
    }
}

fn multisig(safe: &str) -> MultisigTransaction {
    MultisigTransaction {
        safe: safe.to_string(),
        to: "0x000000000000000000000000000000000000dEaD".to_string(),
        value: Some("0".to_string()),
        data: None,
        data_decoded: None,
        operation: Some(Operation::CALL),
        nonce: 7,
        execution_date: Some(1597162353000),
        submission_date: 1597162350000,
        safe_tx_hash: "0xsafetxhash".to_string(),
        is_executed: true,
        is_successful: Some(true),
        confirmations_required: None,
        confirmations: Some(vec![Confirmation {
            owner: "0xowner1".to_string(),
        }]),
        transaction_hash: Some("0xtxhash".to_string()),
    }
}

fn provider_with_safe(safe: &str, threshold: u64, nonce: u64) -> FixedInfoProvider {
    let mut provider = FixedInfoProvider::new();
    provider.add_safe(
        safe.to_string(),
        SafeInfo {
            threshold,
            nonce,
            owners: vec!["0xowner1".to_string(), "0xowner2".to_string()],
        },
    );
    provider
}

#[test]
fn settings_info_add_owner_with_threshold() {
    let d = decoded(
        "addOwnerWithThreshold",
        vec![param("owner", "0xNewOwner"), param("_threshold", "2")],
    );
    let mut provider = FixedInfoProvider::new();
    let actual = d.to_settings_info(&mut provider);
    assert_eq!(
        actual,
        Some(SettingsInfo::AddOwner {
            owner: "0xNewOwner".to_string(),
            owner_info: None,
            threshold: 2,
        })
    );
}

#[test]
fn settings_info_remove_owner_reads_positions_one_and_two() {
    let d = decoded(
        "removeOwner",
        vec![
            param("prevOwner", "0xPrev"),
            param("owner", "0xGone"),
            param("_threshold", "1"),
        ],
    );
    let mut provider = FixedInfoProvider::new();
    let actual = d.to_settings_info(&mut provider);
    assert_eq!(
        actual,
        Some(SettingsInfo::RemoveOwner {
            owner: "0xGone".to_string(),
            owner_info: None,
            threshold: 1,
        })
    );
}

#[test]
fn settings_info_enable_module_resolves_contract_metadata() {
    let d = decoded("enableModule", vec![param("module", "0xModule")]);
    let mut provider = FixedInfoProvider::new();
    provider.add_contract(
        "0xModule".to_string(),
        AddressInfo {
            name: "Spending limit".to_string(),
            logo_uri: None,
        },
    );
    let actual = d.to_settings_info(&mut provider);
    assert_eq!(
        actual,
        Some(SettingsInfo::EnableModule {
            module: "0xModule".to_string(),
            module_info: Some(AddressInfo {
                name: "Spending limit".to_string(),
                logo_uri: None,
            }),
        })
    );
}

#[test]
fn settings_info_unknown_contract_metadata_is_absent() {
    let d = decoded("setFallbackHandler", vec![param("handler", "0xHandler")]);
    let mut provider = FixedInfoProvider::new();
    let actual = d.to_settings_info(&mut provider);
    assert_eq!(
        actual,
        Some(SettingsInfo::SetFallbackHandler {
            handler: "0xHandler".to_string(),
            handler_info: None,
        })
    );
}

#[test]
fn settings_info_unparsable_threshold_is_nothing() {
    let d = decoded("changeThreshold", vec![param("_threshold", "two")]);
    let mut provider = FixedInfoProvider::new();
    assert_eq!(d.to_settings_info(&mut provider), None);
}

#[test]
fn settings_info_unrecognized_method_is_nothing() {
    let d = decoded("transfer", vec![param("value", "1")]);
    let mut provider = FixedInfoProvider::new();
    assert_eq!(d.to_settings_info(&mut provider), None);
}

#[test]
fn address_index_collects_resolvable_candidates() {
    let subject = "0xd6801a1DfFCd0a410336Ef88DeF4320D6DF1883e";
    let d = decoded(
        "transfer",
        vec![
            param("to", subject),
            param("value", "100"),
            param("other", "0x0000000000000000000000000000000000000000"),
        ],
    );
    let mut provider = FixedInfoProvider::new();
    provider.add_address(
        subject.to_string(),
        AddressInfo {
            name: "Compound Ether".to_string(),
            logo_uri: Some("https://tokens.example/cETH.png".to_string()),
        },
    );
    let index = d.build_address_info_index(&mut provider).unwrap();
    assert_eq!(
        index.get(subject),
        Some(&AddressInfo {
            name: "Compound Ether".to_string(),
            logo_uri: Some("https://tokens.example/cETH.png".to_string()),
        })
    );
    assert_eq!(index.get("0x0000000000000000000000000000000000000000"), None);
}

#[test]
fn address_index_with_no_hits_is_nothing() {
    let d = decoded("transfer", vec![param("value", "100")]);
    let mut provider = FixedInfoProvider::new();
    assert!(d.build_address_info_index(&mut provider).is_none());
}

#[test]
fn multisig_erc20_transfer_summary() {
    let safe = "0x1230B3d59858296A31053C1b8562Ecf89A2f888b";
    let mut tx = multisig(safe);
    tx.data_decoded = Some(decoded(
        "transfer",
        vec![param("to", "0xdst"), param("value", "50000")],
    ));
    let mut provider = provider_with_safe(safe, 2, 7);
    let txs = tx.to_service_transaction(&mut provider).unwrap();
    assert_eq!(txs.len(), 1);
    let row = &txs[0];
    assert_eq!(row.tx_status, TransactionStatus::Success);
    let info = row.execution_info.as_ref().unwrap();
    assert_eq!(info.nonce, 7);
    assert_eq!(info.confirmations_submitted, 1);
    assert_eq!(info.confirmations_required, 2);
    match &row.tx_info {
        TransactionInfo::Transfer(t) => match &t.transfer_info {
            TransferInfo::Erc20(e) => assert_eq!(e.value, "50000"),
            other => panic!("expected an ERC-20 transfer, got {:?}", other),
        },
        other => panic!("expected a transfer, got {:?}", other),
    }
}

#[test]
fn multisig_unknown_safe_propagates_the_provider_error() {
    let tx = multisig("0xUnknownSafe");
    let mut provider = FixedInfoProvider::new();
    assert!(tx.to_service_transaction(&mut provider).is_err());
}

#[test]
fn multisig_custom_summary_measures_data() {
    let safe = "0x1230B3d59858296A31053C1b8562Ecf89A2f888b";
    let mut tx = multisig(safe);
    tx.operation = Some(Operation::DELEGATE);
    tx.data = Some("0xdeadbeef".to_string());
    tx.value = Some("1000".to_string());
    let mut provider = provider_with_safe(safe, 1, 7);
    let txs = tx.to_service_transaction(&mut provider).unwrap();
    match &txs[0].tx_info {
        TransactionInfo::Custom(c) => {
            assert_eq!(c.to, safe);
            assert_eq!(c.data_size, "8");
            assert_eq!(c.value, "1000");
        }
        other => panic!("expected a custom call, got {:?}", other),
    }
}

#[test]
fn module_transaction_summary() {
    let tx = ModuleTransaction {
        to: "0xTarget".to_string(),
        module: "0xModule".to_string(),
        value: None,
        data: None,
        data_decoded: None,
        execution_date: 1597162353000,
        transaction_hash: "0xmodulehash".to_string(),
    };
    let txs = tx.to_service_transaction();
    assert_eq!(txs.len(), 1);
    assert_eq!(txs[0].id, "module_<something_else_eventually>");
    assert!(txs[0].execution_info.is_none());
    match &txs[0].tx_info {
        TransactionInfo::Custom(c) => {
            assert_eq!(c.to, "0xTarget");
            assert_eq!(c.data_size, "0");
            assert_eq!(c.value, "0");
        }
        other => panic!("expected a custom call, got {:?}", other),
    }
}

#[test]
fn ethereum_transaction_yields_one_row_per_transfer() {
    let safe = "0x1230B3d59858296A31053C1b8562Ecf89A2f888b";
    let tx = EthereumTransaction {
        execution_date: 1597162353000,
        transfers: Some(vec![
            TransferDto::Ether(safe_gateway::models::backend::EtherTransferDto {
                execution_date: 1597162353000,
                transaction_hash: "0xh1".to_string(),
                from: "0xfFfa5813ED9a5DB4880D7303DB7d0cBe41bC771F".to_string(),
                to: safe.to_string(),
                value: "1".to_string(),
            }),
            TransferDto::Unknown,
        ]),
    };
    let txs = tx.to_service_transaction(safe);
    assert_eq!(txs.len(), 2);
    assert!(matches!(txs[0].tx_info, TransactionInfo::Transfer(_)));
    assert!(matches!(txs[1].tx_info, TransactionInfo::Unknown));
}

#[test]
fn unknown_payload_kind_is_a_serialization_error() {
    let mut provider = FixedInfoProvider::new();
    let r = TransactionDto::Unknown.to_service_transaction(&mut provider, "0xSafe");
    match r {
        Err(ApiError::Serialization { details }) => {
            assert_eq!(details, "Unknown transaction type from backend")
        }
        other => panic!("expected a serialization error, got {:?}", other),
    }
}

#[test]
fn address_index_never_invents_keys() {
    let named = "0xd6801a1DfFCd0a410336Ef88DeF4320D6DF1883e";
    let unnamed = "0x1230B3d59858296A31053C1b8562Ecf89A2f888b";
    let d = decoded("transfer", vec![param("to", named), param("value", "100")]);
    let mut provider = FixedInfoProvider::new();
    provider.add_address(
        named.to_string(),
        AddressInfo {
            name: "Named".to_string(),
            logo_uri: None,
        },
    );
    provider.add_address(
        unnamed.to_string(),
        AddressInfo {
            name: "Unnamed".to_string(),
            logo_uri: None,
        },
    );
    let index = d.build_address_info_index(&mut provider).unwrap();
    assert!(index.contains_key(named));
    assert!(
        !index.contains_key(unnamed),
        "only addresses the call data names may be indexed"
    );
}

#[test]
fn address_index_ignores_a_missing_parameter_list() {
    let d = DataDecoded {
        method: "transfer".to_string(),
        parameters: None,
    };
    let mut provider = FixedInfoProvider::new();
    assert!(d.build_address_info_index(&mut provider).is_none());
}

#[test]
fn map_status_follows_the_account_policy() {
    let safe = "0xSafe";
    let account = SafeInfo {
        threshold: 2,
        nonce: 10,
        owners: vec!["0xowner1".to_string()],
    };

    let mut executed_failed = multisig(safe);
    executed_failed.is_successful = Some(false);
    assert_eq!(
        executed_failed.map_status(&account),
        TransactionStatus::Failed
    );

    let mut cancelled = multisig(safe);
    cancelled.is_executed = false;
    cancelled.nonce = 9;
    assert_eq!(cancelled.map_status(&account), TransactionStatus::Cancelled);

    let mut awaiting_confirmations = multisig(safe);
    awaiting_confirmations.is_executed = false;
    awaiting_confirmations.nonce = 10;
    assert_eq!(
        awaiting_confirmations.map_status(&account),
        TransactionStatus::AwaitingConfirmations
    );

    let mut awaiting_execution = multisig(safe);
    awaiting_execution.is_executed = false;
    awaiting_execution.nonce = 10;
    awaiting_execution.confirmations = Some(vec![
        Confirmation {
            owner: "0xowner1".to_string(),
        },
        Confirmation {
            owner: "0xowner2".to_string(),
        },
    ]);
    assert_eq!(
        awaiting_execution.map_status(&account),
        TransactionStatus::AwaitingExecution
    );
}

#[test]
fn multisig_details_carry_policy_and_call_data() {
    let safe = "0x1230B3d59858296A31053C1b8562Ecf89A2f888b";
    let mut tx = multisig(safe);
    tx.operation = Some(Operation::DELEGATE);
    tx.data = Some("0xdeadbeef".to_string());
    let mut provider = provider_with_safe(safe, 2, 7);
    let details = tx.to_transaction_details(&mut provider).unwrap();
    assert_eq!(details.executed_at, Some(1597162353000));
    assert_eq!(details.submitted_at, Some(1597162350000));
    assert_eq!(details.tx_status, TransactionStatus::Success);
    assert_eq!(details.tx_hash, Some("0xtxhash".to_string()));
    let data = details.tx_data.as_ref().unwrap();
    assert_eq!(data.hex_data, "0xdeadbeef");
    let dei = details.detailed_execution_info.as_ref().unwrap();
    assert_eq!(dei.nonce, 7);
    assert_eq!(dei.operation, Operation::DELEGATE);
    assert_eq!(dei.confirmations_required, 2);
    assert_eq!(dei.confirmations, vec!["0xowner1".to_string()]);
    assert_eq!(
        dei.signers,
        vec!["0xowner1".to_string(), "0xowner2".to_string()]
    );
}

#[test]
fn module_details_have_no_execution_detail() {
    let tx = ModuleTransaction {
        to: "0xTarget".to_string(),
        module: "0xModule".to_string(),
        value: Some("5".to_string()),
        data: Some("0xdead".to_string()),
        data_decoded: None,
        execution_date: 1597162353000,
        transaction_hash: "0xmodulehash".to_string(),
    };
    let details = tx.to_transaction_details().unwrap();
    assert_eq!(details.executed_at, Some(1597162353000));
    assert_eq!(details.submitted_at, None);
    assert!(details.detailed_execution_info.is_none());
    assert_eq!(details.tx_hash, Some("0xmodulehash".to_string()));
}
