use balance_changes::assemble::{assemble, first_failure, sub_batch_bounds, SUB_BATCH_ROWS};
use balance_changes::cache::new_balance_cache;
use balance_changes::extract::{classify_event, signed_diff, transaction_outcome_record,
    validator_update_record, EventDisposition};
use balance_changes::resolver::{complete_resolution, resolve_step, set_new_balances, ResolveStep};
use balance_changes::types::{cause_label, direction_label, BalanceChangeRecord, BalanceSnapshot,
    BlockHeaderInfo, Direction, RecordCause, ResolutionError, StateChangeCause, StateChangeEvent,
    StateChangeValue, StorageError, TransactionInfo, UnrecognizedCauseError};

fn header() -> BlockHeaderInfo {
    BlockHeaderInfo {
        timestamp: 1_600_000_000_000_000_000,
        hash: String::from("current-block-hash"),
        prev_hash: String::from("parent-block-hash"),
    }
}

fn account_update_event(cause: StateChangeCause) -> StateChangeEvent {
    StateChangeEvent {
        cause,
        value: StateChangeValue::AccountUpdate {
            account_id: String::from("alice.near"),
            liquid: 10,
            locked: 20,
        },
    }
}

#[test]
fn validator_update_with_cached_previous() {
    let mut cache = new_balance_cache(16);
    let account = String::from("alice.near");
    set_new_balances(&mut cache, &account, BalanceSnapshot { liquid: 100, locked: 0 });

    let prev = match resolve_step(&mut cache, &account) {
        ResolveStep::Resolved(snapshot) => snapshot,
        ResolveStep::NeedRemoteQuery => panic!("previous balance was cached"),
    };
    assert_eq!(prev, BalanceSnapshot { liquid: 100, locked: 0 });

    let record = validator_update_record(&mut cache, &account, 150, 0, prev, &header(), 3);
    assert_eq!(record.delta_liquid_amount, 50);
    assert_eq!(record.absolute_liquid_amount, 150);
    assert_eq!(record.delta_locked_amount, 0);
    assert_eq!(record.absolute_locked_amount, 0);
    assert_eq!(record.direction, Direction::Unspecified);
    assert_eq!(record.cause, RecordCause::ValidatorAccountsUpdate);
    assert_eq!(record.affected_account_id, "alice.near");
    assert_eq!(record.transaction_hash, None);
    assert_eq!(record.receipt_id, None);
    assert_eq!(record.involved_account_id, None);
    assert_eq!(record.block_timestamp, 1_600_000_000_000_000_000);
    assert_eq!(record.shard_id, 3);

    assert_eq!(
        resolve_step(&mut cache, &account),
        ResolveStep::Resolved(BalanceSnapshot { liquid: 150, locked: 0 })
    );
}

#[test]
fn transaction_after_remote_resolution() {
    let mut cache = new_balance_cache(16);
    let account = String::from("bob.near");

    assert_eq!(resolve_step(&mut cache, &account), ResolveStep::NeedRemoteQuery);
    let prev = complete_resolution(
        &mut cache,
        &account,
        BalanceSnapshot { liquid: 1000, locked: 200 },
    );
    assert_eq!(prev, BalanceSnapshot { liquid: 1000, locked: 200 });

    let transaction = TransactionInfo {
        transaction_hash: String::from("tx-hash"),
        executor_id: account.clone(),
        tokens_burnt: 5,
    };
    let record = transaction_outcome_record(&mut cache, &transaction, prev, &header(), 0);
    assert_eq!(record.delta_liquid_amount, -5);
    assert_eq!(record.absolute_liquid_amount, 995);
    assert_eq!(record.delta_locked_amount, 0);
    assert_eq!(record.absolute_locked_amount, 200);
    assert_eq!(record.direction, Direction::ActionFromAffectedAccount);
    assert_eq!(record.cause, RecordCause::TransactionProcessing);
    assert_eq!(record.transaction_hash, Some(String::from("tx-hash")));
    assert_eq!(record.affected_account_id, "bob.near");

    assert_eq!(
        resolve_step(&mut cache, &account),
        ResolveStep::Resolved(BalanceSnapshot { liquid: 995, locked: 200 })
    );
}

#[test]
fn second_event_sees_first() {
    let mut cache = new_balance_cache(16);
    let account = String::from("carol.near");
    set_new_balances(&mut cache, &account, BalanceSnapshot { liquid: 100, locked: 0 });

    let prev = match resolve_step(&mut cache, &account) {
        ResolveStep::Resolved(snapshot) => snapshot,
        ResolveStep::NeedRemoteQuery => panic!("previous balance was cached"),
    };
    let first = validator_update_record(&mut cache, &account, 150, 0, prev, &header(), 1);
    assert_eq!(first.absolute_liquid_amount, 150);

    let prev_after_first = match resolve_step(&mut cache, &account) {
        ResolveStep::Resolved(snapshot) => snapshot,
        ResolveStep::NeedRemoteQuery => panic!("first event's result must be cached"),
    };
    assert_eq!(prev_after_first, BalanceSnapshot { liquid: 150, locked: 0 });

    let transaction = TransactionInfo {
        transaction_hash: String::from("tx-hash-2"),
        executor_id: account.clone(),
        tokens_burnt: 10,
    };
    let second =
        transaction_outcome_record(&mut cache, &transaction, prev_after_first, &header(), 1);
    assert_eq!(second.delta_liquid_amount, -10);
    assert_eq!(second.absolute_liquid_amount, 140);
}

#[test]
fn resolution_caches_remote_answer_once() {
    let mut cache = new_balance_cache(16);
    let account = String::from("dora.near");
    assert_eq!(resolve_step(&mut cache, &account), ResolveStep::NeedRemoteQuery);
    complete_resolution(&mut cache, &account, BalanceSnapshot { liquid: 7, locked: 8 });
    // A second event in the same block, and one in a later block, both hit.
    assert_eq!(
        resolve_step(&mut cache, &account),
        ResolveStep::Resolved(BalanceSnapshot { liquid: 7, locked: 8 })
    );
    assert_eq!(
        resolve_step(&mut cache, &account),
        ResolveStep::Resolved(BalanceSnapshot { liquid: 7, locked: 8 })
    );
}

#[test]
fn capacity_pressure_evicts_least_recently_used() {
    let mut cache = new_balance_cache(2);
    let first = String::from("a.near");
    let second = String::from("b.near");
    let third = String::from("c.near");
    complete_resolution(&mut cache, &first, BalanceSnapshot { liquid: 1, locked: 0 });
    complete_resolution(&mut cache, &second, BalanceSnapshot { liquid: 2, locked: 0 });
    complete_resolution(&mut cache, &third, BalanceSnapshot { liquid: 3, locked: 0 });
    // The least recently used entry left; a miss simply re-resolves.
    assert_eq!(resolve_step(&mut cache, &first), ResolveStep::NeedRemoteQuery);
    assert_eq!(
        resolve_step(&mut cache, &third),
        ResolveStep::Resolved(BalanceSnapshot { liquid: 3, locked: 0 })
    );
}

fn plain_record(tag: u64) -> BalanceChangeRecord {
    BalanceChangeRecord {
        block_timestamp: tag,
        receipt_id: None,
        transaction_hash: None,
        affected_account_id: String::from("acct.near"),
        involved_account_id: None,
        direction: Direction::Unspecified,
        cause: RecordCause::ValidatorAccountsUpdate,
        delta_liquid_amount: 1,
        absolute_liquid_amount: 2,
        delta_locked_amount: 0,
        absolute_locked_amount: 0,
        shard_id: 0,
        index_in_chunk: 0,
    }
}

#[test]
fn assemble_numbers_validator_records_first() {
    let validator_records = vec![plain_record(10), plain_record(11)];
    let transaction_records = vec![plain_record(20), plain_record(21)];
    let batch = assemble(validator_records, transaction_records);
    assert_eq!(batch.len(), 4);
    let timestamps: Vec<u64> = batch.iter().map(|r| r.block_timestamp).collect();
    assert_eq!(timestamps, vec![10, 11, 20, 21]);
    let indexes: Vec<usize> = batch.iter().map(|r| r.index_in_chunk).collect();
    assert_eq!(indexes, vec![0, 1, 2, 3]);
}

#[test]
fn assemble_of_empty_outputs_is_empty() {
    let batch = assemble(Vec::new(), Vec::new());
    assert!(batch.is_empty());
}

#[test]
fn sub_batches_of_23_rows() {
    let bounds = sub_batch_bounds(23, SUB_BATCH_ROWS);
    assert_eq!(bounds, vec![(0, 10), (10, 20), (20, 23)]);
}

#[test]
fn sub_batches_of_nothing() {
    assert_eq!(sub_batch_bounds(0, SUB_BATCH_ROWS), Vec::new());
    assert_eq!(sub_batch_bounds(10, SUB_BATCH_ROWS), vec![(0, 10)]);
}

#[test]
fn storage_failure_is_reported() {
    // 23 rows go out as sub-batches of 10, 10 and 3; the second fails.
    let outcomes = vec![true, false, true];
    assert_eq!(first_failure(&outcomes), Some(StorageError { sub_batch_index: 1 }));
    assert_eq!(first_failure(&vec![true, true, true]), None);
    assert_eq!(first_failure(&Vec::new()), None);
}

#[test]
fn validator_bookkeeping_cause_is_emitted() {
    let ev = account_update_event(StateChangeCause::ValidatorAccountsUpdate);
    assert_eq!(classify_event(&ev), Ok(EventDisposition::EmitValidatorUpdate));
}

#[test]
fn covered_causes_are_passed_over() {
    for cause in [
        StateChangeCause::TransactionProcessing,
        StateChangeCause::ActionReceiptProcessingStarted,
        StateChangeCause::ActionReceiptGasReward,
        StateChangeCause::ReceiptProcessing,
        StateChangeCause::PostponedReceipt,
    ] {
        let ev = account_update_event(cause);
        assert_eq!(classify_event(&ev), Ok(EventDisposition::PassOver));
    }
}

#[test]
fn unmodeled_causes_are_fatal() {
    for cause in [
        StateChangeCause::NotWritableToDisk,
        StateChangeCause::InitialState,
        StateChangeCause::UpdatedDelayedReceipts,
        StateChangeCause::Migration,
        StateChangeCause::Resharding,
    ] {
        let ev = account_update_event(cause);
        assert_eq!(classify_event(&ev), Err(UnrecognizedCauseError { cause }));
    }
}

#[test]
fn unrelated_payloads_are_passed_over_whatever_the_cause() {
    let ev = StateChangeEvent {
        cause: StateChangeCause::Migration,
        value: StateChangeValue::Unrelated,
    };
    assert_eq!(classify_event(&ev), Ok(EventDisposition::PassOver));
}

#[test]
fn signed_diff_is_exact() {
    assert_eq!(signed_diff(150, 100), 50);
    assert_eq!(signed_diff(5, 10), -5);
    assert_eq!(signed_diff(0, 0), 0);
    assert_eq!(signed_diff(u128::MAX, u128::MAX - 5), 5);
    assert_eq!(signed_diff(0, 1u128 << 127), i128::MIN);
    assert_eq!(signed_diff(0, i128::MAX as u128), -i128::MAX);
}

#[test]
fn labels_match_storage_tags() {
    assert_eq!(direction_label(&Direction::Unspecified), "NONE");
    assert_eq!(
        direction_label(&Direction::ActionFromAffectedAccount),
        "ACTION_FROM_AFFECTED_ACCOUNT"
    );
    assert_eq!(
        cause_label(&RecordCause::ValidatorAccountsUpdate),
        "VALIDATOR_ACCOUNTS_UPDATE"
    );
    assert_eq!(cause_label(&RecordCause::TransactionProcessing), "TRANSACTION_PROCESSING");
}

#[test]
fn resolution_error_names_the_account() {
    let err = ResolutionError { account_id: String::from("missing.near") };
    assert_eq!(err.account_id, "missing.near");
}
