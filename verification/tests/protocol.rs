use soroban_env_host::xdr::{LedgerKey, LedgerKeyTtl};
use ttl_extend::builder::{build, clamp_ledgers, Cmd, MAX_EXTEND_LEDGERS};
use ttl_extend::output::ttl_line;
use ttl_extend::resolver::{
    resolve_fallback, resolve_meta, EntryChange, Error, ExecutionOutcome, LedgerEntrySnapshot,
    MetaResolution, OperationChanges, SnapshotEntry, TransactionMetadata,
};
use ttl_extend::strkey::account_lookup_id;

fn ttl_key(byte: u8) -> LedgerKey {
    LedgerKey::Ttl(LedgerKeyTtl {
        key_hash: soroban_env_host::xdr::Hash([byte; 32]),
    })
}

fn outcome_with_changes(changes: Vec<EntryChange>) -> ExecutionOutcome {
    ExecutionOutcome {
        meta: TransactionMetadata::V3 {
            operations: vec![OperationChanges { changes }],
        },
    }
}

#[test]
fn cap_overlong_request() {
    assert_eq!(clamp_ledgers(MAX_EXTEND_LEDGERS + 1), (MAX_EXTEND_LEDGERS, true));
    assert_eq!(clamp_ledgers(u32::MAX), (MAX_EXTEND_LEDGERS, true));
}

#[test]
fn keep_request_within_ceiling() {
    assert_eq!(clamp_ledgers(0), (0, false));
    assert_eq!(clamp_ledgers(1000), (1000, false));
    assert_eq!(clamp_ledgers(MAX_EXTEND_LEDGERS), (MAX_EXTEND_LEDGERS, false));
}

#[test]
fn cmd_ledgers_to_extend_caps() {
    let cmd = Cmd {
        ledgers_to_extend: MAX_EXTEND_LEDGERS + 7,
        ttl_ledger_only: false,
        fee: 100,
    };
    assert_eq!(cmd.ledgers_to_extend(), MAX_EXTEND_LEDGERS);
    let cmd = Cmd {
        ledgers_to_extend: 535_679,
        ttl_ledger_only: false,
        fee: 100,
    };
    assert_eq!(cmd.ledgers_to_extend(), 535_679);
}

#[test]
fn build_caps_and_warns() {
    let keys = vec![ttl_key(1)];
    let (tx, warned) = build(keys.clone(), u32::MAX, [7; 32], 41, 100);
    assert!(warned);
    assert_eq!(tx.extend_to, MAX_EXTEND_LEDGERS);
    assert_eq!(tx.seq_num, 42);
    assert_eq!(tx.fee, 100);
    assert_eq!(tx.source_account, [7; 32]);
    assert_eq!(tx.read_only, keys);
    assert!(tx.read_write.is_empty());
    assert_eq!(tx.instructions, 0);
    assert_eq!(tx.read_bytes, 0);
    assert_eq!(tx.write_bytes, 0);
    assert_eq!(tx.resource_fee, 0);
}

#[test]
fn build_keeps_request_within_ceiling() {
    let keys = vec![ttl_key(1), ttl_key(2)];
    let (tx, warned) = build(keys.clone(), 1000, [0; 32], 7, 50);
    assert!(!warned);
    assert_eq!(tx.extend_to, 1000);
    assert_eq!(tx.seq_num, 8);
    assert_eq!(tx.read_only, keys);
    assert!(tx.read_write.is_empty());
}

#[test]
fn resolve_updated_ttl_changes() {
    // The submitted extension (1000 ledgers past latest ledger 4000, prior
    // expiration 5000) was applied: the updated TTL record carries 6000.
    let outcome = outcome_with_changes(vec![
        EntryChange::State,
        EntryChange::UpdatedTtl {
            live_until_ledger_seq: 6000,
        },
    ]);
    assert_eq!(
        resolve_meta(&outcome),
        MetaResolution::Resolved { ttl_ledger: 6000 }
    );
}

#[test]
fn resolve_opaque_meta_fails() {
    let outcome = ExecutionOutcome {
        meta: TransactionMetadata::Opaque,
    };
    assert_eq!(
        resolve_meta(&outcome),
        MetaResolution::Failed {
            error: Error::LedgerEntryNotFound
        }
    );
}

#[test]
fn resolve_empty_operation_list_fails() {
    let outcome = ExecutionOutcome {
        meta: TransactionMetadata::V3 {
            operations: Vec::new(),
        },
    };
    assert_eq!(
        resolve_meta(&outcome),
        MetaResolution::Failed {
            error: Error::LedgerEntryNotFound
        }
    );
}

#[test]
fn resolve_empty_changes_defers_to_fallback() {
    let outcome = outcome_with_changes(Vec::new());
    assert_eq!(resolve_meta(&outcome), MetaResolution::NeedFallback);
}

#[test]
fn resolve_single_change_fails() {
    let outcome = outcome_with_changes(vec![EntryChange::State]);
    assert_eq!(
        resolve_meta(&outcome),
        MetaResolution::Failed {
            error: Error::LedgerEntryNotFound
        }
    );
}

#[test]
fn resolve_reversed_shape_fails() {
    let outcome = outcome_with_changes(vec![
        EntryChange::UpdatedTtl {
            live_until_ledger_seq: 6000,
        },
        EntryChange::State,
    ]);
    assert_eq!(
        resolve_meta(&outcome),
        MetaResolution::Failed {
            error: Error::LedgerEntryNotFound
        }
    );
}

#[test]
fn resolve_non_ttl_update_fails() {
    let outcome = outcome_with_changes(vec![EntryChange::State, EntryChange::Other]);
    assert_eq!(
        resolve_meta(&outcome),
        MetaResolution::Failed {
            error: Error::LedgerEntryNotFound
        }
    );
}

#[test]
fn fallback_returns_preexisting_expiration() {
    // latest_ledger 4000 + extend_to 100 = 4100 < 6000: the entry already
    // lives beyond the request; its expiration stands, unmodified.
    let snapshot = LedgerEntrySnapshot {
        entries: vec![SnapshotEntry {
            live_until_ledger_seq: 6000,
        }],
        latest_ledger: 4000,
    };
    assert_eq!(resolve_fallback(&snapshot, 100), Ok(6000));
}

#[test]
fn fallback_inconclusive_fails() {
    let snapshot = LedgerEntrySnapshot {
        entries: vec![SnapshotEntry {
            live_until_ledger_seq: 6000,
        }],
        latest_ledger: 4000,
    };
    assert_eq!(
        resolve_fallback(&snapshot, 3000),
        Err(Error::LedgerEntryNotFound)
    );
}

#[test]
fn fallback_boundary_is_inconclusive() {
    // latest_ledger + extend_to equal to the current expiration does not
    // qualify: only a strictly larger pre-existing expiration stands.
    let snapshot = LedgerEntrySnapshot {
        entries: vec![SnapshotEntry {
            live_until_ledger_seq: 6000,
        }],
        latest_ledger: 5000,
    };
    assert_eq!(
        resolve_fallback(&snapshot, 1000),
        Err(Error::LedgerEntryNotFound)
    );
}

#[test]
fn resolving_twice_gives_same_answer() {
    let outcome = outcome_with_changes(vec![
        EntryChange::State,
        EntryChange::UpdatedTtl {
            live_until_ledger_seq: 9999,
        },
    ]);
    let first = resolve_meta(&outcome);
    let second = resolve_meta(&outcome);
    assert_eq!(first, second);
    assert_eq!(first, MetaResolution::Resolved { ttl_ledger: 9999 });
}

#[test]
fn ttl_line_bare_and_labeled() {
    assert_eq!(ttl_line(6000, true), "6000");
    assert_eq!(ttl_line(6000, false), "New ttl ledger: 6000");
    assert_eq!(ttl_line(0, true), "0");
}

#[test]
fn account_lookup_id_is_strkey_encoded() {
    let key_bytes: [u8; 32] = [3; 32];
    let id = account_lookup_id(&key_bytes);
    let expected = hcnet_strkey::ed25519::PublicKey(key_bytes).to_string();
    assert_eq!(id, expected);
    assert_eq!(id.len(), 56);
    assert!(id.starts_with('G'));
}
