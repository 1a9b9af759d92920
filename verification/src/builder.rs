//! Building the extend-TTL transaction: clamping the requested extension
//! length and assembling the single-operation transaction value.

use vstd::prelude::*;

use soroban_env_host::xdr::LedgerKey;

verus! {

/// Largest extension, in ledgers, that the network grants to a single
/// extend-TTL operation. Requests above it are capped, with a warning,
/// not rejected.
pub const MAX_EXTEND_LEDGERS: u32 = 535_679;

/// `soroban_env_host::xdr::LedgerKey` identifies one ledger entry. The
/// builder carries keys through to the transaction's footprint without
/// reading them; they are opaque here.
#[verifier::external_type_specification]
#[verifier::external_body]
pub struct ExLedgerKey(LedgerKey);

/// The extension length actually submitted for a requested one: the
/// request itself, capped at [`MAX_EXTEND_LEDGERS`].
pub open spec fn spec_extend_to(requested: u32) -> u32 {
    if requested > MAX_EXTEND_LEDGERS {
        MAX_EXTEND_LEDGERS
    } else {
        requested
    }
}

/// The capped extension length, together with whether capping occurred.
/// The flag is the warning signal: the caller decides how to surface it.
pub fn clamp_ledgers(requested: u32) -> (r: (u32, bool))
    ensures
        r.0 == spec_extend_to(requested),
        r.1 == (requested > MAX_EXTEND_LEDGERS),
{
    if requested > MAX_EXTEND_LEDGERS {
        (MAX_EXTEND_LEDGERS, true)
    } else {
        (requested, false)
    }
}

/// The extend request as the caller states it. Argument parsing lives
/// with the caller; this holds the plain values the protocol reads.
pub struct Cmd {
    /// Number of ledgers to extend the entries.
    pub ledgers_to_extend: u32,
    /// Only print the new Time To Live ledger.
    pub ttl_ledger_only: bool,
    /// Fee for the transaction, in stroops.
    pub fee: u32,
}

impl Cmd {
    /// The extension length this request will actually submit: the
    /// requested one, capped at [`MAX_EXTEND_LEDGERS`].
    pub fn ledgers_to_extend(&self) -> (r: u32)
        ensures
            r == spec_extend_to(self.ledgers_to_extend),
    {
        let (extend_to, _capped) = clamp_ledgers(self.ledgers_to_extend);
        extend_to
    }
}

/// The single-operation extend-TTL transaction, ready for the
/// transport's simulation/signing step. Resource estimates are left at
/// zero on purpose: refining them is the preparation step's job.
pub struct TtlTransaction {
    /// Ed25519 public key of the source account.
    pub source_account: [u8; 32],
    /// Fee, as the caller set it.
    pub fee: u32,
    /// One past the source account's current sequence number.
    pub seq_num: i64,
    /// The expiration horizon the one operation asks for.
    pub extend_to: u32,
    /// Footprint keys locked read-only: exactly the entries to extend.
    pub read_only: Vec<LedgerKey>,
    /// Footprint keys locked read-write: always empty.
    pub read_write: Vec<LedgerKey>,
    /// Instruction estimate, left at zero.
    pub instructions: u32,
    /// Read-bytes estimate, left at zero.
    pub read_bytes: u32,
    /// Write-bytes estimate, left at zero.
    pub write_bytes: u32,
    /// Resource fee estimate, left at zero.
    pub resource_fee: i64,
}

impl TtlTransaction {
    /// What every built transaction promises: a capped horizon, an empty
    /// read-write footprint, and all resource estimates at zero.
    pub open spec fn wf(self) -> bool {
        &&& self.extend_to <= MAX_EXTEND_LEDGERS
        &&& self.read_write@.len() == 0
        &&& self.instructions == 0
        &&& self.read_bytes == 0
        &&& self.write_bytes == 0
        &&& self.resource_fee == 0
    }
}

/// Builds the transaction for an extension request: clamps the requested
/// length, attaches the keys as the read-only footprint, and leaves every
/// resource estimate at zero. The second component reports whether the
/// request was capped, for the caller to surface as a warning.
pub fn build(
    keys: Vec<LedgerKey>,
    requested_ledgers: u32,
    source_account: [u8; 32],
    sequence: i64,
    fee: u32,
) -> (r: (TtlTransaction, bool))
    requires
        sequence < i64::MAX,
    ensures
        r.0.wf(),
        r.0.source_account == source_account,
        r.0.fee == fee,
        r.0.seq_num == sequence + 1,
        r.0.extend_to == spec_extend_to(requested_ledgers),
        r.0.read_only@ == keys@,
        r.1 == (requested_ledgers > MAX_EXTEND_LEDGERS),
{
    let (extend_to, capped) = clamp_ledgers(requested_ledgers);
    let tx = TtlTransaction {
        source_account,
        fee,
        seq_num: sequence + 1,
        extend_to,
        read_only: keys,
        read_write: Vec::new(),
        instructions: 0,
        read_bytes: 0,
        write_bytes: 0,
        resource_fee: 0,
    };
    (tx, capped)
}

/// A request beyond the network ceiling is capped exactly to the ceiling.
pub proof fn lemma_overlong_request_capped(requested: u32)
    requires
        requested > MAX_EXTEND_LEDGERS,
    ensures
        spec_extend_to(requested) == MAX_EXTEND_LEDGERS,
{
}

/// A request within the network ceiling is used exactly as given: no
/// rounding, no other adjustment.
pub proof fn lemma_request_within_ceiling_kept(requested: u32)
    requires
        requested <= MAX_EXTEND_LEDGERS,
    ensures
        spec_extend_to(requested) == requested,
{
}

} // verus!
