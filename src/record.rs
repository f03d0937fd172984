use vstd::prelude::*;

use crate::acquire::CreateOutcome;
use crate::builder::ClientConfig;

verus! {

/// A bound on the magnitude of any Unix timestamp that the clock reports:
/// dates run from year -999999 to 999999 at most, well within 10^14 seconds.
pub const TIMESTAMP_BOUND: i64 = 100_000_000_000_000;

/// What the hyphenated lower-case text of a fencing token is.
pub uninterp spec fn uuid_text(token: u128) -> Seq<char>;

/// A random version-4 UUID, as a 128-bit value: the version nibble is 4 and
/// the variant bits are `10`.
pub open spec fn is_v4(token: u128) -> bool {
    &&& (token >> 76u128) & 0xfu128 == 4
    &&& (token >> 62u128) & 3u128 == 2
}

/// Relies on `uuid::Uuid::new_v4`: a fresh random version-4 UUID.
#[verifier::external_body]
fn new_token() -> (r: u128)
    ensures
        is_v4(r),
{
    uuid::Uuid::new_v4().as_u128()
}

/// Relies on `uuid::Uuid::from_u128` and its `Display`: the 36-character
/// hyphenated text of the token, a function of the token alone.
#[verifier::external_body]
fn token_text(token: u128) -> (r: String)
    ensures
        r@ == uuid_text(token),
        r@.len() == 36,
{
    uuid::Uuid::from_u128(token).to_string()
}

/// Relies on `time::OffsetDateTime::now_utc` and `unix_timestamp`: the
/// current Unix time in seconds, within the range of representable dates.
#[verifier::external_body]
fn now_unix_seconds() -> (r: i64)
    ensures
        -TIMESTAMP_BOUND < r < TIMESTAMP_BOUND,
{
    time::OffsetDateTime::now_utc().unix_timestamp()
}

/// A failure to talk to the table (not a failed condition).
#[derive(Clone, Debug, PartialEq, Eq)]
pub struct BackendError {
    pub message: String,
}

/// What the table answered to a conditional write.
#[derive(Clone, Debug)]
pub enum WriteOutcome {
    /// The condition held and the write was made.
    Written,
    /// The condition did not hold; nothing was written.
    ConditionFailed,
    /// The table could not be reached or refused the request otherwise.
    Failed(BackendError),
}

/// Write `{key, token, expiry}` on condition that no record exists for `key`.
#[derive(Clone, Debug)]
pub struct CreateRequest {
    pub key: String,
    pub token: u128,
    pub token_text: String,
    pub expiry: i64,
}

/// Replace the token and expiry of the record for `key` on condition that its
/// stored token is `expected_text`.
#[derive(Clone, Debug)]
pub struct RenewRequest {
    pub key: String,
    pub expected_text: String,
    pub token: u128,
    pub token_text: String,
    pub expiry: i64,
}

/// Delete the record for `key` on condition that its stored token is
/// `expected_text`.
#[derive(Clone, Debug)]
pub struct ReleaseRequest {
    pub key: String,
    pub expected_text: String,
}

/// The expiry of a lease written at `now` with a ttl of `ttl` seconds.
pub fn expiry_after(now: i64, ttl: u32) -> (r: i64)
    requires
        -TIMESTAMP_BOUND < now < TIMESTAMP_BOUND,
    ensures
        r == now + ttl,
{
    now + ttl as i64
}

/// The create request for `key` written at `now` with the fresh `token`.
pub fn create_request(key: String, now: i64, ttl: u32, token: u128) -> (r: CreateRequest)
    requires
        -TIMESTAMP_BOUND < now < TIMESTAMP_BOUND,
    ensures
        r.key == key,
        r.token == token,
        r.token_text@ == uuid_text(token),
        r.expiry == now + ttl,
{
    CreateRequest { key, token, token_text: token_text(token), expiry: expiry_after(now, ttl) }
}

/// The renew request for `key`, held under `held`, written at `now` with the
/// fresh `token`.
pub fn renew_request(key: String, held: u128, now: i64, ttl: u32, token: u128) -> (r: RenewRequest)
    requires
        -TIMESTAMP_BOUND < now < TIMESTAMP_BOUND,
    ensures
        r.key == key,
        r.expected_text@ == uuid_text(held),
        r.token == token,
        r.token_text@ == uuid_text(token),
        r.expiry == now + ttl,
{
    RenewRequest {
        key,
        expected_text: token_text(held),
        token,
        token_text: token_text(token),
        expiry: expiry_after(now, ttl),
    }
}

/// The release request for `key`, held under `held`.
pub fn release_request(key: String, held: u128) -> (r: ReleaseRequest)
    ensures
        r.key == key,
        r.expected_text@ == uuid_text(held),
{
    ReleaseRequest { key, expected_text: token_text(held) }
}

impl ClientConfig {
    /// A create request for `key` with a fresh random token and an expiry one
    /// ttl after the current time.
    pub fn begin_create(&self, key: String) -> (r: CreateRequest)
        ensures
            r.key == key,
            is_v4(r.token),
            r.token_text@ == uuid_text(r.token),
            -TIMESTAMP_BOUND < r.expiry - self.lease_ttl_seconds < TIMESTAMP_BOUND,
    {
        let now = now_unix_seconds();
        create_request(key, now, self.lease_ttl_seconds, new_token())
    }

    /// A renew request for `key` held under `held`, with a fresh random token
    /// and an expiry one ttl after the current time.
    pub fn begin_renew(&self, key: String, held: u128) -> (r: RenewRequest)
        ensures
            r.key == key,
            r.expected_text@ == uuid_text(held),
            is_v4(r.token),
            r.token_text@ == uuid_text(r.token),
            -TIMESTAMP_BOUND < r.expiry - self.lease_ttl_seconds < TIMESTAMP_BOUND,
    {
        let now = now_unix_seconds();
        renew_request(key, held, now, self.lease_ttl_seconds, new_token())
    }
}

/// What a create attempt gives: the new token when the record was written,
/// contention when a record for the key exists, the error when the table
/// failed.
pub fn create_outcome(req: &CreateRequest, outcome: WriteOutcome) -> (r: CreateOutcome)
    ensures
        match outcome {
            WriteOutcome::Written => r == CreateOutcome::Created { token: req.token },
            WriteOutcome::ConditionFailed => r == CreateOutcome::Contended,
            WriteOutcome::Failed(e) => r == CreateOutcome::Failed(e),
        },
{
    match outcome {
        WriteOutcome::Written => CreateOutcome::Created { token: req.token },
        WriteOutcome::ConditionFailed => CreateOutcome::Contended,
        WriteOutcome::Failed(e) => CreateOutcome::Failed(e),
    }
}

/// A lease record as the table holds it.
pub struct StoredRecord {
    pub token_text: Seq<char>,
    pub expiry: int,
}

/// The table's records, by key.
pub type LeaseTable = Map<Seq<char>, StoredRecord>;

/// The conditional create: written only where no record exists for the key.
pub open spec fn apply_create(t: LeaseTable, req: CreateRequest) -> (LeaseTable, bool) {
    if t.contains_key(req.key@) {
        (t, false)
    } else {
        (t.insert(req.key@, StoredRecord { token_text: req.token_text@, expiry: req.expiry as int }), true)
    }
}

/// Whether the record for `key` holds the token text `expected`.
pub open spec fn holds_token(t: LeaseTable, key: Seq<char>, expected: Seq<char>) -> bool {
    t.contains_key(key) && t[key].token_text == expected
}

/// The conditional renew: written only where the stored token is the expected one.
pub open spec fn apply_renew(t: LeaseTable, req: RenewRequest) -> (LeaseTable, bool) {
    if holds_token(t, req.key@, req.expected_text@) {
        (t.insert(req.key@, StoredRecord { token_text: req.token_text@, expiry: req.expiry as int }), true)
    } else {
        (t, false)
    }
}

/// The conditional release: deleted only where the stored token is the expected one.
pub open spec fn apply_release(t: LeaseTable, req: ReleaseRequest) -> (LeaseTable, bool) {
    if holds_token(t, req.key@, req.expected_text@) {
        (t.remove(req.key@), true)
    } else {
        (t, false)
    }
}

/// Native expiry: the table drops the record for `key` once `now` has passed
/// its expiry.
pub open spec fn apply_expiry(t: LeaseTable, key: Seq<char>, now: int) -> LeaseTable {
    if t.contains_key(key) && t[key].expiry < now {
        t.remove(key)
    } else {
        t
    }
}

/// One write to the table, as a step of its history.
pub enum TableOp {
    Create(CreateRequest),
    Renew(RenewRequest),
    Release(ReleaseRequest),
    Expire(Seq<char>, int),
}

/// The table after one write.
pub open spec fn apply_op(t: LeaseTable, op: TableOp) -> LeaseTable {
    match op {
        TableOp::Create(r) => apply_create(t, r).0,
        TableOp::Renew(r) => apply_renew(t, r).0,
        TableOp::Release(r) => apply_release(t, r).0,
        TableOp::Expire(k, now) => apply_expiry(t, k, now),
    }
}

/// The table after a history of writes.
pub open spec fn apply_ops(t: LeaseTable, ops: Seq<TableOp>) -> LeaseTable
    decreases ops.len(),
{
    if ops.len() == 0 {
        t
    } else {
        apply_ops(apply_op(t, ops[0]), ops.drop_first())
    }
}

/// Whether a write of the history removes the record for `key`: a successful
/// release of it, or its expiry.
pub open spec fn removes_key(t: LeaseTable, ops: Seq<TableOp>, key: Seq<char>) -> bool
    decreases ops.len(),
{
    if ops.len() == 0 {
        false
    } else {
        let removed = match ops[0] {
            TableOp::Release(r) => r.key@ == key && apply_release(t, r).1,
            TableOp::Expire(k, now) => k == key && t.contains_key(k) && t[k].expiry < now,
            _ => false,
        };
        removed || removes_key(apply_op(t, ops[0]), ops.drop_first(), key)
    }
}

/// A record, once present, stays until a successful release or its expiry.
pub proof fn lemma_record_stays(t: LeaseTable, ops: Seq<TableOp>, key: Seq<char>)
    requires
        t.contains_key(key),
        !removes_key(t, ops, key),
    ensures
        apply_ops(t, ops).contains_key(key),
    decreases ops.len(),
{
    if ops.len() > 0 {
        lemma_record_stays(apply_op(t, ops[0]), ops.drop_first(), key);
    }
}

/// Law: at most one create for a key succeeds without a release or expiry of
/// that key in between: after one succeeded, whatever other writes come next,
/// a second create for the key fails unless one of them removed the record.
pub proof fn lemma_one_create_wins(t: LeaseTable, first: CreateRequest, ops: Seq<TableOp>, second: CreateRequest)
    requires
        apply_create(t, first).1,
        second.key@ == first.key@,
        !removes_key(apply_create(t, first).0, ops, first.key@),
    ensures
        !apply_create(apply_ops(apply_create(t, first).0, ops), second).1,
{
    lemma_record_stays(apply_create(t, first).0, ops, first.key@);
}

/// Law: a stale holder, whose token is no longer the stored one, can neither
/// renew nor delete the record.
pub proof fn lemma_stale_token_changes_nothing(t: LeaseTable, renew: RenewRequest, release: ReleaseRequest)
    requires
        !holds_token(t, renew.key@, renew.expected_text@),
        !holds_token(t, release.key@, release.expected_text@),
    ensures
        apply_renew(t, renew) == (t, false),
        apply_release(t, release) == (t, false),
{
}

/// Law: once the holder under the stored token releases its lease, a create
/// for the key succeeds again.
pub proof fn lemma_release_frees_key(t: LeaseTable, key: String, held: u128, release: ReleaseRequest, next: CreateRequest)
    requires
        t.contains_key(key@),
        t[key@].token_text == uuid_text(held),
        release.key == key,
        release.expected_text@ == uuid_text(held),
        next.key@ == key@,
    ensures
        apply_release(t, release).1,
        apply_create(apply_release(t, release).0, next).1,
{
}

/// Law: a renewal by the holder under the stored token is written, and the
/// record then holds the renewal's new token, with the new expiry.
pub proof fn lemma_renewal_moves_token(t: LeaseTable, held: u128, req: RenewRequest)
    requires
        holds_token(t, req.key@, uuid_text(held)),
        req.expected_text@ == uuid_text(held),
        req.token_text@ == uuid_text(req.token),
    ensures
        apply_renew(t, req).1,
        holds_token(apply_renew(t, req).0, req.key@, uuid_text(req.token)),
        apply_renew(t, req).0[req.key@].expiry == req.expiry,
{
}

} // verus!
