use dynamodb_lease::{
    check_schema, create_outcome, create_request, entry_is_idle, expiry_after, release_request,
    renew_request, retry_delay, AcquireAction, AcquirePhase, AcquireResult, Acquisition,
    AttrType, AttributeDef, BackendError, ClientBuilder, ConfigError, CreateOutcome, Described,
    KeyElement, KeyRole, LeaseCore, LeaseState, LocalLockOutcome, Patience,
    SchemaError, SchemaProblem, TableShape, TimeSpan, TimeToLiveShape, WriteOutcome,
};

fn secs(s: u32) -> TimeSpan {
    TimeSpan::from_secs(s)
}

fn millis(ms: u64) -> TimeSpan {
    TimeSpan::from_nanos(ms * 1_000_000)
}

fn is_uuid_text(s: &str) -> bool {
    s.len() == 36
        && s.char_indices().all(|(i, c)| {
            if i == 8 || i == 13 || i == 18 || i == 23 {
                c == '-'
            } else {
                c.is_ascii_hexdigit() && !c.is_ascii_uppercase()
            }
        })
}

#[test]
fn builder_defaults() {
    let b = ClientBuilder::default();
    assert_eq!(b.table_name, "leases");
    assert_eq!(b.lease_ttl_seconds, 60);
    assert_eq!(b.extend_period, None);
    assert_eq!(b.acquire_cooldown, secs(1));
    let c = b.build().unwrap();
    assert_eq!(c.table_name, "leases");
    assert_eq!(c.extend_period, secs(30));
    assert_eq!(c.acquire_cooldown.as_nanos(), 1_000_000_000);
}

#[test]
fn builder_setters_keep_other_fields() {
    let b = ClientBuilder::new()
        .table_name("test-locker-leases")
        .lease_ttl_seconds(10)
        .extend_every(millis(1500))
        .acquire_cooldown(millis(100));
    assert_eq!(b.table_name, "test-locker-leases");
    assert_eq!(b.lease_ttl_seconds, 10);
    assert_eq!(b.extend_period, Some(millis(1500)));
    assert_eq!(b.acquire_cooldown, millis(100));
    let c = b.build().unwrap();
    assert_eq!(c.lease_ttl_seconds, 10);
    assert_eq!(c.extend_period.as_nanos(), 1_500_000_000);
}

#[test]
fn default_extend_period_is_half_an_odd_ttl() {
    let c = ClientBuilder::new().lease_ttl_seconds(3).build().unwrap();
    assert_eq!(c.extend_period.as_nanos(), 1_500_000_000);
}

#[test]
fn build_refuses_short_ttl() {
    assert_eq!(ClientBuilder::new().lease_ttl_seconds(1).build().unwrap_err(), ConfigError::TtlTooShort);
    assert_eq!(ClientBuilder::new().lease_ttl_seconds(0).build().unwrap_err(), ConfigError::TtlTooShort);
    assert!(ClientBuilder::new().lease_ttl_seconds(2).build().is_ok());
}

#[test]
fn build_refuses_renewal_not_below_ttl() {
    let r = ClientBuilder::new().lease_ttl_seconds(5).extend_every(secs(5)).build();
    assert_eq!(r.unwrap_err(), ConfigError::RenewalPeriodNotBelowTtl);
    let r = ClientBuilder::new().lease_ttl_seconds(5).extend_every(secs(6)).build();
    assert_eq!(r.unwrap_err(), ConfigError::RenewalPeriodNotBelowTtl);
    let r = ClientBuilder::new().lease_ttl_seconds(5).extend_every(TimeSpan::from_nanos(4_999_999_999)).build();
    assert!(r.is_ok());
}

#[test]
fn build_refuses_zero_renewal_period() {
    let r = ClientBuilder::new().extend_every(TimeSpan::from_nanos(0)).build();
    assert_eq!(r.unwrap_err(), ConfigError::ZeroRenewalPeriod);
}

#[test]
fn time_span_min_and_secs() {
    assert_eq!(secs(2).as_nanos(), 2_000_000_000);
    assert_eq!(secs(u32::MAX).as_nanos(), 4_294_967_295_000_000_000);
    assert_eq!(secs(3).min(millis(200)), millis(200));
    assert_eq!(millis(200).min(secs(3)), millis(200));
}

fn attr(name: &str, t: AttrType) -> AttributeDef {
    AttributeDef { name: Some(name.to_string()), attr_type: Some(t) }
}

fn key_el(name: &str, role: KeyRole) -> KeyElement {
    KeyElement { name: Some(name.to_string()), role: Some(role) }
}

fn good_table() -> TableShape {
    TableShape { attributes: vec![attr("key", AttrType::String)], key_schema: vec![key_el("key", KeyRole::Hash)] }
}

fn good_ttl() -> Described<TimeToLiveShape> {
    Described::Found(TimeToLiveShape { attribute_name: Some("lease_expiry".to_string()) })
}

#[test]
fn schema_accepts_lease_table() {
    assert_eq!(check_schema(&Described::Found(good_table()), &good_ttl()), Ok(()));
    let t = TableShape {
        attributes: vec![attr("other", AttrType::Number), attr("key", AttrType::String)],
        key_schema: vec![key_el("key", KeyRole::Hash)],
    };
    assert_eq!(check_schema(&Described::Found(t), &good_ttl()), Ok(()));
}

#[test]
fn schema_missing_table() {
    assert_eq!(check_schema(&Described::Failed, &good_ttl()), Err(SchemaError::MissingTable));
    assert_eq!(check_schema(&Described::Empty, &good_ttl()), Err(SchemaError::NoTableDescription));
    assert_eq!(SchemaError::MissingTable.problem(), SchemaProblem::Table);
}

#[test]
fn schema_wrong_hash_key() {
    let t = TableShape { attributes: vec![attr("wrong", AttrType::String)], key_schema: vec![key_el("wrong", KeyRole::Hash)] };
    let e = check_schema(&Described::Found(t), &good_ttl()).unwrap_err();
    assert_eq!(e, SchemaError::MissingKeyAttribute);
    assert_eq!(e.problem(), SchemaProblem::HashKey);

    let t = TableShape { attributes: vec![attr("key", AttrType::String)], key_schema: vec![key_el("wrong", KeyRole::Hash)] };
    let e = check_schema(&Described::Found(t), &good_ttl()).unwrap_err();
    assert_eq!(e, SchemaError::MissingKeySchema);
    assert_eq!(e.problem(), SchemaProblem::HashKey);

    let t = TableShape {
        attributes: vec![attr("key", AttrType::String)],
        key_schema: vec![key_el("key", KeyRole::Hash), key_el("sort", KeyRole::Range)],
    };
    let e = check_schema(&Described::Found(t), &good_ttl()).unwrap_err();
    assert_eq!(e, SchemaError::KeyCount);
    assert_eq!(e.problem(), SchemaProblem::HashKey);
}

#[test]
fn schema_wrong_key_type() {
    let t = TableShape { attributes: vec![attr("key", AttrType::Number)], key_schema: vec![key_el("key", KeyRole::Hash)] };
    let e = check_schema(&Described::Found(t), &good_ttl()).unwrap_err();
    assert_eq!(e, SchemaError::WrongKeyAttributeType);
    assert_eq!(e.problem(), SchemaProblem::KeyType);

    let t = TableShape { attributes: vec![attr("key", AttrType::String)], key_schema: vec![key_el("key", KeyRole::Range)] };
    let e = check_schema(&Described::Found(t), &good_ttl()).unwrap_err();
    assert_eq!(e, SchemaError::WrongKeyRole);
    assert_eq!(e.problem(), SchemaProblem::KeyType);

    let t = TableShape {
        attributes: vec![AttributeDef { name: Some("key".to_string()), attr_type: None }],
        key_schema: vec![key_el("key", KeyRole::Hash)],
    };
    assert_eq!(check_schema(&Described::Found(t), &good_ttl()), Err(SchemaError::MissingKeyAttributeType));

    let t = TableShape {
        attributes: vec![attr("key", AttrType::String)],
        key_schema: vec![KeyElement { name: Some("key".to_string()), role: None }],
    };
    assert_eq!(check_schema(&Described::Found(t), &good_ttl()), Err(SchemaError::MissingKeyRole));
}

#[test]
fn schema_without_time_to_live() {
    let table = Described::Found(good_table());
    let off = Described::Found(TimeToLiveShape { attribute_name: None });
    let e = check_schema(&table, &off).unwrap_err();
    assert_eq!(e, SchemaError::TimeToLiveNotSet);
    assert_eq!(e.problem(), SchemaProblem::TimeToLive);
    let other = Described::Found(TimeToLiveShape { attribute_name: Some("expires".to_string()) });
    assert_eq!(check_schema(&table, &other), Err(SchemaError::TimeToLiveNotSet));
    assert_eq!(check_schema(&table, &Described::Failed), Err(SchemaError::MissingTimeToLive));
    assert_eq!(check_schema(&table, &Described::Empty), Err(SchemaError::NoTimeToLiveDescription));
    assert_eq!(SchemaError::MissingTimeToLive.problem(), SchemaProblem::TimeToLive);
}

#[test]
fn schema_problems_are_distinct() {
    let key = SchemaError::MissingKeyAttribute.problem();
    let ty = SchemaError::WrongKeyAttributeType.problem();
    let ttl = SchemaError::TimeToLiveNotSet.problem();
    assert_ne!(key, ty);
    assert_ne!(key, ttl);
    assert_ne!(ty, ttl);
}

#[test]
fn expiry_is_now_plus_ttl() {
    assert_eq!(expiry_after(1_700_000_000, 60), 1_700_000_060);
    assert_eq!(expiry_after(-5, 2), -3);
}

#[test]
fn create_request_fields() {
    let token: u128 = 0xa1a2a3a4b1b2c1c2d1d2d3d4d5d6d7d8;
    let r = create_request("job".to_string(), 100, 60, token);
    assert_eq!(r.key, "job");
    assert_eq!(r.token, token);
    assert_eq!(r.token_text, "a1a2a3a4-b1b2-c1c2-d1d2-d3d4d5d6d7d8");
    assert_eq!(r.expiry, 160);
}

#[test]
fn renew_and_release_requests_use_held_token() {
    let held: u128 = 1;
    let fresh: u128 = 0xffff;
    let r = renew_request("job".to_string(), held, 10, 5, fresh);
    assert_eq!(r.expected_text, "00000000-0000-0000-0000-000000000001");
    assert_eq!(r.token_text, "00000000-0000-0000-0000-00000000ffff");
    assert_eq!(r.token, fresh);
    assert_eq!(r.expiry, 15);
    let d = release_request("job".to_string(), held);
    assert_eq!(d.key, "job");
    assert_eq!(d.expected_text, "00000000-0000-0000-0000-000000000001");
}

#[test]
fn begin_create_uses_fresh_v4_tokens() {
    let c = ClientBuilder::new().build().unwrap();
    let a = c.begin_create("k".to_string());
    let b = c.begin_create("k".to_string());
    assert_ne!(a.token, b.token);
    assert_eq!((a.token >> 76) & 0xf, 4);
    assert_eq!((a.token >> 62) & 3, 2);
    assert!(is_uuid_text(&a.token_text));
    assert!(a.expiry > 1_600_000_000 + 60);
    let r = c.begin_renew("k".to_string(), a.token);
    assert_eq!(r.expected_text, a.token_text);
    assert_ne!(r.token, a.token);
}

#[test]
fn create_outcome_classifies() {
    let r = create_request("job".to_string(), 0, 2, 77);
    assert!(matches!(create_outcome(&r, WriteOutcome::Written), CreateOutcome::Created { token: 77 }));
    assert!(matches!(create_outcome(&r, WriteOutcome::ConditionFailed), CreateOutcome::Contended));
    let e = BackendError { message: "down".to_string() };
    match create_outcome(&r, WriteOutcome::Failed(e.clone())) {
        CreateOutcome::Failed(got) => assert_eq!(got, e),
        _ => panic!("expected a failure"),
    }
}

#[test]
fn retry_delay_values() {
    assert_eq!(retry_delay(millis(0), secs(5), secs(1)), Some(secs(1)));
    assert_eq!(retry_delay(millis(4500), secs(5), secs(1)), Some(millis(500)));
    assert_eq!(retry_delay(secs(5), secs(5), secs(1)), Some(millis(0)));
    assert_eq!(retry_delay(millis(5001), secs(5), secs(1)), None);
}

#[test]
fn try_acquire_twice_second_not_acquired() {
    // the first holder keeps the in-process lock
    let mut a = Acquisition::new(Patience::NoWait, secs(1));
    assert!(matches!(a.start(), AcquireAction::LockLocal(Patience::NoWait)));
    assert!(matches!(a.on_local_lock(LocalLockOutcome::Busy), AcquireAction::Done(AcquireResult::NotAcquired)));
    assert_eq!(a.phase, AcquirePhase::Finished);
    // the first holder is another process: the create is contended
    let mut b = Acquisition::new(Patience::NoWait, secs(1));
    b.start();
    assert!(matches!(b.on_local_lock(LocalLockOutcome::Taken), AcquireAction::SendCreate));
    assert!(matches!(b.on_create(CreateOutcome::Contended, millis(3)), AcquireAction::Done(AcquireResult::NotAcquired)));
}

#[test]
fn try_acquire_wins_when_free() {
    let mut a = Acquisition::new(Patience::NoWait, secs(1));
    a.start();
    a.on_local_lock(LocalLockOutcome::Taken);
    let act = a.on_create(CreateOutcome::Created { token: 9 }, millis(3));
    assert!(matches!(act, AcquireAction::Done(AcquireResult::Acquired { token: 9 })));
}

#[test]
fn acquire_sleeps_one_cooldown_and_retries() {
    let mut a = Acquisition::new(Patience::Unbounded, millis(100));
    a.start();
    a.on_local_lock(LocalLockOutcome::Taken);
    for i in 0..3u64 {
        match a.on_create(CreateOutcome::Contended, secs(i as u32 * 7)) {
            AcquireAction::Sleep(d) => assert_eq!(d, millis(100)),
            _ => panic!("should not acquire while the lease is held"),
        }
        assert!(matches!(a.on_slept(), AcquireAction::SendCreate));
    }
    assert!(matches!(
        a.on_create(CreateOutcome::Created { token: 5 }, secs(30)),
        AcquireAction::Done(AcquireResult::Acquired { token: 5 })
    ));
}

#[test]
fn acquire_fails_on_backend_error() {
    let mut a = Acquisition::new(Patience::Unbounded, millis(100));
    a.start();
    a.on_local_lock(LocalLockOutcome::Taken);
    let e = BackendError { message: "throttled".to_string() };
    match a.on_create(CreateOutcome::Failed(e.clone()), millis(1)) {
        AcquireAction::Done(AcquireResult::Failed(got)) => assert_eq!(got, e),
        _ => panic!("expected the error"),
    }
}

#[test]
fn acquire_timeout_cuts_sleep_then_times_out() {
    let mut a = Acquisition::new(Patience::Bounded { max_wait: secs(2) }, secs(1));
    assert!(matches!(a.start(), AcquireAction::LockLocal(Patience::Bounded { .. })));
    a.on_local_lock(LocalLockOutcome::Taken);
    match a.on_create(CreateOutcome::Contended, millis(1500)) {
        AcquireAction::Sleep(d) => assert_eq!(d, millis(500)),
        _ => panic!("expected a sleep"),
    }
    a.on_slept();
    assert!(matches!(a.on_create(CreateOutcome::Contended, millis(2001)), AcquireAction::Done(AcquireResult::TimedOut)));
}

#[test]
fn acquire_timeout_on_local_lock() {
    let mut a = Acquisition::new(Patience::Bounded { max_wait: millis(10) }, secs(1));
    a.start();
    assert!(matches!(a.on_local_lock(LocalLockOutcome::TimedOut), AcquireAction::Done(AcquireResult::TimedOut)));
}

#[test]
fn renewal_installs_new_token() {
    let c = ClientBuilder::new().lease_ttl_seconds(10).build().unwrap();
    let mut lease = LeaseCore::new("job".to_string(), 1);
    let req = lease.next_renewal(&c).unwrap();
    assert_eq!(req.expected_text, "00000000-0000-0000-0000-000000000001");
    assert!(lease.apply_renewal(&req, WriteOutcome::Written));
    assert_eq!(lease.token, req.token);
    assert_eq!(lease.state, LeaseState::Active);
    let next = lease.next_renewal(&c).unwrap();
    assert_eq!(next.expected_text, req.token_text);
}

#[test]
fn renewal_failure_loses_lease_for_good() {
    let c = ClientBuilder::new().build().unwrap();
    let mut lease = LeaseCore::new("job".to_string(), 1);
    let req = lease.next_renewal(&c).unwrap();
    assert!(!lease.apply_renewal(&req, WriteOutcome::ConditionFailed));
    assert_eq!(lease.state, LeaseState::Lost);
    assert_eq!(lease.token, 1);
    assert!(lease.next_renewal(&c).is_none());

    let mut other = LeaseCore::new("job".to_string(), 2);
    let req = other.next_renewal(&c).unwrap();
    assert!(!other.apply_renewal(&req, WriteOutcome::Failed(BackendError { message: "x".to_string() })));
    assert_eq!(other.state, LeaseState::Lost);
}

#[test]
fn release_deletes_under_last_token() {
    let c = ClientBuilder::new().build().unwrap();
    let mut lease = LeaseCore::new("job".to_string(), 1);
    let req = lease.next_renewal(&c).unwrap();
    lease.apply_renewal(&req, WriteOutcome::Written);
    let d = lease.release();
    assert_eq!(lease.state, LeaseState::Released);
    assert_eq!(d.key, "job");
    assert_eq!(d.expected_text, req.token_text);
    assert!(lease.next_renewal(&c).is_none());
}

#[test]
fn renewal_period_below_ttl_scenario() {
    // ttl 10s, renewal every 5s: a renewal at t=0 expires at 10, the next one comes at 5
    let c = ClientBuilder::new().lease_ttl_seconds(10).build().unwrap();
    assert!(c.extend_period.as_nanos() < 10_000_000_000);
    let first = expiry_after(0, c.lease_ttl_seconds);
    let next_tick_secs = (c.extend_period.as_nanos() / 1_000_000_000) as i64;
    assert!(next_tick_secs <= first);
}

#[test]
fn idle_entries_only() {
    assert!(entry_is_idle(1));
    assert!(entry_is_idle(0));
    assert!(!entry_is_idle(2));
}
