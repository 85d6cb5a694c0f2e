//! Properties that relate several operations of the library, proved over the
//! spec functions that those operations' contracts use.
use vstd::prelude::*;
use crate::address::valid_address;
use crate::policy::{
    Config, ConfigError, valid_policy, same_policy, decoded, json_u64_member, json_bool_member,
    json_str_member,
};
use crate::store::{reload_policies, reload_outcome, ReloadOutcome};
use crate::monitor::{plan_tick, after_tick, idle_expired, TickPlan, TICK_SECS, BACKOFF_SECS, FAILURE_THRESHOLD};

verus! {

/// A document whose JSON members hold the fields of a valid policy decodes
/// to exactly that policy; in particular `load` gives back a saved policy
/// wherever serde_json reads the saved members back unchanged.
pub proof fn lemma_document_with_policy_fields_decodes(p: Config, text: Seq<char>)
    requires
        valid_policy(p),
        json_u64_member(text, "inactivity_timeout"@) == Some(p.inactivity_timeout),
        json_bool_member(text, "auto_connect"@) == Some(p.auto_connect),
        json_str_member(text, "device_address"@) == Some(p.device_address@),
    ensures
        decoded(text) == Some((p.inactivity_timeout, p.auto_connect, p.device_address@)),
{
}

/// A zero idle timeout, or an address that is not six colon-separated pairs
/// of upper-case hex digits, makes a policy invalid.
pub proof fn lemma_validation_rejects(c: Config)
    requires
        c.inactivity_timeout == 0 || !valid_address(c.device_address@),
    ensures
        !valid_policy(c),
{
}

/// When the policy in force is also the backup, a failed reload leaves both
/// as they were, and reports the failure.
pub proof fn lemma_failed_reload_keeps_policy(
    current: Config,
    backup: Config,
    loaded: Result<Config, ConfigError>,
)
    requires
        valid_policy(current),
        same_policy(current, backup),
        loaded is Err || !valid_policy(loaded->Ok_0),
    ensures
        same_policy(reload_policies(current, backup, loaded).0, current),
        reload_policies(current, backup, loaded).1 == backup,
        reload_outcome(loaded) is RolledBack,
{
}

/// A successful reload makes the loaded policy current and keeps the previous
/// one as the backup when it had passed validation; either way the backup is
/// then a validated policy.
pub proof fn lemma_successful_reload_swaps(
    current: Config,
    backup: Config,
    loaded: Config,
)
    requires
        valid_policy(loaded),
    ensures
        valid_policy(current) ==> reload_policies(current, backup, Ok(loaded)) == (loaded, current),
        !valid_policy(current) ==> reload_policies(current, backup, Ok(loaded)) == (loaded, loaded),
        valid_policy(reload_policies(current, backup, Ok(loaded)).1),
        reload_outcome(Ok::<Config, ConfigError>(loaded)) == ReloadOutcome::Applied,
{
}

/// Three failed ticks in a row, counted from a clean state, end in a pause of
/// the baseline tick plus the backoff, and clear the failure count.
pub proof fn lemma_backoff_after_three_failures()
    ensures
        ({
            let (e1, s1) = after_tick(0, true);
            let (e2, s2) = after_tick(e1, true);
            let (e3, s3) = after_tick(e2, true);
            &&& s1 == TICK_SECS && s2 == TICK_SECS
            &&& s3 >= TICK_SECS + BACKOFF_SECS
            &&& e3 == 0
        }),
{
}

/// From any failure count below the threshold, three failed ticks in a row
/// include one whose pause carries the backoff.
pub proof fn lemma_backoff_within_three_failures(errors: u64)
    requires
        errors < FAILURE_THRESHOLD,
    ensures
        ({
            let (e1, s1) = after_tick(errors, true);
            let (e2, s2) = after_tick(e1, true);
            let (e3, s3) = after_tick(e2, true);
            s1 >= TICK_SECS + BACKOFF_SECS || s2 >= TICK_SECS + BACKOFF_SECS || s3 >= TICK_SECS
                + BACKOFF_SECS
        }),
{
}

/// Once the idle timeout has passed since the last activity, every silent tick
/// asks for exactly one disconnect and leaves the idle timer where it was, so
/// every later silent tick asks again.
pub proof fn lemma_idle_disconnect_repeats(last_ms: u64, policy: Config, now_ms: u64, later_ms: u64)
    requires
        idle_expired(last_ms, now_ms, policy.inactivity_timeout),
        now_ms <= later_ms,
    ensures
        plan_tick(last_ms, policy, Ok(false), now_ms) == (last_ms, TickPlan::Disconnect),
        plan_tick(last_ms, policy, Ok(false), later_ms) == (last_ms, TickPlan::Disconnect),
{
}

/// With auto-connect on, every tick on which the sensor reports activity asks
/// for a connect, whatever happened on earlier ticks.
pub proof fn lemma_connect_on_activity(last_ms: u64, policy: Config, now_ms: u64)
    requires
        policy.auto_connect,
    ensures
        plan_tick(last_ms, policy, Ok(true), now_ms) == (now_ms, TickPlan::Connect),
{
}

} // verus!
