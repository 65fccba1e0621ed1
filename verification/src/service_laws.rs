//! What holds of the service, call by call.

use vstd::prelude::*;
use vstd::string::*;

use crate::engine::VolumeMode;
use crate::pairing::TransportConfig;
use crate::service::{
    latch_lifecycle_into_shared, next_watchdog_generation, unix_seconds_string, AutoConnect,
    AutoConnectStep, ConnectReply, ConnectRun, ConnectStep, DaemonQconnectService,
    QconnectHandle, QconnectLifecycleState, QconnectStatus, ShutdownWork,
};

verus! {

/// The word for a state.
pub open spec fn word_for(state: QconnectLifecycleState) -> Seq<char> {
    match state {
        QconnectLifecycleState::Off => "off"@,
        QconnectLifecycleState::Connecting => "connecting"@,
        QconnectLifecycleState::Connected => "connected"@,
        QconnectLifecycleState::Reconnecting => "retrying"@,
        QconnectLifecycleState::Exhausted => "exhausted"@,
    }
}

/// The status tells of this state: it has its word, the session is active while it is
/// connected, the network is known to be there once it was, and a lost connection is
/// noted with its time. Nothing else has changed.
pub open spec fn tells_of(
    before: QconnectStatus,
    after: QconnectStatus,
    state: QconnectLifecycleState,
    now: u64,
) -> bool {
    &&& after.state@ == word_for(state)
    &&& after.session_active <==> state is Connected
    &&& state is Connected ==> after.network_online
    &&& !(state is Connected) ==> after.network_online == before.network_online
    &&& state is Reconnecting ==> after.last_transport_reconnect is Some
        && after.last_transport_reconnect->0@ == crate::text::decimal(now as nat)
    &&& !(state is Reconnecting) ==> after.last_transport_reconnect
        == before.last_transport_reconnect
    &&& after.enabled == before.enabled
    &&& after.device_name == before.device_name
    &&& after.pairing == before.pairing
    &&& after.pairing_port == before.pairing_port
}

/// A state has its own word, a status tells of the state that it is given, and times
/// are written in seconds.
pub proof fn law_a_state_is_told_in_its_word(
    state: QconnectLifecycleState,
    word: &'static str,
    status: &mut QconnectStatus,
    now: u64,
    text: String,
)
    requires
        call_ensures(QconnectLifecycleState::label, (state,), word),
        call_ensures(latch_lifecycle_into_shared, (status, state, now), ()),
        call_ensures(unix_seconds_string, (now,), text),
    ensures
        word@ == word_for(state),
        tells_of(*old(status), *final(status), state, now),
        text@ == crate::text::decimal(now as nat),
{
}

/// A watchdog's generation is the next one up, and starts over behind the last.
pub proof fn law_a_generation_counts_up(generation: u64, r: u64)
    requires
        call_ensures(next_watchdog_generation, (generation,), r),
    ensures
        generation < u64::MAX ==> r == generation + 1,
        generation == u64::MAX ==> r == 0,
{
}

/// A new service is off, has no tokens and no error, and says whether it connects by
/// itself and under which name.
pub proof fn law_a_new_service_is_off(auto: bool, name: String, r: DaemonQconnectService)
    requires
        call_ensures(DaemonQconnectService::new, (auto, name), r),
    ensures
        !r.running,
        r.last_error is None,
        r.lifecycle_state is Off,
        r.last_pushed_queue_ids is None,
        r.pairing_store.tokens is None,
        !r.handoff_join_pending,
        r.status.enabled == auto,
        r.status.device_name == name,
        r.status.state@ == "off"@,
        !r.status.session_active,
        !r.status.network_online,
        !r.status.pairing,
        r.status.pairing_port is None,
        r.status.last_transport_reconnect is None,
{
}

/// Pairing is told with its port, and is off without one; forgetting it forgets the
/// tokens and the join.
pub proof fn law_pairing_is_told_with_its_port(
    service: &mut DaemonQconnectService,
    port: Option<u16>,
    other: &mut DaemonQconnectService,
)
    requires
        call_ensures(DaemonQconnectService::pairing_started, (service, port), ()),
        call_ensures(DaemonQconnectService::forget_pairing, (other,), ()),
    ensures
        final(service).status.pairing <==> port is Some,
        final(service).status.pairing_port == port,
        final(service).status.state == old(service).status.state,
        final(service).status.device_name == old(service).status.device_name,
        final(service).status.session_active == old(service).status.session_active,
        final(service).running == old(service).running,
        final(service).pairing_store == old(service).pairing_store,
        final(service).lifecycle_state == old(service).lifecycle_state,
        final(other).pairing_store.tokens is None,
        !final(other).handoff_join_pending,
        final(other).running == old(other).running,
        final(other).status == old(other).status,
        final(other).lifecycle_state == old(other).lifecycle_state,
{
}

/// A service that runs takes over a new state, and tells of it; the same state again, or
/// one for a service that does not run, changes nothing.
pub proof fn law_a_running_service_takes_over_its_state(
    service: &mut DaemonQconnectService,
    next: QconnectLifecycleState,
    now: u64,
    r: bool,
)
    requires
        call_ensures(
            DaemonQconnectService::update_lifecycle_state_if_running,
            (service, next, now),
            r,
        ),
    ensures
        r <==> old(service).running && old(service).lifecycle_state != next,
        !r ==> *final(service) == *old(service),
        r ==> final(service).lifecycle_state == next && tells_of(
            old(service).status,
            final(service).status,
            next,
            now,
        ) && final(service).running && final(service).pairing_store == old(service).pairing_store
            && final(service).last_error == old(service).last_error && final(service).last_pushed_queue_ids == old(service).last_pushed_queue_ids && final(service).handoff_join_pending == old(service).handoff_join_pending,
{
}

/// The stored tokens are live now.
pub open spec fn has_live_tokens(service: DaemonQconnectService, now: u64) -> bool {
    &&& service.pairing_store.tokens is Some
    &&& (service.pairing_store.tokens->0).ws_exp == 0 || (service.pairing_store.tokens->0).ws_exp
        > now + 60
}

/// The configuration is the one made of these tokens.
pub open spec fn is_made_of(config: TransportConfig, tokens: crate::pairing::PairingTokens) -> bool {
    &&& config.endpoint_url@ == tokens.ws_endpoint@
    &&& config.jwt_qws is Some
    &&& config.jwt_qws->0@ == tokens.ws_jwt@
    &&& config.require_jwt
    &&& config.reconnect_idle_retry_ms == 60000
}

/// The service has begun to connect: it tells of it, has no error, opens with live tokens
/// and resolves a configuration without any; tokens that have expired are forgotten.
pub open spec fn begins_to_connect(
    before: DaemonQconnectService,
    after: DaemonQconnectService,
    now: u64,
    run: ConnectRun,
    step: ConnectStep,
) -> bool {
    &&& after.lifecycle_state is Connecting
    &&& after.last_error is None
    &&& tells_of(before.status, after.status, QconnectLifecycleState::Connecting, now)
    &&& after.running == before.running
    &&& after.last_pushed_queue_ids == before.last_pushed_queue_ids
    &&& run.failure is None
    &&& has_live_tokens(before, now) ==> run.stage is Opening && run.idle_retry && step is Open
        && is_made_of(step->Open_0, before.pairing_store.tokens->0)
        && after.pairing_store.tokens == before.pairing_store.tokens
    &&& !has_live_tokens(before, now) ==> run.stage is Resolving && step is Resolve
        && after.pairing_store.tokens is None
}

/// A service connects once its client is there. One that runs, or connects already, has
/// nothing to do; without a client it fails and says so. Neither changes it.
pub proof fn law_a_service_connects_once(
    service: &mut DaemonQconnectService,
    ready: bool,
    mode: VolumeMode,
    now: u64,
    r: (ConnectRun, ConnectStep),
)
    requires
        call_ensures(DaemonQconnectService::connect, (service, ready, mode, now), r),
    ensures
        r.0.volume_mode == mode,
        !ready ==> r.0.stage is Finished && (r.1 matches ConnectStep::Finish(Err(message))
            && message@ == "Qobuz API is not initialized; cannot start Qobuz Connect"@) && *final(service) == *old(service),
        ready && (old(service).running || old(service).lifecycle_state is Connecting)
            ==> r.0.stage is Finished && r.1 == ConnectStep::Finish(Ok(())) && *final(service)
            == *old(service),
        ready && !old(service).running && !(old(service).lifecycle_state is Connecting)
            ==> begins_to_connect(*old(service), *final(service), now, r.0, r.1) && final(service).handoff_join_pending == old(service).handoff_join_pending,
{
}

/// A connection for a pairing remembers that the device that paired is to be joined, and
/// begins as any other.
pub proof fn law_a_pairing_connects_and_joins(
    service: &mut DaemonQconnectService,
    ready: bool,
    mode: VolumeMode,
    now: u64,
    r: (ConnectRun, ConnectStep),
)
    requires
        call_ensures(
            DaemonQconnectService::reconnect_for_pairing,
            (service, ready, mode, now),
            r,
        ),
    ensures
        final(service).handoff_join_pending,
        r.0.volume_mode == mode,
        ready ==> begins_to_connect(*old(service), *final(service), now, r.0, r.1),
        !ready ==> r.0.stage is Finished && (r.1 matches ConnectStep::Finish(Err(message))
            && message@ == "Qobuz API is not initialized; cannot start Qobuz Connect"@) && final(service).lifecycle_state == old(service).lifecycle_state && final(service).status == old(service).status && final(service).pairing_store == old(service).pairing_store,
{
}

/// A takeover is authorized by the account token of live tokens; tokens that have
/// expired are forgotten.
pub proof fn law_a_takeover_needs_live_tokens(
    service: &mut DaemonQconnectService,
    now: u64,
    r: Option<Option<String>>,
)
    requires
        call_ensures(DaemonQconnectService::takeover_bearer, (service, now), r),
    ensures
        r is Some <==> has_live_tokens(*old(service), now),
        r is Some ==> r->0 == (old(service).pairing_store.tokens->0).api_jwt && *final(service)
            == *old(service),
        r is None ==> final(service).pairing_store.tokens is None && final(service).running == old(service).running && final(service).status == old(service).status && final(service).lifecycle_state == old(service).lifecycle_state,
{
}

/// A service that is disconnected does not run and is off. What it tells goes off at once
/// where it did not run, and with the closed connection where it did; a connection that
/// did not close well leaves its error.
pub proof fn law_a_disconnected_service_is_off(
    service: &mut DaemonQconnectService,
    r: bool,
    after: &mut DaemonQconnectService,
    closed: Result<(), String>,
)
    requires
        call_ensures(DaemonQconnectService::disconnect, (service,), r),
        *old(after) == *final(service),
        call_ensures(DaemonQconnectService::disconnected, (after, closed), ()),
    ensures
        r <==> old(service).running,
        !final(service).running,
        final(service).lifecycle_state is Off,
        r ==> final(service).status == old(service).status,
        !r ==> final(service).status.state@ == "off"@ && !final(service).status.session_active,
        final(service).pairing_store == old(service).pairing_store,
        final(service).last_error == old(service).last_error,
        final(after).status.state@ == "off"@,
        !final(after).status.session_active,
        final(after).status.device_name == old(service).status.device_name,
        final(after).status.pairing == old(service).status.pairing,
        final(after).status.network_online == old(service).status.network_online,
        closed is Ok ==> final(after).last_error == old(service).last_error,
        closed is Err ==> final(after).last_error is Some && final(after).last_error->0@
            == "qconnect disconnect failed: "@ + closed->Err_0@,
        !final(after).running,
        final(after).lifecycle_state is Off,
{
}

/// A resolved configuration is opened; one that could not be had ends the run with its
/// error, and a service that does not run is off again.
pub proof fn law_a_resolved_configuration_is_opened(
    run: &mut ConnectRun,
    service: &mut DaemonQconnectService,
    reply: ConnectReply,
    now: u64,
    r: ConnectStep,
)
    requires
        call_ensures(ConnectRun::step, (run, service, reply, now), r),
        reply is Resolved,
    ensures
        reply->Resolved_0 is Ok ==> r is Open && r->Open_0 == (reply->Resolved_0)->Ok_0 && final(run).stage is Opening && (final(run).idle_retry <==> (
        (reply->Resolved_0)->Ok_0).reconnect_idle_retry_ms > 0) && *final(service) == *old(service),
        reply->Resolved_0 is Err ==> r == ConnectStep::Finish(Err((reply->Resolved_0)->Err_0))
            && final(run).stage is Finished && tells_of(
            old(service).status,
            final(service).status,
            QconnectLifecycleState::Off,
            now,
        ) && (!old(service).running ==> final(service).lifecycle_state is Off) && (old(service).running ==> final(service).lifecycle_state == old(service).lifecycle_state) && final(service).last_error == old(service).last_error && final(service).running == old(service).running,
        final(run).volume_mode == old(run).volume_mode,
{
    match reply {
        ConnectReply::Resolved(result) => {
            match result {
                Ok(config) => {},
                Err(why) => {},
            }
        },
        _ => {},
    }
}

/// Once it is open a service runs, without an error and without a queue that was pushed;
/// its volume is pinned where it is locked. One that does not open is off, and keeps why.
pub proof fn law_an_open_connection_starts_the_service(
    run: &mut ConnectRun,
    service: &mut DaemonQconnectService,
    reply: ConnectReply,
    now: u64,
    r: ConnectStep,
)
    requires
        call_ensures(ConnectRun::step, (run, service, reply, now), r),
        reply is Opened,
    ensures
        reply->Opened_0 is Ok ==> r is Start && (r->pin_volume <==> old(run).volume_mode is Locked)
            && (r->idle_retry <==> old(run).idle_retry) && final(run).stage is Bootstrapping
            && final(service).running && final(service).last_error is None && final(service).last_pushed_queue_ids is None && final(service).status == old(service).status && final(service).pairing_store == old(service).pairing_store && final(service).lifecycle_state == old(service).lifecycle_state,
        reply->Opened_0 is Err ==> (r matches ConnectStep::Finish(Err(message)) && message@
            == "qconnect transport connect failed: "@ + (reply->Opened_0)->Err_0@) && final(run).stage is Finished && final(service).lifecycle_state is Off && final(service).last_error is Some && final(service).last_error->0@
            == "qconnect transport connect failed: "@ + (reply->Opened_0)->Err_0@ && tells_of(
            old(service).status,
            final(service).status,
            QconnectLifecycleState::Off,
            now,
        ) && final(service).running == old(service).running,
        final(run).volume_mode == old(run).volume_mode,
{
    match reply {
        ConnectReply::Opened(result) => {
            match result {
                Ok(_) => {},
                Err(why) => {},
            }
        },
        _ => {},
    }
}

/// A bootstrap that succeeds ends the run and takes over the device's name. One that fails
/// is torn down first; only then the run ends, and the service keeps why.
pub proof fn law_a_failed_bootstrap_is_torn_down(
    run: &mut ConnectRun,
    service: &mut DaemonQconnectService,
    reply: ConnectReply,
    now: u64,
    r: ConnectStep,
)
    requires
        call_ensures(ConnectRun::step, (run, service, reply, now), r),
        reply is Bootstrapped || reply is TornDown,
    ensures
        reply is Bootstrapped && reply->Bootstrapped_0 is Ok ==> r == ConnectStep::Finish(Ok(()))
            && final(run).stage is Finished && final(service).status.device_name == (
        reply->Bootstrapped_0)->Ok_0 && final(service).status.state == old(service).status.state
            && final(service).running == old(service).running && final(service).last_error == old(service).last_error,
        reply is Bootstrapped && reply->Bootstrapped_0 is Err ==> r is TearDown && final(run).stage is TearingDown && final(run).failure is Some && final(run).failure->0@
            == "qconnect bootstrap failed: "@ + (reply->Bootstrapped_0)->Err_0@ && *final(service)
            == *old(service),
        reply is TornDown ==> (r matches ConnectStep::Finish(Err(message)) && message@ == old(run).failure->0@) && final(run).stage is Finished && final(service).last_error is Some
            && final(service).last_error->0@ == old(run).failure->0@ && final(service).running
            == old(service).running && final(service).status == old(service).status,
        final(run).volume_mode == old(run).volume_mode,
{
    match reply {
        ConnectReply::Bootstrapped(result) => {
            match result {
                Ok(_) => {},
                Err(why) => {},
            }
        },
        _ => {},
    }
}

/// A device connects by itself once it is logged in and has its client; until then it
/// looks twice a second.
pub proof fn law_a_device_connects_when_it_is_ready(
    fresh: AutoConnect,
    auto: &AutoConnect,
    logged_in: bool,
    ready: bool,
    r: AutoConnectStep,
)
    requires
        call_ensures(AutoConnect::new, (), fresh),
        call_ensures(AutoConnect::connect_on_ready, (auto, logged_in, ready), r),
    ensures
        fresh.failed == 0,
        logged_in && ready ==> r is Connect,
        !(logged_in && ready) ==> r == AutoConnectStep::Poll(500),
{
}

/// Four attempts are repeated, after two, five, fifteen and thirty seconds; the fifth to
/// fail is the last. One that succeeds ends it.
pub proof fn law_a_failed_connection_is_tried_again_later(
    auto: &mut AutoConnect,
    connected: bool,
    r: AutoConnectStep,
)
    requires
        call_ensures(AutoConnect::attempted, (auto, connected), r),
    ensures
        connected ==> r is Connected && final(auto).failed == old(auto).failed,
        !connected && old(auto).failed == 0 ==> r == AutoConnectStep::Retry(2000),
        !connected && old(auto).failed == 1 ==> r == AutoConnectStep::Retry(5000),
        !connected && old(auto).failed == 2 ==> r == AutoConnectStep::Retry(15000),
        !connected && old(auto).failed == 3 ==> r == AutoConnectStep::Retry(30000),
        !connected && old(auto).failed < 4 ==> final(auto).failed == old(auto).failed + 1,
        !connected && old(auto).failed >= 4 ==> r is GiveUp && final(auto).failed == old(auto).failed,
{
    assert(crate::service::retry_delays().len() == 4);
}

/// What was started is what is stopped: the watcher where the service connects by itself,
/// the pairing and its refresh where it is bound, the reports and the publishing always.
/// Pairing stops first and the service disconnects last, and nothing is stopped twice.
pub proof fn law_a_shutdown_stops_what_was_started(
    auto: bool,
    bound: bool,
    fresh: QconnectHandle,
    handle: &mut QconnectHandle,
    r: Vec<ShutdownWork>,
    again: &mut QconnectHandle,
    s: Vec<ShutdownWork>,
)
    requires
        call_ensures(QconnectHandle::start, (auto, bound), fresh),
        *old(handle) == fresh,
        call_ensures(QconnectHandle::shutdown, (handle,), r),
        *old(again) == *final(handle),
        call_ensures(QconnectHandle::shutdown, (again,), s),
    ensures
        fresh.watcher == auto,
        fresh.pairing == bound,
        fresh.refresh_task == bound,
        fresh.report_task,
        fresh.publish_task,
        auto && bound ==> r@ == seq![
            ShutdownWork::StopPairing,
            ShutdownWork::AbortTakeover,
            ShutdownWork::StopWatcher,
            ShutdownWork::StopReports,
            ShutdownWork::StopPublishing,
            ShutdownWork::StopRefresh,
            ShutdownWork::Disconnect,
        ],
        auto && !bound ==> r@ == seq![
            ShutdownWork::AbortTakeover,
            ShutdownWork::StopWatcher,
            ShutdownWork::StopReports,
            ShutdownWork::StopPublishing,
            ShutdownWork::Disconnect,
        ],
        !auto && bound ==> r@ == seq![
            ShutdownWork::StopPairing,
            ShutdownWork::AbortTakeover,
            ShutdownWork::StopReports,
            ShutdownWork::StopPublishing,
            ShutdownWork::StopRefresh,
            ShutdownWork::Disconnect,
        ],
        !auto && !bound ==> r@ == seq![
            ShutdownWork::AbortTakeover,
            ShutdownWork::StopReports,
            ShutdownWork::StopPublishing,
            ShutdownWork::Disconnect,
        ],
        s@ == seq![ShutdownWork::AbortTakeover, ShutdownWork::Disconnect],
{
}

} // verus!
