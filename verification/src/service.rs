//! The connect service: what a session goes through from the first connect to the
//! last disconnect, and what is published of it.

use vstd::prelude::*;
use vstd::string::*;

use crate::engine::VolumeMode;
use crate::pairing::{transport_config_from, valid_ws_tokens, PairingStore, TransportConfig};
use crate::renderer_model::copy_opt_text;
use crate::text::append_decimal;

verus! {

/// Where a session stands.
#[derive(Debug, Clone, Copy, PartialEq, Eq, Structural)]
pub enum QconnectLifecycleState {
    Off,
    Connecting,
    Connected,
    Reconnecting,
    Exhausted,
}

impl QconnectLifecycleState {
    /// The published name of a state.
    pub open spec fn label_text(self) -> Seq<char> {
        match self {
            QconnectLifecycleState::Off => "off"@,
            QconnectLifecycleState::Connecting => "connecting"@,
            QconnectLifecycleState::Connected => "connected"@,
            QconnectLifecycleState::Reconnecting => "retrying"@,
            QconnectLifecycleState::Exhausted => "exhausted"@,
        }
    }

    pub fn label(self) -> (r: &'static str)
        ensures
            r@ == self.label_text(),
    {
        match self {
            QconnectLifecycleState::Off => "off",
            QconnectLifecycleState::Connecting => "connecting",
            QconnectLifecycleState::Connected => "connected",
            QconnectLifecycleState::Reconnecting => "retrying",
            QconnectLifecycleState::Exhausted => "exhausted",
        }
    }
}

/// What is published of the service.
#[derive(Debug)]
pub struct QconnectStatus {
    /// A session is connected to at startup.
    pub enabled: bool,
    pub device_name: String,
    pub state: String,
    pub session_active: bool,
    /// When the connection was last lost, in seconds since 1970.
    pub last_transport_reconnect: Option<String>,
    pub network_online: bool,
    pub pairing: bool,
    pub pairing_port: Option<u16>,
}

impl QconnectStatus {
    /// `after` publishes `state`: its name, whether there is a session, the time
    /// of a lost connection, and that the network is there once connected.
    pub open spec fn publishes(
        self,
        after: QconnectStatus,
        state: QconnectLifecycleState,
        now_secs: u64,
    ) -> bool {
        &&& after.state@ == state.label_text()
        &&& if state == QconnectLifecycleState::Reconnecting {
            after.last_transport_reconnect matches Some(at) && at@ == crate::text::decimal(
                now_secs as nat,
            )
        } else {
            after.last_transport_reconnect == self.last_transport_reconnect
        }
        &&& after == (QconnectStatus {
            state: after.state,
            session_active: state == QconnectLifecycleState::Connected,
            last_transport_reconnect: after.last_transport_reconnect,
            network_online: self.network_online || state == QconnectLifecycleState::Connected,
            ..self
        })
    }
}

/// Publish a state. Listeners are told of every call.
pub fn latch_lifecycle_into_shared(
    status: &mut QconnectStatus,
    state: QconnectLifecycleState,
    now_secs: u64,
)
    ensures
        old(status).publishes(*final(status), state, now_secs),
{
    status.state = String::from_str(state.label());
    status.session_active = matches!(state, QconnectLifecycleState::Connected);
    if matches!(state, QconnectLifecycleState::Reconnecting) {
        status.last_transport_reconnect = Some(unix_seconds_string(now_secs));
    }
    if matches!(state, QconnectLifecycleState::Connected) {
        status.network_online = true;
    }
}

/// A time in seconds since 1970, as text.
pub fn unix_seconds_string(now_secs: u64) -> (r: String)
    ensures
        r@ == crate::text::decimal(now_secs as nat),
{
    let mut out = String::new();
    append_decimal(&mut out, now_secs);
    assert(Seq::<char>::empty() + crate::text::decimal(now_secs as nat) =~= crate::text::decimal(
        now_secs as nat,
    ));
    out
}

/// The watchdog generation that disarms every watchdog of the one before.
pub fn next_watchdog_generation(generation: u64) -> (r: u64)
    ensures
        r == if generation == u64::MAX {
            0
        } else {
            (generation + 1) as int
        },
        r != generation,
{
    generation.wrapping_add(1)
}

/// The service: the session it runs, what it last failed for, and what it
/// publishes.
pub struct DaemonQconnectService {
    /// A session is installed.
    pub running: bool,
    pub last_error: Option<String>,
    pub lifecycle_state: QconnectLifecycleState,
    /// The last local queue pushed to the cloud in this session.
    pub last_pushed_queue_ids: Option<Vec<u64>>,
    pub status: QconnectStatus,
    pub pairing_store: PairingStore,
    /// The next join of the renderer claims the active slot.
    pub handoff_join_pending: bool,
}

/// Where a connect stands.
#[derive(Debug, Clone, Copy, PartialEq, Eq, Structural)]
pub enum ConnectStage {
    /// The account's credentials are being resolved.
    Resolving,
    /// The connection is being opened.
    Opening,
    /// The session is installed and announces itself.
    Bootstrapping,
    /// The session could not announce itself and is being torn down.
    TearingDown,
    Finished,
}

impl ConnectStage {
    /// How many steps a connect can still take.
    pub open spec fn steps_left(self) -> nat {
        match self {
            ConnectStage::Resolving => 4,
            ConnectStage::Opening => 3,
            ConnectStage::Bootstrapping => 2,
            ConnectStage::TearingDown => 1,
            ConnectStage::Finished => 0,
        }
    }
}

/// What came of the last step of a connect.
pub enum ConnectReply {
    Resolved(Result<TransportConfig, String>),
    Opened(Result<(), String>),
    /// With the name that the device goes by.
    Bootstrapped(Result<String, String>),
    TornDown,
}

/// What a connect does next.
pub enum ConnectStep {
    /// Resolve the account's credentials.
    Resolve,
    /// Open the connection.
    Open(TransportConfig),
    /// Pin the player's volume where asked to, install the session and let it
    /// announce itself.
    Start { pin_volume: bool, idle_retry: bool },
    /// Disconnect the session that could not announce itself.
    TearDown,
    Finish(Result<(), String>),
}

/// A connect on its way.
pub struct ConnectRun {
    pub stage: ConnectStage,
    pub volume_mode: VolumeMode,
    /// The connection, once opened, retries when idle.
    pub idle_retry: bool,
    /// Why the session is being torn down.
    pub failure: Option<String>,
}

/// `result` failed for `what` and `why`.
pub open spec fn failed_for(result: Result<(), String>, what: Seq<char>, why: Seq<char>) -> bool {
    result matches Err(message) && message@ == what + why
}

fn describe(what: &str, why: &String) -> (r: String)
    ensures
        r@ == what@ + why@,
{
    let mut out = String::from_str(what);
    out.append(why.as_str());
    out
}

impl DaemonQconnectService {
    /// The service as it starts: nothing connected, nothing paired.
    pub fn new(auto_connect: bool, device_name: String) -> (r: Self)
        ensures
            !r.running,
            r.last_error is None,
            r.lifecycle_state == QconnectLifecycleState::Off,
            r.last_pushed_queue_ids is None,
            r.pairing_store.tokens is None,
            !r.handoff_join_pending,
            r.status.enabled == auto_connect,
            r.status.device_name == device_name,
            r.status.state@ == "off"@,
            !r.status.session_active,
            r.status.last_transport_reconnect is None,
            !r.status.network_online,
            !r.status.pairing,
            r.status.pairing_port is None,
    {
        DaemonQconnectService {
            running: false,
            last_error: None,
            lifecycle_state: QconnectLifecycleState::Off,
            last_pushed_queue_ids: None,
            status: QconnectStatus {
                enabled: auto_connect,
                device_name,
                state: String::from_str("off"),
                session_active: false,
                last_transport_reconnect: None,
                network_online: false,
                pairing: false,
                pairing_port: None,
            },
            pairing_store: PairingStore { tokens: None },
            handoff_join_pending: false,
        }
    }

    /// Publish the port that the pairing listener is bound to, if there is one.
    pub fn pairing_started(&mut self, port: Option<u16>)
        ensures
            *final(self) == (DaemonQconnectService {
                status: QconnectStatus {
                    pairing: port is Some,
                    pairing_port: port,
                    ..old(self).status
                },
                ..*old(self)
            }),
    {
        self.status.pairing = port.is_some();
        self.status.pairing_port = port;
    }

    /// Take a transition of the running session: whether it changed anything and
    /// is to be announced.
    pub fn update_lifecycle_state_if_running(
        &mut self,
        next: QconnectLifecycleState,
        now_secs: u64,
    ) -> (r: bool)
        ensures
            r == (old(self).running && old(self).lifecycle_state != next),
            if r {
                &&& old(self).status.publishes(final(self).status, next, now_secs)
                &&& *final(self) == (DaemonQconnectService {
                    lifecycle_state: next,
                    status: final(self).status,
                    ..*old(self)
                })
            } else {
                *final(self) == *old(self)
            },
    {
        if !self.running {
            return false;
        }
        if self.lifecycle_state == next {
            return false;
        }
        self.lifecycle_state = next;
        latch_lifecycle_into_shared(&mut self.status, next, now_secs);
        true
    }

    /// Start connecting. A second connect while one is on its way, or while a
    /// session runs, does nothing. Credentials handed over by a pairing app come
    /// before the account's own.
    pub fn connect(&mut self, api_initialized: bool, volume_mode: VolumeMode, now_secs: u64) -> (r:
        (ConnectRun, ConnectStep))
        ensures
            r.0.volume_mode == volume_mode,
            r.0.failure is None,
            if !api_initialized {
                &&& r.0.stage == ConnectStage::Finished
                &&& r.1 matches ConnectStep::Finish(Err(message)) && message@
                    == "Qobuz API is not initialized; cannot start Qobuz Connect"@
                &&& *final(self) == *old(self)
            } else if old(self).running || old(self).lifecycle_state
                == QconnectLifecycleState::Connecting {
                &&& r.0.stage == ConnectStage::Finished
                &&& r.1 == ConnectStep::Finish(Ok(()))
                &&& *final(self) == *old(self)
            } else {
                &&& old(self).status.publishes(
                    final(self).status,
                    QconnectLifecycleState::Connecting,
                    now_secs,
                )
                &&& *final(self) == (DaemonQconnectService {
                    lifecycle_state: QconnectLifecycleState::Connecting,
                    last_error: None,
                    status: final(self).status,
                    pairing_store: final(self).pairing_store,
                    ..*old(self)
                })
                &&& match old(self).pairing_store.tokens {
                    Some(tokens) => if tokens.is_live(now_secs) {
                        &&& final(self).pairing_store == old(self).pairing_store
                        &&& r.0.stage == ConnectStage::Opening
                        &&& r.0.idle_retry
                        &&& r.1 matches ConnectStep::Open(config) && config.connects_with(
                            tokens,
                        )
                    } else {
                        &&& final(self).pairing_store.tokens is None
                        &&& r.0.stage == ConnectStage::Resolving
                        &&& r.1 is Resolve
                    },
                    None => {
                        &&& final(self).pairing_store.tokens is None
                        &&& r.0.stage == ConnectStage::Resolving
                        &&& r.1 is Resolve
                    },
                }
            },
    {
        if !api_initialized {
            return (
                ConnectRun {
                    stage: ConnectStage::Finished,
                    volume_mode,
                    idle_retry: false,
                    failure: None,
                },
                ConnectStep::Finish(
                    Err(
                        String::from_str(
                            "Qobuz API is not initialized; cannot start Qobuz Connect",
                        ),
                    ),
                ),
            );
        }
        if self.running || matches!(self.lifecycle_state, QconnectLifecycleState::Connecting) {
            return (
                ConnectRun {
                    stage: ConnectStage::Finished,
                    volume_mode,
                    idle_retry: false,
                    failure: None,
                },
                ConnectStep::Finish(Ok(())),
            );
        }
        self.lifecycle_state = QconnectLifecycleState::Connecting;
        self.last_error = None;
        latch_lifecycle_into_shared(
            &mut self.status,
            QconnectLifecycleState::Connecting,
            now_secs,
        );
        match valid_ws_tokens(&mut self.pairing_store, now_secs) {
            Some(tokens) => {
                let config = transport_config_from(&tokens);
                let idle_retry = config.reconnect_idle_retry_ms > 0;
                (
                    ConnectRun {
                        stage: ConnectStage::Opening,
                        volume_mode,
                        idle_retry,
                        failure: None,
                    },
                    ConnectStep::Open(config),
                )
            },
            None => (
                ConnectRun {
                    stage: ConnectStage::Resolving,
                    volume_mode,
                    idle_retry: false,
                    failure: None,
                },
                ConnectStep::Resolve,
            ),
        }
    }

    /// `after` has no session: what is published says so at once where there was
    /// none, and else once it is closed.
    pub open spec fn disconnects_to(self, after: DaemonQconnectService) -> bool {
        &&& after.status.state@ == (if self.running {
            self.status.state@
        } else {
            "off"@
        })
        &&& after == (DaemonQconnectService {
            running: false,
            lifecycle_state: QconnectLifecycleState::Off,
            status: if self.running {
                self.status
            } else {
                QconnectStatus {
                    state: after.status.state,
                    session_active: false,
                    ..self.status
                }
            },
            ..self
        })
    }

    /// Tear the session down: it is off at once, whatever becomes of the
    /// connection. The result tells whether there is one to close.
    pub fn disconnect(&mut self) -> (r: bool)
        ensures
            r == old(self).running,
            old(self).disconnects_to(*final(self)),
    {
        let had_session = self.running;
        self.lifecycle_state = QconnectLifecycleState::Off;
        self.running = false;
        if !had_session {
            self.status.state = String::from_str("off");
            self.status.session_active = false;
        }
        had_session
    }

    /// `after` publishes that the session is off, and keeps why it did not close.
    pub open spec fn closes_to(
        self,
        after: DaemonQconnectService,
        closed: Result<(), String>,
    ) -> bool {
        &&& after.status.state@ == "off"@
        &&& match closed {
            Ok(_) => after.last_error == self.last_error,
            Err(why) => after.last_error matches Some(message) && message@
                == "qconnect disconnect failed: "@ + why@,
        }
        &&& after == (DaemonQconnectService {
            last_error: after.last_error,
            status: QconnectStatus {
                state: after.status.state,
                session_active: false,
                ..self.status
            },
            ..self
        })
    }

    /// The connection of a session that is being torn down was closed, or failed
    /// to close: the session is off either way.
    pub fn disconnected(&mut self, closed: Result<(), String>)
        ensures
            old(self).closes_to(*final(self), closed),
    {
        if let Err(why) = closed {
            self.last_error = Some(describe("qconnect disconnect failed: ", &why));
        }
        self.status.state = String::from_str("off");
        self.status.session_active = false;
    }

    /// The service credential that a takeover installs: that of the live tokens
    /// handed over, which may be none. Without live tokens the credential stays.
    pub fn takeover_bearer(&mut self, now_secs: u64) -> (r: Option<Option<String>>)
        ensures
            match old(self).pairing_store.tokens {
                Some(tokens) => if tokens.is_live(now_secs) {
                    r == Some(tokens.api_jwt) && *final(self) == *old(self)
                } else {
                    r is None && *final(self) == (DaemonQconnectService {
                        pairing_store: PairingStore { tokens: None },
                        ..*old(self)
                    })
                },
                None => r is None && *final(self) == *old(self),
            },
    {
        match valid_ws_tokens(&mut self.pairing_store, now_secs) {
            Some(tokens) => Some(copy_opt_text(&tokens.api_jwt)),
            None => None,
        }
    }

    /// Connect for a takeover, after the previous session is down: the renderer
    /// joins as the active one, for the handoff was the choice of output.
    pub fn reconnect_for_pairing(
        &mut self,
        api_initialized: bool,
        volume_mode: VolumeMode,
        now_secs: u64,
    ) -> (r: (ConnectRun, ConnectStep))
        requires
            !old(self).running,
            old(self).lifecycle_state == QconnectLifecycleState::Off,
        ensures
            final(self).handoff_join_pending,
            r.0.volume_mode == volume_mode,
            r.0.failure is None,
            if !api_initialized {
                &&& r.0.stage == ConnectStage::Finished
                &&& r.1 matches ConnectStep::Finish(Err(message)) && message@
                    == "Qobuz API is not initialized; cannot start Qobuz Connect"@
                &&& *final(self) == (DaemonQconnectService {
                    handoff_join_pending: true,
                    ..*old(self)
                })
            } else {
                &&& old(self).status.publishes(
                    final(self).status,
                    QconnectLifecycleState::Connecting,
                    now_secs,
                )
                &&& *final(self) == (DaemonQconnectService {
                    handoff_join_pending: true,
                    lifecycle_state: QconnectLifecycleState::Connecting,
                    last_error: None,
                    status: final(self).status,
                    pairing_store: final(self).pairing_store,
                    ..*old(self)
                })
                &&& match old(self).pairing_store.tokens {
                    Some(tokens) if tokens.is_live(now_secs) => {
                        &&& final(self).pairing_store == old(self).pairing_store
                        &&& r.0.stage == ConnectStage::Opening
                        &&& r.0.idle_retry
                        &&& r.1 matches ConnectStep::Open(config) && config.connects_with(
                            tokens,
                        )
                    },
                    _ => {
                        &&& final(self).pairing_store.tokens is None
                        &&& r.0.stage == ConnectStage::Resolving
                        &&& r.1 is Resolve
                    },
                }
            },
    {
        self.handoff_join_pending = true;
        self.connect(api_initialized, volume_mode, now_secs)
    }

    /// The operator disconnects: forget what a pairing app handed over, so that a
    /// later connect is the account's own, then tear the session down.
    pub fn forget_pairing(&mut self)
        ensures
            *final(self) == (DaemonQconnectService {
                handoff_join_pending: false,
                pairing_store: PairingStore { tokens: None },
                ..*old(self)
            }),
    {
        self.handoff_join_pending = false;
        self.pairing_store.tokens = None;
    }
}

impl ConnectRun {
    /// Whether a reply is the one this connect waits for.
    pub open spec fn awaits(self, reply: ConnectReply) -> bool {
        match self.stage {
            ConnectStage::Resolving => reply is Resolved,
            ConnectStage::Opening => reply is Opened,
            ConnectStage::Bootstrapping => reply is Bootstrapped,
            ConnectStage::TearingDown => reply is TornDown && self.failure is Some,
            ConnectStage::Finished => false,
        }
    }

    /// Where `reply` takes this connect and its service, and what is to be done
    /// next.
    pub open spec fn steps_to(
        self,
        after: ConnectRun,
        service: DaemonQconnectService,
        after_service: DaemonQconnectService,
        reply: ConnectReply,
        now_secs: u64,
        step: ConnectStep,
    ) -> bool {
        &&& after.volume_mode == self.volume_mode
        &&& (after.stage == ConnectStage::Finished) == (step is Finish)
        &&& after.stage == ConnectStage::TearingDown ==> after.failure is Some
        &&& match reply {
            ConnectReply::Resolved(Err(why)) => {
                &&& step == ConnectStep::Finish(Err(why))
                &&& service.status.publishes(
                    after_service.status,
                    QconnectLifecycleState::Off,
                    now_secs,
                )
                &&& after_service == (DaemonQconnectService {
                    lifecycle_state: if service.running {
                        service.lifecycle_state
                    } else {
                        QconnectLifecycleState::Off
                    },
                    status: after_service.status,
                    ..service
                })
            },
            ConnectReply::Resolved(Ok(config)) => {
                &&& step == ConnectStep::Open(config)
                &&& after.stage == ConnectStage::Opening
                &&& after.idle_retry == (config.reconnect_idle_retry_ms > 0)
                &&& after_service == service
            },
            ConnectReply::Opened(Err(why)) => {
                &&& step matches ConnectStep::Finish(result) && failed_for(
                    result,
                    "qconnect transport connect failed: "@,
                    why@,
                )
                &&& after_service.last_error matches Some(message) && message@
                    == "qconnect transport connect failed: "@ + why@
                &&& service.status.publishes(
                    after_service.status,
                    QconnectLifecycleState::Off,
                    now_secs,
                )
                &&& after_service == (DaemonQconnectService {
                    lifecycle_state: QconnectLifecycleState::Off,
                    last_error: after_service.last_error,
                    status: after_service.status,
                    ..service
                })
            },
            ConnectReply::Opened(Ok(_)) => {
                &&& step == (ConnectStep::Start {
                    pin_volume: self.volume_mode == VolumeMode::Locked,
                    idle_retry: self.idle_retry,
                })
                &&& after.stage == ConnectStage::Bootstrapping
                &&& after_service == (DaemonQconnectService {
                    running: true,
                    last_error: None,
                    last_pushed_queue_ids: None,
                    ..service
                })
            },
            ConnectReply::Bootstrapped(Err(why)) => {
                &&& step is TearDown
                &&& after.stage == ConnectStage::TearingDown
                &&& after.failure matches Some(message) && message@
                    == "qconnect bootstrap failed: "@ + why@
                &&& after_service == service
            },
            ConnectReply::Bootstrapped(Ok(name)) => {
                &&& step == ConnectStep::Finish(Ok(()))
                &&& after_service == (DaemonQconnectService {
                    status: QconnectStatus { device_name: name, ..service.status },
                    ..service
                })
            },
            ConnectReply::TornDown => {
                &&& step matches ConnectStep::Finish(Err(message)) && message@
                    == self.failure->0@
                &&& after_service == (DaemonQconnectService {
                    last_error: after_service.last_error,
                    ..service
                })
                &&& after_service.last_error matches Some(message) && message@
                    == self.failure->0@
            },
        }
    }

    /// Take in a reply and go on.
    pub fn step(&mut self, service: &mut DaemonQconnectService, reply: ConnectReply, now_secs: u64)
        -> (r: ConnectStep)
        requires
            old(self).awaits(reply),
        ensures
            final(self).stage.steps_left() < old(self).stage.steps_left(),
            old(self).steps_to(*final(self), *old(service), *final(service), reply, now_secs, r),
    {
        match reply {
            ConnectReply::Resolved(Err(why)) => {
                if !service.running {
                    service.lifecycle_state = QconnectLifecycleState::Off;
                }
                latch_lifecycle_into_shared(
                    &mut service.status,
                    QconnectLifecycleState::Off,
                    now_secs,
                );
                self.stage = ConnectStage::Finished;
                ConnectStep::Finish(Err(why))
            },
            ConnectReply::Resolved(Ok(config)) => {
                self.idle_retry = config.reconnect_idle_retry_ms > 0;
                self.stage = ConnectStage::Opening;
                ConnectStep::Open(config)
            },
            ConnectReply::Opened(Err(why)) => {
                let message = describe("qconnect transport connect failed: ", &why);
                service.lifecycle_state = QconnectLifecycleState::Off;
                service.last_error = Some(message.clone());
                latch_lifecycle_into_shared(
                    &mut service.status,
                    QconnectLifecycleState::Off,
                    now_secs,
                );
                self.stage = ConnectStage::Finished;
                ConnectStep::Finish(Err(message))
            },
            ConnectReply::Opened(Ok(_)) => {
                service.running = true;
                service.last_error = None;
                service.last_pushed_queue_ids = None;
                self.stage = ConnectStage::Bootstrapping;
                ConnectStep::Start {
                    pin_volume: matches!(self.volume_mode, VolumeMode::Locked),
                    idle_retry: self.idle_retry,
                }
            },
            ConnectReply::Bootstrapped(Err(why)) => {
                self.failure = Some(describe("qconnect bootstrap failed: ", &why));
                self.stage = ConnectStage::TearingDown;
                ConnectStep::TearDown
            },
            ConnectReply::Bootstrapped(Ok(name)) => {
                service.status.device_name = name;
                self.stage = ConnectStage::Finished;
                ConnectStep::Finish(Ok(()))
            },
            ConnectReply::TornDown => {
                let message = match &self.failure {
                    Some(failure) => failure.clone(),
                    None => String::new(),
                };
                service.last_error = Some(message.clone());
                self.stage = ConnectStage::Finished;
                ConnectStep::Finish(Err(message))
            },
        }
    }
}

/// A session that cannot announce itself is torn down: nothing runs, the service is
/// off and says so, and why it failed is returned and kept, whatever becomes of
/// closing the connection.
pub proof fn law_a_failed_bootstrap_leaves_nothing_running(
    bootstrapping: ConnectRun,
    tearing_down: ConnectRun,
    finished: ConnectRun,
    installed: DaemonQconnectService,
    failed: DaemonQconnectService,
    disconnected: DaemonQconnectService,
    closed: DaemonQconnectService,
    off: DaemonQconnectService,
    why: String,
    closing: Result<(), String>,
    times: (u64, u64),
    steps: (ConnectStep, ConnectStep),
)
    requires
        bootstrapping.stage == ConnectStage::Bootstrapping,
        bootstrapping.steps_to(
            tearing_down,
            installed,
            failed,
            ConnectReply::Bootstrapped(Err(why)),
            times.0,
            steps.0,
        ),
        failed.disconnects_to(disconnected),
        if failed.running {
            disconnected.closes_to(closed, closing)
        } else {
            closed == disconnected
        },
        tearing_down.steps_to(
            finished,
            closed,
            off,
            ConnectReply::TornDown,
            times.1,
            steps.1,
        ),
    ensures
        steps.0 is TearDown,
        tearing_down.awaits(ConnectReply::TornDown),
        finished.stage == ConnectStage::Finished,
        steps.1 matches ConnectStep::Finish(result) && failed_for(
            result,
            "qconnect bootstrap failed: "@,
            why@,
        ),
        off.last_error matches Some(message) && message@ == "qconnect bootstrap failed: "@ + why@,
        !off.running,
        off.lifecycle_state == QconnectLifecycleState::Off,
        off.status.state@ == "off"@,
        !off.status.session_active,
{
}

/// How long to wait between two looks at whether the daemon is ready.
pub const READY_POLL_MS: u64 = 500;

/// How long the automatic connect waits after each attempt that failed.
pub open spec fn retry_delays() -> Seq<u64> {
    seq![2_000u64, 5_000u64, 15_000u64, 30_000u64]
}

/// What the automatic connect does next.
#[derive(Debug, Clone, Copy, PartialEq, Eq, Structural)]
pub enum AutoConnectStep {
    /// Wait this long and look again whether the daemon is ready.
    Poll(u64),
    Connect,
    /// Wait this long and connect again.
    Retry(u64),
    Connected,
    GiveUp,
}

/// The automatic connect: it waits for the daemon to be ready, then tries a few
/// times, ever more slowly.
#[derive(Debug)]
pub struct AutoConnect {
    /// Attempts that failed.
    pub failed: usize,
}

impl AutoConnect {
    pub open spec fn wf(self) -> bool {
        self.failed <= retry_delays().len()
    }

    pub fn new() -> (r: Self)
        ensures
            r.wf(),
            r.failed == 0,
    {
        AutoConnect { failed: 0 }
    }

    /// Whether the daemon is ready to connect: logged in, with its service
    /// client there.
    pub fn connect_on_ready(&self, logged_in: bool, api_initialized: bool) -> (r: AutoConnectStep)
        ensures
            r == (if logged_in && api_initialized {
                AutoConnectStep::Connect
            } else {
                AutoConnectStep::Poll(READY_POLL_MS)
            }),
    {
        if logged_in && api_initialized {
            AutoConnectStep::Connect
        } else {
            AutoConnectStep::Poll(READY_POLL_MS)
        }
    }

    /// Take in what an attempt came to.
    pub fn attempted(&mut self, connected: bool) -> (r: AutoConnectStep)
        requires
            old(self).wf(),
        ensures
            final(self).wf(),
            if connected {
                r == AutoConnectStep::Connected && *final(self) == *old(self)
            } else if old(self).failed < retry_delays().len() {
                &&& r == AutoConnectStep::Retry(retry_delays()[old(self).failed as int])
                &&& final(self).failed == old(self).failed + 1
            } else {
                r == AutoConnectStep::GiveUp && *final(self) == *old(self)
            },
    {
        if connected {
            return AutoConnectStep::Connected;
        }
        let delay_ms: u64 = match self.failed {
            0 => 2_000,
            1 => 5_000,
            2 => 15_000,
            3 => 30_000,
            _ => return AutoConnectStep::GiveUp,
        };
        self.failed = self.failed + 1;
        AutoConnectStep::Retry(delay_ms)
    }
}

/// A later attempt never waits less than an earlier one.
pub proof fn law_retries_slow_down(i: int, j: int)
    requires
        0 <= i <= j < retry_delays().len(),
    ensures
        retry_delays()[i] <= retry_delays()[j],
{
}

/// What the daemon holds of the service until it shuts down.
#[derive(Debug, Clone, Copy, PartialEq, Eq, Structural)]
pub struct QconnectHandle {
    pub watcher: bool,
    pub pairing: bool,
    pub report_task: bool,
    pub publish_task: bool,
    pub refresh_task: bool,
}

/// One piece of a shutdown.
#[derive(Debug, Clone, Copy, PartialEq, Eq, Structural)]
pub enum ShutdownWork {
    StopPairing,
    AbortTakeover,
    StopWatcher,
    StopReports,
    StopPublishing,
    StopRefresh,
    Disconnect,
}

impl QconnectHandle {
    /// What is held for a service that connects by itself, or not, and whose
    /// pairing listener is bound, or not.
    pub fn start(auto_connect: bool, pairing_bound: bool) -> (r: Self)
        ensures
            r == (QconnectHandle {
                watcher: auto_connect,
                pairing: pairing_bound,
                report_task: true,
                publish_task: true,
                refresh_task: pairing_bound,
            }),
    {
        QconnectHandle {
            watcher: auto_connect,
            pairing: pairing_bound,
            report_task: true,
            publish_task: true,
            refresh_task: pairing_bound,
        }
    }

    /// The shutdown in its order: pairing first, so that no handoff lands on a
    /// session that is going away, and the disconnect last.
    pub open spec fn shutdown_work(self) -> Seq<ShutdownWork> {
        (if self.pairing {
            seq![ShutdownWork::StopPairing]
        } else {
            Seq::empty()
        }) + seq![ShutdownWork::AbortTakeover] + (if self.watcher {
            seq![ShutdownWork::StopWatcher]
        } else {
            Seq::empty()
        }) + (if self.report_task {
            seq![ShutdownWork::StopReports]
        } else {
            Seq::empty()
        }) + (if self.publish_task {
            seq![ShutdownWork::StopPublishing]
        } else {
            Seq::empty()
        }) + (if self.refresh_task {
            seq![ShutdownWork::StopRefresh]
        } else {
            Seq::empty()
        }) + seq![ShutdownWork::Disconnect]
    }

    /// Shut down: the work to do, in its order. Nothing is held afterwards.
    pub fn shutdown(&mut self) -> (r: Vec<ShutdownWork>)
        ensures
            r@ == old(self).shutdown_work(),
            *final(self) == (QconnectHandle {
                watcher: false,
                pairing: false,
                report_task: false,
                publish_task: false,
                refresh_task: false,
            }),
    {
        let mut work: Vec<ShutdownWork> = Vec::new();
        if self.pairing {
            work.push(ShutdownWork::StopPairing);
        }
        work.push(ShutdownWork::AbortTakeover);
        if self.watcher {
            work.push(ShutdownWork::StopWatcher);
        }
        if self.report_task {
            work.push(ShutdownWork::StopReports);
        }
        if self.publish_task {
            work.push(ShutdownWork::StopPublishing);
        }
        if self.refresh_task {
            work.push(ShutdownWork::StopRefresh);
        }
        work.push(ShutdownWork::Disconnect);
        assert(work@ =~= old(self).shutdown_work());
        self.watcher = false;
        self.pairing = false;
        self.report_task = false;
        self.publish_task = false;
        self.refresh_task = false;
        work
    }
}

/// However much is running, a shutdown disconnects last, and only once no
/// takeover is left to bring a session back.
pub proof fn law_a_shutdown_disconnects_last(handle: QconnectHandle, i: int)
    requires
        0 <= i < handle.shutdown_work().len(),
    ensures
        handle.shutdown_work().last() == ShutdownWork::Disconnect,
        handle.shutdown_work()[i] == ShutdownWork::Disconnect ==> i
            == handle.shutdown_work().len() - 1,
        exists|j: int|
            0 <= j < handle.shutdown_work().len() - 1 && #[trigger] handle.shutdown_work()[j]
                == ShutdownWork::AbortTakeover,
{
    let k: int = if handle.pairing {
        1
    } else {
        0
    };
    assert(handle.shutdown_work()[k] == ShutdownWork::AbortTakeover);
}

} // verus!
