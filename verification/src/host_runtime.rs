//! Native-host projection of provider startup: the progress that provider
//! commissioning reports, and the bootstrap steps and phase that the host
//! shows while the application runtime is not yet running.
use vstd::prelude::*;
use crate::contract::BridgeBootstrapStep;
use crate::contract::names::CommunicationState;
use crate::native_json::option_view;
use crate::text::str_eq;

verus! {

/// Provider commissioning stage that reports progress.
#[derive(Clone, Copy, Debug, PartialEq, Eq, Structural)]
pub enum CommissioningStage {
    LocalRuntime,
    IncomingReachability,
    PairingRendezvous,
}

/// One progress report of provider commissioning.
#[derive(Clone, Debug, PartialEq, Eq)]
pub struct CommissioningEvent {
    pub stage: CommissioningStage,
    pub progress: u8,
    pub attempt: u32,
    pub retry_after_ms: Option<u64>,
    pub code: String,
    pub summary: String,
}

/// What the native host knows about provider startup before the application
/// runtime exists. Deadlines are Unix milliseconds.
#[derive(Clone, Debug, PartialEq, Eq)]
pub struct HostBootstrapState {
    pub host_starting: bool,
    pub host_start_started_at_ms: Option<i64>,
    pub host_last_progress_at_ms: Option<i64>,
    pub host_progress: u8,
    pub host_attempt: u32,
    pub host_status_code: Option<String>,
    pub host_status_summary: Option<String>,
    pub host_retry_at_ms: Option<i64>,
    pub host_incoming_started_at_ms: Option<i64>,
    pub host_incoming_last_progress_at_ms: Option<i64>,
    pub host_incoming_progress: u8,
    pub host_incoming_attempt: u32,
    pub host_incoming_status_code: Option<String>,
    pub host_incoming_status_summary: Option<String>,
    pub host_incoming_retry_at_ms: Option<i64>,
    pub host_state_hint: CommunicationState,
    /// Failed provider starts since the last success.
    pub host_failures: u32,
}

/// Incoming reachability that makes no progress for this long is reported
/// as being verified.
pub const INCOMING_REACHABILITY_PROGRESS_STALL_AFTER_MS: i64 = 120_000;

/// The bootstrap step states of the contract.
pub open spec fn is_canonical_bootstrap_state(state: Seq<char>) -> bool {
    ||| state == "pending"@
    ||| state == "running"@
    ||| state == "verifying"@
    ||| state == "ready"@
    ||| state == "degraded"@
    ||| state == "failed"@
    ||| state == "blocked"@
}

/// Whether `state` is one of the contract's bootstrap step states.
pub fn canonical_bootstrap_wire_state(state: &str) -> (r: bool)
    ensures
        r == is_canonical_bootstrap_state(state@),
{
    str_eq(state, "pending") || str_eq(state, "running") || str_eq(state, "verifying") || str_eq(
        state,
        "ready",
    ) || str_eq(state, "degraded") || str_eq(state, "failed") || str_eq(state, "blocked")
}

pub open spec fn is_unhealthy(state: CommunicationState) -> bool {
    state == CommunicationState::Degraded || state == CommunicationState::Failed
}

/// The bootstrap phase the host shows: provider startup can only ever look
/// running or degraded, never ready for the profile.
pub open spec fn spec_projected_host_bootstrap_phase(state: CommunicationState) -> Seq<char> {
    if is_unhealthy(state) {
        "degraded"@
    } else {
        "running"@
    }
}

pub fn projected_host_bootstrap_phase(host_state: CommunicationState) -> (r: &'static str)
    ensures
        r@ == spec_projected_host_bootstrap_phase(host_state),
{
    match host_state {
        CommunicationState::Degraded | CommunicationState::Failed => "degraded",
        _ => "running",
    }
}

pub open spec fn spec_network_state(s: HostBootstrapState) -> Seq<char> {
    if s.host_progress >= 100 {
        "ready"@
    } else if is_unhealthy(s.host_state_hint) {
        "failed"@
    } else if s.host_retry_at_ms is Some || s.host_starting {
        "running"@
    } else {
        "pending"@
    }
}

/// Incoming reachability has been attempted, is unfinished, and has not
/// progressed for the stall period as of `now_ms`.
pub open spec fn spec_incoming_stalled(s: HostBootstrapState, now_ms: Option<i64>) -> bool {
    &&& s.host_incoming_attempt > 0
    &&& s.host_incoming_progress < 100
    &&& match (s.host_incoming_last_progress_at_ms, now_ms) {
        (Some(last), Some(now)) => {
            &&& i64::MIN <= now - last <= i64::MAX
            &&& now - last >= INCOMING_REACHABILITY_PROGRESS_STALL_AFTER_MS
        },
        _ => false,
    }
}

pub open spec fn spec_incoming_state(s: HostBootstrapState, now_ms: Option<i64>) -> Seq<char> {
    if s.host_progress < 100 {
        if spec_network_state(s) == "failed"@ {
            "blocked"@
        } else {
            "pending"@
        }
    } else if s.host_incoming_progress >= 100 {
        "ready"@
    } else if is_unhealthy(s.host_state_hint) {
        "failed"@
    } else if s.host_incoming_retry_at_ms is Some {
        "running"@
    } else if spec_incoming_stalled(s, now_ms) {
        "verifying"@
    } else if s.host_incoming_attempt > 0 {
        "running"@
    } else {
        "pending"@
    }
}

pub open spec fn spec_incoming_code(s: HostBootstrapState, now_ms: Option<i64>) -> Option<Seq<char>> {
    if spec_incoming_state(s, now_ms) == "blocked"@ {
        Some("COMMUNICATION_RUNTIME_REQUIRED"@)
    } else if spec_incoming_stalled(s, now_ms) {
        Some("INCOMING_REACHABILITY_STALLED"@)
    } else {
        option_view(s.host_incoming_status_code)
    }
}

/// Index of the first step with the given id, or -1.
pub open spec fn first_step_index(steps: Seq<BridgeBootstrapStep>, id: Seq<char>) -> int
    decreases steps.len(),
{
    if steps.len() == 0 {
        -1
    } else if first_step_index(steps.drop_last(), id) >= 0 {
        first_step_index(steps.drop_last(), id)
    } else if steps.last().id@ == id {
        steps.len() - 1
    } else {
        -1
    }
}

/// A step whose fields are the given values.
pub open spec fn step_is(
    step: BridgeBootstrapStep,
    id: Seq<char>,
    state: Seq<char>,
    code: Option<Seq<char>>,
    progress: u8,
    attempt: u32,
    started_at_ms: Option<i64>,
    last_progress_at_ms: Option<i64>,
    retry_at_ms: Option<i64>,
) -> bool {
    &&& step.id@ == id
    &&& step.state@ == state
    &&& option_view(step.code) == code
    &&& step.progress == progress
    &&& step.attempt == attempt
    &&& step.started_at_ms == started_at_ms
    &&& step.last_progress_at_ms == last_progress_at_ms
    &&& step.retry_at_ms == retry_at_ms
}

proof fn lemma_first_step_index(steps: Seq<BridgeBootstrapStep>, id: Seq<char>)
    ensures
        -1 <= first_step_index(steps, id) < steps.len(),
        first_step_index(steps, id) >= 0 ==> steps[first_step_index(steps, id)].id@ == id,
        forall|i: int|
            0 <= i < steps.len() && (first_step_index(steps, id) < 0 || i < first_step_index(
                steps,
                id,
            )) ==> steps[i].id@ != id,
    decreases steps.len(),
{
    if steps.len() > 0 {
        lemma_first_step_index(steps.drop_last(), id);
        assert forall|i: int| 0 <= i < steps.len() - 1 implies steps.drop_last()[i] == steps[i] by {}
    }
}

proof fn lemma_first_step_index_unique(steps: Seq<BridgeBootstrapStep>, id: Seq<char>, k: int)
    requires
        0 <= k < steps.len(),
        steps[k].id@ == id,
        forall|i: int| 0 <= i < k ==> steps[i].id@ != id,
    ensures
        first_step_index(steps, id) == k,
    decreases steps.len(),
{
    lemma_first_step_index(steps, id);
    let f = first_step_index(steps, id);
    assert(f >= 0);
}

proof fn lemma_first_step_index_absent(steps: Seq<BridgeBootstrapStep>, id: Seq<char>)
    requires
        forall|i: int| 0 <= i < steps.len() ==> steps[i].id@ != id,
    ensures
        first_step_index(steps, id) == -1,
{
    lemma_first_step_index(steps, id);
}

/// The index of the first step whose id is `id`.
pub(crate) fn find_step(steps: &Vec<BridgeBootstrapStep>, id: &str) -> (r: Option<usize>)
    ensures
        match r {
            Some(k) => k < steps@.len() && first_step_index(steps@, id@) == k as int,
            None => first_step_index(steps@, id@) == -1,
        },
{
    let mut i: usize = 0;
    while i < steps.len()
        invariant
            i <= steps@.len(),
            forall|k: int| 0 <= k < i ==> steps@[k].id@ != id@,
        decreases steps@.len() - i,
    {
        if str_eq(steps[i].id.as_str(), id) {
            proof {
                lemma_first_step_index_unique(steps@, id@, i as int);
            }
            return Some(i);
        }
        i = i + 1;
    }
    proof {
        lemma_first_step_index_absent(steps@, id@);
    }
    None
}

fn clone_option_string(value: &Option<String>) -> (r: Option<String>)
    ensures
        option_view(r) == option_view(*value),
{
    match value {
        Some(s) => Some(s.clone()),
        None => None,
    }
}

fn option_string_is(value: &Option<String>, expected: &String) -> (r: bool)
    ensures
        r == (option_view(*value) == Some(expected@)),
{
    match value {
        Some(s) => *s == *expected,
        None => false,
    }
}

/// Provider starts tried in a row before the provider has failed for good.
pub const MAX_START_ATTEMPTS: u32 = 3;

/// How long after its `failures`-th failure a start is retried.
pub open spec fn start_retry_delay_ms(failures: u32) -> i64 {
    if failures == 1 {
        5000
    } else if failures == 2 {
        15000
    } else {
        5000
    }
}

/// `a.saturating_add(b)` for `i64` with `b >= 0`.
pub open spec fn saturating_add_i64(a: i64, b: i64) -> i64 {
    if a + b > i64::MAX {
        i64::MAX
    } else {
        (a + b) as i64
    }
}

/// A failed start is due to be retried.
pub open spec fn spec_retry_due(s: HostBootstrapState, now_ms: i64, provider_running: bool, has_identity: bool) -> bool {
    !provider_running && !s.host_starting && (s.host_retry_at_ms matches Some(at) && now_ms >= at) && has_identity
}

/// A host that is not starting and knows nothing: no progress, attempt,
/// status or deadline, and a stopped runtime.
pub open spec fn is_stopped_host(s: HostBootstrapState) -> bool {
    &&& !s.host_starting
    &&& s.host_start_started_at_ms is None
    &&& s.host_last_progress_at_ms is None
    &&& s.host_progress == 0
    &&& s.host_attempt == 0
    &&& s.host_status_code is None
    &&& s.host_status_summary is None
    &&& s.host_retry_at_ms is None
    &&& s.host_incoming_started_at_ms is None
    &&& s.host_incoming_last_progress_at_ms is None
    &&& s.host_incoming_progress == 0
    &&& s.host_incoming_attempt == 0
    &&& s.host_incoming_status_code is None
    &&& s.host_incoming_status_summary is None
    &&& s.host_incoming_retry_at_ms is None
    &&& s.host_state_hint == CommunicationState::Stopped
    &&& s.host_failures == 0
}

impl HostBootstrapState {
    /// A host that has not started.
    pub fn stopped() -> (r: Self)
        ensures
            is_stopped_host(r),
    {
        HostBootstrapState {
            host_starting: false,
            host_start_started_at_ms: None,
            host_last_progress_at_ms: None,
            host_progress: 0,
            host_attempt: 0,
            host_status_code: None,
            host_status_summary: None,
            host_retry_at_ms: None,
            host_incoming_started_at_ms: None,
            host_incoming_last_progress_at_ms: None,
            host_incoming_progress: 0,
            host_incoming_attempt: 0,
            host_incoming_status_code: None,
            host_incoming_status_summary: None,
            host_incoming_retry_at_ms: None,
            host_state_hint: CommunicationState::Stopped,
            host_failures: 0,
        }
    }

    /// Shutdown forgets every startup fact: the host is stopped and no
    /// retry or deadline remains.
    pub fn close(&mut self)
        ensures
            is_stopped_host(*final(self)),
    {
        *self = HostBootstrapState::stopped();
    }

    /// Whether a provider start may begin: the engine is open, no provider
    /// runs and none is starting.
    pub fn may_begin_start(&self, closed: bool, provider_running: bool) -> (r: bool)
        ensures
            r == (!closed && !provider_running && !self.host_starting),
    {
        !closed && !provider_running && !self.host_starting
    }

    /// A provider start begins at `now_ms`: the first attempt, no progress
    /// yet, incoming reachability forgotten, no retry pending.
    pub fn begin_start(&mut self, now_ms: Option<i64>)
        ensures
            final(self).host_starting,
            final(self).host_state_hint == CommunicationState::Starting,
            final(self).host_retry_at_ms is None,
            final(self).host_start_started_at_ms == now_ms,
            final(self).host_last_progress_at_ms == now_ms,
            final(self).host_progress == 0,
            final(self).host_attempt == 1,
            option_view(final(self).host_status_code) == Some("COMMUNICATION_STARTING"@),
            option_view(final(self).host_status_summary) == Some("Starting selected communication provider"@),
            final(self).host_incoming_started_at_ms is None,
            final(self).host_incoming_last_progress_at_ms is None,
            final(self).host_incoming_progress == 0,
            final(self).host_incoming_attempt == 0,
            final(self).host_incoming_status_code is None,
            final(self).host_incoming_status_summary is None,
            final(self).host_incoming_retry_at_ms is None,
            final(self).host_failures == old(self).host_failures,
    {
        self.host_starting = true;
        self.host_retry_at_ms = None;
        self.host_state_hint = CommunicationState::Starting;
        self.host_start_started_at_ms = now_ms;
        self.host_last_progress_at_ms = now_ms;
        self.host_progress = 0;
        self.host_attempt = 1;
        self.host_status_code = Some("COMMUNICATION_STARTING".to_owned());
        self.host_status_summary = Some("Starting selected communication provider".to_owned());
        self.host_incoming_started_at_ms = None;
        self.host_incoming_last_progress_at_ms = None;
        self.host_incoming_progress = 0;
        self.host_incoming_attempt = 0;
        self.host_incoming_status_code = None;
        self.host_incoming_status_summary = None;
        self.host_incoming_retry_at_ms = None;
    }

    /// The provider started: it is ready, failures are forgotten, and
    /// incoming reachability is pending from at least 5%.
    pub fn start_succeeded(&mut self)
        ensures
            !final(self).host_starting,
            final(self).host_state_hint == CommunicationState::Ready,
            final(self).host_retry_at_ms is None,
            final(self).host_failures == 0,
            final(self).host_progress == 100,
            final(self).host_attempt == if old(self).host_attempt >= 1 { old(self).host_attempt } else { 1 },
            option_view(final(self).host_status_code) == Some("COMMUNICATION_READY"@),
            option_view(final(self).host_status_summary) == Some("Selected communication provider is ready"@),
            final(self).host_incoming_progress == if old(self).host_incoming_progress >= 5 {
                old(self).host_incoming_progress
            } else {
                5
            },
            option_view(final(self).host_incoming_status_code) == Some("INCOMING_REACHABILITY_PENDING"@),
            option_view(final(self).host_incoming_status_summary) == Some(
                "Waiting for provider incoming reachability"@,
            ),
            final(self).host_start_started_at_ms == old(self).host_start_started_at_ms,
            final(self).host_last_progress_at_ms == old(self).host_last_progress_at_ms,
            final(self).host_incoming_attempt == old(self).host_incoming_attempt,
            final(self).host_incoming_started_at_ms == old(self).host_incoming_started_at_ms,
            final(self).host_incoming_last_progress_at_ms == old(self).host_incoming_last_progress_at_ms,
            final(self).host_incoming_retry_at_ms == old(self).host_incoming_retry_at_ms,
    {
        self.host_starting = false;
        self.host_retry_at_ms = None;
        self.host_failures = 0;
        self.host_state_hint = CommunicationState::Ready;
        self.host_progress = 100;
        if self.host_attempt < 1 {
            self.host_attempt = 1;
        }
        self.host_status_code = Some("COMMUNICATION_READY".to_owned());
        self.host_status_summary = Some("Selected communication provider is ready".to_owned());
        if self.host_incoming_progress < 5 {
            self.host_incoming_progress = 5;
        }
        self.host_incoming_status_code = Some("INCOMING_REACHABILITY_PENDING".to_owned());
        self.host_incoming_status_summary = Some("Waiting for provider incoming reachability".to_owned());
    }

    /// The provider failed to start at `now_ms`. After three failures in a
    /// row it has failed for good; before that it is degraded and retried
    /// after 5 seconds, then 15. Gives back the retry delay in milliseconds.
    pub fn start_failed(&mut self, now_ms: i64) -> (retry_after_ms: Option<i64>)
        ensures
            !final(self).host_starting,
            final(self).host_failures == old(self).host_failures.saturating_add(1),
            final(self).host_failures >= MAX_START_ATTEMPTS ==> {
                &&& retry_after_ms is None
                &&& final(self).host_state_hint == CommunicationState::Failed
                &&& final(self).host_retry_at_ms is None
                &&& option_view(final(self).host_status_code) == Some("COMMUNICATION_FAILED"@)
                &&& final(self).host_last_progress_at_ms == old(self).host_last_progress_at_ms
            },
            final(self).host_failures < MAX_START_ATTEMPTS ==> {
                &&& retry_after_ms == Some(start_retry_delay_ms(final(self).host_failures))
                &&& final(self).host_state_hint == CommunicationState::Degraded
                &&& final(self).host_retry_at_ms == Some(saturating_add_i64(now_ms, start_retry_delay_ms(final(self).host_failures)))
                &&& option_view(final(self).host_status_code) == Some("COMMUNICATION_RETRYING"@)
                &&& final(self).host_last_progress_at_ms == Some(now_ms)
            },
            final(self).host_progress == old(self).host_progress,
            final(self).host_attempt == old(self).host_attempt,
            final(self).host_status_summary == old(self).host_status_summary,
            final(self).host_start_started_at_ms == old(self).host_start_started_at_ms,
            final(self).host_incoming_started_at_ms == old(self).host_incoming_started_at_ms,
            final(self).host_incoming_last_progress_at_ms == old(self).host_incoming_last_progress_at_ms,
            final(self).host_incoming_progress == old(self).host_incoming_progress,
            final(self).host_incoming_attempt == old(self).host_incoming_attempt,
            final(self).host_incoming_status_code == old(self).host_incoming_status_code,
            final(self).host_incoming_status_summary == old(self).host_incoming_status_summary,
            final(self).host_incoming_retry_at_ms == old(self).host_incoming_retry_at_ms,
    {
        self.host_starting = false;
        self.host_failures = self.host_failures.saturating_add(1);
        if self.host_failures >= MAX_START_ATTEMPTS {
            self.host_state_hint = CommunicationState::Failed;
            self.host_retry_at_ms = None;
            self.host_status_code = Some("COMMUNICATION_FAILED".to_owned());
            return None;
        }
        self.host_state_hint = CommunicationState::Degraded;
        let delay: i64 = if self.host_failures == 1 { 5000 } else if self.host_failures == 2 { 15000 } else { 5000 };
        let at = if now_ms > i64::MAX - delay { i64::MAX } else { now_ms + delay };
        self.host_retry_at_ms = Some(at);
        self.host_status_code = Some("COMMUNICATION_RETRYING".to_owned());
        self.host_last_progress_at_ms = Some(now_ms);
        Some(delay)
    }

    /// Whether a failed start is due to be retried at `now_ms`: nothing
    /// runs or starts, the retry time has come, and an identity exists.
    pub fn retry_due(&self, now_ms: i64, provider_running: bool, has_identity: bool) -> (r: bool)
        ensures
            r == spec_retry_due(*self, now_ms, provider_running, has_identity),
    {
        !provider_running && !self.host_starting && match self.host_retry_at_ms {
            Some(at) => now_ms >= at,
            None => false,
        } && has_identity
    }

    /// The state of the communication runtime step.
    pub fn network_state(&self) -> (r: &'static str)
        ensures
            r@ == spec_network_state(*self),
    {
        if self.host_progress >= 100 {
            "ready"
        } else if matches!(
            self.host_state_hint,
            CommunicationState::Degraded | CommunicationState::Failed
        ) {
            "failed"
        } else if self.host_retry_at_ms.is_some() || self.host_starting {
            "running"
        } else {
            "pending"
        }
    }

    pub fn incoming_stalled(&self, now_ms: Option<i64>) -> (r: bool)
        ensures
            r == spec_incoming_stalled(*self, now_ms),
    {
        if self.host_incoming_attempt == 0 || self.host_incoming_progress >= 100 {
            return false;
        }
        match (self.host_incoming_last_progress_at_ms, now_ms) {
            (Some(last), Some(now)) => match now.checked_sub(last) {
                Some(elapsed) => elapsed >= INCOMING_REACHABILITY_PROGRESS_STALL_AFTER_MS,
                None => false,
            },
            _ => false,
        }
    }

    /// The state of the incoming reachability step.
    pub fn incoming_state(&self, now_ms: Option<i64>) -> (r: &'static str)
        ensures
            r@ == spec_incoming_state(*self, now_ms),
    {
        let network = self.network_state();
        let stalled = self.incoming_stalled(now_ms);
        if self.host_progress < 100 {
            if str_eq(network, "failed") {
                "blocked"
            } else {
                "pending"
            }
        } else if self.host_incoming_progress >= 100 {
            "ready"
        } else if matches!(
            self.host_state_hint,
            CommunicationState::Degraded | CommunicationState::Failed
        ) {
            "failed"
        } else if self.host_incoming_retry_at_ms.is_some() {
            "running"
        } else if stalled {
            "verifying"
        } else if self.host_incoming_attempt > 0 {
            "running"
        } else {
            "pending"
        }
    }

    /// Records one commissioning progress report and says whether anything
    /// that is shown changed. Progress never goes backwards.
    pub fn apply_bootstrap_progress(
        &mut self,
        progress: &CommissioningEvent,
        now_ms: Option<i64>,
        retry_at_ms: Option<i64>,
    ) -> (changed: bool)
        ensures
            match progress.stage {
                CommissioningStage::LocalRuntime => {
                    &&& changed == (progress.progress != old(self).host_progress
                        || option_view(old(self).host_status_code) != Some(progress.code@)
                        || progress.attempt != old(self).host_attempt || option_view(
                        old(self).host_status_summary,
                    ) != Some(progress.summary@))
                    &&& final(self).host_progress == if progress.progress
                        > old(self).host_progress {
                        progress.progress
                    } else {
                        old(self).host_progress
                    }
                    &&& final(self).host_last_progress_at_ms == if progress.progress
                        > old(self).host_progress {
                        now_ms
                    } else {
                        old(self).host_last_progress_at_ms
                    }
                    &&& final(self).host_attempt == progress.attempt
                    &&& option_view(final(self).host_status_code) == Some(progress.code@)
                    &&& option_view(final(self).host_status_summary) == Some(progress.summary@)
                    &&& final(self).host_retry_at_ms == retry_at_ms
                    &&& final(self).host_incoming_progress == old(self).host_incoming_progress
                    &&& final(self).host_incoming_attempt == old(self).host_incoming_attempt
                },
                CommissioningStage::IncomingReachability => {
                    &&& changed == (progress.progress != old(self).host_incoming_progress
                        || option_view(old(self).host_incoming_status_code) != Some(
                        progress.code@,
                    ) || progress.attempt != old(self).host_incoming_attempt || option_view(
                        old(self).host_incoming_status_summary,
                    ) != Some(progress.summary@))
                    &&& final(self).host_incoming_started_at_ms == if old(self).host_incoming_started_at_ms is None {
                        now_ms
                    } else {
                        old(self).host_incoming_started_at_ms
                    }
                    &&& final(self).host_incoming_last_progress_at_ms == if progress.progress
                        > old(self).host_incoming_progress || old(self).host_incoming_started_at_ms is None {
                        now_ms
                    } else {
                        old(self).host_incoming_last_progress_at_ms
                    }
                    &&& final(self).host_incoming_progress == if progress.progress > old(self).host_incoming_progress {
                        progress.progress
                    } else {
                        old(self).host_incoming_progress
                    }
                    &&& final(self).host_incoming_attempt == progress.attempt
                    &&& option_view(final(self).host_incoming_status_code) == Some(
                        progress.code@,
                    )
                    &&& option_view(final(self).host_incoming_status_summary) == Some(
                        progress.summary@,
                    )
                    &&& final(self).host_incoming_retry_at_ms == retry_at_ms
                    &&& final(self).host_progress == old(self).host_progress
                    &&& final(self).host_attempt == old(self).host_attempt
                },
                CommissioningStage::PairingRendezvous => {
                    &&& changed == (option_view(old(self).host_status_code) != Some(
                        progress.code@,
                    ) || option_view(old(self).host_status_summary) != Some(progress.summary@)
                        || old(self).host_attempt != progress.attempt)
                    &&& final(self).host_attempt == progress.attempt
                    &&& option_view(final(self).host_status_code) == Some(progress.code@)
                    &&& option_view(final(self).host_status_summary) == Some(progress.summary@)
                    &&& final(self).host_retry_at_ms == retry_at_ms
                    &&& final(self).host_progress == old(self).host_progress
                    &&& final(self).host_incoming_progress == old(self).host_incoming_progress
                    &&& final(self).host_incoming_attempt == old(self).host_incoming_attempt
                },
            },
            final(self).host_progress >= old(self).host_progress,
            final(self).host_incoming_progress >= old(self).host_incoming_progress,
            final(self).host_state_hint == old(self).host_state_hint,
            final(self).host_starting == old(self).host_starting,
    {
        match progress.stage {
            CommissioningStage::LocalRuntime => {
                let changed = progress.progress != self.host_progress || !option_string_is(
                    &self.host_status_code,
                    &progress.code,
                ) || progress.attempt != self.host_attempt || !option_string_is(
                    &self.host_status_summary,
                    &progress.summary,
                );
                if progress.progress > self.host_progress {
                    self.host_last_progress_at_ms = now_ms;
                    self.host_progress = progress.progress;
                }
                self.host_attempt = progress.attempt;
                self.host_status_code = Some(progress.code.clone());
                self.host_status_summary = Some(progress.summary.clone());
                self.host_retry_at_ms = retry_at_ms;
                changed
            },
            CommissioningStage::IncomingReachability => {
                let changed = progress.progress != self.host_incoming_progress
                    || !option_string_is(&self.host_incoming_status_code, &progress.code)
                    || progress.attempt != self.host_incoming_attempt || !option_string_is(
                    &self.host_incoming_status_summary,
                    &progress.summary,
                );
                if self.host_incoming_started_at_ms.is_none() {
                    self.host_incoming_started_at_ms = now_ms;
                    self.host_incoming_last_progress_at_ms = now_ms;
                }
                if progress.progress > self.host_incoming_progress {
                    self.host_incoming_last_progress_at_ms = now_ms;
                    self.host_incoming_progress = progress.progress;
                }
                self.host_incoming_attempt = progress.attempt;
                self.host_incoming_status_code = Some(progress.code.clone());
                self.host_incoming_status_summary = Some(progress.summary.clone());
                self.host_incoming_retry_at_ms = retry_at_ms;
                changed
            },
            CommissioningStage::PairingRendezvous => {
                let changed = !option_string_is(&self.host_status_code, &progress.code)
                    || !option_string_is(&self.host_status_summary, &progress.summary)
                    || self.host_attempt != progress.attempt;
                self.host_attempt = progress.attempt;
                self.host_status_code = Some(progress.code.clone());
                self.host_status_summary = Some(progress.summary.clone());
                self.host_retry_at_ms = retry_at_ms;
                changed
            },
        }
    }

    /// Overlays the host's own startup knowledge on the projected bootstrap
    /// steps: the communication runtime step always, and, while the
    /// application runtime does not exist yet, the phase and the incoming
    /// reachability step.
    pub fn apply_host_state_hint(
        &self,
        bootstrap_phase: &mut String,
        steps: &mut Vec<BridgeBootstrapStep>,
        has_runtime: bool,
        now_ms: Option<i64>,
    )
        ensures
            !has_runtime ==> final(bootstrap_phase)@ == spec_projected_host_bootstrap_phase(
                self.host_state_hint,
            ),
            has_runtime ==> final(bootstrap_phase)@ == old(bootstrap_phase)@,
            final(steps)@.len() == old(steps)@.len(),
            ({
                let c = first_step_index(old(steps)@, "communication_runtime"@);
                let n = first_step_index(old(steps)@, "incoming_reachability"@);
                &&& forall|i: int|
                    #![auto]
                    0 <= i < old(steps)@.len() && i != c && (has_runtime || i != n) ==> final(steps)@[i] == old(steps)@[i]
                &&& c >= 0 ==> step_is(
                    final(steps)@[c],
                    "communication_runtime"@,
                    spec_network_state(*self),
                    option_view(self.host_status_code),
                    self.host_progress,
                    self.host_attempt,
                    self.host_start_started_at_ms,
                    self.host_last_progress_at_ms,
                    self.host_retry_at_ms,
                )
                &&& !has_runtime && n >= 0 ==> step_is(
                    final(steps)@[n],
                    "incoming_reachability"@,
                    spec_incoming_state(*self, now_ms),
                    spec_incoming_code(*self, now_ms),
                    self.host_incoming_progress,
                    self.host_incoming_attempt,
                    self.host_incoming_started_at_ms,
                    self.host_incoming_last_progress_at_ms,
                    self.host_incoming_retry_at_ms,
                )
            }),
    {
        if !has_runtime {
            *bootstrap_phase = projected_host_bootstrap_phase(self.host_state_hint).to_owned();
        }
        let ghost initial = steps@;
        let network_state = self.network_state();
        proof {
            lemma_first_step_index(initial, "communication_runtime"@);
            lemma_first_step_index(initial, "incoming_reachability"@);
        }
        if let Some(k) = find_step(steps, "communication_runtime") {
            let step = BridgeBootstrapStep {
                id: steps[k].id.clone(),
                state: network_state.to_owned(),
                code: clone_option_string(&self.host_status_code),
                progress: self.host_progress,
                attempt: self.host_attempt,
                started_at_ms: self.host_start_started_at_ms,
                last_progress_at_ms: self.host_last_progress_at_ms,
                retry_at_ms: self.host_retry_at_ms,
            };
            steps.set(k, step);
        }
        let ghost after_network = steps@;
        if has_runtime {
            return;
        }
        let incoming_state = self.incoming_state(now_ms);
        let stalled = self.incoming_stalled(now_ms);
        let k_opt = find_step(steps, "incoming_reachability");
        proof {
            // the network update keeps every id, so the incoming step is found
            // at the same place
            assert forall|i: int| 0 <= i < after_network.len() implies after_network[i].id@
                == initial[i].id@ by {}
            reveal_strlit("communication_runtime");
            reveal_strlit("incoming_reachability");
            assert("communication_runtime"@ != "incoming_reachability"@) by {
                assert("communication_runtime"@[0] != "incoming_reachability"@[0]);
            }
            lemma_first_step_index(after_network, "incoming_reachability"@);
            let n0 = first_step_index(initial, "incoming_reachability"@);
            let n1 = first_step_index(after_network, "incoming_reachability"@);
            if n0 >= 0 {
                lemma_first_step_index_unique(after_network, "incoming_reachability"@, n0);
            } else {
                lemma_first_step_index_absent(after_network, "incoming_reachability"@);
            }
        }
        if let Some(k) = k_opt {
            let code = if str_eq(incoming_state, "blocked") {
                Some("COMMUNICATION_RUNTIME_REQUIRED".to_owned())
            } else if stalled {
                Some("INCOMING_REACHABILITY_STALLED".to_owned())
            } else {
                clone_option_string(&self.host_incoming_status_code)
            };
            let step = BridgeBootstrapStep {
                id: steps[k].id.clone(),
                state: incoming_state.to_owned(),
                code,
                progress: self.host_incoming_progress,
                attempt: self.host_incoming_attempt,
                started_at_ms: self.host_incoming_started_at_ms,
                last_progress_at_ms: self.host_incoming_last_progress_at_ms,
                retry_at_ms: self.host_incoming_retry_at_ms,
            };
            steps.set(k, step);
        }
    }
}

/// Law: provider starts are tried at most `MAX_START_ATTEMPTS` times in a
/// row. A host whose starts have failed that often is never due for another
/// retry, whatever the time.
pub proof fn exhausted_starts_are_not_retried(s: HostBootstrapState, now_ms: i64, provider_running: bool, has_identity: bool)
    requires
        s.host_failures >= MAX_START_ATTEMPTS,
        s.host_retry_at_ms is None,
    ensures
        !spec_retry_due(s, now_ms, provider_running, has_identity),
{
}

/// Law: a closed host reports its runtime step as pending, never ready or
/// running, so nothing left from before the shutdown reads as progress.
pub proof fn closed_host_reports_pending(s: HostBootstrapState)
    requires
        is_stopped_host(s),
    ensures
        spec_network_state(s) == "pending"@,
{
}

/// Law: the host projection only ever writes bootstrap states that the
/// contract defines, whatever the host knows and whatever the time.
pub proof fn host_projection_uses_only_contract_states(s: HostBootstrapState, now_ms: Option<i64>)
    ensures
        is_canonical_bootstrap_state(spec_network_state(s)),
        is_canonical_bootstrap_state(spec_incoming_state(s, now_ms)),
{
}

/// Law: while provider startup has not finished, the host never reports the
/// profile as unlockable: its phase is running or degraded.
pub proof fn host_projection_cannot_unlock_profile(state: CommunicationState)
    ensures
        spec_projected_host_bootstrap_phase(state) == "running"@
            || spec_projected_host_bootstrap_phase(state) == "degraded"@,
{
}

/// Law: a provider start in flight reads as running. While a start is
/// under way or a retry is scheduled, startup is unfinished and the host
/// is not reported degraded or failed, the communication runtime step is
/// `running`; it reads `pending` only when no start is under way and none
/// is scheduled.
pub proof fn provider_start_in_flight_reads_running(s: HostBootstrapState)
    ensures
        (s.host_starting || s.host_retry_at_ms is Some) && s.host_progress < 100 && s.host_state_hint
            != CommunicationState::Degraded && s.host_state_hint != CommunicationState::Failed ==> spec_network_state(s)
            == "running"@,
        spec_network_state(s) == "pending"@ ==> !s.host_starting && s.host_retry_at_ms is None,
{
    reveal_strlit("running");
    reveal_strlit("pending");
    reveal_strlit("ready");
    reveal_strlit("failed");
    assert("pending"@[0] != "running"@[0]);
    assert("pending"@.len() != "ready"@.len() && "pending"@.len() != "failed"@.len());
}

} // verus!
