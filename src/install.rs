use vstd::prelude::*;
use vstd::string::*;

use crate::setup::TracingConfig;

verus! {

/// A one-time guard: the first `begin` wins, every later one is a no-op.
/// The owner keeps it behind a mutex so that concurrent callers take turns.
#[derive(Debug)]
pub struct OnceGuard {
    done: bool,
}

/// Why installing a logging pipeline cannot go on: each is a configuration
/// error, fatal at bootstrap.
#[derive(Clone, Copy, Debug, PartialEq, Eq, Structural)]
pub enum InitError {
    /// The bridge for legacy log calls is already in place.
    LogBridgeAlreadyInstalled,
    /// A process-wide subscriber is already set.
    SubscriberAlreadySet,
    /// The filter directives do not parse.
    InvalidDirectives,
}

/// The process-wide logging state: the legacy-log bridge and the subscriber,
/// each set at most once.
#[derive(Debug)]
pub struct GlobalTracingState {
    log_bridge: bool,
    subscriber: bool,
}

impl OnceGuard {
    pub closed spec fn is_done(&self) -> bool {
        self.done
    }

    pub fn new() -> (r: OnceGuard)
        ensures
            !r.is_done(),
    {
        OnceGuard { done: false }
    }

    pub fn done(&self) -> (r: bool)
        ensures
            r == self.is_done(),
    {
        self.done
    }

    /// True for the first caller only; the guard is done afterwards.
    pub fn begin(&mut self) -> (first: bool)
        ensures
            begin_step(*old(self), *final(self), first),
    {
        let first = !self.done;
        self.done = true;
        first
    }
}

/// One call of `begin`: it wins iff the guard was not done, and leaves it done.
pub open spec fn begin_step(before: OnceGuard, after: OnceGuard, first: bool) -> bool {
    first == !before.is_done() && after.is_done()
}

/// Once a guard is done, every later call in a run of `begin` calls loses.
proof fn lemma_done_stays_done(gs: Seq<OnceGuard>, firsts: Seq<bool>, i: int, k: int)
    requires
        gs.len() == firsts.len() + 1,
        forall|j: int| 0 <= j < firsts.len() ==> #[trigger] begin_step(gs[j], gs[j + 1], firsts[j]),
        0 <= i < k < gs.len(),
        gs[i].is_done(),
    ensures
        gs[k].is_done(),
    decreases k - i,
{
    let j = k - 1;
    assert(begin_step(gs[j], gs[j + 1], firsts[j]));
    if i < k - 1 {
        lemma_done_stays_done(gs, firsts, i, k - 1);
    }
}

/// Any run of `begin` calls on one guard, however its callers are
/// interleaved, has at most one winner; on a fresh guard, the first call wins
/// and every later one is a no-op. `init_default_ut_tracing` and
/// `init_meta_ut_tracing` are such calls, winning when they return `Some`:
/// over `k` calls on a fresh guard, exactly the first one installs.
pub proof fn lemma_at_most_one_install(gs: Seq<OnceGuard>, firsts: Seq<bool>)
    requires
        gs.len() == firsts.len() + 1,
        forall|j: int| 0 <= j < firsts.len() ==> #[trigger] begin_step(gs[j], gs[j + 1], firsts[j]),
    ensures
        forall|i: int, j: int|
            0 <= i < firsts.len() && 0 <= j < firsts.len() && #[trigger] firsts[i]
                && #[trigger] firsts[j] ==> i == j,
        firsts.len() >= 1 && !gs[0].is_done() ==> firsts[0],
        !gs[0].is_done() ==> forall|j: int| 0 < j < firsts.len() ==> !#[trigger] firsts[j],
        firsts.len() >= 1 ==> gs[firsts.len() as int].is_done(),
{
    assert forall|i: int, j: int|
        0 <= i < firsts.len() && 0 <= j < firsts.len() && #[trigger] firsts[i]
            && #[trigger] firsts[j] implies i == j by {
        if i != j {
            let (a, b) = if i < j {
                (i, j)
            } else {
                (j, i)
            };
            assert(begin_step(gs[a], gs[a + 1], firsts[a]));
            assert(begin_step(gs[b], gs[b + 1], firsts[b]));
            if a + 1 < b {
                lemma_done_stays_done(gs, firsts, a + 1, b);
            }
        }
    }
    if firsts.len() >= 1 {
        let z: int = 0;
        assert(begin_step(gs[z], gs[z + 1], firsts[z]));
        let l = firsts.len() - 1;
        assert(begin_step(gs[l], gs[l + 1], firsts[l]));
        if !gs[0].is_done() {
            assert forall|j: int| 0 < j < firsts.len() implies !#[trigger] firsts[j] by {
                if firsts[j] {
                    assert(firsts[z] && firsts[j]);
                }
            }
        }
    }
}

pub open spec fn default_ut_config(c: TracingConfig) -> bool {
    c.app_name@ == "unittest"@ && c.dir@ == "_logs_unittest"@ && c.level@ == "DEBUG"@
        && c.disable_stdout is None
}

pub open spec fn meta_ut_config(c: TracingConfig) -> bool {
    c.app_name@ == "unittest-meta"@ && c.dir@ == "./.databend/logs_unittest"@ && c.level@
        == "DEBUG"@ && c.disable_stdout is None
}

/// The unit-test installer: the first call through `guard` gets the settings
/// to install with (service `unittest`, files under `_logs_unittest`, level
/// `DEBUG`); every later call gets `None` and installs nothing.
pub fn init_default_ut_tracing(guard: &mut OnceGuard) -> (r: Option<TracingConfig>)
    ensures
        begin_step(*old(guard), *final(guard), r is Some),
        r is Some ==> default_ut_config(r->0),
{
    if guard.begin() {
        Some(
            TracingConfig {
                app_name: String::from_str("unittest"),
                dir: String::from_str("_logs_unittest"),
                level: String::from_str("DEBUG"),
                disable_stdout: None,
            },
        )
    } else {
        None
    }
}

/// The metadata service's unit-test installer, with a guard of its own: the
/// first call gets service `unittest-meta`, files under
/// `./.databend/logs_unittest`, level `DEBUG`; later calls get `None`.
pub fn init_meta_ut_tracing(guard: &mut OnceGuard) -> (r: Option<TracingConfig>)
    ensures
        begin_step(*old(guard), *final(guard), r is Some),
        r is Some ==> meta_ut_config(r->0),
{
    if guard.begin() {
        Some(
            TracingConfig {
                app_name: String::from_str("unittest-meta"),
                dir: String::from_str("./.databend/logs_unittest"),
                level: String::from_str("DEBUG"),
                disable_stdout: None,
            },
        )
    } else {
        None
    }
}

impl GlobalTracingState {
    pub closed spec fn bridge_installed(&self) -> bool {
        self.log_bridge
    }

    pub closed spec fn subscriber_set(&self) -> bool {
        self.subscriber
    }

    pub fn new() -> (r: GlobalTracingState)
        ensures
            !r.bridge_installed(),
            !r.subscriber_set(),
    {
        GlobalTracingState { log_bridge: false, subscriber: false }
    }

    pub fn has_subscriber(&self) -> (r: bool)
        ensures
            r == self.subscriber_set(),
    {
        self.subscriber
    }

    /// Claims the legacy-log bridge and the subscriber for the full pipeline.
    pub fn install_global(&mut self) -> (r: Result<(), InitError>)
        ensures
            global_install_step(*old(self), *final(self), r),
    {
        if self.log_bridge {
            Err(InitError::LogBridgeAlreadyInstalled)
        } else if self.subscriber {
            Err(InitError::SubscriberAlreadySet)
        } else {
            self.log_bridge = true;
            self.subscriber = true;
            Ok(())
        }
    }

    /// Claims the subscriber alone, leaving legacy log calls unbridged.
    pub fn install_subscriber(&mut self) -> (r: Result<(), InitError>)
        ensures
            subscriber_install_step(*old(self), *final(self), r),
    {
        if self.subscriber {
            Err(InitError::SubscriberAlreadySet)
        } else {
            self.subscriber = true;
            Ok(())
        }
    }
}

/// One installation of the full pipeline: it fails when the bridge or the
/// subscriber is already there, the bridge being checked first, and leaves
/// the state as it was; otherwise it sets both.
pub open spec fn global_install_step(
    before: GlobalTracingState,
    after: GlobalTracingState,
    r: Result<(), InitError>,
) -> bool {
    if before.bridge_installed() {
        r == Err::<(), InitError>(InitError::LogBridgeAlreadyInstalled) && after == before
    } else if before.subscriber_set() {
        r == Err::<(), InitError>(InitError::SubscriberAlreadySet) && after == before
    } else {
        r is Ok && after.bridge_installed() && after.subscriber_set()
    }
}

/// One installation of the subscriber alone.
pub open spec fn subscriber_install_step(
    before: GlobalTracingState,
    after: GlobalTracingState,
    r: Result<(), InitError>,
) -> bool {
    if before.subscriber_set() {
        r == Err::<(), InitError>(InitError::SubscriberAlreadySet) && after == before
    } else {
        r is Ok && after.subscriber_set() && after.bridge_installed() == before.bridge_installed()
    }
}

/// Installing the full pipeline a second time in one process is an error,
/// whatever the first call returned.
pub proof fn lemma_second_global_install_fails(
    s0: GlobalTracingState,
    s1: GlobalTracingState,
    s2: GlobalTracingState,
    r1: Result<(), InitError>,
    r2: Result<(), InitError>,
)
    requires
        global_install_step(s0, s1, r1),
        global_install_step(s1, s2, r2),
    ensures
        r2 is Err,
        !s0.bridge_installed() && !s0.subscriber_set() ==> r1 is Ok,
{
}

} // verus!
