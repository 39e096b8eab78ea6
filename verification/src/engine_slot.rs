//! The connection to the conversion engine: when it is made, dropped and made anew.
//!
//! The engine runs in a process of its own. These functions decide; the caller
//! starts threads, talks to that process and reports back.
use vstd::prelude::*;
use crate::readiness::{Readiness, langbar_update_set, reset_ready_latches};

verus! {

/// A conversion that is stuck for longer than this counts as hung, in seconds. The
/// engine itself gives up on a conversion after fifteen.
pub const BG_WATCHDOG_SECS: u64 = 30;

/// A connection, where there is one.
pub struct EngineWrapper<E>(pub Option<E>);

/// The connection and whether making one has been started.
pub struct EngineSlot<E> {
    pub engine: EngineWrapper<E>,
    pub init_started: bool,
}

/// What is left to load in an engine.
#[derive(Clone, Copy, Debug, PartialEq, Eq, Structural)]
pub struct LoadPlan {
    pub dict: bool,
    pub model: bool,
}

#[derive(Clone, Copy, Debug, PartialEq, Eq, Structural)]
pub enum InitStep {
    /// Start a thread that connects.
    Spawn,
    /// Have the connected engine load what is missing.
    Load { plan: LoadPlan },
    /// A thread is at it, or the engine is in use.
    Nothing,
}

#[derive(Clone, Copy, Debug, PartialEq, Eq, Structural)]
pub enum EngineAccess {
    Ready,
    /// There is no engine yet; see to it that one is made.
    NotReady { step: InitStep },
    Busy,
}

#[derive(Clone, Copy, Debug, PartialEq, Eq, Structural)]
pub enum ReloadStep {
    /// Ask the engine to end unless it already runs with these settings.
    ShutdownIfConfigDiffers,
    /// Ask the engine to end.
    Shutdown,
    /// Drop the connection; the next use connects to a new engine.
    DropHandle,
    /// Connect as at the first use.
    StartInit { step: InitStep },
    /// The engine runs with these settings already.
    KeepRunning,
}

pub open spec fn missing_parts(dict_ready: bool, kanji_ready: bool) -> LoadPlan {
    LoadPlan { dict: !dict_ready, model: !kanji_ready }
}

impl<E> EngineSlot<E> {
    pub open spec fn present(self) -> bool {
        self.engine.0 is Some
    }

    pub open spec fn is_empty(self) -> bool {
        self.engine.0 is None && !self.init_started
    }

    pub fn new() -> (r: Self)
        ensures
            r.is_empty(),
    {
        EngineSlot { engine: EngineWrapper(None), init_started: false }
    }

    /// The first call spawns; later ones only see to it that a connected engine
    /// loads what is missing. `loaded` tells what a connected engine has loaded,
    /// where it could be asked.
    pub open spec fn init_step(self, loaded: Option<(bool, bool)>) -> InitStep {
        if !self.init_started {
            InitStep::Spawn
        } else {
            match loaded {
                Some((dict_ready, kanji_ready)) => InitStep::Load {
                    plan: missing_parts(dict_ready, kanji_ready),
                },
                None => InitStep::Nothing,
            }
        }
    }
}

/// `loaded` tells whether dictionary and model of the connected engine are
/// loaded; nothing where there is no engine or it is in use.
pub fn engine_start_bg_init<E>(slot: &mut EngineSlot<E>, loaded: Option<(bool, bool)>) -> (r:
    InitStep)
    ensures
        r == old(slot).init_step(loaded),
        final(slot).init_started,
        final(slot).engine == old(slot).engine,
{
    if slot.init_started {
        return match loaded {
            Some((dict_ready, kanji_ready)) => InitStep::Load {
                plan: LoadPlan { dict: !dict_ready, model: !kanji_ready },
            },
            None => InitStep::Nothing,
        };
    }
    slot.init_started = true;
    InitStep::Spawn
}

/// Whether the connecting thread still has to connect.
pub fn init_thread_should_connect<E>(slot: &EngineSlot<E>) -> (r: bool)
    ensures
        r == !slot.present(),
{
    slot.engine.0.is_none()
}

/// The connecting thread is done. `connected` is the engine with what it has
/// loaded, or nothing where connecting failed: then the next use tries again.
pub fn init_thread_finished<E>(
    slot: &mut EngineSlot<E>,
    readiness: &mut Readiness,
    connected: Option<(E, bool, bool)>,
) -> (r: Option<LoadPlan>)
    ensures
        match connected {
            Some((engine, dict_ready, kanji_ready)) => {
                &&& r == Some(missing_parts(dict_ready, kanji_ready))
                &&& final(slot).engine.0 == Some(engine)
                &&& final(slot).init_started == old(slot).init_started
                &&& *final(readiness) == (Readiness { langbar_pending: true, ..*old(readiness) })
            },
            None => {
                &&& r is None
                &&& final(slot).engine == old(slot).engine
                &&& !final(slot).init_started
                &&& *final(readiness) == *old(readiness)
            },
        },
{
    match connected {
        Some((engine, dict_ready, kanji_ready)) => {
            slot.engine = EngineWrapper(Some(engine));
            langbar_update_set(readiness);
            Some(LoadPlan { dict: !dict_ready, model: !kanji_ready })
        },
        None => {
            slot.init_started = false;
            None
        },
    }
}

/// Access for a key press: it never waits and never connects itself. `free`
/// tells whether the slot could be had at once.
pub fn engine_try_get_or_create<E>(slot: &mut EngineSlot<E>, free: bool) -> (r: EngineAccess)
    ensures
        r == (if !free {
            EngineAccess::Busy
        } else if old(slot).present() {
            EngineAccess::Ready
        } else {
            EngineAccess::NotReady { step: old(slot).init_step(None) }
        }),
        final(slot).engine == old(slot).engine,
        final(slot).init_started == (old(slot).init_started || (free && !old(slot).present())),
{
    if !free {
        return EngineAccess::Busy;
    }
    if slot.engine.0.is_some() {
        return EngineAccess::Ready;
    }
    let step = engine_start_bg_init(slot, None);
    EngineAccess::NotReady { step }
}

/// Drops the connection; the next use makes a new one.
pub fn engine_force_recreate<E>(slot: &mut EngineSlot<E>)
    ensures
        final(slot).is_empty(),
{
    slot.engine = EngineWrapper(None);
    slot.init_started = false;
}

/// Has a changed configuration take effect: an engine that already runs with it is
/// left alone.
pub fn engine_reload<E>(slot: &mut EngineSlot<E>, readiness: &mut Readiness, now: u64) -> (r:
    ReloadStep)
    ensures
        old(slot).present() ==> r == ReloadStep::ShutdownIfConfigDiffers && *final(slot) == *old(
            slot,
        ) && *final(readiness) == *old(readiness),
        !old(slot).present() ==> r == (ReloadStep::StartInit { step: InitStep::Spawn })
            && final(slot).engine == old(slot).engine && final(slot).init_started
            && *final(readiness) == old(readiness).after_reset(now),
{
    engine_reload_impl(slot, readiness, false, now)
}

/// Restarts the engine whatever its configuration.
pub fn engine_reload_force<E>(slot: &mut EngineSlot<E>, readiness: &mut Readiness, now: u64) -> (r:
    ReloadStep)
    ensures
        old(slot).present() ==> r == ReloadStep::Shutdown && *final(slot) == *old(slot)
            && *final(readiness) == *old(readiness),
        !old(slot).present() ==> r == (ReloadStep::StartInit { step: InitStep::Spawn })
            && final(slot).engine == old(slot).engine && final(slot).init_started
            && *final(readiness) == old(readiness).after_reset(now),
{
    engine_reload_impl(slot, readiness, true, now)
}

/// The first step of a reload. Without a connection the engine is connected as at
/// the first use.
pub fn engine_reload_impl<E>(
    slot: &mut EngineSlot<E>,
    readiness: &mut Readiness,
    force: bool,
    now: u64,
) -> (r: ReloadStep)
    ensures
        old(slot).present() ==> {
            &&& r == (if force {
                ReloadStep::Shutdown
            } else {
                ReloadStep::ShutdownIfConfigDiffers
            })
            &&& *final(slot) == *old(slot)
            &&& *final(readiness) == *old(readiness)
        },
        !old(slot).present() ==> {
            &&& r == (ReloadStep::StartInit { step: InitStep::Spawn })
            &&& final(slot).engine == old(slot).engine
            &&& final(slot).init_started
            &&& *final(readiness) == old(readiness).after_reset(now)
        },
{
    if slot.engine.0.is_some() {
        return if force {
            ReloadStep::Shutdown
        } else {
            ReloadStep::ShutdownIfConfigDiffers
        };
    }
    reset_ready_latches(readiness, now);
    slot.init_started = false;
    let step = engine_start_bg_init(slot, None);
    ReloadStep::StartInit { step }
}

/// What follows the conditional request: `ended` is the engine's answer, nothing
/// where it could not tell. Then it is ended without conditions.
pub fn engine_reload_compared(ended: Option<bool>) -> (r: ReloadStep)
    ensures
        r == (match ended {
            Some(true) => ReloadStep::DropHandle,
            Some(false) => ReloadStep::KeepRunning,
            None => ReloadStep::Shutdown,
        }),
{
    match ended {
        Some(e) => if e {
            ReloadStep::DropHandle
        } else {
            ReloadStep::KeepRunning
        },
        None => ReloadStep::Shutdown,
    }
}

/// The last step of a reload, once the engine was asked to end, whether or not it
/// answered: the connection is dropped, and what was observed is forgotten.
pub fn engine_reload_ended<E>(slot: &mut EngineSlot<E>, readiness: &mut Readiness, now: u64)
    ensures
        final(slot).is_empty(),
        *final(readiness) == old(readiness).after_reset(now),
{
    reset_ready_latches(readiness, now);
    slot.engine = EngineWrapper(None);
    slot.init_started = false;
}

/// Since when a conversion has been stuck, in seconds of a steady clock.
#[derive(Clone, Copy, Debug, PartialEq, Eq, Structural)]
pub struct Watchdog {
    pub since_secs: Option<u64>,
}

impl Watchdog {
    pub fn new() -> (r: Self)
        ensures
            r.since_secs is None,
    {
        Watchdog { since_secs: None }
    }

    /// Whether a conversion that is stuck now has been so for too long.
    pub open spec fn expired(self, now_secs: u64) -> bool {
        self.since_secs is Some && now_secs - self.since_secs->0 > BG_WATCHDOG_SECS
    }

    /// The watch after one more look: it starts with a stuck conversion, and ends
    /// when the conversion gets on or the engine is restarted.
    pub open spec fn after_look(self, is_stuck: bool, now_secs: u64) -> Watchdog {
        Watchdog {
            since_secs: if !is_stuck || self.expired(now_secs) {
                None
            } else if self.since_secs is Some {
                self.since_secs
            } else {
                Some(now_secs)
            },
        }
    }
}

/// Watches a running conversion. Tells when the engine is to be restarted; the
/// clock then starts anew, as it does when the conversion gets on.
pub fn bg_timeout_watchdog(watchdog: &mut Watchdog, is_stuck: bool, now_secs: u64) -> (restart:
    bool)
    ensures
        restart == (is_stuck && old(watchdog).expired(now_secs)),
        *final(watchdog) == old(watchdog).after_look(is_stuck, now_secs),
{
    if !is_stuck {
        watchdog.since_secs = None;
        return false;
    }
    let since: u64 = match watchdog.since_secs {
        Some(s) => s,
        None => now_secs,
    };
    watchdog.since_secs = Some(since);
    if now_secs >= since && now_secs - since > BG_WATCHDOG_SECS {
        watchdog.since_secs = None;
        return true;
    }
    false
}

/// However often it is asked for, a connection is started once until it fails.
pub proof fn init_is_spawned_once<E>(slot: EngineSlot<E>, loaded: Option<(bool, bool)>)
    ensures
        slot.init_started ==> slot.init_step(loaded) != InitStep::Spawn,
        !slot.init_started ==> slot.init_step(loaded) == InitStep::Spawn,
{
}

/// A conversion that gets on in time never restarts the engine, and one that stays
/// stuck does so once its time is up.
pub proof fn watchdog_waits_its_time(w: Watchdog, began: u64, now_secs: u64)
    ensures
        w.since_secs is None ==> !w.expired(now_secs),
        w.since_secs is Some && now_secs <= w.since_secs->0 + BG_WATCHDOG_SECS ==> !w.expired(
            now_secs,
        ),
        w.since_secs is None ==> w.after_look(true, began).expired(now_secs) == (now_secs - began
            > BG_WATCHDOG_SECS),
        !w.after_look(false, began).expired(now_secs),
        w.expired(began) ==> !w.after_look(true, began).expired(now_secs),
{
}

/// How often memory of the graphics card is reported at most.
pub const GPU_MEMORY_LOG_INTERVAL_MS: u64 = 30_000;

/// A report on the graphics card is due: it is wanted, the engine uses the card,
/// and the last report is long enough ago.
pub open spec fn gpu_report_due(
    wanted: bool,
    backend: Seq<char>,
    n_gpu_layers: u32,
    last_ms: u64,
    now_ms: u64,
) -> bool {
    wanted && !cpu_backend(backend) && n_gpu_layers != 0 && crate::readiness::ms_since(
        last_ms,
        now_ms,
    ) >= GPU_MEMORY_LOG_INTERVAL_MS
}

/// "cpu", in capital or small letters.
pub open spec fn cpu_backend(name: Seq<char>) -> bool {
    name.len() == 3 && (name[0] == 'c' || name[0] == 'C') && (name[1] == 'p' || name[1] == 'P') && (
    name[2] == 'u' || name[2] == 'U')
}

/// Whether to report the memory of the graphics card now; notes the time if so.
pub fn maybe_log_gpu_memory(
    last_ms: &mut u64,
    wanted: bool,
    backend: &str,
    n_gpu_layers: u32,
    now_ms: u64,
) -> (r: bool)
    ensures
        r == gpu_report_due(wanted, backend@, n_gpu_layers, *old(last_ms), now_ms),
        *final(last_ms) == (if r {
            now_ms
        } else {
            *old(last_ms)
        }),
{
    if !wanted {
        return false;
    }
    let name: Vec<char> = crate::text::chars_of(backend);
    let cpu = name.len() == 3 && (name[0] == 'c' || name[0] == 'C') && (name[1] == 'p' || name[1]
        == 'P') && (name[2] == 'u' || name[2] == 'U');
    if cpu || n_gpu_layers == 0 {
        return false;
    }
    if now_ms < *last_ms || now_ms - *last_ms < GPU_MEMORY_LOG_INTERVAL_MS {
        return false;
    }
    *last_ms = now_ms;
    true
}

/// The adapter that the settings name; a negative number names the first.
pub fn gpu_adapter_index(main_gpu: i32) -> (r: u32)
    ensures
        r == (if main_gpu < 0 {
            0
        } else {
            main_gpu as int
        }),
{
    if main_gpu < 0 {
        0
    } else {
        main_gpu as u32
    }
}

/// Used, granted and free memory in whole megabytes, from bytes.
pub fn gpu_memory_mb(usage: u64, budget: u64) -> (r: (u64, u64, u64))
    ensures
        r.0 == usage / 1048576,
        r.1 == budget / 1048576,
        r.2 == (if r.1 >= r.0 {
            r.1 - r.0
        } else {
            0
        }),
{
    let used: u64 = usage / 1048576;
    let granted: u64 = budget / 1048576;
    let free: u64 = if granted >= used {
        granted - used
    } else {
        0
    };
    (used, granted, free)
}

/// A connected engine loads exactly what it lacks; one that cannot be asked is left
/// alone.
pub proof fn engines_load_what_they_lack<E>(slot: EngineSlot<E>, dict: bool, model: bool)
    requires
        slot.init_started,
    ensures
        slot.init_step(Some((dict, model))) matches InitStep::Load { plan } && plan.dict == !dict
            && plan.model == !model,
        slot.init_step(None) == InitStep::Nothing,
        missing_parts(dict, model).dict != dict,
        missing_parts(dict, model).model != model,
{
}

/// A stuck conversion is given half a minute from the first look that finds it so.
pub proof fn stuck_conversions_get_half_a_minute(w: Watchdog, began: u64, now: u64, later: u64)
    requires
        w.since_secs is None,
        began <= now <= later,
    ensures
        ({
            let watching = w.after_look(true, began);
            &&& watching.since_secs == Some(began)
            &&& now - began <= 30 ==> watching.after_look(true, now) == watching
            &&& now - began <= 30 ==> watching.after_look(true, now).expired(later) == (later
                - began > 30)
            &&& now - began > 30 ==> watching.expired(now) && watching.after_look(
                true,
                now,
            ).since_secs is None
            &&& watching.after_look(false, now).since_secs is None
        }),
{
}

/// An empty slot has no connection, and its next use starts one.
pub proof fn empty_slots_connect_anew<E>(slot: EngineSlot<E>, loaded: Option<(bool, bool)>)
    requires
        slot.is_empty(),
    ensures
        !slot.present(),
        slot.init_step(loaded) == InitStep::Spawn,
{
}

/// The graphics card is reported on only where it is used and a report is wanted,
/// and not twice in half a minute.
pub proof fn the_card_is_reported_on_now_and_then(
    wanted: bool,
    backend: Seq<char>,
    layers: u32,
    last: u64,
    now: u64,
)
    ensures
        gpu_report_due(wanted, backend, layers, last, now) ==> wanted && layers > 0 && now
            >= last + 30_000,
        wanted && layers > 0 && now >= last + 30_000 && backend.len() != 3 ==> gpu_report_due(
            wanted,
            backend,
            layers,
            last,
            now,
        ),
        wanted && layers > 0 && now >= last + 30_000 ==> gpu_report_due(
            wanted,
            backend,
            layers,
            last,
            now,
        ) == !cpu_backend(backend),
        cpu_backend(seq!['c', 'p', 'u']) && cpu_backend(seq!['C', 'P', 'U']),
        cpu_backend(backend) ==> (backend[0] == 'c' || backend[0] == 'C') && (backend[1] == 'p'
            || backend[1] == 'P') && (backend[2] == 'u' || backend[2] == 'U') && backend.len() == 3,
{
}

}
