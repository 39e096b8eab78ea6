//! Whether the engine's dictionary and model are loaded, as last observed.
use vstd::prelude::*;

verus! {

/// How long a dictionary may take to load before a warning is due.
pub const DICT_WAIT_WARN_MS: u64 = 30_000;

/// What was last observed of the engine, with the times that reports need. Times
/// are milliseconds since 1970; zero stands for none.
#[derive(Clone, Copy, Debug, PartialEq, Eq, Structural)]
pub struct Readiness {
    pub dict_ready: bool,
    pub model_ready: bool,
    pub reset_at_ms: u64,
    pub dict_wait_start_ms: u64,
    pub dict_wait_warned: bool,
    /// The language bar shows something else than what is known.
    pub langbar_pending: bool,
}

/// What one look at the dictionary or the model gave.
#[derive(Clone, Copy, Debug, PartialEq, Eq, Structural)]
pub struct ReadyReport {
    pub ready: bool,
    /// It has just become ready, this many milliseconds after the last reset.
    pub ready_after_ms: Option<u64>,
    /// A warning is due: it has been awaited for this many seconds.
    pub warn_after_secs: Option<u64>,
}

/// Milliseconds from `start` to `now`; none where the clock went back.
pub open spec fn ms_since(start: u64, now: u64) -> u64 {
    if now >= start {
        (now - start) as u64
    } else {
        0
    }
}

pub open spec fn warn_due(start_ms: u64, now_ms: u64, already_warned: bool) -> bool {
    start_ms != 0 && !already_warned && ms_since(start_ms, now_ms) >= DICT_WAIT_WARN_MS
}

impl Readiness {
    /// Nothing has been observed yet.
    pub open spec fn is_initial(self) -> bool {
        self == (Readiness {
            dict_ready: false,
            model_ready: false,
            reset_at_ms: 0,
            dict_wait_start_ms: 0,
            dict_wait_warned: false,
            langbar_pending: false,
        })
    }

    pub fn new() -> (r: Self)
        ensures
            r.is_initial(),
    {
        Readiness {
            dict_ready: false,
            model_ready: false,
            reset_at_ms: 0,
            dict_wait_start_ms: 0,
            dict_wait_warned: false,
            langbar_pending: false,
        }
    }

    /// A wait for the dictionary goes on: the first look starts the clock, and a
    /// look past the limit warns once.
    pub open spec fn awaiting_dict(self, now: u64) -> Readiness {
        if self.dict_wait_start_ms == 0 {
            Readiness { dict_wait_start_ms: now, ..self }
        } else if warn_due(self.dict_wait_start_ms, now, self.dict_wait_warned) {
            Readiness { dict_wait_warned: true, ..self }
        } else {
            self
        }
    }

    pub open spec fn dict_warning(self, now: u64) -> Option<u64> {
        if warn_due(self.dict_wait_start_ms, now, self.dict_wait_warned) {
            Some((ms_since(self.dict_wait_start_ms, now) / 1000) as u64)
        } else {
            None
        }
    }

    /// The dictionary was lost: the wait for it starts anew.
    pub open spec fn dict_lost(self) -> Readiness {
        if self.dict_ready {
            Readiness {
                dict_ready: false,
                dict_wait_start_ms: 0,
                dict_wait_warned: false,
                langbar_pending: true,
                ..self
            }
        } else {
            self
        }
    }

    pub open spec fn after_dict_poll(self, ready: bool, now: u64) -> Readiness {
        if ready {
            Readiness {
                dict_ready: true,
                langbar_pending: self.langbar_pending || !self.dict_ready,
                ..self
            }
        } else {
            self.dict_lost().awaiting_dict(now)
        }
    }

    /// Nothing counts as observed, and times are counted from `now` on.
    pub open spec fn after_reset(self, now: u64) -> Readiness {
        Readiness {
            dict_ready: false,
            model_ready: false,
            reset_at_ms: now,
            dict_wait_start_ms: 0,
            dict_wait_warned: false,
            ..self
        }
    }

    pub open spec fn elapsed_report(self, now: u64) -> Option<u64> {
        if self.reset_at_ms != 0 {
            Some(ms_since(self.reset_at_ms, now))
        } else {
            None
        }
    }
}

fn saturating_ms(start: u64, now: u64) -> (r: u64)
    ensures
        r == ms_since(start, now),
{
    if now >= start {
        now - start
    } else {
        0
    }
}

pub fn last_observed_readiness(state: &Readiness) -> (r: (bool, bool))
    ensures
        r == (state.dict_ready, state.model_ready),
{
    (state.dict_ready, state.model_ready)
}

pub fn dict_wait_should_warn(start_ms: u64, now_ms: u64, already_warned: bool) -> (r: bool)
    ensures
        r == warn_due(start_ms, now_ms, already_warned),
{
    start_ms != 0 && !already_warned && saturating_ms(start_ms, now_ms) >= DICT_WAIT_WARN_MS
}

/// Called while the dictionary is awaited. Gives the seconds waited where a
/// warning is due.
pub fn note_dict_not_ready(state: &mut Readiness, now: u64) -> (r: Option<u64>)
    ensures
        *final(state) == old(state).awaiting_dict(now),
        r == old(state).dict_warning(now),
{
    let start: u64 = state.dict_wait_start_ms;
    if start == 0 {
        state.dict_wait_start_ms = now;
        return None;
    }
    if dict_wait_should_warn(start, now, state.dict_wait_warned) {
        state.dict_wait_warned = true;
        return Some(saturating_ms(start, now) / 1000);
    }
    None
}

/// Takes in a look at the dictionary: `injected` tells that it was just loaded,
/// `ready` that it is loaded.
pub fn poll_dict_ready_cached(
    state: &mut Readiness,
    injected: bool,
    ready: bool,
    now: u64,
) -> (r: ReadyReport)
    ensures
        *final(state) == old(state).after_dict_poll(injected || ready, now),
        r.ready == (injected || ready),
        r.ready_after_ms == (if r.ready && !old(state).dict_ready {
            old(state).elapsed_report(now)
        } else {
            None
        }),
        r.warn_after_secs == (if r.ready {
            None
        } else {
            old(state).dict_lost().dict_warning(now)
        }),
{
    if injected || ready {
        let mut after: Option<u64> = None;
        if !state.dict_ready {
            if state.reset_at_ms != 0 {
                after = Some(saturating_ms(state.reset_at_ms, now));
            }
            langbar_update_set(state);
        }
        state.dict_ready = true;
        ReadyReport { ready: true, ready_after_ms: after, warn_after_secs: None }
    } else {
        if state.dict_ready {
            state.dict_ready = false;
            state.dict_wait_start_ms = 0;
            state.dict_wait_warned = false;
            langbar_update_set(state);
        }
        let warn = note_dict_not_ready(state, now);
        ReadyReport { ready: false, ready_after_ms: None, warn_after_secs: warn }
    }
}

/// Takes in a look at the model.
pub fn poll_model_ready_cached(state: &mut Readiness, ready: bool, now: u64) -> (r: ReadyReport)
    ensures
        *final(state) == (Readiness { model_ready: ready, ..*old(state) }),
        r.ready == ready,
        r.ready_after_ms == (if ready && !old(state).model_ready {
            old(state).elapsed_report(now)
        } else {
            None
        }),
        r.warn_after_secs is None,
{
    let was_ready = state.model_ready;
    state.model_ready = ready;
    let mut after: Option<u64> = None;
    if ready && !was_ready && state.reset_at_ms != 0 {
        after = Some(saturating_ms(state.reset_at_ms, now));
    }
    ReadyReport { ready, ready_after_ms: after, warn_after_secs: None }
}

/// Forgets what was observed; times are counted from `now` on.
pub fn reset_ready_latches(state: &mut Readiness, now: u64)
    ensures
        *final(state) == old(state).after_reset(now),
{
    state.dict_ready = false;
    state.model_ready = false;
    state.reset_at_ms = now;
    state.dict_wait_start_ms = 0;
    state.dict_wait_warned = false;
}

/// Milliseconds since the last reset. Nothing where there was none, or where
/// dictionary and model are both ready again.
pub fn ready_reset_elapsed_ms(state: &Readiness, now: u64) -> (r: Option<u64>)
    ensures
        r == (if state.dict_ready && state.model_ready {
            None
        } else {
            state.elapsed_report(now)
        }),
{
    if state.reset_at_ms == 0 || (state.dict_ready && state.model_ready) {
        None
    } else {
        Some(saturating_ms(state.reset_at_ms, now))
    }
}

pub fn is_conversion_ready(state: &Readiness) -> (r: bool)
    ensures
        r == state.dict_ready,
{
    state.dict_ready
}

pub fn langbar_update_set(state: &mut Readiness)
    ensures
        *final(state) == (Readiness { langbar_pending: true, ..*old(state) }),
{
    state.langbar_pending = true;
}

/// Tells whether the language bar is to be redrawn, once for each request.
pub fn langbar_update_take(state: &mut Readiness) -> (r: bool)
    ensures
        r == old(state).langbar_pending,
        *final(state) == (Readiness { langbar_pending: false, ..*old(state) }),
{
    let pending = state.langbar_pending;
    state.langbar_pending = false;
    pending
}

/// The symbol and message for a time spent loading.
pub open spec fn loading_texts(elapsed: Option<u64>) -> (Seq<char>, Seq<char>) {
    match elapsed {
        Some(ms) => if ms < 10_000 {
            ("⏳"@, "エンジン読込中"@)
        } else if ms < 30_000 {
            ("⌛"@, "エンジン読込中..."@)
        } else if ms < 60_000 {
            ("⚠"@, "読込に時間がかかっています"@)
        } else {
            ("✕"@, "エンジン起動失敗の可能性"@)
        },
        None => ("⏳"@, "エンジン読込中"@),
    }
}

pub fn loading_indicator_symbol(elapsed: Option<u64>) -> (r: (&'static str, &'static str))
    ensures
        (r.0@, r.1@) == loading_texts(elapsed),
{
    match elapsed {
        None => ("⏳", "エンジン読込中"),
        Some(ms) => if ms < 10_000 {
            ("⏳", "エンジン読込中")
        } else if ms < 30_000 {
            ("⌛", "エンジン読込中...")
        } else if ms < 60_000 {
            ("⚠", "読込に時間がかかっています")
        } else {
            ("✕", "エンジン起動失敗の可能性")
        },
    }
}

/// One wait for the dictionary brings one warning at most.
pub proof fn one_warning_for_each_wait(s: Readiness, now: u64, later: u64)
    ensures
        s.dict_warning(now) is Some ==> s.awaiting_dict(now).dict_warning(later) is None,
        s.dict_warning(now) is Some ==> ms_since(s.dict_wait_start_ms, now) >= DICT_WAIT_WARN_MS,
        s.dict_wait_start_ms == 0 ==> s.dict_warning(now) is None,
{
}

/// What is observed is never kept from an earlier look: a lost dictionary shows
/// at the next look, and each change asks for a new icon.
pub proof fn latest_look_counts(s: Readiness, ready: bool, now: u64)
    ensures
        s.after_dict_poll(ready, now).dict_ready == ready,
        s.dict_ready != ready ==> s.after_dict_poll(ready, now).langbar_pending,
        s.dict_ready == ready ==> s.after_dict_poll(ready, now).langbar_pending
            == s.langbar_pending,
{
}

/// The first look at a missing dictionary starts the clock, and a look half a minute
/// later or more warns with the seconds waited. Nothing else changes meanwhile.
pub proof fn long_waits_are_warned_of(s: Readiness, first: u64, now: u64)
    requires
        s.dict_wait_start_ms == 0,
        !s.dict_wait_warned,
        first > 0,
    ensures
        ({
            let waiting = s.awaiting_dict(first);
            &&& waiting == (Readiness { dict_wait_start_ms: first, ..s })
            &&& now >= first + 30_000 ==> waiting.dict_warning(now) == Some(
                ((now - first) / 1000) as u64,
            ) && waiting.awaiting_dict(now) == (Readiness { dict_wait_warned: true, ..waiting })
            &&& now < first + 30_000 ==> waiting.dict_warning(now) is None && waiting.awaiting_dict(
                now,
            ) == waiting
        }),
{
}

/// A look at the dictionary says nothing of the model; losing the dictionary starts
/// a new wait, and finding it ends none of the counts.
pub proof fn dictionary_looks_change_the_dictionary(s: Readiness, ready: bool, now: u64)
    ensures
        ({
            let after = s.after_dict_poll(ready, now);
            &&& after.model_ready == s.model_ready
            &&& after.reset_at_ms == s.reset_at_ms
            &&& ready ==> after.dict_wait_start_ms == s.dict_wait_start_ms && after.dict_wait_warned
                == s.dict_wait_warned
            &&& !ready && s.dict_ready ==> after.dict_wait_start_ms == now && !after.dict_wait_warned
            &&& !ready && !s.dict_ready ==> after == s.awaiting_dict(now)
        }),
{
}

/// After a reset nothing counts as observed and times are counted anew; the
/// language bar still owes what it owed.
pub proof fn resets_forget_what_was_observed(s: Readiness, at: u64, now: u64)
    ensures
        ({
            let after = s.after_reset(at);
            &&& !after.dict_ready && !after.model_ready
            &&& after.dict_warning(now) is None
            &&& after.langbar_pending == s.langbar_pending
            &&& at > 0 && now >= at ==> after.elapsed_report(now) == Some((now - at) as u64)
            &&& at > 0 && now < at ==> after.elapsed_report(now) == Some(0u64)
            &&& at == 0 ==> after.elapsed_report(now) is None
        }),
{
}

/// The sign for loading gets graver with time: at ten, thirty and sixty seconds, and
/// only then.
pub proof fn loading_gets_graver_with_time(a: u64, b: u64)
    ensures
        loading_texts(None) == loading_texts(Some(0)),
        loading_texts(Some(a)).0 == loading_texts(Some(b)).0 <==> (a < 10_000) == (b < 10_000) && (a
            < 30_000) == (b < 30_000) && (a < 60_000) == (b < 60_000),
        loading_texts(Some(a)).0 == loading_texts(Some(b)).0 ==> loading_texts(Some(a)).1
            == loading_texts(Some(b)).1,
{
    reveal_strlit("⏳");
    reveal_strlit("⌛");
    reveal_strlit("⚠");
    reveal_strlit("✕");
    assert("⏳"@[0] != "⌛"@[0] && "⏳"@[0] != "⚠"@[0] && "⏳"@[0] != "✕"@[0]);
    assert("⌛"@[0] != "⚠"@[0] && "⌛"@[0] != "✕"@[0] && "⚠"@[0] != "✕"@[0]);
}

/// Nothing counts as ready, warned of or owed before anything was observed.
pub proof fn nothing_is_observed_at_first(s: Readiness, now: u64)
    requires
        s.is_initial(),
    ensures
        !s.dict_ready && !s.model_ready && !s.langbar_pending,
        s.elapsed_report(now) is None,
        s.dict_warning(now) is None,
{
}

}
