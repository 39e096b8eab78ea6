//! The life of the text service: what is set up when it is activated, and what is
//! cleared away when it ends.
use vstd::prelude::*;
use crate::composition::{CompositionWrapper, composition_set};
use crate::config::InputConfig;
use crate::doc_mode::{ModeStore, doc_mode_on_focus_change};
use crate::ime_mode::ImeMode;
use crate::session::SessionState;
use crate::steps::{Step, StepModel};
use crate::steps;

verus! {

/// What the service holds of the system while it is active: `M` manages the
/// thread, `K` is the key assignment, `S` listens to the button, `C` is the open
/// state that is watched. A cookie of zero stands for no registration.
pub struct TextServiceState<M, K, S, C> {
    pub client_id: u32,
    pub thread_mgr: Option<M>,
    pub keymap: K,
    pub langbar_sink: Option<S>,
    pub threadmgr_cookie: u32,
    pub threadfocus_cookie: u32,
    pub openclose_cookie: u32,
    pub openclose_comp: Option<C>,
}

impl<M, K, S, C> TextServiceState<M, K, S, C> {
    /// The registrations that succeeded are noted; the others stay as they were.
    pub open spec fn after_registered(
        self,
        threadmgr: Option<u32>,
        threadfocus: Option<u32>,
        openclose: Option<(u32, C)>,
    ) -> Self {
        TextServiceState {
            threadmgr_cookie: if threadmgr is Some {
                threadmgr->0
            } else {
                self.threadmgr_cookie
            },
            threadfocus_cookie: if threadfocus is Some {
                threadfocus->0
            } else {
                self.threadfocus_cookie
            },
            openclose_cookie: match openclose {
                Some((cookie, comp)) => cookie,
                None => self.openclose_cookie,
            },
            openclose_comp: match openclose {
                Some((cookie, comp)) => Some(comp),
                None => self.openclose_comp,
            },
            ..self
        }
    }

    /// The registrations that are taken back when the service ends.
    pub open spec fn to_unadvise(self) -> Option<Unadvise> {
        if self.thread_mgr is Some {
            Some(
                Unadvise {
                    threadmgr: cookie_to_take_back(self.threadmgr_cookie),
                    threadfocus: cookie_to_take_back(self.threadfocus_cookie),
                    openclose: if self.openclose_comp is Some {
                        cookie_to_take_back(self.openclose_cookie)
                    } else {
                        None
                    },
                },
            )
        } else {
            None
        }
    }

    /// The open state is no longer watched.
    pub open spec fn after_deactivate(self) -> Self {
        TextServiceState { openclose_cookie: 0, openclose_comp: None, ..self }
    }
}

/// A step of activation.
#[derive(Clone, Copy, Debug, PartialEq, Eq, Structural)]
pub enum ActivateStep {
    CacheThreadMgr,
    /// Register for keys; without this the service cannot be used.
    AdviseKeyEvents,
    AddLangbarButton,
    /// Tell applications whether the keyboard is open.
    WriteOpen { open: bool },
    PublishMode { mode: ImeMode },
    AdviseThreadMgrEvents,
    AdviseThreadFocus,
    AdviseOpenClose,
    RegisterDisplayAttributes,
    /// Take over the mode of the document in focus; see [`initial_mode`].
    ApplyInitialMode,
    UpdateLangbar,
    /// Publish the mode that is in force then.
    PublishCurrentMode,
}

/// There is no thread to work for.
#[derive(Clone, Copy, Debug, PartialEq, Eq, Structural)]
pub struct NullThreadMgr;

/// The steps of activation, in order. The open state is told as it is, not reset:
/// a document that was left switched off stays so.
pub open spec fn activation(mode: ImeMode) -> Seq<ActivateStep> {
    seq![
        ActivateStep::CacheThreadMgr,
        ActivateStep::AdviseKeyEvents,
        ActivateStep::AddLangbarButton,
        ActivateStep::WriteOpen { open: mode.on() },
        ActivateStep::PublishMode { mode },
        ActivateStep::AdviseThreadMgrEvents,
        ActivateStep::AdviseThreadFocus,
        ActivateStep::AdviseOpenClose,
        ActivateStep::RegisterDisplayAttributes,
        ActivateStep::ApplyInitialMode,
        ActivateStep::UpdateLangbar,
        ActivateStep::PublishCurrentMode,
    ]
}

/// Activates the service for a thread. The engine is not touched: many programs
/// never type anything.
pub fn activate<M, K, S, C>(
    state: &mut TextServiceState<M, K, S, C>,
    thread_mgr: Option<M>,
    tid: u32,
    keymap: K,
    mode: ImeMode,
) -> (r: Result<Vec<ActivateStep>, NullThreadMgr>)
    ensures
        thread_mgr is None ==> r == Err::<Vec<ActivateStep>, NullThreadMgr>(NullThreadMgr)
            && *final(state) == *old(state),
        thread_mgr is Some ==> {
            &&& r is Ok
            &&& r->Ok_0@ == activation(mode)
            &&& *final(state) == (TextServiceState {
                client_id: tid,
                thread_mgr,
                keymap,
                ..*old(state)
            })
        },
{
    if thread_mgr.is_none() {
        return Err(NullThreadMgr);
    }
    state.client_id = tid;
    state.thread_mgr = thread_mgr;
    state.keymap = keymap;
    let steps = vec![
        ActivateStep::CacheThreadMgr,
        ActivateStep::AdviseKeyEvents,
        ActivateStep::AddLangbarButton,
        ActivateStep::WriteOpen { open: mode.is_on() },
        ActivateStep::PublishMode { mode },
        ActivateStep::AdviseThreadMgrEvents,
        ActivateStep::AdviseThreadFocus,
        ActivateStep::AdviseOpenClose,
        ActivateStep::RegisterDisplayAttributes,
        ActivateStep::ApplyInitialMode,
        ActivateStep::UpdateLangbar,
        ActivateStep::PublishCurrentMode,
    ];
    assert(steps@ =~= activation(mode));
    Ok(steps)
}

/// Notes a registration that succeeded.
pub fn registered<M, K, S, C>(
    state: &mut TextServiceState<M, K, S, C>,
    threadmgr: Option<u32>,
    threadfocus: Option<u32>,
    openclose: Option<(u32, C)>,
)
    ensures
        *final(state) == old(state).after_registered(threadmgr, threadfocus, openclose),
{
    if let Some(cookie) = threadmgr {
        state.threadmgr_cookie = cookie;
    }
    if let Some(cookie) = threadfocus {
        state.threadfocus_cookie = cookie;
    }
    if let Some((cookie, comp)) = openclose {
        state.openclose_cookie = cookie;
        state.openclose_comp = Some(comp);
    }
}

/// The mode of the document that has the focus when the service is activated: the
/// first change of focus may never be told. `focused_dm` is nothing where no
/// document has it.
pub fn initial_mode(
    store: &mut ModeStore,
    cfg: &InputConfig,
    current: ImeMode,
    focused_dm: Option<usize>,
    hwnd: usize,
    is_terminal: bool,
) -> (r: Option<ImeMode>)
    ensures
        match focused_dm {
            None => r is None && final(store)@ == old(store)@,
            Some(dm) => {
                &&& final(store)@ == old(store)@.after_focus_change(
                    cfg.remember_last_kana_mode,
                    current,
                    0,
                    dm,
                    hwnd,
                    crate::doc_mode::first_mode(*cfg, is_terminal),
                )
                &&& r == (if dm == 0 {
                    None
                } else if cfg.remember_last_kana_mode {
                    Some(
                        old(store)@.restored(
                            dm,
                            hwnd,
                            crate::doc_mode::first_mode(*cfg, is_terminal),
                        ),
                    )
                } else {
                    Some(crate::doc_mode::first_mode(*cfg, is_terminal))
                })
            },
        },
{
    match focused_dm {
        None => None,
        Some(dm) => doc_mode_on_focus_change(store, cfg, current, 0, dm, hwnd, is_terminal),
    }
}

/// The registrations to take back. The keys and the button always go.
#[derive(Clone, Copy, Debug, PartialEq, Eq, Structural)]
pub struct Unadvise {
    pub threadmgr: Option<u32>,
    pub threadfocus: Option<u32>,
    pub openclose: Option<u32>,
}

pub open spec fn cookie_to_take_back(cookie: u32) -> Option<u32> {
    if cookie != 0 {
        Some(cookie)
    } else {
        None
    }
}

fn take_back(cookie: u32) -> (r: Option<u32>)
    ensures
        r == cookie_to_take_back(cookie),
{
    if cookie != 0 {
        Some(cookie)
    } else {
        None
    }
}

/// Ends the service: gives the registrations to take back, nothing where it never
/// was active, and forgets the open state that was watched.
pub fn deactivate<M, K, S, C>(state: &mut TextServiceState<M, K, S, C>) -> (r: Option<Unadvise>)
    ensures
        r == old(state).to_unadvise(),
        *final(state) == old(state).after_deactivate(),
{
    let plan = if state.thread_mgr.is_some() {
        Some(
            Unadvise {
                threadmgr: take_back(state.threadmgr_cookie),
                threadfocus: take_back(state.threadfocus_cookie),
                openclose: if state.openclose_comp.is_some() {
                    take_back(state.openclose_cookie)
                } else {
                    None
                },
            },
        )
    } else {
        None
    };
    state.openclose_cookie = 0;
    state.openclose_comp = None;
    plan
}

/// Drops what was being composed when the service ends.
pub fn deactivate_session<T>(sess: &mut SessionState, slot: &mut CompositionWrapper<T>) -> (r: Vec<
    Step,
>)
    ensures
        final(sess)@ is Idle,
        final(slot).is_empty(),
        steps::step_models(r@) == seq![StepModel::Reclaim, StepModel::StopLiveTimer],
{
    let _ = composition_set(slot, None);
    sess.set_idle();
    let r = vec![Step::Reclaim, Step::StopLiveTimer];
    assert(steps::step_models(r@) =~= seq![StepModel::Reclaim, StepModel::StopLiveTimer]);
    r
}

/// Another program has the focus: nothing of ours stays on the screen.
pub fn on_kill_thread_focus() -> (r: Vec<Step>)
    ensures
        steps::step_models(r@) == seq![
            StepModel::HideCandidates,
            StepModel::StopLiveTimer,
            StepModel::StopWaitingTimer,
        ],
{
    let r = vec![Step::HideCandidates, Step::StopLiveTimer, Step::StopWaitingTimer];
    assert(steps::step_models(r@) =~= seq![
        StepModel::HideCandidates,
        StepModel::StopLiveTimer,
        StepModel::StopWaitingTimer,
    ]);
    r
}

/// Takes over changed settings and key assignments after a switch; the one does
/// not wait for the other. Tells whether the engine is to be told.
pub fn maybe_reload_runtime_config<M, K, S, C>(
    state: &mut TextServiceState<M, K, S, C>,
    config_changed: bool,
    new_keymap: Option<K>,
) -> (r: bool)
    ensures
        r == config_changed,
        *final(state) == (match new_keymap {
            Some(k) => TextServiceState { keymap: k, ..*old(state) },
            None => *old(state),
        }),
{
    if let Some(k) = new_keymap {
        state.keymap = k;
    }
    config_changed
}

/// Every registration that is noted while the service is active is taken back when
/// it ends. A registration that failed, and so was never made, is not. The one for
/// the open state is not taken back a second time.
pub proof fn registrations_are_taken_back<M, K, S, C>(
    state: TextServiceState<M, K, S, C>,
    threadmgr: u32,
    threadfocus: u32,
    openclose: u32,
    comp: C,
)
    requires
        state.thread_mgr is Some,
        threadmgr != 0,
        threadfocus != 0,
        openclose != 0,
    ensures
        state.after_registered(
            Some(threadmgr),
            Some(threadfocus),
            Some((openclose, comp)),
        ).to_unadvise() == Some(
            Unadvise {
                threadmgr: Some(threadmgr),
                threadfocus: Some(threadfocus),
                openclose: Some(openclose),
            },
        ),
        state.threadmgr_cookie == 0 ==> state.after_registered(
            None,
            Some(threadfocus),
            None,
        ).to_unadvise()->0.threadmgr is None,
        state.threadfocus_cookie == 0 ==> state.after_registered(
            Some(threadmgr),
            None,
            None,
        ).to_unadvise()->0.threadfocus is None,
        state.openclose_comp is None ==> state.after_registered(
            Some(threadmgr),
            Some(threadfocus),
            None,
        ).to_unadvise()->0.openclose is None,
        state.after_deactivate().to_unadvise()->0.openclose is None,
        state.after_deactivate().after_deactivate() == state.after_deactivate(),
{
}

/// Activation tells applications the state that is in force, never another one.
pub proof fn activation_tells_the_true_state(mode: ImeMode, i: int)
    requires
        0 <= i < activation(mode).len(),
    ensures
        activation(mode)[i] matches ActivateStep::WriteOpen { open } ==> open == mode.on(),
        activation(mode)[i] matches ActivateStep::PublishMode { mode: m } ==> m == mode,
{
}

/// A registration that was never made, which the system never numbers zero, is not
/// taken back; every other one is.
pub proof fn zero_is_no_registration(cookie: u32)
    ensures
        cookie_to_take_back(cookie) is None <==> cookie == 0,
        cookie != 0 ==> cookie_to_take_back(cookie) == Some(cookie),
{
}

/// A service that was never active has nothing to take back, and ending it changes
/// nothing but the open state that was watched.
pub proof fn ending_touches_the_open_state_alone<M, K, S, C>(state: TextServiceState<M, K, S, C>)
    ensures
        state.thread_mgr is None ==> state.to_unadvise() is None,
        state.after_deactivate().openclose_cookie == 0,
        state.after_deactivate().openclose_comp is None,
        state.after_deactivate().threadmgr_cookie == state.threadmgr_cookie,
        state.after_deactivate().threadfocus_cookie == state.threadfocus_cookie,
        state.after_deactivate().thread_mgr == state.thread_mgr,
        state.after_deactivate().keymap == state.keymap,
        state.after_deactivate().client_id == state.client_id,
{
}

/// A registration that failed leaves what was noted before.
pub proof fn failed_registrations_note_nothing<M, K, S, C>(state: TextServiceState<M, K, S, C>)
    ensures
        state.after_registered(None, None, None) == state,
{
}

/// Activation is ready for keys before anything else can use it, takes over the
/// document's mode only once it listens, and tells the mode that is then in force
/// last.
pub proof fn activation_goes_in_order(mode: ImeMode)
    ensures
        ({
            let all = activation(mode);
            &&& all.len() == 12
            &&& all.no_duplicates()
            &&& all[0] == ActivateStep::CacheThreadMgr
            &&& all[1] == ActivateStep::AdviseKeyEvents
            &&& all.contains(ActivateStep::AddLangbarButton)
            &&& all[3] == (ActivateStep::WriteOpen { open: mode.on() })
            &&& all[4] == (ActivateStep::PublishMode { mode })
            &&& all.subrange(5, 9).contains(ActivateStep::AdviseThreadMgrEvents)
            &&& all.subrange(5, 9).contains(ActivateStep::AdviseThreadFocus)
            &&& all.subrange(5, 9).contains(ActivateStep::AdviseOpenClose)
            &&& all.subrange(5, 9).contains(ActivateStep::RegisterDisplayAttributes)
            &&& all[9] == ActivateStep::ApplyInitialMode
            &&& all[10] == ActivateStep::UpdateLangbar
            &&& all.last() == ActivateStep::PublishCurrentMode
        }),
{
    let all = activation(mode);
    assert(all[2] == ActivateStep::AddLangbarButton);
    assert(all.subrange(5, 9)[0] == ActivateStep::AdviseThreadMgrEvents);
    assert(all.subrange(5, 9)[1] == ActivateStep::AdviseThreadFocus);
    assert(all.subrange(5, 9)[2] == ActivateStep::AdviseOpenClose);
    assert(all.subrange(5, 9)[3] == ActivateStep::RegisterDisplayAttributes);
}

}
