use vstd::prelude::*;
use std::collections::HashMap;
use crate::actions::{actions_paired, pair_actions};
use crate::config::Config;
use crate::history::{append_history, entry_matches, history_after, HistoryNotification};
use crate::icon::{resolve_icon, spec_resolve_icon, IconSources};
use crate::timeout::{effective_timeout_ms, spec_effective_timeout_ms};

verus! {

broadcast use
    vstd::std_specs::hash::group_hash_axioms,
    vstd::set::group_set_axioms,
    vstd::map::group_map_axioms;

/// Reason code delivered with a closure signal when a notification is
/// closed by an explicit request.
pub const CLOSE_REASON_EXPLICIT: u32 = 3;

/// Handle to the deferred removal task of a notification. The task itself
/// is owned by the runtime driving the service; the record keeps only the
/// delay it was scheduled with. The service never cancels the task: on
/// early closure or replacement it is left to fire, find the id absent,
/// and do nothing (the lazy variant of timer cancellation).
#[derive(Clone, Copy, Debug, PartialEq, Eq, Structural)]
pub struct TimerHandle {
    pub delay_ms: u64,
}

/// Live record of a currently displayed notification, exclusively owned by
/// the store once inserted.
#[derive(Clone, Debug, PartialEq, Eq)]
pub struct Notification {
    pub app_name: String,
    pub icon: String,
    pub summary: String,
    pub body: String,
    pub actions: Vec<(String, String)>,
    pub timeout_cancelled: bool,
    pub timeout_future: Option<TimerHandle>,
}

/// The error every caller-visible failure collapses to: one generic
/// operation-failed kind with a descriptive message.
#[derive(Clone, Debug, PartialEq, Eq)]
pub struct DaemonError {
    pub message: String,
}

/// Closure signal to be delivered to listeners: the closed notification's
/// id and the reason code.
#[derive(Clone, Copy, Debug, PartialEq, Eq, Structural)]
pub struct ClosedSignal {
    pub id: u32,
    pub reason: u32,
}

/// What a `notify` call decided: the id under which the record now sits,
/// and the delay of the removal task the service must spawn, if any. Every
/// `notify` additionally asks for a push of the full active set to the
/// renderer.
#[derive(Clone, Copy, Debug, PartialEq, Eq, Structural)]
pub struct NotifyOutcome {
    pub id: u32,
    pub timer_delay_ms: Option<u64>,
}

/// What a `close_notification` call decided: whether a record was removed,
/// which renderer pushes to make, and which closure signal to emit.
#[derive(Clone, Copy, Debug, PartialEq, Eq, Structural)]
pub struct CloseOutcome {
    pub removed: bool,
    pub push_update: bool,
    pub close_window: bool,
    pub signal: Option<ClosedSignal>,
}

/// What the firing of a removal timer decided. When the record was present
/// but its suppression flag was set, `removed` is true while both push
/// fields stay false: the record vanishes without a visible refresh.
#[derive(Clone, Copy, Debug, PartialEq, Eq, Structural)]
pub struct TimerFireOutcome {
    pub removed: bool,
    pub push_update: bool,
    pub close_window: bool,
}

/// What a `reply_close` call decided: whether the record's action list was
/// cleared and an active-set push is due. The reply surface itself is
/// always asked to close afterwards, whatever the record's state.
#[derive(Clone, Copy, Debug, PartialEq, Eq, Structural)]
pub struct ReplyOutcome {
    pub push_update: bool,
}

/// The service's mutable state: the monotonic id counter, the store of
/// live records keyed by id, and the bounded history log, oldest first.
pub struct NotificationDaemon {
    pub next_id: u32,
    pub notifications: HashMap<u32, Notification>,
    pub notifications_history: Vec<HistoryNotification>,
}

/// The record a request leaves in the store: its strings and paired
/// actions, the suppression flag clear, and a timer handle exactly when a
/// nonzero expiry duration was computed.
pub open spec fn record_matches(
    n: Notification,
    app_name: Seq<char>,
    icon: Seq<char>,
    summary: Seq<char>,
    body: Seq<char>,
    actions: Seq<String>,
    ms: int,
) -> bool {
    &&& n.app_name@ == app_name
    &&& n.icon@ == icon
    &&& n.summary@ == summary
    &&& n.body@ == body
    &&& actions_paired(n.actions@, actions)
    &&& n.timeout_cancelled == false
    &&& n.timeout_future == if ms != 0 {
        Some(TimerHandle { delay_ms: ms as u64 })
    } else {
        None::<TimerHandle>
    }
}

/// The failure reported when the configuration cannot be acquired without
/// blocking.
fn config_lock_error() -> (e: DaemonError)
    ensures
        e.message@ == "Failed to lock config"@,
{
    DaemonError { message: "Failed to lock config".to_owned() }
}

impl NotificationDaemon {
    /// Well-formedness of the service state: id 0 is reserved, so the
    /// store never files a record under it. Every operation preserves
    /// this.
    pub open spec fn wf(self) -> bool {
        !self.notifications@.contains_key(0)
    }

    /// A fresh service: counter at its start (the first issued id is 1),
    /// empty store, empty history.
    pub fn new() -> (d: NotificationDaemon)
        ensures
            d.next_id == 0,
            d.notifications@ == Map::<u32, Notification>::empty(),
            d.notifications_history@ == Seq::<HistoryNotification>::empty(),
            d.wf(),
    {
        NotificationDaemon {
            next_id: 0,
            notifications: HashMap::new(),
            notifications_history: Vec::new(),
        }
    }

    /// Resolve the id a request is filed under: a nonzero `replaces_id` is
    /// reused as it stands, otherwise the counter advances and its new
    /// value is issued. Id 0 is never issued.
    pub fn allocate(&mut self, replaces_id: u32) -> (id: u32)
        requires
            replaces_id == 0 ==> old(self).next_id < u32::MAX,
        ensures
            id == if replaces_id != 0 {
                replaces_id
            } else {
                (old(self).next_id + 1) as u32
            },
            id != 0,
            final(self).next_id == if replaces_id != 0 {
                old(self).next_id
            } else {
                id
            },
            final(self).notifications == old(self).notifications,
            final(self).notifications_history == old(self).notifications_history,
    {
        if replaces_id != 0 {
            replaces_id
        } else {
            self.next_id = self.next_id + 1;
            self.next_id
        }
    }

    /// Handle an incoming notification request: resolve the id and the
    /// icon, compute the effective expiry duration, fold the flat action
    /// list into pairs, append a history entry (evicting the oldest when
    /// the log would exceed the cap), and insert or overwrite the record
    /// in the store. A replaced record is overwritten wholesale and the
    /// store keeps its size; its abandoned timer is left to fire and find
    /// nothing. The outcome carries the issued id and the delay of the
    /// removal task to spawn, none when the effective duration is zero;
    /// the caller must also push the full active set to the renderer.
    pub fn notify(
        &mut self,
        app_name: &str,
        replaces_id: u32,
        app_icon: &str,
        summary: &str,
        body: &str,
        actions: Vec<String>,
        icon_sources: IconSources,
        urgency: Option<u8>,
        expire_timeout: i32,
        config: &Config,
    ) -> (out: NotifyOutcome)
        requires
            replaces_id == 0 ==> old(self).next_id < u32::MAX,
        ensures
            out.id == if replaces_id != 0 {
                replaces_id
            } else {
                (old(self).next_id + 1) as u32
            },
            out.id != 0,
            final(self).next_id == if replaces_id != 0 {
                old(self).next_id
            } else {
                out.id
            },
            final(self).notifications@.dom() == old(self).notifications@.dom().insert(out.id),
            record_matches(
                final(self).notifications@[out.id],
                app_name@,
                spec_resolve_icon(icon_sources, app_name@, app_icon@),
                summary@,
                body@,
                actions@,
                spec_effective_timeout_ms(expire_timeout, urgency, config.timeout),
            ),
            forall|k: u32|
                #![trigger final(self).notifications@[k]]
                old(self).notifications@.contains_key(k) && k != out.id ==> final(self).notifications@[k] == old(self).notifications@[k],
            old(self).notifications@.contains_key(out.id) ==> final(self).notifications@.len()
                == old(self).notifications@.len(),
            !old(self).notifications@.contains_key(out.id) ==> final(self).notifications@.len()
                == old(self).notifications@.len() + 1,
            out.timer_delay_ms == if spec_effective_timeout_ms(expire_timeout, urgency, config.timeout) != 0 {
                Some(spec_effective_timeout_ms(expire_timeout, urgency, config.timeout) as u64)
            } else {
                None::<u64>
            },
            expire_timeout == 0 ==> out.timer_delay_ms is None,
            exists|e: HistoryNotification|
                #![auto]
                entry_matches(
                    e,
                    app_name@,
                    spec_resolve_icon(icon_sources, app_name@, app_icon@),
                    summary@,
                    body@,
                ) && final(self).notifications_history@ == history_after(
                    old(self).notifications_history@,
                    e,
                    config.max_notifications,
                ),
            old(self).notifications_history@.len() <= config.max_notifications ==> final(self).notifications_history@.len() <= config.max_notifications,
            old(self).wf() ==> final(self).wf(),
    {
        let id = self.allocate(replaces_id);
        let icon = resolve_icon(&icon_sources, app_name, app_icon);
        let ms = effective_timeout_ms(expire_timeout, urgency, &config.timeout);
        let pairs = pair_actions(&actions);
        let entry = HistoryNotification {
            app_name: app_name.to_owned(),
            icon: icon.clone(),
            summary: summary.to_owned(),
            body: body.to_owned(),
        };
        let ghost entry_snapshot = entry;
        append_history(&mut self.notifications_history, entry, config.max_notifications);
        proof {
            if old(self).notifications_history@.len() <= config.max_notifications {
                crate::history::lemma_history_cap_preserved(
                    old(self).notifications_history@,
                    entry_snapshot,
                    config.max_notifications,
                );
            }
        }
        let timer_delay: Option<u64> = if ms != 0 {
            Some(ms)
        } else {
            None
        };
        let record = Notification {
            app_name: app_name.to_owned(),
            icon,
            summary: summary.to_owned(),
            body: body.to_owned(),
            actions: pairs,
            timeout_cancelled: false,
            timeout_future: if ms != 0 {
                Some(TimerHandle { delay_ms: ms })
            } else {
                None
            },
        };
        self.notifications.insert(id, record);
        proof {
            assert(entry_matches(
                entry_snapshot,
                app_name@,
                spec_resolve_icon(icon_sources, app_name@, app_icon@),
                summary@,
                body@,
            ) && self.notifications_history@ == history_after(
                old(self).notifications_history@,
                entry_snapshot,
                config.max_notifications,
            ));
        }
        NotifyOutcome { id, timer_delay_ms: timer_delay }
    }

    /// Set the suppression flag of a record, so that its pending removal
    /// timer, when it fires, removes the record without any visible
    /// refresh. The timer itself is not stopped. Absent ids are ignored;
    /// the call always succeeds.
    pub fn disable_timeout(&mut self, id: u32) -> (r: Result<(), DaemonError>)
        ensures
            r == Ok::<(), DaemonError>(()),
            final(self).next_id == old(self).next_id,
            final(self).notifications_history == old(self).notifications_history,
            !old(self).notifications@.contains_key(id) ==> final(self).notifications@ == old(self).notifications@,
            old(self).notifications@.contains_key(id) ==> final(self).notifications@ == old(self).notifications@.insert(
                id,
                (Notification { timeout_cancelled: true, ..old(self).notifications@[id] }),
            ),
            old(self).wf() ==> final(self).wf(),
    {
        match self.notifications.remove(&id) {
            None => {
                proof {
                    assert(self.notifications@ =~= old(self).notifications@);
                }
                Ok(())
            },
            Some(mut notif) => {
                notif.timeout_cancelled = true;
                self.notifications.insert(id, notif);
                proof {
                    assert(self.notifications@ =~= old(self).notifications@.insert(
                        id,
                        (Notification { timeout_cancelled: true, ..old(self).notifications@[id] }),
                    ));
                }
                Ok(())
            },
        }
    }

    /// Remove a record on explicit request. An absent id is a no-op with
    /// no signal. When the record is present but the configuration cannot
    /// be acquired without blocking, the record is nonetheless gone and
    /// the call fails with no pushes and no signal. Otherwise the active
    /// set is pushed, the window is closed when the set emptied, and a
    /// closure signal with the explicit-close reason is due.
    pub fn close_notification(&mut self, id: u32, config_available: bool) -> (r: Result<
        CloseOutcome,
        DaemonError,
    >)
        ensures
            final(self).next_id == old(self).next_id,
            final(self).notifications_history == old(self).notifications_history,
            !old(self).notifications@.contains_key(id) ==> {
                &&& final(self).notifications@ == old(self).notifications@
                &&& r == Ok::<CloseOutcome, DaemonError>(
                    (CloseOutcome {
                        removed: false,
                        push_update: false,
                        close_window: false,
                        signal: None,
                    }),
                )
            },
            old(self).notifications@.contains_key(id) ==> final(self).notifications@ == old(self).notifications@.remove(id),
            old(self).notifications@.contains_key(id) && !config_available ==> (r matches Err(e)
                && e.message@ == "Failed to lock config"@),
            old(self).notifications@.contains_key(id) && config_available ==> r == Ok::<
                CloseOutcome,
                DaemonError,
            >(
                (CloseOutcome {
                    removed: true,
                    push_update: true,
                    close_window: old(self).notifications@.remove(id).len() == 0,
                    signal: Some(ClosedSignal { id, reason: CLOSE_REASON_EXPLICIT }),
                }),
            ),
            old(self).wf() ==> final(self).wf(),
    {
        match self.notifications.remove(&id) {
            None => {
                proof {
                    assert(self.notifications@ =~= old(self).notifications@);
                }
                Ok(
                    CloseOutcome {
                        removed: false,
                        push_update: false,
                        close_window: false,
                        signal: None,
                    },
                )
            },
            Some(_) => {
                if !config_available {
                    Err(config_lock_error())
                } else {
                    let now_empty = self.notifications.len() == 0;
                    Ok(
                        CloseOutcome {
                            removed: true,
                            push_update: true,
                            close_window: now_empty,
                            signal: Some(ClosedSignal { id, reason: CLOSE_REASON_EXPLICIT }),
                        },
                    )
                }
            },
        }
    }

    /// Handle the firing of a removal timer. Lookup-and-remove is
    /// unconditional: a present record is removed whether or not its
    /// suppression flag is set. The renderer push, and the close directive
    /// when the set emptied, happen only when the configuration could be
    /// acquired without blocking and the flag was clear; a suppressed
    /// record silently vanishes. A fired timer whose id is gone is a
    /// no-op.
    pub fn timer_fired(&mut self, id: u32, config_available: bool) -> (out: TimerFireOutcome)
        ensures
            final(self).next_id == old(self).next_id,
            final(self).notifications_history == old(self).notifications_history,
            !old(self).notifications@.contains_key(id) ==> final(self).notifications@ == old(self).notifications@,
            old(self).notifications@.contains_key(id) ==> final(self).notifications@ == old(self).notifications@.remove(id),
            out.removed == old(self).notifications@.contains_key(id),
            out.push_update == (old(self).notifications@.contains_key(id) && config_available
                && !old(self).notifications@[id].timeout_cancelled),
            out.close_window == (out.push_update && final(self).notifications@.len() == 0),
            old(self).wf() ==> final(self).wf(),
    {
        match self.notifications.remove(&id) {
            None => {
                proof {
                    assert(self.notifications@ =~= old(self).notifications@);
                }
                TimerFireOutcome { removed: false, push_update: false, close_window: false }
            },
            Some(notif) => {
                if config_available && !notif.timeout_cancelled {
                    let now_empty = self.notifications.len() == 0;
                    TimerFireOutcome { removed: true, push_update: true, close_window: now_empty }
                } else {
                    TimerFireOutcome { removed: true, push_update: false, close_window: false }
                }
            },
        }
    }

    /// Clear the action list of a record so that its reply controls
    /// disappear, and push the active set; the record itself stays. The
    /// configuration is acquired first: on contention the call fails
    /// before any mutation. The reply surface is asked to close in every
    /// successful case, present record or not.
    pub fn reply_close(&mut self, id: u32, config_available: bool) -> (r: Result<
        ReplyOutcome,
        DaemonError,
    >)
        ensures
            final(self).next_id == old(self).next_id,
            final(self).notifications_history == old(self).notifications_history,
            !config_available ==> {
                &&& final(self).notifications == old(self).notifications
                &&& (r matches Err(e) && e.message@ == "Failed to lock config"@)
            },
            config_available && !old(self).notifications@.contains_key(id) ==> {
                &&& final(self).notifications@ == old(self).notifications@
                &&& r == Ok::<ReplyOutcome, DaemonError>((ReplyOutcome { push_update: false }))
            },
            config_available && old(self).notifications@.contains_key(id) ==> {
                &&& final(self).notifications@.dom() == old(self).notifications@.dom()
                &&& final(self).notifications@[id].actions@ == Seq::<(String, String)>::empty()
                &&& final(self).notifications@[id].app_name == old(self).notifications@[id].app_name
                &&& final(self).notifications@[id].icon == old(self).notifications@[id].icon
                &&& final(self).notifications@[id].summary == old(self).notifications@[id].summary
                &&& final(self).notifications@[id].body == old(self).notifications@[id].body
                &&& final(self).notifications@[id].timeout_cancelled == old(self).notifications@[id].timeout_cancelled
                &&& final(self).notifications@[id].timeout_future == old(self).notifications@[id].timeout_future
                &&& forall|k: u32|
                    #![trigger final(self).notifications@[k]]
                    old(self).notifications@.contains_key(k) && k != id ==> final(self).notifications@[k] == old(self).notifications@[k]
                &&& r == Ok::<ReplyOutcome, DaemonError>((ReplyOutcome { push_update: true }))
            },
            old(self).wf() ==> final(self).wf(),
    {
        if !config_available {
            return Err(config_lock_error());
        }
        match self.notifications.remove(&id) {
            None => {
                proof {
                    assert(self.notifications@ =~= old(self).notifications@);
                }
                Ok(ReplyOutcome { push_update: false })
            },
            Some(mut notif) => {
                notif.actions = Vec::new();
                self.notifications.insert(id, notif);
                proof {
                    assert(self.notifications@.dom() =~= old(self).notifications@.dom());
                }
                Ok(ReplyOutcome { push_update: true })
            },
        }
    }

    /// The constant capability set of the service.
    pub fn get_capabilities(&self) -> (caps: Vec<String>)
        ensures
            caps@.len() == 2,
            caps@[0]@ == "body"@,
            caps@[1]@ == "actions"@,
    {
        let mut caps: Vec<String> = Vec::new();
        caps.push("body".to_owned());
        caps.push("actions".to_owned());
        caps
    }

    /// The constant server-information tuple: name, vendor, version and
    /// spec version.
    pub fn get_server_information(&self) -> (r: Result<
        (String, String, String, String),
        DaemonError,
    >)
        ensures
            (r matches Ok(info) && {
                &&& info.0@ == "NotificationDaemon"@
                &&& info.1@ == "1.0"@
                &&& info.2@ == "end-rs"@
                &&& info.3@ == "1.0"@
            }),
    {
        Ok(
            (
                "NotificationDaemon".to_owned(),
                "1.0".to_owned(),
                "end-rs".to_owned(),
                "1.0".to_owned(),
            ),
        )
    }

    /// Ask for the history surface to be shown with the current history
    /// snapshot. No notification state changes; the call fails exactly
    /// when the configuration cannot be acquired without blocking.
    pub fn open_history(&self, config_available: bool) -> (r: Result<(), DaemonError>)
        ensures
            config_available ==> r == Ok::<(), DaemonError>(()),
            !config_available ==> (r matches Err(e) && e.message@ == "Failed to lock config"@),
    {
        if config_available {
            Ok(())
        } else {
            Err(config_lock_error())
        }
    }

    /// Ask for the history surface to be hidden. No notification state
    /// changes; the call fails exactly when the configuration cannot be
    /// acquired without blocking.
    pub fn close_history(&self, config_available: bool) -> (r: Result<(), DaemonError>)
        ensures
            config_available ==> r == Ok::<(), DaemonError>(()),
            !config_available ==> (r matches Err(e) && e.message@ == "Failed to lock config"@),
    {
        if config_available {
            Ok(())
        } else {
            Err(config_lock_error())
        }
    }

    /// Ask for the history surface to be toggled with the current history
    /// snapshot. No notification state changes; the call fails exactly
    /// when the configuration cannot be acquired without blocking.
    pub fn toggle_history(&self, config_available: bool) -> (r: Result<(), DaemonError>)
        ensures
            config_available ==> r == Ok::<(), DaemonError>(()),
            !config_available ==> (r matches Err(e) && e.message@ == "Failed to lock config"@),
    {
        if config_available {
            Ok(())
        } else {
            Err(config_lock_error())
        }
    }
}

/// One step of fresh id allocation: from counter value `next0` the
/// service issues `id` and leaves the counter at `next1`. This is exactly
/// what `allocate` (and so `notify`) ensures for a request whose replace
/// id is 0.
pub open spec fn fresh_alloc_step(next0: u32, next1: u32, id: u32) -> bool {
    id == next0 + 1 && next1 == id
}

proof fn lemma_fresh_counter_advances(nexts: Seq<u32>, ids: Seq<u32>, i: int, j: int)
    requires
        nexts.len() == ids.len() + 1,
        forall|k: int|
            #![trigger ids[k]]
            0 <= k < ids.len() ==> fresh_alloc_step(nexts[k], nexts[k + 1], ids[k]),
        0 <= i <= j <= ids.len(),
    ensures
        nexts[j] == nexts[i] + (j - i),
    decreases j - i,
{
    if i < j {
        lemma_fresh_counter_advances(nexts, ids, i, j - 1);
        assert(fresh_alloc_step(nexts[j - 1], nexts[j], ids[j - 1]));
    }
}

/// Law: over any run of requests that all ask for a fresh id, the issued
/// ids are strictly increasing, and so pairwise distinct. `nexts` are the
/// successive values of the id counter and `ids` the issued ids; each
/// step is what `allocate` ensures when `replaces_id` is 0.
pub proof fn lemma_fresh_ids_strictly_increasing(nexts: Seq<u32>, ids: Seq<u32>)
    requires
        nexts.len() == ids.len() + 1,
        forall|k: int|
            #![trigger ids[k]]
            0 <= k < ids.len() ==> fresh_alloc_step(nexts[k], nexts[k + 1], ids[k]),
    ensures
        forall|i: int, j: int| 0 <= i < j < ids.len() ==> ids[i] < ids[j],
{
    assert forall|i: int, j: int| 0 <= i < j < ids.len() implies ids[i] < ids[j] by {
        lemma_fresh_counter_advances(nexts, ids, i + 1, j);
        assert(fresh_alloc_step(nexts[i], nexts[i + 1], ids[i]));
        assert(fresh_alloc_step(nexts[j], nexts[j + 1], ids[j]));
    };
}

} // verus!
