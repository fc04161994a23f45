use notifd::config::{Config, TimeoutConfig};
use notifd::daemon::{ClosedSignal, NotificationDaemon, CLOSE_REASON_EXPLICIT};
use notifd::icon::IconSources;

fn config(cap: u32) -> Config {
    Config { timeout: TimeoutConfig { low: 2, normal: 5, critical: 30 }, max_notifications: cap }
}

fn no_sources() -> IconSources {
    IconSources { inline_image: None, inline_image_alt: None, theme_icon: None }
}

fn send(
    d: &mut NotificationDaemon,
    app: &str,
    replaces: u32,
    summary: &str,
    timeout: i32,
    urgency: Option<u8>,
    cfg: &Config,
) -> notifd::daemon::NotifyOutcome {
    d.notify(app, replaces, "", summary, "body", Vec::new(), no_sources(), urgency, timeout, cfg)
}

#[test]
fn fresh_ids_are_strictly_increasing() {
    let mut d = NotificationDaemon::new();
    let cfg = config(10);
    let a = send(&mut d, "app", 0, "one", 0, None, &cfg).id;
    let b = send(&mut d, "app", 0, "two", 0, None, &cfg).id;
    let c = send(&mut d, "app", 0, "three", 0, None, &cfg).id;
    assert!(a < b && b < c);
    assert!(a != b && b != c && a != c);
    assert_eq!((a, b, c), (1, 2, 3));
}

#[test]
fn sequential_notifies_give_ids_one_two_and_history_two() {
    let mut d = NotificationDaemon::new();
    let cfg = config(10);
    let first = send(&mut d, "app", 0, "one", 0, None, &cfg);
    let second = send(&mut d, "app", 0, "two", 0, None, &cfg);
    assert_eq!(first.id, 1);
    assert_eq!(second.id, 2);
    assert_eq!(d.notifications_history.len(), 2);
}

#[test]
fn notify_default_urgency_schedules_normal_timeout() {
    let mut d = NotificationDaemon::new();
    let cfg = config(10);
    let out = d.notify(
        "mail",
        0,
        "",
        "New mail",
        "You have mail",
        Vec::new(),
        no_sources(),
        None,
        -1,
        &cfg,
    );
    assert_eq!(out.timer_delay_ms, Some(5000));
    assert_eq!(d.notifications.len(), 1);
}

#[test]
fn zero_timeout_schedules_no_removal() {
    let mut d = NotificationDaemon::new();
    let cfg = config(10);
    let out = send(&mut d, "app", 0, "sticky", 0, Some(2), &cfg);
    assert_eq!(out.timer_delay_ms, None);
    assert!(d.notifications.get(&out.id).unwrap().timeout_future.is_none());
}

#[test]
fn positive_timeout_schedules_literal_milliseconds() {
    let mut d = NotificationDaemon::new();
    let cfg = config(10);
    let out = send(&mut d, "app", 0, "brief", 1500, Some(0), &cfg);
    assert_eq!(out.timer_delay_ms, Some(1500));
    assert_eq!(d.notifications.get(&out.id).unwrap().timeout_future.unwrap().delay_ms, 1500);
}

#[test]
fn replace_reuses_id_and_keeps_store_size() {
    let mut d = NotificationDaemon::new();
    let cfg = config(10);
    let first = send(&mut d, "app", 0, "original", 0, None, &cfg);
    let replaced = send(&mut d, "app", first.id, "replacement", 0, None, &cfg);
    assert_eq!(replaced.id, first.id);
    assert_eq!(d.notifications.len(), 1);
    assert_eq!(d.notifications.get(&first.id).unwrap().summary, "replacement");
    assert_eq!(d.notifications_history.len(), 2);
    assert_eq!(d.notifications_history[0].summary, "original");
    assert_eq!(d.notifications_history[1].summary, "replacement");
}

#[test]
fn replacement_does_not_advance_counter() {
    let mut d = NotificationDaemon::new();
    let cfg = config(10);
    let first = send(&mut d, "app", 0, "one", 0, None, &cfg);
    send(&mut d, "app", first.id, "again", 0, None, &cfg);
    let next = send(&mut d, "app", 0, "two", 0, None, &cfg);
    assert_eq!(next.id, 2);
}

#[test]
fn history_never_exceeds_cap_and_evicts_oldest() {
    let mut d = NotificationDaemon::new();
    let cfg = config(2);
    send(&mut d, "app", 0, "one", 0, None, &cfg);
    send(&mut d, "app", 0, "two", 0, None, &cfg);
    assert_eq!(d.notifications_history.len(), 2);
    send(&mut d, "app", 0, "three", 0, None, &cfg);
    assert_eq!(d.notifications_history.len(), 2);
    assert_eq!(d.notifications_history[0].summary, "two");
    assert_eq!(d.notifications_history[1].summary, "three");
}

#[test]
fn close_absent_id_is_noop_with_no_signal() {
    let mut d = NotificationDaemon::new();
    let cfg = config(10);
    send(&mut d, "app", 0, "one", 0, None, &cfg);
    let out = d.close_notification(99, true).unwrap();
    assert!(!out.removed);
    assert!(!out.push_update);
    assert!(!out.close_window);
    assert_eq!(out.signal, None);
    assert_eq!(d.notifications.len(), 1);
}

#[test]
fn close_present_id_emits_signal_reason_three() {
    let mut d = NotificationDaemon::new();
    let cfg = config(10);
    let out = send(&mut d, "app", 0, "one", 0, None, &cfg);
    let closed = d.close_notification(out.id, true).unwrap();
    assert!(closed.removed);
    assert!(closed.push_update);
    assert!(closed.close_window);
    assert_eq!(closed.signal, Some(ClosedSignal { id: out.id, reason: CLOSE_REASON_EXPLICIT }));
    assert!(d.notifications.is_empty());
}

#[test]
fn close_keeps_window_open_while_others_remain() {
    let mut d = NotificationDaemon::new();
    let cfg = config(10);
    let first = send(&mut d, "app", 0, "one", 0, None, &cfg);
    send(&mut d, "app", 0, "two", 0, None, &cfg);
    let closed = d.close_notification(first.id, true).unwrap();
    assert!(closed.removed && closed.push_update);
    assert!(!closed.close_window);
    assert_eq!(d.notifications.len(), 1);
}

#[test]
fn close_under_config_contention_fails_after_removal() {
    let mut d = NotificationDaemon::new();
    let cfg = config(10);
    let out = send(&mut d, "app", 0, "one", 0, None, &cfg);
    let r = d.close_notification(out.id, false);
    assert!(r.is_err());
    assert_eq!(r.unwrap_err().message, "Failed to lock config");
    assert!(d.notifications.is_empty());
}

#[test]
fn timer_fire_removes_and_pushes_update() {
    let mut d = NotificationDaemon::new();
    let cfg = config(10);
    let out = send(&mut d, "app", 0, "one", 5000, None, &cfg);
    let fired = d.timer_fired(out.id, true);
    assert!(fired.removed);
    assert!(fired.push_update);
    assert!(fired.close_window);
    assert!(d.notifications.is_empty());
}

#[test]
fn timer_fire_on_absent_id_is_noop() {
    let mut d = NotificationDaemon::new();
    let fired = d.timer_fired(42, true);
    assert!(!fired.removed);
    assert!(!fired.push_update);
    assert!(!fired.close_window);
}

#[test]
fn disabled_timeout_makes_removal_silent() {
    let mut d = NotificationDaemon::new();
    let cfg = config(10);
    let out = send(&mut d, "app", 0, "one", 5000, None, &cfg);
    d.disable_timeout(out.id).unwrap();
    assert!(d.notifications.get(&out.id).unwrap().timeout_cancelled);
    let fired = d.timer_fired(out.id, true);
    assert!(fired.removed);
    assert!(!fired.push_update);
    assert!(!fired.close_window);
    assert!(d.notifications.is_empty());
}

#[test]
fn disable_timeout_on_absent_id_still_succeeds() {
    let mut d = NotificationDaemon::new();
    assert!(d.disable_timeout(7).is_ok());
    assert!(d.notifications.is_empty());
}

#[test]
fn timer_fire_under_config_contention_still_removes() {
    let mut d = NotificationDaemon::new();
    let cfg = config(10);
    let out = send(&mut d, "app", 0, "one", 5000, None, &cfg);
    let fired = d.timer_fired(out.id, false);
    assert!(fired.removed);
    assert!(!fired.push_update);
    assert!(d.notifications.is_empty());
}

#[test]
fn reply_close_clears_actions_and_keeps_record() {
    let mut d = NotificationDaemon::new();
    let cfg = config(10);
    let actions = vec!["default".to_string(), "Open".to_string()];
    let out = d.notify(
        "app",
        0,
        "",
        "one",
        "body",
        actions,
        no_sources(),
        None,
        0,
        &cfg,
    );
    assert_eq!(d.notifications.get(&out.id).unwrap().actions.len(), 1);
    let reply = d.reply_close(out.id, true).unwrap();
    assert!(reply.push_update);
    assert!(d.notifications.get(&out.id).unwrap().actions.is_empty());
    assert_eq!(d.notifications.len(), 1);
}

#[test]
fn reply_close_under_contention_fails_before_mutation() {
    let mut d = NotificationDaemon::new();
    let cfg = config(10);
    let actions = vec!["default".to_string(), "Open".to_string()];
    let out = d.notify(
        "app",
        0,
        "",
        "one",
        "body",
        actions,
        no_sources(),
        None,
        0,
        &cfg,
    );
    let r = d.reply_close(out.id, false);
    assert!(r.is_err());
    assert_eq!(d.notifications.get(&out.id).unwrap().actions.len(), 1);
}

#[test]
fn reply_close_on_absent_id_pushes_nothing() {
    let mut d = NotificationDaemon::new();
    let reply = d.reply_close(9, true).unwrap();
    assert!(!reply.push_update);
}

#[test]
fn capabilities_are_body_and_actions() {
    let d = NotificationDaemon::new();
    assert_eq!(d.get_capabilities(), vec!["body".to_string(), "actions".to_string()]);
}

#[test]
fn server_information_is_constant() {
    let d = NotificationDaemon::new();
    let info = d.get_server_information().unwrap();
    assert_eq!(info.0, "NotificationDaemon");
    assert_eq!(info.1, "1.0");
    assert_eq!(info.2, "end-rs");
    assert_eq!(info.3, "1.0");
}

#[test]
fn history_surface_calls_fail_only_on_contention() {
    let d = NotificationDaemon::new();
    assert!(d.open_history(true).is_ok());
    assert!(d.close_history(true).is_ok());
    assert!(d.toggle_history(true).is_ok());
    assert_eq!(d.open_history(false).unwrap_err().message, "Failed to lock config");
    assert_eq!(d.close_history(false).unwrap_err().message, "Failed to lock config");
    assert_eq!(d.toggle_history(false).unwrap_err().message, "Failed to lock config");
}

#[test]
fn history_surface_calls_mutate_nothing() {
    let mut d = NotificationDaemon::new();
    let cfg = config(10);
    send(&mut d, "app", 0, "one", 0, None, &cfg);
    d.open_history(true).unwrap();
    d.toggle_history(true).unwrap();
    d.close_history(true).unwrap();
    assert_eq!(d.notifications.len(), 1);
    assert_eq!(d.notifications_history.len(), 1);
}

#[test]
fn notify_records_resolved_icon_in_history() {
    let mut d = NotificationDaemon::new();
    let cfg = config(10);
    let sources = IconSources {
        inline_image: Some("/tmp/inline.png".to_string()),
        inline_image_alt: None,
        theme_icon: None,
    };
    let out = d.notify(
        "mail",
        0,
        "mail-icon",
        "s",
        "b",
        Vec::new(),
        sources,
        None,
        0,
        &cfg,
    );
    assert_eq!(d.notifications.get(&out.id).unwrap().icon, "/tmp/inline.png");
    assert_eq!(d.notifications_history[0].icon, "/tmp/inline.png");
}
