use compactor_gui::gui::{
    apply_reset, apply_save, message_dispatch, route, GuiWrapper, LocalAction, RoutingOutcome,
    SaveOutcome,
};
use compactor_gui::lifecycle::LifecycleFlag;
use compactor_gui::mailbox::{DequeueResult, EnqueueResult, Mailbox, MAILBOX_CAPACITY};
use compactor_gui::protocol::{GuiRequest, GuiResponse};
use compactor_gui::query::QuerySlot;
use compactor_gui::settings::{join_excludes, split_excludes, ConfigSnapshot, ConfigStore};

fn snapshot(decimal: bool, compression: &str, excludes: &[&str]) -> ConfigSnapshot {
    ConfigSnapshot {
        decimal,
        compression: String::from(compression),
        excludes: excludes.iter().map(|e| String::from(*e)).collect(),
    }
}

#[test]
fn mailbox_is_fifo() {
    let mut m = Mailbox::new();
    assert_eq!(m.enqueue(GuiRequest::Compress), EnqueueResult::Accepted);
    assert_eq!(m.enqueue(GuiRequest::Pause), EnqueueResult::Accepted);
    assert_eq!(m.enqueue(GuiRequest::Stop), EnqueueResult::Accepted);
    assert_eq!(m.dequeue(), DequeueResult::Ready(GuiRequest::Compress));
    assert_eq!(m.dequeue(), DequeueResult::Ready(GuiRequest::Pause));
    assert_eq!(m.dequeue(), DequeueResult::Ready(GuiRequest::Stop));
    assert_eq!(m.dequeue(), DequeueResult::MustWait);
}

#[test]
fn mailbox_capacity_backpressure() {
    let mut m = Mailbox::new();
    assert_eq!(m.enqueue(GuiRequest::Pause), EnqueueResult::Accepted);
    for _ in 0..(MAILBOX_CAPACITY - 2) {
        assert_eq!(m.enqueue(GuiRequest::Analyse), EnqueueResult::Accepted);
    }
    assert_eq!(m.len(), MAILBOX_CAPACITY - 1);
    // with one slot free the producer is not held up
    assert_eq!(m.enqueue(GuiRequest::Compress), EnqueueResult::Accepted);
    assert_eq!(m.len(), MAILBOX_CAPACITY);
    // at capacity the producer must wait; nothing is dropped or reordered
    assert_eq!(m.enqueue(GuiRequest::Stop), EnqueueResult::MustWait);
    assert_eq!(m.len(), MAILBOX_CAPACITY);
    // one drain makes room again
    assert_eq!(m.dequeue(), DequeueResult::Ready(GuiRequest::Pause));
    assert_eq!(m.enqueue(GuiRequest::Stop), EnqueueResult::Accepted);
    for _ in 0..(MAILBOX_CAPACITY - 2) {
        assert_eq!(m.dequeue(), DequeueResult::Ready(GuiRequest::Analyse));
    }
    assert_eq!(m.dequeue(), DequeueResult::Ready(GuiRequest::Compress));
    assert_eq!(m.dequeue(), DequeueResult::Ready(GuiRequest::Stop));
}

#[test]
fn mailbox_close_signals_shutdown() {
    let mut m = Mailbox::new();
    assert_eq!(m.enqueue(GuiRequest::Quit), EnqueueResult::Accepted);
    m.close();
    assert_eq!(m.enqueue(GuiRequest::Pause), EnqueueResult::Closed);
    // what was pending is still handed out, then the consumer sees Closed
    assert_eq!(m.dequeue(), DequeueResult::Ready(GuiRequest::Quit));
    assert_eq!(m.dequeue(), DequeueResult::Closed);
    assert_eq!(m.dequeue(), DequeueResult::Closed);
}

#[test]
fn slot_delivers_exactly_once() {
    let mut s = QuerySlot::new();
    s.put(Some(String::from("D:\\photos")));
    assert_eq!(s.take(), Some(String::from("D:\\photos")));
}

#[test]
fn slot_cancel_is_a_valid_answer() {
    // user cancels the picker: the receiver yields "none", and no Folder
    // notification follows by itself
    let store = ConfigStore::new(snapshot(false, "lzx", &[]));
    let mut ui = GuiWrapper::new(String::from("d"), String::from("v"), store.current());
    ui.drain();
    assert_eq!(
        route("{\"type\":\"ChooseFolder\"}"),
        RoutingOutcome::Forwarded(GuiRequest::ChooseFolder)
    );
    let mut s = ui.choose_folder();
    s.put(None);
    assert_eq!(s.take(), None);
    assert_eq!(ui.drain(), Vec::<String>::new());
}

#[test]
fn two_slots_deliver_independently() {
    let mut a = QuerySlot::new();
    let mut b = QuerySlot::new();
    a.put(Some(String::from("/one")));
    b.put(None);
    assert_eq!(a.take(), Some(String::from("/one")));
    assert_eq!(b.take(), None);
}

#[test]
fn lifecycle_stop_is_terminal() {
    let mut f = LifecycleFlag::new();
    assert!(f.should_pump());
    f.request_stop();
    assert!(!f.should_pump());
    f.request_stop();
    assert!(!f.should_pump());
}

#[test]
fn route_classifies_commands() {
    assert_eq!(
        route("{\"type\":\"OpenUrl\",\"url\":\"https://example.com\"}"),
        RoutingOutcome::HandledLocally(LocalAction::OpenLink {
            url: String::from("https://example.com")
        })
    );
    assert_eq!(
        route("{\"type\":\"ResetConfig\"}"),
        RoutingOutcome::HandledLocally(LocalAction::Reset)
    );
    assert_eq!(
        route("{\"type\":\"Compress\"}"),
        RoutingOutcome::Forwarded(GuiRequest::Compress)
    );
    assert_eq!(
        route("{\"type\":\"Decompress\"}"),
        RoutingOutcome::Forwarded(GuiRequest::Decompress)
    );
    assert_eq!(route("{\"type\":\"Quit\"}"), RoutingOutcome::Forwarded(GuiRequest::Quit));
}

#[test]
fn route_builds_save_snapshot_from_payload() {
    let r = route(
        "{\"type\":\"SaveConfig\",\"decimal\":true,\"compression\":\"xpress4k\",\"excludes\":\"*.jpg\\n*.png\"}",
    );
    assert_eq!(
        r,
        RoutingOutcome::HandledLocally(LocalAction::Save {
            snapshot: snapshot(true, "xpress4k", &["*.jpg", "*.png"])
        })
    );
}

#[test]
fn route_drops_malformed_messages() {
    assert_eq!(route(""), RoutingOutcome::ParseFailed);
    assert_eq!(route("not json"), RoutingOutcome::ParseFailed);
    assert_eq!(route("{\"type\":\"Unknown\"}"), RoutingOutcome::ParseFailed);
    assert_eq!(route("{\"type\":\"SaveConfig\"}"), RoutingOutcome::ParseFailed);
}

#[test]
fn new_bridge_emits_version_then_config() {
    let store = ConfigStore::new(snapshot(true, "lzx", &["*.a", "*.b"]));
    let mut ui = GuiWrapper::new(String::from("2020-01-02"), String::from("1.0-ab"), store.current());
    let out = ui.drain();
    assert_eq!(out.len(), 2);
    assert_eq!(
        out[0],
        "Response.dispatch(JSON.parse(\"{\\\"type\\\":\\\"Version\\\",\\\"date\\\":\\\"2020-01-02\\\",\\\"version\\\":\\\"1.0-ab\\\"}\"))"
    );
    assert_eq!(
        out[1],
        "Response.dispatch(JSON.parse(\"{\\\"type\\\":\\\"Config\\\",\\\"decimal\\\":true,\\\"compression\\\":\\\"lzx\\\",\\\"excludes\\\":\\\"*.a\\\\n*.b\\\"}\"))"
    );
}

#[test]
fn send_double_encodes_and_dispatch_single_encodes() {
    let store = ConfigStore::new(snapshot(false, "lzx", &[]));
    let mut ui = GuiWrapper::new(String::from("d"), String::from("v"), store.current());
    ui.drain();
    ui.send(&GuiResponse::Paused);
    message_dispatch(&mut ui, &GuiResponse::Resumed);
    let out = ui.drain();
    assert_eq!(out[0], "Response.dispatch(JSON.parse(\"{\\\"type\\\":\\\"Paused\\\"}\"))");
    assert_eq!(out[1], "Response.dispatch({\"type\":\"Resumed\"})");
}

#[test]
fn notify_helpers_build_their_notifications() {
    let store = ConfigStore::new(snapshot(false, "lzx", &[]));
    let mut ui = GuiWrapper::new(String::from("d"), String::from("v"), store.current());
    ui.drain();
    ui.status("sizing", Some(30));
    ui.folder("/data");
    ui.summary(String::from("12 files"));
    ui.paused();
    ui.resumed();
    ui.scanned();
    ui.stopped();
    ui.compacting();
    let out = ui.drain();
    assert_eq!(out.len(), 8);
    assert_eq!(
        out[0],
        "Response.dispatch(JSON.parse(\"{\\\"type\\\":\\\"Status\\\",\\\"status\\\":\\\"sizing\\\",\\\"pct\\\":30}\"))"
    );
    assert_eq!(
        out[1],
        "Response.dispatch(JSON.parse(\"{\\\"type\\\":\\\"Folder\\\",\\\"path\\\":\\\"/data\\\"}\"))"
    );
}

#[test]
fn save_invalid_changes_nothing() {
    let mut store = ConfigStore::new(snapshot(false, "lzx", &["keep"]));
    let mut ui = GuiWrapper::new(String::from("d"), String::from("v"), store.current());
    ui.drain();
    let r = apply_save(&mut store, &mut ui, snapshot(true, "bad", &["[", "]"]), false, true);
    assert_eq!(r, SaveOutcome::Rejected);
    // zero Config notifications; memory unchanged
    assert_eq!(ui.drain(), Vec::<String>::new());
    assert_eq!(store.current(), &snapshot(false, "lzx", &["keep"]));
}

#[test]
fn save_valid_notifies_once_then_persists() {
    let mut store = ConfigStore::new(snapshot(false, "lzx", &[]));
    let mut ui = GuiWrapper::new(String::from("d"), String::from("v"), store.current());
    ui.drain();
    let s = snapshot(true, "xpress8k", &["*.jpg", "*.png"]);
    let r = apply_save(&mut store, &mut ui, s.clone(), true, true);
    assert_eq!(r, SaveOutcome::Applied);
    let out = ui.drain();
    assert_eq!(out.len(), 1);
    assert_eq!(
        out[0],
        "Response.dispatch({\"type\":\"Config\",\"decimal\":true,\"compression\":\"xpress8k\",\"excludes\":\"*.jpg\\n*.png\"})"
    );
    assert_eq!(store.current(), &s);
}

#[test]
fn save_persist_failure_keeps_notification_and_memory() {
    let mut store = ConfigStore::new(snapshot(false, "lzx", &[]));
    let mut ui = GuiWrapper::new(String::from("d"), String::from("v"), store.current());
    ui.drain();
    let s = snapshot(true, "lzx", &["x"]);
    let r = apply_save(&mut store, &mut ui, s.clone(), true, false);
    assert_eq!(r, SaveOutcome::AppliedNotPersisted);
    // the notification was already sent and is not retracted
    assert_eq!(ui.drain().len(), 1);
    assert_eq!(store.current(), &s);
}

#[test]
fn reset_takes_the_same_path() {
    let mut store = ConfigStore::new(snapshot(true, "xpress4k", &["old"]));
    let mut ui = GuiWrapper::new(String::from("d"), String::from("v"), store.current());
    ui.drain();
    let default_snapshot = snapshot(false, "lzx", &[""]);
    let r = apply_reset(&mut store, &mut ui, default_snapshot.clone(), true);
    assert_eq!(r, SaveOutcome::Applied);
    assert_eq!(ui.drain().len(), 1);
    assert_eq!(store.current(), &default_snapshot);
}

#[test]
fn split_and_join_excludes() {
    assert_eq!(split_excludes(""), vec![String::new()]);
    assert_eq!(split_excludes("a"), vec![String::from("a")]);
    assert_eq!(split_excludes("a\nb"), vec![String::from("a"), String::from("b")]);
    assert_eq!(
        split_excludes("a\n\nb\n"),
        vec![String::from("a"), String::new(), String::from("b"), String::new()]
    );
    let parts = split_excludes("*.jpg\n*.png\ncache");
    assert_eq!(join_excludes(&parts), "*.jpg\n*.png\ncache");
    assert_eq!(join_excludes(&Vec::new()), "");
}
