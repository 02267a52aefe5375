use vstd::prelude::*;
use vstd::string::StringExecFns;
use crate::codec::{escape, spec_decode_request, spec_encode_response};
use crate::decode::decode_request;
use crate::encode::{append_escaped, encode_response};
use crate::protocol::{GuiRequest, GuiRequestView, GuiResponse, GuiResponseView};
use crate::query::QuerySlot;
use crate::settings::{
    join_excludes, join_lines, split_excludes, split_lines, ConfigSnapshot, ConfigStore,
};

verus! {

/// The instruction a fire-and-forget notification schedules onto the UI
/// thread's execution queue: the notification JSON re-encoded as a string
/// literal, so that the UI-side dispatcher receives a single parsed JSON
/// value. The double encoding is the wire contract; the dispatcher mirrors
/// it.
pub open spec fn dispatch_instruction(json: Seq<char>) -> Seq<char> {
    "Response.dispatch(JSON.parse(\""@ + escape(json) + "\"))"@
}

/// The instruction used when already on the UI thread (the interceptor's
/// own settings notification): the notification JSON inlined once.
pub open spec fn direct_instruction(json: Seq<char>) -> Seq<char> {
    "Response.dispatch("@ + json + ")"@
}

/// The settings notification for a snapshot: the flag and name as they
/// are, the exclude patterns re-joined with newlines.
pub open spec fn config_notification(s: crate::settings::ConfigSnapshotView) -> GuiResponseView {
    GuiResponseView::Config {
        decimal: s.decimal,
        compression: s.compression,
        excludes: join_lines(s.excludes),
    }
}

/// The UI bridge. The UI host itself can only be driven from its own
/// thread; this wrapper models the bridge's half of that contract: every
/// notification becomes a rendering instruction appended to the UI
/// thread's FIFO execution queue, here the `outbox`. Delivery is
/// fire-and-forget; draining the outbox into the host is the platform
/// edge around the library.
pub struct GuiWrapper {
    date: String,
    version: String,
    outbox: Vec<String>,
}

impl GuiWrapper {
    /// The instructions scheduled so far, oldest first.
    pub closed spec fn outbox_view(&self) -> Seq<Seq<char>> {
        self.outbox.deep_view()
    }

    /// The build date shown in the version banner.
    pub closed spec fn banner_date(&self) -> Seq<char> {
        self.date@
    }

    /// The build version shown in the version banner.
    pub closed spec fn banner_version(&self) -> Seq<char> {
        self.version@
    }

    /// On construction the bridge eagerly emits two notifications, version
    /// banner first, then the settings snapshot read from persistence: the
    /// UI always starts consistent with the persisted configuration.
    pub fn new(date: String, version: String, current: &ConfigSnapshot) -> (g: GuiWrapper)
        ensures
            g.banner_date() == date@,
            g.banner_version() == version@,
            g.outbox_view() == seq![
                dispatch_instruction(
                    spec_encode_response(
                        GuiResponseView::Version { date: date@, version: version@ },
                    ),
                ),
                dispatch_instruction(spec_encode_response(config_notification(current@))),
            ],
    {
        let mut g = GuiWrapper { date, version, outbox: Vec::new() };
        g.version();
        g.config(current);
        proof {
            assert(g.outbox_view() =~= seq![
                dispatch_instruction(
                    spec_encode_response(
                        GuiResponseView::Version {
                            date: g.banner_date(),
                            version: g.banner_version(),
                        },
                    ),
                ),
                dispatch_instruction(spec_encode_response(config_notification(current@))),
            ]);
        }
        g
    }

    /// Fire-and-forget notify: marshals the notification and schedules
    /// exactly one rendering instruction, behind everything already
    /// scheduled. Whether the host still evaluates it during shutdown is
    /// the platform edge's concern.
    pub fn send(&mut self, msg: &GuiResponse)
        ensures
            final(self).outbox_view() == old(self).outbox_view().push(
                dispatch_instruction(spec_encode_response(msg@)),
            ),
            final(self).banner_date() == old(self).banner_date(),
            final(self).banner_version() == old(self).banner_version(),
    {
        let json = encode_response(msg);
        let mut instr = String::from_str("Response.dispatch(JSON.parse(\"");
        append_escaped(&mut instr, json.as_str());
        instr.append("\"))");
        let ghost before = self.outbox.deep_view();
        self.outbox.push(instr);
        proof {
            assert(instr@ == dispatch_instruction(spec_encode_response(msg@)));
            assert(self.outbox.deep_view() =~= before.push(instr@));
        }
    }

    /// The version banner, from the build identifiers this bridge carries.
    pub fn version(&mut self)
        ensures
            final(self).outbox_view() == old(self).outbox_view().push(
                dispatch_instruction(
                    spec_encode_response(
                        GuiResponseView::Version {
                            date: old(self).banner_date(),
                            version: old(self).banner_version(),
                        },
                    ),
                ),
            ),
            final(self).banner_date() == old(self).banner_date(),
            final(self).banner_version() == old(self).banner_version(),
    {
        let msg = GuiResponse::Version {
            date: self.date.clone(),
            version: self.version.clone(),
        };
        self.send(&msg);
    }

    /// The settings notification for the applied configuration.
    pub fn config(&mut self, current: &ConfigSnapshot)
        ensures
            final(self).outbox_view() == old(self).outbox_view().push(
                dispatch_instruction(spec_encode_response(config_notification(current@))),
            ),
            final(self).banner_date() == old(self).banner_date(),
            final(self).banner_version() == old(self).banner_version(),
    {
        let msg = GuiResponse::Config {
            decimal: current.decimal,
            compression: current.compression.clone(),
            excludes: join_excludes(&current.excludes),
        };
        self.send(&msg);
    }

    /// A folder-summary result, carried as opaque collaborator text.
    pub fn summary(&mut self, info: String)
        ensures
            final(self).outbox_view() == old(self).outbox_view().push(
                dispatch_instruction(
                    spec_encode_response(GuiResponseView::FolderSummary { info: info@ }),
                ),
            ),
            final(self).banner_date() == old(self).banner_date(),
            final(self).banner_version() == old(self).banner_version(),
    {
        let msg = GuiResponse::FolderSummary { info };
        self.send(&msg);
    }

    /// A status line with an optional progress number; the number is opaque
    /// here, range validation is a collaborator concern.
    pub fn status(&mut self, msg: &str, val: Option<u32>)
        ensures
            final(self).outbox_view() == old(self).outbox_view().push(
                dispatch_instruction(
                    spec_encode_response(GuiResponseView::Status { status: msg@, pct: val }),
                ),
            ),
            final(self).banner_date() == old(self).banner_date(),
            final(self).banner_version() == old(self).banner_version(),
    {
        let m = GuiResponse::Status { status: String::from_str(msg), pct: val };
        self.send(&m);
    }

    /// The folder the worker settled on.
    pub fn folder(&mut self, path: &str)
        ensures
            final(self).outbox_view() == old(self).outbox_view().push(
                dispatch_instruction(
                    spec_encode_response(GuiResponseView::Folder { path: path@ }),
                ),
            ),
            final(self).banner_date() == old(self).banner_date(),
            final(self).banner_version() == old(self).banner_version(),
    {
        let m = GuiResponse::Folder { path: String::from_str(path) };
        self.send(&m);
    }

    pub fn paused(&mut self)
        ensures
            final(self).outbox_view() == old(self).outbox_view().push(
                dispatch_instruction(spec_encode_response(GuiResponseView::Paused)),
            ),
            final(self).banner_date() == old(self).banner_date(),
            final(self).banner_version() == old(self).banner_version(),
    {
        self.send(&GuiResponse::Paused);
    }

    pub fn resumed(&mut self)
        ensures
            final(self).outbox_view() == old(self).outbox_view().push(
                dispatch_instruction(spec_encode_response(GuiResponseView::Resumed)),
            ),
            final(self).banner_date() == old(self).banner_date(),
            final(self).banner_version() == old(self).banner_version(),
    {
        self.send(&GuiResponse::Resumed);
    }

    pub fn scanned(&mut self)
        ensures
            final(self).outbox_view() == old(self).outbox_view().push(
                dispatch_instruction(spec_encode_response(GuiResponseView::Scanned)),
            ),
            final(self).banner_date() == old(self).banner_date(),
            final(self).banner_version() == old(self).banner_version(),
    {
        self.send(&GuiResponse::Scanned);
    }

    pub fn stopped(&mut self)
        ensures
            final(self).outbox_view() == old(self).outbox_view().push(
                dispatch_instruction(spec_encode_response(GuiResponseView::Stopped)),
            ),
            final(self).banner_date() == old(self).banner_date(),
            final(self).banner_version() == old(self).banner_version(),
    {
        self.send(&GuiResponse::Stopped);
    }

    pub fn compacting(&mut self)
        ensures
            final(self).outbox_view() == old(self).outbox_view().push(
                dispatch_instruction(spec_encode_response(GuiResponseView::Compacting)),
            ),
            final(self).banner_date() == old(self).banner_date(),
            final(self).banner_version() == old(self).banner_version(),
    {
        self.send(&GuiResponse::Compacting);
    }

    /// Obtains the one-shot receiver for a folder choice. Any thread may
    /// call this; scheduling the native picker on the UI thread and
    /// writing its outcome into the slot is the platform edge around the
    /// library, which then calls `put` exactly once with the chosen path
    /// or `None`.
    pub fn choose_folder(&self) -> (s: QuerySlot)
        ensures
            s.unfilled(),
    {
        QuerySlot::new()
    }

    /// Drains the scheduled instructions for the platform edge to evaluate
    /// inside the UI host, in order.
    pub fn drain(&mut self) -> (r: Vec<String>)
        ensures
            r.deep_view() == old(self).outbox_view(),
            final(self).outbox_view() == Seq::<Seq<char>>::empty(),
            final(self).banner_date() == old(self).banner_date(),
            final(self).banner_version() == old(self).banner_version(),
    {
        let mut out: Vec<String> = Vec::new();
        core::mem::swap(&mut out, &mut self.outbox);
        proof {
            assert(self.outbox.deep_view() =~= Seq::<Seq<char>>::empty());
        }
        out
    }
}

/// Evaluates a notification on the UI thread directly: one single-encoded
/// rendering instruction, scheduled behind everything already pending.
pub fn message_dispatch(ui: &mut GuiWrapper, msg: &GuiResponse)
    ensures
        final(ui).outbox_view() == old(ui).outbox_view().push(
            direct_instruction(spec_encode_response(msg@)),
        ),
        final(ui).banner_date() == old(ui).banner_date(),
        final(ui).banner_version() == old(ui).banner_version(),
{
    let json = encode_response(msg);
    let mut instr = String::from_str("Response.dispatch(");
    instr.append(json.as_str());
    instr.append(")");
    let ghost before = ui.outbox.deep_view();
    ui.outbox.push(instr);
    proof {
        assert(instr@ == direct_instruction(spec_encode_response(msg@)));
        assert(ui.outbox.deep_view() =~= before.push(instr@));
    }
}

/// A command the interceptor handles on the UI thread itself, without the
/// mailbox.
#[derive(Debug, Clone, PartialEq, Eq)]
pub enum LocalAction {
    /// Hand the URL to the platform's default opener; failures are
    /// swallowed.
    OpenLink { url: String },
    /// Validate, notify, persist the snapshot built from the payload.
    Save { snapshot: ConfigSnapshot },
    /// The same path with the collaborator's default snapshot.
    Reset,
}

/// What the interceptor decided for one inbound message.
#[derive(Debug, Clone, PartialEq, Eq)]
pub enum RoutingOutcome {
    /// Settled on the UI thread; never reaches the worker.
    HandledLocally(LocalAction),
    /// Passed to the command mailbox unchanged.
    Forwarded(GuiRequest),
    /// Malformed or unrecognized: reported and dropped, never fatal.
    ParseFailed,
}

/// The command interceptor: classifies one raw message from the UI
/// surface. Exactly the texts that decode to a command are accepted;
/// settings and link commands stay local, everything else is forwarded.
/// The save snapshot carries the payload's excludes split at newlines.
pub fn route(raw: &str) -> (r: RoutingOutcome)
    ensures
        match spec_decode_request(raw@) {
            None => r == RoutingOutcome::ParseFailed,
            Some(cmd) => match cmd {
                GuiRequestView::OpenUrl { url } => (r matches RoutingOutcome::HandledLocally(
                    LocalAction::OpenLink { url: u },
                ) && u@ == url),
                GuiRequestView::SaveConfig { decimal, compression, excludes } => (r matches
                    RoutingOutcome::HandledLocally(LocalAction::Save { snapshot })
                    && snapshot@.decimal == decimal && snapshot@.compression == compression
                    && snapshot@.excludes == split_lines(excludes)),
                GuiRequestView::ResetConfig => r == RoutingOutcome::HandledLocally(
                    LocalAction::Reset,
                ),
                _ => (r matches RoutingOutcome::Forwarded(c) && c@ == cmd),
            },
        },
{
    match decode_request(raw) {
        None => RoutingOutcome::ParseFailed,
        Some(GuiRequest::OpenUrl { url }) => RoutingOutcome::HandledLocally(
            LocalAction::OpenLink { url },
        ),
        Some(GuiRequest::SaveConfig { decimal, compression, excludes }) => {
            let patterns = split_excludes(excludes.as_str());
            RoutingOutcome::HandledLocally(
                LocalAction::Save {
                    snapshot: ConfigSnapshot { decimal, compression, excludes: patterns },
                },
            )
        },
        Some(GuiRequest::ResetConfig) => RoutingOutcome::HandledLocally(LocalAction::Reset),
        Some(cmd) => RoutingOutcome::Forwarded(cmd),
    }
}

/// Outcome of the locally-handled settings path; each failure is surfaced
/// as exactly one modal-error signal.
#[derive(Debug, Clone, Copy, PartialEq, Eq)]
pub enum SaveOutcome {
    /// The validator rejected the snapshot: one modal error, no settings
    /// notification, nothing changed in memory or on disk.
    Rejected,
    /// Applied, notified, persisted.
    Applied,
    /// Applied and notified, but persistence failed: one modal error; the
    /// in-memory change stands, the notification is not retracted.
    AppliedNotPersisted,
}

/// The save path: with a valid snapshot, exactly one settings notification
/// reflecting the normalized snapshot is scheduled, then the configuration
/// is applied and a persistence commit attempted. With an invalid one,
/// nothing moves. `valid` and `persist_ok` are the verdicts of the Config
/// collaborator's validator and persistence, which the caller obtained.
pub fn apply_save(
    store: &mut ConfigStore,
    ui: &mut GuiWrapper,
    snapshot: ConfigSnapshot,
    valid: bool,
    persist_ok: bool,
) -> (r: SaveOutcome)
    ensures
        !valid ==> r == SaveOutcome::Rejected && final(store).current_view() == old(store).current_view() && final(store).persisted_view() == old(store).persisted_view() && final(ui).outbox_view() == old(ui).outbox_view(),
        valid ==> final(store).current_view() == snapshot@ && final(ui).outbox_view() == old(ui).outbox_view().push(direct_instruction(spec_encode_response(config_notification(snapshot@)))),
        valid && persist_ok ==> r == SaveOutcome::Applied && final(store).persisted_view()
            == snapshot@,
        valid && !persist_ok ==> r == SaveOutcome::AppliedNotPersisted && final(store).persisted_view() == old(store).persisted_view(),
{
    if !valid {
        return SaveOutcome::Rejected;
    }
    let notif = GuiResponse::Config {
        decimal: snapshot.decimal,
        compression: snapshot.compression.clone(),
        excludes: join_excludes(&snapshot.excludes),
    };
    message_dispatch(ui, &notif);
    store.replace(snapshot);
    store.commit(persist_ok);
    if persist_ok {
        SaveOutcome::Applied
    } else {
        SaveOutcome::AppliedNotPersisted
    }
}

/// The reset path: the collaborator's default snapshot takes the identical
/// notify-then-persist route; defaults are always valid.
pub fn apply_reset(
    store: &mut ConfigStore,
    ui: &mut GuiWrapper,
    default_snapshot: ConfigSnapshot,
    persist_ok: bool,
) -> (r: SaveOutcome)
    ensures
        final(store).current_view() == default_snapshot@,
        final(ui).outbox_view() == old(ui).outbox_view().push(
            direct_instruction(
                spec_encode_response(config_notification(default_snapshot@)),
            ),
        ),
        persist_ok ==> r == SaveOutcome::Applied && final(store).persisted_view()
            == default_snapshot@,
        !persist_ok ==> r == SaveOutcome::AppliedNotPersisted && final(store).persisted_view()
            == old(store).persisted_view(),
{
    apply_save(store, ui, default_snapshot, true, persist_ok)
}

} // verus!
