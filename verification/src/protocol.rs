use vstd::prelude::*;

verus! {

/// Commands that the UI surface can submit to the bridge. The set is closed:
/// a message that parses successfully names exactly one of these variants.
#[derive(Debug, Clone, PartialEq, Eq)]
pub enum GuiRequest {
    OpenUrl { url: String },
    SaveConfig { decimal: bool, compression: String, excludes: String },
    ResetConfig,
    ChooseFolder,
    Compress,
    Decompress,
    Pause,
    Resume,
    Analyse,
    Stop,
    Quit,
}

/// Mathematical model of a `GuiRequest`: each text payload as a sequence of
/// characters.
pub enum GuiRequestView {
    OpenUrl { url: Seq<char> },
    SaveConfig { decimal: bool, compression: Seq<char>, excludes: Seq<char> },
    ResetConfig,
    ChooseFolder,
    Compress,
    Decompress,
    Pause,
    Resume,
    Analyse,
    Stop,
    Quit,
}

impl View for GuiRequest {
    type V = GuiRequestView;

    open spec fn view(&self) -> GuiRequestView {
        match self {
            GuiRequest::OpenUrl { url } => GuiRequestView::OpenUrl { url: url@ },
            GuiRequest::SaveConfig { decimal, compression, excludes } => {
                GuiRequestView::SaveConfig {
                    decimal: *decimal,
                    compression: compression@,
                    excludes: excludes@,
                }
            },
            GuiRequest::ResetConfig => GuiRequestView::ResetConfig,
            GuiRequest::ChooseFolder => GuiRequestView::ChooseFolder,
            GuiRequest::Compress => GuiRequestView::Compress,
            GuiRequest::Decompress => GuiRequestView::Decompress,
            GuiRequest::Pause => GuiRequestView::Pause,
            GuiRequest::Resume => GuiRequestView::Resume,
            GuiRequest::Analyse => GuiRequestView::Analyse,
            GuiRequest::Stop => GuiRequestView::Stop,
            GuiRequest::Quit => GuiRequestView::Quit,
        }
    }
}

/// Notifications that the worker side emits towards the UI surface. The
/// progress percentage is carried as an opaque number; absence and zero are
/// distinct values. The folder summary's internals belong to a collaborator
/// and travel through this protocol as opaque text.
#[derive(Debug, Clone, PartialEq, Eq)]
pub enum GuiResponse {
    Version { date: String, version: String },
    Config { decimal: bool, compression: String, excludes: String },
    Folder { path: String },
    Status { status: String, pct: Option<u32> },
    FolderSummary { info: String },
    Paused,
    Resumed,
    Scanned,
    Stopped,
    Compacting,
}

/// Mathematical model of a `GuiResponse`.
pub enum GuiResponseView {
    Version { date: Seq<char>, version: Seq<char> },
    Config { decimal: bool, compression: Seq<char>, excludes: Seq<char> },
    Folder { path: Seq<char> },
    Status { status: Seq<char>, pct: Option<u32> },
    FolderSummary { info: Seq<char> },
    Paused,
    Resumed,
    Scanned,
    Stopped,
    Compacting,
}

impl View for GuiResponse {
    type V = GuiResponseView;

    open spec fn view(&self) -> GuiResponseView {
        match self {
            GuiResponse::Version { date, version } => {
                GuiResponseView::Version { date: date@, version: version@ }
            },
            GuiResponse::Config { decimal, compression, excludes } => {
                GuiResponseView::Config {
                    decimal: *decimal,
                    compression: compression@,
                    excludes: excludes@,
                }
            },
            GuiResponse::Folder { path } => GuiResponseView::Folder { path: path@ },
            GuiResponse::Status { status, pct } => {
                GuiResponseView::Status { status: status@, pct: *pct }
            },
            GuiResponse::FolderSummary { info } => {
                GuiResponseView::FolderSummary { info: info@ }
            },
            GuiResponse::Paused => GuiResponseView::Paused,
            GuiResponse::Resumed => GuiResponseView::Resumed,
            GuiResponse::Scanned => GuiResponseView::Scanned,
            GuiResponse::Stopped => GuiResponseView::Stopped,
            GuiResponse::Compacting => GuiResponseView::Compacting,
        }
    }
}

} // verus!
