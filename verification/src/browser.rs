use vstd::prelude::*;

use crate::error::{AppError, ErrorModel};

verus! {

/// The dimensions of a scrollable list, in whole pixels.
#[derive(Debug, PartialEq, Eq)]
pub struct ScrollInfo {
    pub scroll_height: u64,
    pub client_height: u64,
}

/// A message as the page reports it; a field the page left out is `None`.
#[derive(Debug, PartialEq, Eq)]
pub struct RawMessage {
    pub author: Option<String>,
    pub time: Option<String>,
    pub message: Option<String>,
}

/// A channel as the page reports it; a field the page left out is `None`.
#[derive(Debug, PartialEq, Eq)]
pub struct RawChannel {
    pub channel: Option<String>,
    pub kind: Option<String>,
}

/// One search result.
#[derive(Debug, PartialEq, Eq)]
pub struct SearchResultItem {
    pub index: u32,
    pub author: String,
    pub message: String,
}

/// One server in the sidebar.
#[derive(Debug, PartialEq, Eq)]
pub struct ServerItem {
    pub index: u32,
    pub server: String,
}

/// One visible member.
#[derive(Debug, PartialEq, Eq)]
pub struct MemberItem {
    pub index: u32,
    pub name: String,
    pub status: String,
}

/// An answer made of one status line.
#[derive(Debug, PartialEq, Eq)]
pub struct StatusLine {
    pub status: String,
}

impl View for StatusLine {
    type V = Seq<char>;

    open spec fn view(&self) -> Seq<char> {
        self.status@
    }
}

/// What a command asks of the browser next.
#[derive(Debug, PartialEq, Eq)]
pub enum Action {
    /// Run a script; its value is not used.
    Eval(String),
    /// Run a script that reports `{ status }`.
    EvalStatus(String),
    /// Run a script that reports the dimensions of a list.
    EvalScroll(String),
    /// Run a script that lists messages.
    EvalMessages(String),
    /// Run a script that lists channels.
    EvalChannels(String),
    /// Run a script that lists search results.
    EvalSearchResults(String),
    /// Wait this many milliseconds.
    Wait(u64),
}

/// What the browser answered to an [`Action`].
#[derive(Debug, PartialEq, Eq)]
pub enum Reply {
    /// The script ran, or the wait is over.
    Done,
    Status(String),
    Scroll(ScrollInfo),
    Messages(Vec<RawMessage>),
    Channels(Vec<RawChannel>),
    SearchResults(Vec<SearchResultItem>),
    /// The browser binding failed.
    Failed(AppError),
}

/// The kind of reply that an action calls for.
#[derive(Debug, PartialEq, Eq)]
pub enum ReplyKind {
    Done,
    Status,
    Scroll,
    Messages,
    Channels,
    SearchResults,
}

/// What a command does next: ask the browser, or finish with its answer.
#[derive(Debug, PartialEq, Eq)]
pub enum Step<T> {
    Act(Action),
    Finish(Result<T, AppError>),
}

// ---------------------------------------------------------------------------
// Models
// ---------------------------------------------------------------------------

pub enum ActionModel {
    Eval(Seq<char>),
    EvalStatus(Seq<char>),
    EvalScroll(Seq<char>),
    EvalMessages(Seq<char>),
    EvalChannels(Seq<char>),
    EvalSearchResults(Seq<char>),
    Wait(u64),
}

pub struct RawMessageModel {
    pub author: Option<Seq<char>>,
    pub time: Option<Seq<char>>,
    pub message: Option<Seq<char>>,
}

pub struct RawChannelModel {
    pub channel: Option<Seq<char>>,
    pub kind: Option<Seq<char>>,
}

pub enum StepModel<V> {
    Act(ActionModel),
    Finish(Result<V, ErrorModel>),
}

pub open spec fn opt_text(o: Option<String>) -> Option<Seq<char>> {
    match o {
        Some(s) => Some(s@),
        None => None,
    }
}

impl View for RawMessage {
    type V = RawMessageModel;

    open spec fn view(&self) -> RawMessageModel {
        RawMessageModel {
            author: opt_text(self.author),
            time: opt_text(self.time),
            message: opt_text(self.message),
        }
    }
}

impl View for RawChannel {
    type V = RawChannelModel;

    open spec fn view(&self) -> RawChannelModel {
        RawChannelModel { channel: opt_text(self.channel), kind: opt_text(self.kind) }
    }
}

impl View for Action {
    type V = ActionModel;

    open spec fn view(&self) -> ActionModel {
        match self {
            Action::Eval(s) => ActionModel::Eval(s@),
            Action::EvalStatus(s) => ActionModel::EvalStatus(s@),
            Action::EvalScroll(s) => ActionModel::EvalScroll(s@),
            Action::EvalMessages(s) => ActionModel::EvalMessages(s@),
            Action::EvalChannels(s) => ActionModel::EvalChannels(s@),
            Action::EvalSearchResults(s) => ActionModel::EvalSearchResults(s@),
            Action::Wait(ms) => ActionModel::Wait(*ms),
        }
    }
}

impl<T: View> View for Step<T> {
    type V = StepModel<T::V>;

    open spec fn view(&self) -> StepModel<T::V> {
        match self {
            Step::Act(a) => StepModel::Act(a@),
            Step::Finish(Ok(v)) => StepModel::Finish(Ok(v@)),
            Step::Finish(Err(e)) => StepModel::Finish(Err(e@)),
        }
    }
}

/// The kind of reply that an action calls for.
pub open spec fn kind_of(a: ActionModel) -> ReplyKind {
    match a {
        ActionModel::Eval(_) => ReplyKind::Done,
        ActionModel::Wait(_) => ReplyKind::Done,
        ActionModel::EvalStatus(_) => ReplyKind::Status,
        ActionModel::EvalScroll(_) => ReplyKind::Scroll,
        ActionModel::EvalMessages(_) => ReplyKind::Messages,
        ActionModel::EvalChannels(_) => ReplyKind::Channels,
        ActionModel::EvalSearchResults(_) => ReplyKind::SearchResults,
    }
}

/// Does `r` answer an action of kind `k`? A failure answers any action.
pub open spec fn fits(r: Reply, k: ReplyKind) -> bool {
    match r {
        Reply::Done => k is Done,
        Reply::Status(_) => k is Status,
        Reply::Scroll(_) => k is Scroll,
        Reply::Messages(_) => k is Messages,
        Reply::Channels(_) => k is Channels,
        Reply::SearchResults(_) => k is SearchResults,
        Reply::Failed(_) => true,
    }
}

impl Action {
    /// The kind of reply that this action calls for.
    pub fn reply_kind(&self) -> (k: ReplyKind)
        ensures
            k == kind_of(self@),
    {
        match self {
            Action::Eval(_) => ReplyKind::Done,
            Action::Wait(_) => ReplyKind::Done,
            Action::EvalStatus(_) => ReplyKind::Status,
            Action::EvalScroll(_) => ReplyKind::Scroll,
            Action::EvalMessages(_) => ReplyKind::Messages,
            Action::EvalChannels(_) => ReplyKind::Channels,
            Action::EvalSearchResults(_) => ReplyKind::SearchResults,
        }
    }
}

impl Reply {
    /// Does this reply answer an action of kind `k`?
    pub fn fits(&self, k: &ReplyKind) -> (b: bool)
        ensures
            b == fits(*self, *k),
    {
        match self {
            Reply::Done => matches!(k, ReplyKind::Done),
            Reply::Status(_) => matches!(k, ReplyKind::Status),
            Reply::Scroll(_) => matches!(k, ReplyKind::Scroll),
            Reply::Messages(_) => matches!(k, ReplyKind::Messages),
            Reply::Channels(_) => matches!(k, ReplyKind::Channels),
            Reply::SearchResults(_) => matches!(k, ReplyKind::SearchResults),
            Reply::Failed(_) => true,
        }
    }
}

} // verus!
