//! Progress notices for the diagnostic stream.
//!
//! The pipeline never writes anything itself. Each of its steps hands back the
//! notices that belong to it, in order; whoever drives the pipeline writes
//! their texts one after another, or drops them.

use vstd::prelude::*;
use vstd::string::StringExecFns;

verus! {

/// One progress notice.
#[derive(Clone, Debug, PartialEq, Eq)]
pub enum Notice {
    /// A descriptor is about to be obtained.
    Loading,
    /// The descriptor was given on the command line.
    FromArgument,
    /// The descriptor comes from a wallet directory given on the command line.
    FromDirectory,
    /// The descriptor comes from the stored wallet of this name.
    FromWallet(String),
    /// The runtime was obtained.
    Loaded,
    /// Synchronization with the indexer begins.
    Syncing,
    /// Every request of the synchronization was answered.
    SyncComplete,
    /// Some requests of the synchronization failed; one
    /// [`Notice::RequestFailed`] for each of them follows.
    SyncPartial,
    /// One request of the synchronization failed, with this message.
    RequestFailed(String),
}

/// A [`Notice`] with its strings as sequences of characters.
pub enum NoticeView {
    Loading,
    FromArgument,
    FromDirectory,
    FromWallet(Seq<char>),
    Loaded,
    Syncing,
    SyncComplete,
    SyncPartial,
    RequestFailed(Seq<char>),
}

impl View for Notice {
    type V = NoticeView;

    open spec fn view(&self) -> NoticeView {
        match self {
            Notice::Loading => NoticeView::Loading,
            Notice::FromArgument => NoticeView::FromArgument,
            Notice::FromDirectory => NoticeView::FromDirectory,
            Notice::FromWallet(name) => NoticeView::FromWallet(name@),
            Notice::Loaded => NoticeView::Loaded,
            Notice::Syncing => NoticeView::Syncing,
            Notice::SyncComplete => NoticeView::SyncComplete,
            Notice::SyncPartial => NoticeView::SyncPartial,
            Notice::RequestFailed(message) => NoticeView::RequestFailed(message@),
        }
    }
}

impl DeepView for Notice {
    type V = NoticeView;

    open spec fn deep_view(&self) -> NoticeView {
        self@
    }
}

impl NoticeView {
    /// The text of the notice. A notice that ends a line of the stream ends
    /// in a line feed; the others are continued by the notice that follows.
    pub open spec fn wording(self) -> Seq<char> {
        match self {
            NoticeView::Loading => "Loading descriptor"@,
            NoticeView::FromArgument => " from command-line argument ... "@,
            NoticeView::FromDirectory => " from specified wallet directory ... "@,
            NoticeView::FromWallet(name) => " from wallet "@ + name + " ... "@,
            NoticeView::Loaded => "success\n"@,
            NoticeView::Syncing => "Syncing ..."@,
            NoticeView::SyncComplete => " success\n"@,
            NoticeView::SyncPartial => " partial, some requests has failed:\n"@,
            NoticeView::RequestFailed(message) => "- "@ + message + "\n"@,
        }
    }
}

impl Notice {
    /// The text of the notice, to be written to the stream as it is.
    pub fn text(&self) -> (text: String)
        ensures
            text@ == self@.wording(),
    {
        match self {
            Notice::Loading => String::from_str("Loading descriptor"),
            Notice::FromArgument => String::from_str(" from command-line argument ... "),
            Notice::FromDirectory => String::from_str(" from specified wallet directory ... "),
            Notice::FromWallet(name) => String::from_str(" from wallet ").concat(
                name.as_str(),
            ).concat(" ... "),
            Notice::Loaded => String::from_str("success\n"),
            Notice::Syncing => String::from_str("Syncing ..."),
            Notice::SyncComplete => String::from_str(" success\n"),
            Notice::SyncPartial => String::from_str(" partial, some requests has failed:\n"),
            Notice::RequestFailed(message) => String::from_str("- ").concat(
                message.as_str(),
            ).concat("\n"),
        }
    }
}

} // verus!
