//! Synchronization: when the runtime is brought up to date, against what, and
//! how the result is reported.
//!
//! A runtime that was just constructed holds no data, so it is always
//! synchronized; a loaded one only on request. A request of the
//! synchronization that fails is reported and otherwise ignored: whatever the
//! indexer did answer stays in the runtime, and nothing is tried again.

use crate::notice::{Notice, NoticeView};
use crate::options::ResolverOptions;
use crate::source::{RuntimeSource, SourceView};
use esplora::BlockingClient;
use vstd::prelude::*;

verus! {

/// `esplora::BlockingClient`, the indexer client; carried through as an
/// opaque value.
#[verifier::external_type_specification]
#[verifier::external_body]
pub struct ExBlockingClient(BlockingClient);

/// `esplora::Error`, carried through as an opaque value.
#[verifier::external_type_specification]
#[verifier::external_body]
pub struct ExIndexerError(esplora::Error);

/// The URL of the server that an indexer client sends its requests to: what
/// `BlockingClient::url` returns.
pub uninterp spec fn indexer_url(client: BlockingClient) -> Seq<char>;

/// `esplora::Builder::new` on the URL, then `Builder::build_blocking` on the
/// builder it gives. A builder made this way has neither proxy nor timeout,
/// and `build_blocking` fails on nothing but a proxy it cannot read: so a
/// client always comes back, and it is bound to the URL that was given. The
/// URL is not looked at before the first request.
#[verifier::external_body]
pub(crate) fn connect(url: &str) -> (built: Result<BlockingClient, esplora::Error>)
    ensures
        built is Ok,
        built matches Ok(client) ==> indexer_url(client) == url@,
{
    esplora::Builder::new(url).build_blocking()
}

/// Whether the runtime of this source is synchronized, given the `sync` flag
/// of the command line.
pub open spec fn sync_due<D>(sync: bool, source: SourceView<D>) -> bool {
    sync || source is Inline
}

impl ResolverOptions {
    /// Whether the runtime of this source is synchronized before it is used.
    pub fn syncs<'a, D>(&self, source: &RuntimeSource<'a, D>) -> (due: bool)
        ensures
            due == sync_due(self.sync, source@),
    {
        self.sync || source.is_inline()
    }
}

/// What is reported of a synchronization in which the requests with these
/// messages failed.
pub open spec fn report(errors: Seq<Seq<char>>) -> Seq<NoticeView> {
    if errors.len() == 0 {
        seq![NoticeView::SyncComplete]
    } else {
        seq![NoticeView::SyncPartial] + errors.map_values(
            |message: Seq<char>| NoticeView::RequestFailed(message),
        )
    }
}

/// The notices that report a synchronization in which the requests with these
/// messages failed.
pub fn sync_report(errors: &Vec<String>) -> (notices: Vec<Notice>)
    ensures
        notices.deep_view() == report(errors.deep_view()),
{
    let mut notices: Vec<Notice> = Vec::new();
    if errors.len() == 0 {
        notices.push(Notice::SyncComplete);
    } else {
        notices.push(Notice::SyncPartial);
        let mut i: usize = 0;
        while i < errors.len()
            invariant
                i <= errors.len(),
                notices@.len() == i + 1,
                notices@[0]@ == NoticeView::SyncPartial,
                forall|j: int|
                    1 <= j <= i ==> (#[trigger] notices@[j])@ == NoticeView::RequestFailed(
                        errors@[j - 1]@,
                    ),
            decreases errors.len() - i,
        {
            notices.push(Notice::RequestFailed(errors[i].clone()));
            i += 1;
        }
    }
    proof {
        let stated = report(errors.deep_view());
        assert(notices.deep_view().len() == stated.len());
        assert forall|j: int| 0 <= j < stated.len() implies notices.deep_view()[j] == stated[j] by {
            if j >= 1 {
                assert(notices@[j]@ == NoticeView::RequestFailed(errors@[j - 1]@));
                assert(errors.deep_view()[j - 1] == errors@[j - 1]@);
            }
        }
        assert(notices.deep_view() =~= stated);
    }
    notices
}

/// A runtime made from a descriptor on the command line is synchronized
/// whatever the `sync` flag says.
pub proof fn law_fresh_runtime_always_syncs<D>(sync: bool, source: SourceView<D>)
    requires
        source is Inline,
    ensures
        sync_due(sync, source),
{
}

/// A stored wallet, given by directory or by name, is synchronized exactly
/// when the `sync` flag is set.
pub proof fn law_stored_wallet_syncs_on_request<D>(sync: bool, source: SourceView<D>)
    requires
        source is Path || source is Named,
    ensures
        sync_due(sync, source) == sync,
{
}

/// The report of a synchronization without failures is the one notice of
/// success. With failures it is the notice of a partial result, followed by
/// one line for each failed request, in the order of the failures, and
/// nothing else.
pub proof fn law_one_line_per_failure(errors: Seq<Seq<char>>)
    ensures
        errors.len() == 0 ==> report(errors) == seq![NoticeView::SyncComplete],
        errors.len() > 0 ==> report(errors).len() == errors.len() + 1,
        errors.len() > 0 ==> report(errors)[0] == NoticeView::SyncPartial,
        forall|i: int|
            0 <= i < errors.len() ==> #[trigger] report(errors)[i + 1]
                == NoticeView::RequestFailed(errors[i]),
{
}

} // verus!
