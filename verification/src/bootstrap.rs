//! The bootstrap pipeline: resolve, acquire, synchronize.
//!
//! The pipeline is driven from outside. [`crate::Args::bp_runtime`] starts it
//! and hands out a [`Plan`]: the task that yields the runtime, and the state
//! that waits for it. The driver performs the task and reports the outcome to
//! [`Acquiring::acquired`], which either ends the bootstrap or hands out a
//! [`SyncRun`]. The driver synchronizes the runtime of that run against its
//! indexer and reports the failed requests to [`SyncRun::finish`], which ends
//! the bootstrap. Every step returns the notices that belong to it.
//!
//! A wallet that cannot be loaded ends the bootstrap with an error, and so
//! does an indexer client that could not be made, for whoever reports one to
//! [`connected`]. Failed requests of the synchronization do not: they are
//! reported, and the runtime is handed on as it is.

use crate::acquire::Acquisition;
use crate::notice::{Notice, NoticeView};
use crate::sync::{connect, indexer_url, report, sync_report};
use esplora::BlockingClient;
use vstd::prelude::*;

verus! {

/// Why no runtime could be had.
#[derive(Debug)]
pub enum BootstrapError<L> {
    /// The stored wallet could not be loaded.
    Load(L),
    /// No client for the indexer could be made.
    Indexer(esplora::Error),
}

/// The first step of the pipeline: what to do, and what waits for it.
#[derive(Debug)]
pub struct Plan<'a, D> {
    /// The notices of this step.
    pub notices: Vec<Notice>,
    /// The task that yields the runtime.
    pub task: Acquisition<'a, D>,
    /// The state that takes the outcome of the task.
    pub next: Acquiring,
}

/// The pipeline while the runtime is being obtained.
#[derive(Clone, Debug, PartialEq, Eq)]
pub struct Acquiring {
    /// Whether the runtime is synchronized once it is there.
    pub sync: bool,
    /// URL of the Esplora server to synchronize against.
    pub esplora: String,
}

/// The pipeline while the runtime is being synchronized.
#[derive(Debug)]
pub struct SyncRun<R> {
    /// The runtime to synchronize.
    pub runtime: R,
    /// The client of the indexer to synchronize against.
    pub indexer: BlockingClient,
}

/// The end of the pipeline.
#[derive(Debug)]
pub struct Outcome<R, L> {
    /// The notices of the last step.
    pub notices: Vec<Notice>,
    /// The runtime, or the reason why there is none.
    pub result: Result<R, BootstrapError<L>>,
}

/// Where the pipeline stands once the runtime was asked for.
#[derive(Debug)]
pub enum Progress<R, L> {
    /// The runtime is there and has to be synchronized.
    Sync { notices: Vec<Notice>, run: SyncRun<R> },
    /// The bootstrap is over.
    Done(Outcome<R, L>),
}

/// The notices that follow a runtime that was obtained and is synchronized
/// next.
pub open spec fn sync_opening() -> Seq<NoticeView> {
    seq![NoticeView::Loaded, NoticeView::Syncing]
}

/// Where the pipeline stands once the indexer client was asked for: with a
/// client the runtime is synchronized; without one the bootstrap ends with
/// the client's error, and no runtime.
pub open spec fn connected_to<R, L>(
    runtime: R,
    built: Result<BlockingClient, esplora::Error>,
    progress: Progress<R, L>,
) -> bool {
    match built {
        Ok(indexer) => progress matches Progress::Sync { notices, run }
            && notices.deep_view() == sync_opening()
            && run == (SyncRun { runtime, indexer }),
        Err(error) => progress matches Progress::Done(outcome)
            && outcome.notices.deep_view() == sync_opening()
            && outcome.result == Err::<R, BootstrapError<L>>(BootstrapError::Indexer(error)),
    }
}

/// Where the pipeline stands once the indexer client was asked for.
pub fn connected<R, L>(runtime: R, built: Result<BlockingClient, esplora::Error>) -> (progress:
    Progress<R, L>)
    ensures
        connected_to(runtime, built, progress),
{
    let mut notices: Vec<Notice> = Vec::new();
    notices.push(Notice::Loaded);
    notices.push(Notice::Syncing);
    assert(notices.deep_view() =~= sync_opening());
    match built {
        Ok(indexer) => Progress::Sync { notices, run: SyncRun { runtime, indexer } },
        Err(error) => Progress::Done(
            Outcome { notices, result: Err(BootstrapError::Indexer(error)) },
        ),
    }
}

impl Acquiring {
    /// Where the pipeline stands once the acquisition has ended.
    ///
    /// A wallet that could not be loaded ends the bootstrap with its error,
    /// without a further notice. A runtime that needs no synchronization ends
    /// it with success. Any other runtime is handed out to be synchronized,
    /// together with a client of the indexer at the URL of this state.
    pub open spec fn leads_to<R, L>(self, outcome: Result<R, L>, progress: Progress<R, L>) -> bool {
        match outcome {
            Err(error) => progress matches Progress::Done(end)
                && end.notices.deep_view() == Seq::<NoticeView>::empty()
                && end.result == Err::<R, BootstrapError<L>>(BootstrapError::Load(error)),
            Ok(runtime) => if self.sync {
                progress matches Progress::Sync { notices, run }
                    && notices.deep_view() == sync_opening()
                    && run.runtime == runtime
                    && indexer_url(run.indexer) == self.esplora@
            } else {
                progress matches Progress::Done(end)
                    && end.notices.deep_view() == seq![NoticeView::Loaded]
                    && end.result == Ok::<R, BootstrapError<L>>(runtime)
            },
        }
    }

    /// Takes the outcome of the acquisition, and makes the client of the
    /// indexer where the runtime has to be synchronized.
    pub fn acquired<R, L>(self, outcome: Result<R, L>) -> (progress: Progress<R, L>)
        ensures
            self.leads_to(outcome, progress),
    {
        match outcome {
            Err(error) => {
                let notices: Vec<Notice> = Vec::new();
                assert(notices.deep_view() =~= Seq::<NoticeView>::empty());
                Progress::Done(Outcome { notices, result: Err(BootstrapError::Load(error)) })
            },
            Ok(runtime) => {
                if self.sync {
                    let built = connect(self.esplora.as_str());
                    connected(runtime, built)
                } else {
                    let mut notices: Vec<Notice> = Vec::new();
                    notices.push(Notice::Loaded);
                    assert(notices.deep_view() =~= seq![NoticeView::Loaded]);
                    Progress::Done(Outcome { notices, result: Ok(runtime) })
                }
            },
        }
    }
}

impl<R> SyncRun<R> {
    /// Takes the messages of the requests that failed while the runtime of
    /// this run was synchronized, none where all were answered. The bootstrap
    /// ends with the runtime as it stands in the run, whatever failed, and
    /// with the report of the failures.
    pub fn finish<L>(self, errors: &Vec<String>) -> (end: Outcome<R, L>)
        ensures
            end.result == Ok::<R, BootstrapError<L>>(self.runtime),
            end.notices.deep_view() == report(errors.deep_view()),
    {
        Outcome { notices: sync_report(errors), result: Ok(self.runtime) }
    }
}

/// What the pipeline's standing tells of what happened before.
///
/// A run is handed out only for a runtime that was obtained and has to be
/// synchronized: it holds that very runtime, and a client bound to the URL of
/// the state. A bootstrap that ends with a runtime ends with the one that was
/// obtained, and needed no synchronization. A bootstrap that ends here with
/// an error ends with the error of the failed load: no runtime comes out, and
/// nothing is synchronized.
pub proof fn law_progress_reflects_outcome<R, L>(
    state: Acquiring,
    outcome: Result<R, L>,
    progress: Progress<R, L>,
)
    requires
        state.leads_to(outcome, progress),
    ensures
        progress matches Progress::Sync { notices, run } ==> state.sync && outcome == Ok::<R, L>(
            run.runtime,
        ) && indexer_url(run.indexer) == state.esplora@,
        progress matches Progress::Done(end) ==> (match end.result {
            Ok(runtime) => !state.sync && outcome == Ok::<R, L>(runtime),
            Err(error) => outcome is Err && error == BootstrapError::<L>::Load(outcome->Err_0),
        }),
        outcome is Err ==> progress is Done,
        outcome is Ok && state.sync ==> progress is Sync,
{
}

/// A client that cannot be made is fatal: whoever reports one to
/// [`connected`] gets the end of the bootstrap with the client's error, no
/// runtime, and no run to synchronize.
pub proof fn law_no_client_no_sync<R, L>(
    runtime: R,
    error: esplora::Error,
    progress: Progress<R, L>,
)
    requires
        connected_to(runtime, Err(error), progress),
    ensures
        !(progress is Sync),
        progress matches Progress::Done(end) && end.result == Err::<R, BootstrapError<L>>(
            BootstrapError::Indexer(error),
        ),
{
}

} // verus!
