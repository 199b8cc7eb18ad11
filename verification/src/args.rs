//! The parsed command line.

use crate::acquire::planned;
use crate::bootstrap::{Acquiring, Plan};
use crate::notice::{Notice, NoticeView};
use crate::options::{Config, GeneralOptions, ResolverOptions, WalletOptions};
use crate::paths::{join_path, joined_path};
use crate::sync::sync_due;
use std::path::PathBuf;
use vstd::prelude::*;

verus! {

/// Command-line arguments: the option groups, and the subcommand `C` to run
/// on a wallet with descriptors of type `D`.
#[derive(Debug, PartialEq, Eq)]
pub struct Args<C, D> {
    /// Verbosity level: how often the flag was given.
    pub verbose: u8,
    /// The options that identify the wallet.
    pub wallet: WalletOptions<D>,
    /// The options of the chain indexer.
    pub resolver: ResolverOptions,
    /// The options shared by all subcommands.
    pub general: GeneralOptions,
    /// Command to execute.
    pub command: C,
}

/// A command line that can be executed.
pub trait Exec: Sized {
    /// What an execution may fail with.
    type Error;

    /// Name of the file that holds the settings of the tool.
    const CONF_FILE_NAME: &'static str;

    /// Runs the command with the given settings.
    fn exec(self, config: Config) -> Result<(), Self::Error>;
}

impl<C, D> Args<C, D> {
    /// The file that holds the settings: `bp.toml` in the base directory.
    pub fn conf_path(&self) -> (path: PathBuf)
        ensures
            path == joined_path(self.general.base_dir, "bp.toml"@),
    {
        join_path(&self.general.base_dir, "bp.toml")
    }

    /// Starts the bootstrap of the wallet's runtime.
    ///
    /// The plan names the source that the wallet options resolve to, asks
    /// for the runtime of that source, and has the runtime synchronized if
    /// the `sync` flag is set or the runtime is made from a descriptor on the
    /// command line.
    pub fn bp_runtime<'a>(&'a self, conf: &'a Config) -> (plan: Plan<'a, D>)
        ensures
            plan.notices.deep_view() == seq![
                NoticeView::Loading,
                self.wallet.resolved(conf).origin(),
            ],
            plan.task == planned(self.wallet.resolved(conf), self.general),
            plan.next.sync == sync_due(self.resolver.sync, self.wallet.resolved(conf)),
            plan.next.esplora@ == self.resolver.esplora@,
    {
        let source = self.wallet.source(conf);
        let mut notices: Vec<Notice> = Vec::new();
        notices.push(Notice::Loading);
        notices.push(source.notice());
        assert(notices.deep_view() =~= seq![
            NoticeView::Loading,
            self.wallet.resolved(conf).origin(),
        ]);
        let sync = self.resolver.syncs(&source);
        let task = source.acquisition(&self.general);
        Plan { notices, task, next: Acquiring { sync, esplora: self.resolver.esplora.clone() } }
    }
}

} // verus!
