//! Bootstrap sequencing for a cold-storage wallet command line.
//!
//! Before a subcommand runs, the tool has to decide which wallet it works on,
//! obtain a runtime for that wallet and, where needed, bring the runtime up to
//! date against a chain indexer. This crate holds the decisions of that
//! sequence and proves them; reading the disk and talking to the network is
//! left to the caller, who performs each task the pipeline hands out and
//! reports back what happened.
//!
//! The stages, in order:
//!
//! * [`source`]: which of inline descriptor, wallet directory and wallet name
//!   identifies the wallet;
//! * [`acquire`]: what has to be done to obtain its runtime;
//! * [`sync`]: whether the runtime is synchronized, and how the result of a
//!   synchronization is reported;
//! * [`bootstrap`]: the three stages as one pipeline;
//! * [`args`]: the parsed command line, where the pipeline starts.

pub mod acquire;
pub mod args;
pub mod bootstrap;
pub mod notice;
pub mod options;
pub mod paths;
pub mod source;
pub mod sync;

pub use acquire::Acquisition;
pub use args::{Args, Exec};
pub use bootstrap::{Acquiring, BootstrapError, Outcome, Plan, Progress, SyncRun};
pub use notice::{Notice, NoticeView};
pub use options::{Config, GeneralOptions, ResolverOptions, WalletOptions};
pub use source::{RuntimeSource, SourceView};
