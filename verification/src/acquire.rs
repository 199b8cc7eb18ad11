//! Runtime acquisition: what has to be done to obtain the wallet's runtime.
//!
//! A descriptor from the command line gets a new, empty runtime on the chain
//! of the general options. A stored wallet is loaded from its directory: the
//! one given, or the one that the general options assign to the wallet's name.
//! Constructing never fails; loading may, and a wallet that cannot be loaded
//! ends the bootstrap.

use crate::options::GeneralOptions;
use crate::source::{RuntimeSource, SourceView};
use bpstd::Chain;
use std::path::PathBuf;
use vstd::prelude::*;

verus! {

/// The task that yields the runtime.
#[derive(Debug, PartialEq, Eq)]
pub enum Acquisition<'a, D> {
    /// Make a new runtime for this descriptor on this chain.
    Construct { descriptor: &'a D, chain: Chain },
    /// Load the runtime stored in this directory.
    Load { dir: PathBuf },
}

/// The task by which the runtime of a source is obtained.
pub open spec fn planned<'a, D>(source: SourceView<D>, general: GeneralOptions) -> Acquisition<
    'a,
    D,
> {
    match source {
        SourceView::Inline(descriptor) => Acquisition::Construct {
            descriptor: &descriptor,
            chain: general.chain,
        },
        SourceView::Path(dir) => Acquisition::Load { dir },
        SourceView::Named(name) => Acquisition::Load { dir: general.wallet_dir_of(name) },
    }
}

impl<'a, D> RuntimeSource<'a, D> {
    /// The task by which the runtime of this source is obtained.
    pub fn acquisition(self, general: &GeneralOptions) -> (task: Acquisition<'a, D>)
        ensures
            task == planned(self@, *general),
    {
        match self {
            RuntimeSource::Inline(descriptor) => Acquisition::Construct {
                descriptor,
                chain: general.chain,
            },
            RuntimeSource::Path(dir) => Acquisition::Load { dir: dir.clone() },
            RuntimeSource::Named(name) => Acquisition::Load {
                dir: general.wallet_dir(name.as_str()),
            },
        }
    }
}

/// A new runtime is bound to the chain of the general options, and a stored
/// one is never constructed anew.
pub proof fn law_fresh_runtime_on_configured_chain<D>(
    source: SourceView<D>,
    general: GeneralOptions,
)
    ensures
        source is Inline <==> planned(source, general) is Construct,
        planned(source, general) matches Acquisition::Construct { descriptor, chain }
            ==> chain == general.chain && source == SourceView::Inline(*descriptor),
{
}

} // verus!
