//! Source resolution: which option identifies the wallet.
//!
//! An inline descriptor counts before a wallet directory, and a wallet
//! directory before a wallet name. Where the command line names no wallet
//! either, the default wallet of the settings is taken. What ranks lower than
//! the option that counts is ignored without a word.

use crate::notice::{Notice, NoticeView};
use crate::options::{ident_string, ident_text, Config, WalletOptions};
use std::path::PathBuf;
use vstd::prelude::*;

verus! {

/// Where the wallet's descriptor comes from.
#[derive(Debug, PartialEq, Eq)]
pub enum RuntimeSource<'a, D> {
    /// The descriptor given on the command line.
    Inline(&'a D),
    /// The wallet stored in this directory.
    Path(&'a PathBuf),
    /// The stored wallet of this name.
    Named(String),
}

/// A [`RuntimeSource`] with the wallet's name as a sequence of characters.
pub enum SourceView<D> {
    Inline(D),
    Path(PathBuf),
    Named(Seq<char>),
}

impl<'a, D> View for RuntimeSource<'a, D> {
    type V = SourceView<D>;

    open spec fn view(&self) -> SourceView<D> {
        match self {
            RuntimeSource::Inline(descriptor) => SourceView::Inline(**descriptor),
            RuntimeSource::Path(dir) => SourceView::Path(**dir),
            RuntimeSource::Named(name) => SourceView::Named(name@),
        }
    }
}

impl<D> SourceView<D> {
    /// The notice that tells the user where the descriptor comes from.
    pub open spec fn origin(self) -> NoticeView {
        match self {
            SourceView::Inline(_) => NoticeView::FromArgument,
            SourceView::Path(_) => NoticeView::FromDirectory,
            SourceView::Named(name) => NoticeView::FromWallet(name),
        }
    }
}

impl<D> WalletOptions<D> {
    /// The name under which a stored wallet is looked up where neither a
    /// descriptor nor a directory is given: the name on the command line, or
    /// else the default wallet.
    pub open spec fn wallet_name(&self, conf: &Config) -> Seq<char> {
        match self.name {
            Some(name) => ident_text(name),
            None => conf.default_wallet@,
        }
    }

    /// The source that these options select.
    pub open spec fn resolved(&self, conf: &Config) -> SourceView<D> {
        if self.descriptor is Some {
            SourceView::Inline(self.descriptor->0)
        } else if self.wallet_path is Some {
            SourceView::Path(self.wallet_path->0)
        } else {
            SourceView::Named(self.wallet_name(conf))
        }
    }

    /// Resolves the options to the one source that counts. This never fails.
    pub fn source<'a>(&'a self, conf: &'a Config) -> (source: RuntimeSource<'a, D>)
        ensures
            source@ == self.resolved(conf),
    {
        if let Some(descriptor) = &self.descriptor {
            RuntimeSource::Inline(descriptor)
        } else if let Some(dir) = &self.wallet_path {
            RuntimeSource::Path(dir)
        } else {
            match &self.name {
                Some(name) => RuntimeSource::Named(ident_string(name)),
                None => RuntimeSource::Named(conf.default_wallet.clone()),
            }
        }
    }
}

impl<'a, D> RuntimeSource<'a, D> {
    /// Whether the descriptor was given on the command line, so that its
    /// runtime starts out empty.
    pub fn is_inline(&self) -> (inline: bool)
        ensures
            inline == (self@ is Inline),
    {
        match self {
            RuntimeSource::Inline(_) => true,
            _ => false,
        }
    }

    /// The notice that tells the user where the descriptor comes from.
    pub fn notice(&self) -> (notice: Notice)
        ensures
            notice@ == self@.origin(),
    {
        match self {
            RuntimeSource::Inline(_) => Notice::FromArgument,
            RuntimeSource::Path(_) => Notice::FromDirectory,
            RuntimeSource::Named(name) => Notice::FromWallet(name.clone()),
        }
    }
}

/// Precedence: a descriptor on the command line is the source whatever else is
/// given; without one, a wallet directory is, whatever name is given; without
/// either, the wallet named on the command line is; and with nothing given at
/// all, the default wallet.
pub proof fn law_precedence<D>(options: WalletOptions<D>, conf: Config)
    ensures
        options.descriptor is Some ==> options.resolved(&conf) == SourceView::Inline(
            options.descriptor->0,
        ),
        options.descriptor is None && options.wallet_path is Some ==> options.resolved(&conf)
            == SourceView::<D>::Path(options.wallet_path->0),
        options.descriptor is None && options.wallet_path is None && options.name is Some
            ==> options.resolved(&conf) == SourceView::<D>::Named(ident_text(options.name->0)),
        options.descriptor is None && options.wallet_path is None && options.name is None
            ==> options.resolved(&conf) == SourceView::<D>::Named(conf.default_wallet@),
{
}

/// What ranks below the option that counts has no influence: two sets of
/// options that agree on the descriptor, and on the directory where there is
/// no descriptor, resolve to the same source as soon as one of the two is
/// present.
pub proof fn law_lower_ranks_ignored<D>(
    first: WalletOptions<D>,
    second: WalletOptions<D>,
    first_conf: Config,
    second_conf: Config,
)
    requires
        first.descriptor == second.descriptor,
        first.descriptor is None ==> first.wallet_path == second.wallet_path,
        first.descriptor is Some || first.wallet_path is Some,
    ensures
        first.resolved(&first_conf) == second.resolved(&second_conf),
{
}

/// Totality: every set of options resolves to exactly one source, and to the
/// default wallet where nothing is given.
pub proof fn law_one_source<D>(options: WalletOptions<D>, conf: Config)
    ensures
        ({
            let source = options.resolved(&conf);
            let inline: int = if source is Inline { 1 } else { 0 };
            let path: int = if source is Path { 1 } else { 0 };
            let named: int = if source is Named { 1 } else { 0 };
            inline + path + named == 1
        }),
        options.descriptor is None && options.wallet_path is None && options.name is None
            ==> options.resolved(&conf) == SourceView::<D>::Named(conf.default_wallet@),
{
}

} // verus!
