//! The option groups and settings that the pipeline reads.

use crate::paths::{join_path, joined_path};
use bpstd::Chain;
use std::path::PathBuf;
use strict_encoding::Ident;
use vstd::prelude::*;

verus! {

/// `bpstd::Chain`, the blockchain a wallet lives on; carried through as an
/// opaque value.
#[verifier::external_type_specification]
#[verifier::external_body]
pub struct ExChain(Chain);

/// `strict_encoding::Ident`, the type of a wallet's name on the command line.
#[verifier::external_type_specification]
#[verifier::external_body]
pub struct ExIdent(Ident);

/// The characters of an identifier, as its `Display` impl writes them.
pub uninterp spec fn ident_text(name: Ident) -> Seq<char>;

/// `ToString::to_string` on an [`Ident`], which goes through the identifier's
/// `Display` impl. The result holds the characters named by [`ident_text`].
#[verifier::external_body]
pub(crate) fn ident_string(name: &Ident) -> (text: String)
    ensures
        text@ == ident_text(*name),
{
    name.to_string()
}

/// Persisted settings of the tool.
#[derive(Clone, Debug, PartialEq, Eq)]
pub struct Config {
    /// The wallet that is used where the command line names none.
    pub default_wallet: String,
}

/// The options that may identify a wallet. Any subset of them may be present;
/// [`WalletOptions::source`] says which one counts.
#[derive(Debug, PartialEq, Eq)]
pub struct WalletOptions<D> {
    /// A descriptor given on the command line itself.
    pub descriptor: Option<D>,
    /// The directory of a stored wallet.
    pub wallet_path: Option<PathBuf>,
    /// The name of a stored wallet.
    pub name: Option<Ident>,
}

/// How the chain indexer is reached, and whether it must be.
#[derive(Clone, Debug, PartialEq, Eq)]
pub struct ResolverOptions {
    /// Synchronize the wallet even where it was loaded from disk.
    pub sync: bool,
    /// URL of the Esplora server.
    pub esplora: String,
}

/// Options shared by all subcommands.
#[derive(Debug, PartialEq, Eq)]
pub struct GeneralOptions {
    /// The directory under which the tool keeps its files for the chain.
    pub base_dir: PathBuf,
    /// The chain to work on.
    pub chain: Chain,
}

impl GeneralOptions {
    /// The directory under which the tool keeps its files.
    pub fn base_dir(&self) -> (dir: PathBuf)
        ensures
            dir == self.base_dir,
    {
        self.base_dir.clone()
    }

    /// The directory that stores the wallet of the given name: the name,
    /// joined to the base directory.
    pub open spec fn wallet_dir_of(&self, name: Seq<char>) -> PathBuf {
        joined_path(self.base_dir, name)
    }

    /// The directory that stores the wallet of the given name.
    pub fn wallet_dir(&self, name: &str) -> (dir: PathBuf)
        ensures
            dir == self.wallet_dir_of(name@),
    {
        join_path(&self.base_dir, name)
    }
}

} // verus!
