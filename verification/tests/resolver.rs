use std::path::PathBuf;

use bp_util::{Acquisition, Args, Config, GeneralOptions, Notice, ResolverOptions, RuntimeSource, WalletOptions};
use bpstd::Chain;
use strict_encoding::Ident;

fn conf(default_wallet: &str) -> Config {
    Config {
        default_wallet: default_wallet.to_string(),
    }
}

fn options(descriptor: bool, path: bool, name: bool) -> WalletOptions<String> {
    WalletOptions {
        descriptor: if descriptor { Some("wpkh(xpub)".to_string()) } else { None },
        wallet_path: if path { Some(PathBuf::from("/w")) } else { None },
        name: if name { Some(Ident::from("bob")) } else { None },
    }
}

fn general() -> GeneralOptions {
    GeneralOptions {
        base_dir: PathBuf::from("/data/testnet"),
        chain: Chain::Testnet3,
    }
}

#[test]
fn descriptor_alone_is_inline() {
    let wallet = options(true, false, false);
    let descriptor = "wpkh(xpub)".to_string();
    assert_eq!(wallet.source(&conf("alice")), RuntimeSource::Inline(&descriptor));
}

#[test]
fn descriptor_wins_over_path() {
    let wallet = options(true, true, false);
    let descriptor = "wpkh(xpub)".to_string();
    assert_eq!(wallet.source(&conf("alice")), RuntimeSource::Inline(&descriptor));
}

#[test]
fn descriptor_wins_over_name() {
    let wallet = options(true, false, true);
    let descriptor = "wpkh(xpub)".to_string();
    assert_eq!(wallet.source(&conf("alice")), RuntimeSource::Inline(&descriptor));
}

#[test]
fn descriptor_wins_over_path_and_name() {
    let wallet = options(true, true, true);
    let descriptor = "wpkh(xpub)".to_string();
    assert_eq!(wallet.source(&conf("alice")), RuntimeSource::Inline(&descriptor));
}

#[test]
fn path_alone_is_path() {
    let wallet = options(false, true, false);
    let dir = PathBuf::from("/w");
    assert_eq!(wallet.source(&conf("alice")), RuntimeSource::Path(&dir));
}

#[test]
fn path_wins_over_name() {
    let wallet = options(false, true, true);
    let dir = PathBuf::from("/w");
    assert_eq!(wallet.source(&conf("alice")), RuntimeSource::Path(&dir));
}

#[test]
fn explicit_name_is_named() {
    let wallet = options(false, false, true);
    assert_eq!(wallet.source(&conf("alice")), RuntimeSource::Named("bob".to_string()));
}

#[test]
fn nothing_given_falls_back_to_default_wallet() {
    let wallet = options(false, false, false);
    assert_eq!(wallet.source(&conf("alice")), RuntimeSource::Named("alice".to_string()));
}

#[test]
fn default_wallet_is_ignored_when_a_name_is_given() {
    let wallet = WalletOptions::<String> {
        descriptor: None,
        wallet_path: None,
        name: Some(Ident::from("cold_2024")),
    };
    assert_eq!(wallet.source(&conf("alice")), RuntimeSource::Named("cold_2024".to_string()));
}

#[test]
fn empty_default_wallet_is_taken_as_it_is() {
    let wallet = options(false, false, false);
    assert_eq!(wallet.source(&conf("")), RuntimeSource::Named(String::new()));
}

#[test]
fn only_an_inline_source_is_inline() {
    let settings = conf("alice");
    assert!(options(true, true, true).source(&settings).is_inline());
    assert!(!options(false, true, true).source(&settings).is_inline());
    assert!(!options(false, false, true).source(&settings).is_inline());
    assert!(!options(false, false, false).source(&settings).is_inline());
}

#[test]
fn each_source_has_its_notice() {
    let settings = conf("alice");
    assert_eq!(options(true, false, false).source(&settings).notice(), Notice::FromArgument);
    assert_eq!(options(false, true, false).source(&settings).notice(), Notice::FromDirectory);
    assert_eq!(
        options(false, false, true).source(&settings).notice(),
        Notice::FromWallet("bob".to_string())
    );
    assert_eq!(
        options(false, false, false).source(&settings).notice(),
        Notice::FromWallet("alice".to_string())
    );
}

#[test]
fn wallet_dir_is_the_name_under_the_base_dir() {
    assert_eq!(general().wallet_dir("alice"), PathBuf::from("/data/testnet/alice"));
}

#[test]
fn wallet_dir_differs_from_the_base_dir() {
    let general = general();
    assert_ne!(general.wallet_dir("alice"), general.base_dir());
    assert_ne!(general.wallet_dir("alice"), general.wallet_dir("bob"));
}

#[test]
fn base_dir_is_handed_out_unchanged() {
    assert_eq!(general().base_dir(), PathBuf::from("/data/testnet"));
}

#[test]
fn conf_path_is_bp_toml_in_the_base_dir() {
    let args = Args {
        verbose: 0,
        wallet: options(false, false, false),
        resolver: ResolverOptions {
            sync: false,
            esplora: "https://blockstream.info/testnet/api".to_string(),
        },
        general: general(),
        command: (),
    };
    assert_eq!(args.conf_path(), PathBuf::from("/data/testnet/bp.toml"));
}

#[test]
fn inline_source_is_constructed_on_the_configured_chain() {
    let descriptor = "wpkh(xpub)".to_string();
    let task = RuntimeSource::Inline(&descriptor).acquisition(&general());
    assert_eq!(
        task,
        Acquisition::Construct {
            descriptor: &descriptor,
            chain: Chain::Testnet3,
        }
    );
}

#[test]
fn path_source_is_loaded_from_that_path() {
    let dir = PathBuf::from("/w");
    let task = RuntimeSource::<String>::Path(&dir).acquisition(&general());
    assert_eq!(task, Acquisition::Load { dir: PathBuf::from("/w") });
}

#[test]
fn named_source_is_loaded_from_its_wallet_dir() {
    let general = general();
    let task = RuntimeSource::<String>::Named("alice".to_string()).acquisition(&general);
    assert_eq!(
        task,
        Acquisition::Load {
            dir: general.wallet_dir("alice"),
        }
    );
    assert_eq!(
        task,
        Acquisition::Load {
            dir: PathBuf::from("/data/testnet/alice"),
        }
    );
}
