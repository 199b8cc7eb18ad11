[package]
name = "bp_util"
version = "0.1.0"
edition = "2021"
publish = false

[dependencies]
bp-std = "=0.10.0-beta.1"
bp-esplora = { version = "=0.10.0", default-features = false, features = ["blocking"] }
clap = { version = "=4.6.7", features = ["derive"] }
serde = { version = "=1.0.229", features = ["derive"] }
strict_encoding = "=2.6.2"
# Not named in the code: held at the version that strict_encoding 2.6.2 is
# written against, since later ones derive code that only 2.7 and up accept.
strict_encoding_derive = "=2.0.1"
