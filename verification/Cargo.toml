[package]
name = "bibfzf"
version = "0.1.0"
edition = "2021"
publish = false

[dependencies]
nom-bibtex = "=0.3.0"
glob = "=0.3.4"
clap = "=2.34.0"
config = "=0.11.0"
dirs = "=4.0.0"
prettytable-rs = "=0.10.0"
skim = "=5.7.4"
