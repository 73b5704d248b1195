[package]
name = "lakgves"
version = "0.1.0"
edition = "2021"
publish = false

[dependencies]
async-std = "=1.13.2"
serde_json = "=1.0.151"
serde-xml-rs = "=0.4.1"
dhi-xml = "=0.1.3"
sp-xml = "=0.1.6"
extfg-sigma = "=0.3.6"
yaserde = "=0.3.16"
bytes = "=1.12.1"
actix-web = "4"
actix-rt = "2"
futures = "0.3"
structopt = "0.3"
toml = "0.9"
