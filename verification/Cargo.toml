[package]
name = "parse_wiktionary_en"
version = "0.1.0"
edition = "2021"
publish = false

[dependencies]
parse_wiki_text = "*"
serde = "*"
serde_derive = "*"
