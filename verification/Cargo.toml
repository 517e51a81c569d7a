[package]
name = "mailbox"
version = "0.1.0"
edition = "2021"
publish = false

[dependencies]
dotenv = "0.15"
imap = "2"
mail-parser = "*"
native-tls = "0.2"
ratatui = "*"
tui-input = "*"
