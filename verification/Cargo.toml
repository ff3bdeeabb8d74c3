[package]
name = "termusic"
version = "0.1.0"
edition = "2021"
publish = false

[dependencies]
serde_json = "1.0"
base64 = "0.13"
tuirealm = "1"
tui-realm-stdlib = "1"
tui-realm-treeview = "1"
ytd-rs = "0.1"
rusqlite = "0.27"
discord-rich-presence = "0.2"
