[package]
name = "odbc_dsn_config"
version = "0.1.0"
edition = "2021"
publish = false

[dependencies]
wildmatch = "*"
winreg = "*"
clipboard-win = "*"
native-windows-gui = "*"
nwg_ui = "*"
