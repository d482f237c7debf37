[package]
name = "chem_tui"
version = "0.1.0"
edition = "2021"
publish = false

[dependencies]
chem-eq = "*"
arboard = "*"
bpaf = { version = "*", features = ["derive"] }
color-eyre = "*"
crossterm = "0.25"
tui = "0.19"
