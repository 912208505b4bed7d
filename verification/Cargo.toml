[package]
name = "helioselene-contest"
version = "0.1.0"
edition = "2021"
publish = false

[dependencies]
ff = { version = "0.13", features = ["bits"] }
group = "0.13"
ff-group-tests = "0.13"
rand_core = { version = "0.6", features = ["getrandom"] }
criterion = { version = "0.5", default-features = false }

[dev-dependencies]
dalek-ff-group = "*"
