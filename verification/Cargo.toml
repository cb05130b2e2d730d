[package]
name = "epoxy_gen"
version = "0.1.0"
edition = "2021"
publish = false

[dependencies]
gl_generator = { version = "=0.14.0", features = ["unstable_generator_utils"] }
