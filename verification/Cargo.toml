[package]
name = "biased_work_queue"
version = "0.1.0"
edition = "2021"
publish = false

[dependencies]
crossbeam = "0.8"
num_cpus = "1"
rayon = "1"
structopt = "0.3"
