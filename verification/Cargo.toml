[package]
name = "pmu"
version = "0.1.0"
edition = "2021"
publish = false

[dependencies]
perf-event-open-sys = "*"
libc = "0.2"
dlopen2 = "*"
proc_getter = "*"
cfg-if = "1"
