[package]
name = "ibex_demo_system_hal"
version = "0.1.0"
edition = "2021"
publish = false
