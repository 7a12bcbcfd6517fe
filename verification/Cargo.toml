[package]
name = "bug_report"
version = "0.1.0"
edition = "2021"
publish = false

[dependencies]
clipboard = "=0.5.0"
dirs = "=2.0.2"
open = "=1.7.1"
os_info = "3"
reqwest = "=0.9.24"
urlencoding = "=1.3.3"
