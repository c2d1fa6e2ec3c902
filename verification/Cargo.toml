[package]
name = "tailclip"
version = "0.1.0"
edition = "2021"
publish = false

[dependencies]
arboard = "3"
if-addrs = "*"
objc2-app-kit = { version = "0.3", default-features = false, features = ["std", "NSPasteboard"] }
objc2-foundation = { version = "0.3", default-features = false, features = ["std", "NSData", "NSString"] }
png = "0.18"
tiny_http = "0.12"
ureq = { version = "3", default-features = false }
