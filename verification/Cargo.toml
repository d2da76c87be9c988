[package]
name = "ping_pong"
version = "0.1.0"
edition = "2021"
publish = false

[dependencies]
bevy = { version = "=0.6.1", default-features = false, features = ["render", "bevy_winit", "x11"] }
bevy-inspector-egui = { version = "=0.8.2", default-features = false }
bevy_prototype_lyon = "=0.4.0"
bevy_rapier2d = "=0.12.1"
# Nothing here calls rapier2d by this line: it only holds the engine to the
# pre-release that bevy_rapier2d 0.12 was written against. Left to itself
# cargo takes 0.12.0 for it, whose API bevy_rapier2d 0.12 does not compile
# with.
rapier2d = "=0.12.0-alpha.0"
