[package]
name = "orbitor"
version = "0.1.0"
edition = "2021"
publish = false

[dependencies]
clap = { version = "4", features = ["derive"] }
plotters = { version = "0.3", default-features = false, features = ["bitmap_backend", "bitmap_encoder", "bitmap_gif", "svg_backend", "full_palette", "line_series", "point_series"] }
time = { version = "0.3", features = ["macros", "parsing", "formatting"] }
uom = "*"
