[package]
name = "hotham"
version = "0.1.0"
edition = "2021"
publish = false

[dependencies]
anyhow = "*"
ash = "*"
gltf = { version = "*", default-features = false, features = ["names", "KHR_materials_pbrSpecularGlossiness"] }
nalgebra = "*"
openxr = { version = "*", default-features = false, features = ["loaded"] }
