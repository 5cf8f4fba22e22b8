[package]
name = "dxgcap"
version = "0.1.0"
edition = "2021"
publish = false

[dependencies]
winapi = { version = "0.3", features = ["dxgi", "dxgi1_2", "dxgitype", "windef", "winerror", "d3d11", "d3dcommon", "unknwnbase", "winuser"] }
wio = "0.2"
