[package]
name = "win32_remove_dir_all"
version = "0.1.0"
edition = "2021"
publish = false

[dependencies]
winapi = { version = "0.3", features = [
    "combaseapi",
    "fileapi",
    "guiddef",
    "libloaderapi",
    "minwindef",
    "objbase",
    "objidl",
    "shellapi",
    "shobjidl_core",
    "unknwnbase",
    "windef",
    "winerror",
    "winnt",
    "wtypesbase",
] }
