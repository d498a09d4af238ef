[package]
name = "chunk_merge"
version = "0.1.0"
edition = "2021"
publish = false

[dependencies]
anyhow = "1"
ast_node = "=0.7.0"
log = "0.4"
scoped-tls = "=1.0.0"
serde = "=1.0.118"
swc_atoms = "=0.2.13"
swc_common = "=0.9.1"
swc_ecma_ast = "=0.28.0"
swc_ecma_utils = "=0.18.0"
swc_ecma_visit = "=0.14.0"
swc_macros_common = "=0.3.5"
