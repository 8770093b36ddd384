[package]
name = "sqlx_ts"
version = "0.1.0"
edition = "2021"
publish = false

[dependencies]
regex = "=1.13.1"
convert_case = "=0.12.0"
url = "=2.5.8"
swc_common = "=26.0.0"
swc_ecma_ast = "=29.0.2"
swc_ecma_parser = "*"
postgres = "=0.19.14"
dotenv = "=0.15.0"
colored = "=3.1.1"
