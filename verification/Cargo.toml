[package]
name = "servant-macro"
version = "0.1.0"
edition = "2021"
publish = false

# The parser is built without its `proc-macro` feature: it never talks to a
# compiler, so it reads a text in the same way in every process.
#
# syn 1 knows every kind of literal that proc-macro2 lexes up to 1.0.56.
# Later versions of the lexer also produce C string literals, on which
# syn 1 panics.
[dependencies]
proc-macro2 = { version = "=1.0.56", default-features = false }
quote = { version = "=1.0.28", default-features = false }
syn = { version = "=1.0.109", default-features = false, features = ["clone-impls", "full", "parsing", "printing"] }
