[package]
name = "biome_configuration"
version = "0.1.0"
edition = "2021"
publish = false

[dependencies]
biome_deserialize = "=0.6.0"
biome_json_parser = "=0.5.7"
bpaf = { version = "=0.9.28", features = ["derive"] }
oxc_resolver = "=1.12.0"

# No file names the crates below. biome_deserialize 0.6.0 and
# biome_json_parser 0.5.7 ask for them as "0.5.7" and compile against that
# release only: with the later patches of biome_rowan, biome_json_syntax 0.5.7
# does not build. These lines hold them at 0.5.7.
biome_console = "=0.5.7"
biome_diagnostics = "=0.5.7"
biome_parser = "=0.5.7"
biome_rowan = "=0.5.7"
biome_text_edit = "=0.5.7"
biome_text_size = "=0.5.7"
biome_unicode_table = "=0.5.7"
