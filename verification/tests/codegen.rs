use leek::codegen::{
    generate_assets_keys, generate_audio_buffer_consts, generate_keys_consts,
    generate_texture_keys_consts, key_const_line, runtime_libs, RuntimeLibs,
};

fn names(list: &[&str]) -> Vec<String> {
    list.iter().map(|name| name.to_string()).collect()
}

#[test]
fn texture_keys_are_declared_for_png_files() {
    let text = generate_texture_keys_consts(&names(&["hero.png", "readme.txt", "tiles_01.png"]));
    assert_eq!(
        text,
        "pub const TEX_HERO: PathKey = PathKey(\"assets/textures/hero.png\");\n\
         pub const TEX_TILES_01: PathKey = PathKey(\"assets/textures/tiles_01.png\");\n"
    );
}

#[test]
fn audio_keys_are_declared_for_ogg_files() {
    let text = generate_audio_buffer_consts(&names(&["jump.ogg", "jump.wav", "theme.ogg"]));
    assert_eq!(
        text,
        "pub const AUDIO_JUMP: PathKey = PathKey(\"assets/sounds/jump.ogg\");\n\
         pub const AUDIO_THEME: PathKey = PathKey(\"assets/sounds/theme.ogg\");\n"
    );
}

#[test]
fn no_files_give_no_text() {
    assert_eq!(generate_texture_keys_consts(&names(&[])), "");
    assert_eq!(generate_audio_buffer_consts(&names(&["a.png", "b.txt"])), "");
    assert_eq!(generate_assets_keys(&names(&[]), &names(&[])), (String::new(), String::new()));
}

#[test]
fn a_repeated_extension_is_taken_off_the_name() {
    let text = generate_texture_keys_consts(&names(&["a.png.png", ".png"]));
    assert_eq!(
        text,
        "pub const TEX_A: PathKey = PathKey(\"assets/textures/a.png.png\");\n\
         pub const TEX_: PathKey = PathKey(\"assets/textures/.png\");\n"
    );
}

#[test]
fn names_are_put_in_upper_case() {
    let text = generate_texture_keys_consts(&names(&["straße.png", "MiXed9.png"]));
    assert_eq!(
        text,
        "pub const TEX_STRASSE: PathKey = PathKey(\"assets/textures/straße.png\");\n\
         pub const TEX_MIXED9: PathKey = PathKey(\"assets/textures/MiXed9.png\");\n"
    );
}

#[test]
fn both_texts_come_together() {
    let (textures, sounds) = generate_assets_keys(&names(&["a.png"]), &names(&["b.ogg"]));
    assert_eq!(textures, "pub const TEX_A: PathKey = PathKey(\"assets/textures/a.png\");\n");
    assert_eq!(sounds, "pub const AUDIO_B: PathKey = PathKey(\"assets/sounds/b.ogg\");\n");
}

#[test]
fn any_folder_and_extension_can_be_given() {
    let text = generate_keys_consts(&names(&["map.tmx", "map.png"]), "MAP_", "maps/", ".tmx");
    assert_eq!(text, "pub const MAP_MAP: PathKey = PathKey(\"maps/map.tmx\");\n");
}

#[test]
fn windows_targets_ship_runtime_libraries() {
    assert_eq!(runtime_libs("x86_64-pc-windows-gnu"), RuntimeLibs::Win64Folder);
    assert_eq!(runtime_libs("i686-pc-windows-gnu"), RuntimeLibs::Win32Folder);
    assert_eq!(runtime_libs("x86_64-pc-windows-msvc"), RuntimeLibs::ManifestFolder);
    assert_eq!(runtime_libs("aarch64-pc-windows-gnullvm"), RuntimeLibs::ManifestFolder);
    assert_eq!(runtime_libs("x86_64-unknown-linux-gnu"), RuntimeLibs::Nothing);
    assert_eq!(runtime_libs("x86_64-apple-darwin"), RuntimeLibs::Nothing);
    assert_eq!(runtime_libs(""), RuntimeLibs::Nothing);
}

#[test]
fn a_line_declares_one_key() {
    assert_eq!(
        key_const_line("TEX_", "HERO", "assets/textures/", "hero.png"),
        "pub const TEX_HERO: PathKey = PathKey(\"assets/textures/hero.png\");\n"
    );
    assert_eq!(key_const_line("", "", "", ""), "pub const : PathKey = PathKey(\"\");\n");
}
