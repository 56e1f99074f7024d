//! The source text of the key constants that a game's build generates from
//! the names of its asset files.

use vstd::prelude::*;
use vstd::string::StringExecFns;
use crate::keys::str_equal;

verus! {

/// Whether `text` ends with `suffix`.
pub open spec fn ends_with(text: Seq<char>, suffix: Seq<char>) -> bool {
    text.len() >= suffix.len() && text.subrange(text.len() - suffix.len(), text.len() as int)
        == suffix
}

/// `text` without the copies of `suffix` that it ends with.
pub open spec fn trim_end(text: Seq<char>, suffix: Seq<char>) -> Seq<char>
    decreases text.len(),
{
    if suffix.len() > 0 && ends_with(text, suffix) {
        trim_end(text.take(text.len() - suffix.len()), suffix)
    } else {
        text
    }
}

/// `text` in upper case, as `str::to_uppercase` gives it.
pub uninterp spec fn uppercase(text: Seq<char>) -> Seq<char>;

/// `str::ends_with` with a string as the pattern: whether the second string
/// is a suffix of the first.
#[verifier::external_body]
fn str_ends_with(text: &str, suffix: &str) -> (ends: bool)
    ensures
        ends == ends_with(text@, suffix@),
{
    text.ends_with(suffix)
}

/// `str::trim_end_matches` with a string as the pattern: the first string
/// with every suffix that matches the pattern taken off, over and over.
#[verifier::external_body]
fn str_trim_end<'a>(text: &'a str, suffix: &str) -> (trimmed: &'a str)
    requires
        suffix@.len() > 0,
    ensures
        trimmed@ == trim_end(text@, suffix@),
{
    text.trim_end_matches(suffix)
}

/// Whether `pattern` occurs somewhere in `text`.
pub open spec fn contains_text(text: Seq<char>, pattern: Seq<char>) -> bool {
    exists|start: int|
        0 <= start && start + pattern.len() <= text.len() && #[trigger] text.subrange(
            start,
            start + pattern.len(),
        ) == pattern
}

/// `str::contains` with a string as the pattern: whether the second string
/// occurs in the first.
#[verifier::external_body]
fn str_contains(text: &str, pattern: &str) -> (found: bool)
    ensures
        found == contains_text(text@, pattern@),
{
    text.contains(pattern)
}

/// `str::to_uppercase`: the upper case of the string.
#[verifier::external_body]
fn str_to_uppercase(text: &str) -> (upper: String)
    ensures
        upper@ == uppercase(text@),
{
    text.to_uppercase()
}

/// The line that declares a key: a constant named by `prefix` and
/// `constant`, whose path is the file `name` in `folder`.
pub open spec fn key_line_named(
    prefix: Seq<char>,
    constant: Seq<char>,
    folder: Seq<char>,
    name: Seq<char>,
) -> Seq<char> {
    "pub const "@ + prefix + constant + ": PathKey = PathKey(\""@ + folder + name + "\");\n"@
}

/// The line that declares the key of the asset file `name`: a constant
/// named by `prefix` and the file's name, without its extension and in upper
/// case, whose path is the file's name in `folder`.
pub open spec fn key_line(
    prefix: Seq<char>,
    folder: Seq<char>,
    extension: Seq<char>,
    name: Seq<char>,
) -> Seq<char> {
    key_line_named(prefix, uppercase(trim_end(name, extension)), folder, name)
}

/// The line that declares a key: a constant named by `prefix` and
/// `constant`, whose path is the file `name` in `folder`.
pub fn key_const_line(prefix: &str, constant: &str, folder: &str, name: &str) -> (line: String)
    ensures
        line@ == key_line_named(prefix@, constant@, folder@, name@),
{
    let mut line = String::new();
    line.append("pub const ");
    line.append(prefix);
    line.append(constant);
    line.append(": PathKey = PathKey(\"");
    line.append(folder);
    line.append(name);
    line.append("\");\n");
    assert(line@ =~= key_line_named(prefix@, constant@, folder@, name@));
    line
}

/// The lines that declare the keys of those of `names` that end with
/// `extension`, in the order of `names`.
pub open spec fn key_lines(
    prefix: Seq<char>,
    folder: Seq<char>,
    extension: Seq<char>,
    names: Seq<Seq<char>>,
) -> Seq<char>
    decreases names.len(),
{
    if names.len() == 0 {
        Seq::empty()
    } else {
        let before = key_lines(prefix, folder, extension, names.drop_last());
        if ends_with(names.last(), extension) {
            before + key_line(prefix, folder, extension, names.last())
        } else {
            before
        }
    }
}

/// The file names as text.
pub open spec fn names_of(file_names: Seq<String>) -> Seq<Seq<char>> {
    file_names.map_values(|name: String| name@)
}

/// The source text that declares a key for each of `file_names` that ends
/// with `extension`.
pub fn generate_keys_consts(file_names: &Vec<String>, prefix: &str, folder: &str, extension: &str) -> (text:
    String)
    requires
        extension@.len() > 0,
    ensures
        text@ == key_lines(prefix@, folder@, extension@, names_of(file_names@)),
{
    let mut text = String::new();
    let mut index: usize = 0;
    assert(names_of(file_names@).take(0) =~= Seq::<Seq<char>>::empty());
    while index < file_names.len()
        invariant
            index <= file_names@.len(),
            extension@.len() > 0,
            text@ == key_lines(
                prefix@,
                folder@,
                extension@,
                names_of(file_names@).take(index as int),
            ),
        decreases file_names@.len() - index,
    {
        let name = file_names[index].as_str();
        proof {
            let names = names_of(file_names@);
            assert(names.take(index + 1).drop_last() =~= names.take(index as int));
            assert(names.take(index + 1).last() == name@);
        }
        if str_ends_with(name, extension) {
            let constant = str_to_uppercase(str_trim_end(name, extension));
            let line = key_const_line(prefix, constant.as_str(), folder, name);
            text.append(line.as_str());
        }
        index += 1;
    }
    assert(names_of(file_names@).take(index as int) =~= names_of(file_names@));
    text
}

/// The source text that declares a texture key for each file of
/// `file_names` that is a PNG image.
pub fn generate_texture_keys_consts(file_names: &Vec<String>) -> (text: String)
    ensures
        text@ == key_lines("TEX_"@, "assets/textures/"@, ".png"@, names_of(file_names@)),
{
    proof {
        reveal_strlit(".png");
    }
    generate_keys_consts(file_names, "TEX_", "assets/textures/", ".png")
}

/// The source text that declares an audio key for each file of
/// `file_names` that is an Ogg file.
pub fn generate_audio_buffer_consts(file_names: &Vec<String>) -> (text: String)
    ensures
        text@ == key_lines("AUDIO_"@, "assets/sounds/"@, ".ogg"@, names_of(file_names@)),
{
    proof {
        reveal_strlit(".ogg");
    }
    generate_keys_consts(file_names, "AUDIO_", "assets/sounds/", ".ogg")
}

/// The two source texts of a game's asset keys: the texture keys for the
/// files of its texture folder and the audio keys for the files of its
/// sound folder.
pub fn generate_assets_keys(texture_files: &Vec<String>, sound_files: &Vec<String>) -> (texts: (
    String,
    String,
))
    ensures
        texts.0@ == key_lines("TEX_"@, "assets/textures/"@, ".png"@, names_of(texture_files@)),
        texts.1@ == key_lines("AUDIO_"@, "assets/sounds/"@, ".ogg"@, names_of(sound_files@)),
{
    (generate_texture_keys_consts(texture_files), generate_audio_buffer_consts(sound_files))
}

/// Where a build finds the runtime libraries that it ships with the game.
#[derive(Clone, Copy, Debug, PartialEq, Eq, Structural)]
pub enum RuntimeLibs {
    /// The target ships no libraries.
    Nothing,
    /// The libraries lie beside the build manifest.
    ManifestFolder,
    /// The libraries lie in the folder `runtimes/win32` beside the manifest.
    Win32Folder,
    /// The libraries lie in the folder `runtimes/win64` beside the manifest.
    Win64Folder,
}

/// Where the libraries of a build for `target` lie: a Windows target ships
/// the libraries of the folder for its word size if it is a GNU target, and
/// those beside the manifest if not; no other target ships any.
pub open spec fn runtime_libs_for(target: Seq<char>) -> RuntimeLibs {
    if !contains_text(target, "pc-windows"@) {
        RuntimeLibs::Nothing
    } else if target == "x86_64-pc-windows-gnu"@ {
        RuntimeLibs::Win64Folder
    } else if target == "i686-pc-windows-gnu"@ {
        RuntimeLibs::Win32Folder
    } else {
        RuntimeLibs::ManifestFolder
    }
}

/// Where the runtime libraries of a build for `target` lie.
pub fn runtime_libs(target: &str) -> (libs: RuntimeLibs)
    ensures
        libs == runtime_libs_for(target@),
{
    if !str_contains(target, "pc-windows") {
        RuntimeLibs::Nothing
    } else if str_equal(target, "x86_64-pc-windows-gnu") {
        RuntimeLibs::Win64Folder
    } else if str_equal(target, "i686-pc-windows-gnu") {
        RuntimeLibs::Win32Folder
    } else {
        RuntimeLibs::ManifestFolder
    }
}

} // verus!
