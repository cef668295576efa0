//! The sound library: sounds, their stored metadata, settings, imports and deletion.

use std::path::PathBuf;

use vstd::prelude::*;
use vstd::string::StringExecFns;

use crate::failure;
use crate::failure::{Failure, FailureKind};
use crate::path;
use crate::path::{
    child, decode_component, display, extension_of, join_path, name_of, parent_of, same_path,
    sort_paths, stem_of, with_extension,
};
use crate::text;
use crate::text::{join3, number, to_lowercase};

verus! {

/// The version that a stored library has.
pub const LIBRARY_VERSION: u8 = 1;

/// The loudest volume.
pub const MAX_VOLUME: u8 = 100;

/// What the user has chosen.
pub struct Settings {
    pub local_playback: bool,
    pub audio: AudioSettings,
}

/// Where sounds are sent.
pub struct AudioSettings {
    pub onboarding_complete: bool,
    pub mix_sink: Option<String>,
    pub virtual_source: Option<String>,
    pub physical_source: Option<String>,
    pub managed_mix: bool,
}

/// A sound of the library.
pub struct Sound {
    pub name: String,
    pub path: PathBuf,
    pub aliases: Vec<String>,
    pub volume: u8,
}

/// What an import did.
pub struct ImportReport {
    pub imported: usize,
    pub errors: Vec<String>,
}

/// What is stored of a sound.
pub struct SoundMetadata {
    pub file: String,
    pub name: String,
    pub aliases: Vec<String>,
    pub volume: u8,
}

/// The stored library.
pub struct LibraryFile {
    pub version: u8,
    pub sounds: Vec<SoundMetadata>,
}

/// What came of reading a stored file.
pub enum Stored<T> {
    /// It holds this.
    Read(T),
    /// It could not be understood.
    Malformed(String),
    /// It could not be read.
    Unreadable(Failure),
}

/// A file to be stored: the contents go to the temporary path, which then takes the place of the
/// other.
pub struct Save<T> {
    pub contents: T,
    pub path: PathBuf,
    pub temporary_path: PathBuf,
}

impl Default for AudioSettings {
    fn default() -> (settings: AudioSettings)
        ensures
            settings == AudioSettings::unset(),
    {
        AudioSettings {
            onboarding_complete: false,
            mix_sink: None,
            virtual_source: None,
            physical_source: None,
            managed_mix: false,
        }
    }
}

impl Default for Settings {
    fn default() -> (settings: Settings)
        ensures
            settings == (Settings { local_playback: false, audio: AudioSettings::unset() }),
    {
        Settings { local_playback: false, audio: AudioSettings::default() }
    }
}

impl AudioSettings {
    /// Nothing has been set up.
    pub open spec fn unset() -> AudioSettings {
        AudioSettings {
            onboarding_complete: false,
            mix_sink: None,
            virtual_source: None,
            physical_source: None,
            managed_mix: false,
        }
    }
}

impl Clone for AudioSettings {
    fn clone(&self) -> (settings: AudioSettings)
        ensures
            settings == *self,
    {
        AudioSettings {
            onboarding_complete: self.onboarding_complete,
            mix_sink: self.mix_sink.clone(),
            virtual_source: self.virtual_source.clone(),
            physical_source: self.physical_source.clone(),
            managed_mix: self.managed_mix,
        }
    }
}

impl Clone for Settings {
    fn clone(&self) -> (settings: Settings)
        ensures
            settings == *self,
    {
        Settings { local_playback: self.local_playback, audio: self.audio.clone() }
    }
}

/// The same texts once more.
pub fn copy_texts(texts: &Vec<String>) -> (copy: Vec<String>)
    ensures
        copy@ == texts@,
{
    let mut copy: Vec<String> = Vec::new();
    let mut i: usize = 0;
    while i < texts.len()
        invariant
            i <= texts@.len(),
            copy@ == texts@.take(i as int),
        decreases texts@.len() - i,
    {
        copy.push(texts[i].clone());
        assert(texts@.take(i + 1) == texts@.take(i as int).push(texts@[i as int]));
        i += 1;
    }
    assert(texts@.take(i as int) == texts@);
    copy
}

/// The file name of a path, or `unknown` where it has none that is UTF-8.
pub open spec fn file_name_text(path: PathBuf) -> Seq<char> {
    match path::component_text(path::name_in(path::path_bytes(path))) {
        Some(name) => name,
        None => "unknown"@,
    }
}

/// The text with a space for each hyphen and underscore.
pub open spec fn spaced(text: Seq<char>) -> Seq<char> {
    text.map_values(|c: char| spaced_char(c))
}

/// A space for a hyphen and for an underscore; any other character stays.
pub open spec fn spaced_char(c: char) -> char {
    if c == '-' || c == '_' {
        ' '
    } else {
        c
    }
}

/// The name that a sound has without metadata: its file name without extension, spaced.
pub open spec fn default_name_text(path: PathBuf) -> Seq<char> {
    match path::component_text(path::stem_in(path::path_bytes(path))) {
        Some(stem) => spaced(stem),
        None => spaced("unknown"@),
    }
}

/// An extension of a supported audio format, in lower case.
pub open spec fn audio_extension(extension: Seq<char>) -> bool {
    ||| extension == "aac"@
    ||| extension == "flac"@
    ||| extension == "m4a"@
    ||| extension == "mp3"@
    ||| extension == "ogg"@
    ||| extension == "opus"@
    ||| extension == "wav"@
}

/// The path has the extension of a supported audio format, in upper or lower case.
pub open spec fn supported(path: PathBuf) -> bool {
    match path::component_text(path::extension_in(path::path_bytes(path))) {
        Some(extension) => audio_extension(text::lowercase(extension)),
        None => false,
    }
}

/// The file name of a path, or `unknown` where it has none that is UTF-8.
pub fn file_name(path: &PathBuf) -> (name: String)
    ensures
        name@ == file_name_text(*path),
{
    match decode_component(name_of(path)) {
        Some(name) => name,
        None => "unknown".to_owned(),
    }
}

/// The text with a space for each hyphen and underscore.
pub fn space_out(text: &str) -> (result: String)
    ensures
        result@ == spaced(text@),
{
    let mut result = String::new();
    for c in it: text.chars()
        invariant
            it.seq() == text@,
            result@ == spaced(text@.take(it.index())),
    {
        let ghost seen = text@.take(it.index());
        result.push(
            if c == '-' || c == '_' {
                ' '
            } else {
                c
            },
        );
        assert(text@.take(it.index() + 1) == seen.push(c));
        assert(spaced(seen.push(c)) == spaced(seen).push(spaced_char(c)));
    }
    assert(text@.take(text@.len() as int) == text@);
    result
}

/// The name that a sound has without metadata.
pub fn default_name(path: &PathBuf) -> (name: String)
    ensures
        name@ == default_name_text(*path),
{
    match decode_component(stem_of(path)) {
        Some(stem) => space_out(&stem),
        None => space_out("unknown"),
    }
}

/// Whether the path has the extension of a supported audio format.
pub fn is_supported_audio(path: &PathBuf) -> (is_supported: bool)
    ensures
        is_supported == supported(*path),
{
    match decode_component(extension_of(path)) {
        Some(extension) => is_audio_extension(&extension),
        None => false,
    }
}

/// Whether an extension is that of a supported audio format, in upper or lower case.
pub fn is_audio_extension(extension: &str) -> (is_audio: bool)
    ensures
        is_audio == audio_extension(text::lowercase(extension@)),
        extension.is_ascii() ==> is_audio == audio_extension(text::ascii_lower(extension@)),
{
    names_audio_format(&to_lowercase(extension))
}

/// Whether an extension in lower case is that of a supported audio format.
pub fn names_audio_format(lower: &str) -> (is_audio: bool)
    ensures
        is_audio == audio_extension(lower@),
{
    lower.eq("aac") || lower.eq("flac") || lower.eq("m4a") || lower.eq("mp3") || lower.eq("ogg")
        || lower.eq("opus") || lower.eq("wav")
}

/// The sound is the one at this path, with this metadata; without metadata it has its default
/// name, no aliases and full volume.
pub open spec fn sound_with(sound: Sound, path: PathBuf, metadata: Option<SoundMetadata>) -> bool {
    &&& sound.path == path
    &&& match metadata {
        Some(metadata) => {
            &&& sound.name@ == metadata.name@
            &&& sound.aliases@ == metadata.aliases@
            &&& sound.volume == if metadata.volume <= MAX_VOLUME {
                metadata.volume
            } else {
                MAX_VOLUME
            }
        },
        None => {
            &&& sound.name@ == default_name_text(path)
            &&& sound.aliases@.len() == 0
            &&& sound.volume == MAX_VOLUME
        },
    }
}

/// The metadata describes the sound.
pub open spec fn describes(metadata: SoundMetadata, sound: Sound) -> bool {
    &&& metadata.file@ == file_name_text(sound.path)
    &&& metadata.name@ == sound.name@
    &&& metadata.aliases@ == sound.aliases@
    &&& metadata.volume == sound.volume
}

impl Sound {
    /// The sound at a path, with its stored metadata where there is any.
    pub fn from_path(path: PathBuf, metadata: Option<&SoundMetadata>) -> (sound: Sound)
        ensures
            sound_with(
                sound,
                path,
                match metadata {
                    Some(metadata) => Some(*metadata),
                    None => None,
                },
            ),
    {
        match metadata {
            Some(metadata) => Sound {
                name: metadata.name.clone(),
                path,
                aliases: copy_texts(&metadata.aliases),
                volume: if metadata.volume <= MAX_VOLUME {
                    metadata.volume
                } else {
                    MAX_VOLUME
                },
            },
            None => Sound {
                name: default_name(&path),
                path,
                aliases: Vec::new(),
                volume: MAX_VOLUME,
            },
        }
    }

    /// The sound's file name, or `unknown`.
    pub fn file_name(&self) -> (name: String)
        ensures
            name@ == file_name_text(self.path),
    {
        file_name(&self.path)
    }

    /// What is stored of the sound.
    pub fn metadata(&self) -> (metadata: SoundMetadata)
        ensures
            describes(metadata, *self),
    {
        SoundMetadata {
            file: self.file_name(),
            name: self.name.clone(),
            aliases: copy_texts(&self.aliases),
            volume: self.volume,
        }
    }
}

/// The place of the last entry for a file, or -1.
pub open spec fn last_entry(entries: Seq<SoundMetadata>, file: Seq<char>) -> int
    decreases entries.len(),
{
    if entries.len() == 0 {
        -1
    } else if entries.last().file@ == file {
        entries.len() - 1
    } else {
        last_entry(entries.drop_last(), file)
    }
}

/// The metadata for the path at place `at`: the last entry for its file name, unless an earlier
/// path has that file name too.
pub open spec fn metadata_at(entries: Seq<SoundMetadata>, paths: Seq<PathBuf>, at: int) -> Option<
    SoundMetadata,
> {
    let file = file_name_text(paths[at]);
    if (exists|i: int| 0 <= i < at && file_name_text(#[trigger] paths[i]) == file) || last_entry(
        entries,
        file,
    ) < 0 {
        None
    } else {
        Some(entries[last_entry(entries, file)])
    }
}

/// The paths of sounds.
pub open spec fn paths_of(sounds: Seq<Sound>) -> Seq<PathBuf> {
    sounds.map_values(|sound: Sound| sound.path)
}

/// The sounds are those of the files that are supported audio, in the order of their paths, each
/// with its stored metadata.
pub open spec fn loaded(
    sounds: Seq<Sound>,
    files: Seq<PathBuf>,
    entries: Seq<SoundMetadata>,
) -> bool {
    let paths = paths_of(sounds);
    &&& paths.to_multiset() == files.filter(|file: PathBuf| supported(file)).to_multiset()
    &&& path::in_path_order(paths)
    &&& forall|i: int|
        0 <= i < sounds.len() ==> sound_with(
            #[trigger] sounds[i],
            paths[i],
            metadata_at(entries, paths, i),
        )
}

fn find_entry<'a>(entries: &'a Vec<SoundMetadata>, file: &str) -> (found: Option<&'a SoundMetadata>)
    ensures
        match found {
            Some(entry) => 0 <= last_entry(entries@, file@) < entries@.len() && *entry
                == entries@[last_entry(entries@, file@)],
            None => last_entry(entries@, file@) < 0,
        },
{
    let mut i: usize = entries.len();
    assert(entries@.take(i as int) == entries@);
    while i > 0
        invariant
            i <= entries@.len(),
            last_entry(entries@, file@) == last_entry(entries@.take(i as int), file@),
        decreases i,
    {
        assert(entries@.take(i as int).drop_last() == entries@.take(i - 1));
        if entries[i - 1].file.as_str().eq(file) {
            return Some(&entries[i - 1]);
        }
        i -= 1;
    }
    None
}

fn name_taken(paths: &Vec<PathBuf>, until: usize, file: &str) -> (taken: bool)
    requires
        until <= paths@.len(),
    ensures
        taken == exists|i: int|
            0 <= i < until && file_name_text(#[trigger] paths@[i]) == file@,
{
    let mut i: usize = 0;
    while i < until
        invariant
            i <= until <= paths@.len(),
            forall|k: int| 0 <= k < i ==> file_name_text(#[trigger] paths@[k]) != file@,
        decreases until - i,
    {
        if file_name(&paths[i]).as_str().eq(file) {
            return true;
        }
        i += 1;
    }
    false
}

fn keep_supported(files: Vec<PathBuf>) -> (kept: Vec<PathBuf>)
    ensures
        kept@ == files@.filter(|file: PathBuf| supported(file)),
{
    let ghost wanted = |file: PathBuf| supported(file);
    let mut kept: Vec<PathBuf> = Vec::new();
    let mut i: usize = 0;
    proof {
        reveal(Seq::filter);
    }
    assert(files@.take(0) == Seq::<PathBuf>::empty());
    while i < files.len()
        invariant
            i <= files@.len(),
            wanted == (|file: PathBuf| supported(file)),
            kept@ == files@.take(i as int).filter(wanted),
        decreases files@.len() - i,
    {
        assert(files@.take(i + 1) == files@.take(i as int).push(files@[i as int]));
        proof {
            files@.take(i as int).lemma_filter_push(files@[i as int], wanted);
        }
        if is_supported_audio(&files[i]) {
            kept.push(files[i].clone());
        }
        i += 1;
    }
    assert(files@.take(i as int) == files@);
    kept
}

/// Brings the regular files of the sounds directory together with the stored library: one sound
/// for each supported file. Entries without a file are passed over.
pub fn load_sounds(files: Vec<PathBuf>, library: &LibraryFile) -> (sounds: Vec<Sound>)
    ensures
        loaded(sounds@, files@, library.sounds@),
{
    let paths = sort_paths(keep_supported(files));
    let mut sounds: Vec<Sound> = Vec::new();
    let mut i: usize = 0;
    while i < paths.len()
        invariant
            i <= paths@.len(),
            sounds@.len() == i,
            forall|k: int|
                0 <= k < i ==> sound_with(
                    #[trigger] sounds@[k],
                    paths@[k],
                    metadata_at(library.sounds@, paths@, k),
                ),
        decreases paths@.len() - i,
    {
        let file = file_name(&paths[i]);
        let taken = name_taken(&paths, i, &file);
        let metadata = if taken {
            None
        } else {
            find_entry(&library.sounds, &file)
        };
        assert(match metadata {
            Some(metadata) => metadata_at(library.sounds@, paths@, i as int) == Some(*metadata),
            None => metadata_at(library.sounds@, paths@, i as int) is None,
        });
        sounds.push(Sound::from_path(paths[i].clone(), metadata));
        i += 1;
    }
    assert(paths_of(sounds@) =~= paths@);
    sounds
}

/// The stored library holds exactly these sounds.
pub open spec fn stores(library: LibraryFile, sounds: Seq<Sound>) -> bool {
    &&& library.version == LIBRARY_VERSION
    &&& library.sounds@.len() == sounds.len()
    &&& forall|i: int|
        0 <= i < sounds.len() ==> describes(#[trigger] library.sounds@[i], sounds[i])
}

/// Where a file in the data directory is stored, and its temporary path, which stands beside it
/// and has `.tmp` behind its name.
pub open spec fn saved_at<T>(save: Save<T>, data_dir: PathBuf, name: Seq<char>) -> bool {
    let target = path::child_in(path::path_bytes(data_dir), name);
    &&& path::path_bytes(save.path) == target
    &&& path::path_bytes(save.temporary_path) == path::path_with_extension(target, "toml.tmp"@)
    &&& path::components_in(path::path_bytes(save.temporary_path)) == path::components_in(
        path::path_bytes(data_dir),
    ).push(vstd::utf8::encode_utf8(name + ".tmp"@))
}

proof fn lemma_temporary_name(directory: Seq<u8>, stem: Seq<char>)
    requires
        vstd::utf8::is_ascii_chars(stem),
        stem.len() > 0,
        !stem.contains('/'),
        !stem.contains('.'),
    ensures
        ({
            let target = path::child_in(directory, stem + ".toml"@);
            &&& path::name_in(target) is Some
            &&& path::components_with_extension(target, "toml.tmp"@) == path::components_in(
                directory,
            ).push(vstd::utf8::encode_utf8(stem + ".toml"@ + ".tmp"@))
        }),
{
    let name = vstd::utf8::encode_utf8(stem + ".toml"@);
    let bytes = vstd::utf8::encode_utf8(stem);
    let rest = vstd::utf8::encode_utf8(".toml"@);
    reveal_strlit(".toml");
    reveal_strlit(".tmp");
    reveal_strlit("toml.tmp");
    text::lemma_encode_append(stem, ".toml"@);
    vstd::utf8::is_ascii_chars_encode_utf8(stem);
    vstd::utf8::is_ascii_chars_encode_utf8(".toml"@);
    assert(rest =~= seq![46u8, 116u8, 111u8, 109u8, 108u8]);
    assert forall|i: int| 0 <= i < bytes.len() implies #[trigger] bytes[i] != 47 && bytes[i]
        != 46 by {
        assert(stem.contains(stem[i]));
    }
    assert(name == bytes + rest);
    assert(path::is_piece(name) && path::is_name(name));
    path::joined_piece_is_last(directory, name);
    path::lemma_last_place_at(name, 46, bytes.len() as int);
    assert(name.take(bytes.len() as int) =~= bytes);
    assert(stem + ".toml"@ + ".tmp"@ =~= stem + seq!['.'] + "toml.tmp"@);
    text::lemma_encode_append(stem, seq!['.']);
    text::lemma_encode_append(stem + seq!['.'], "toml.tmp"@);
    vstd::utf8::is_ascii_chars_encode_utf8(seq!['.']);
    assert(bytes + vstd::utf8::encode_utf8(seq!['.']) =~= bytes.push(46));
    assert(path::components_in(directory).push(name).drop_last() =~= path::components_in(directory));
}

/// What is to be stored so that the library holds these sounds.
pub fn save_sounds(data_dir: &PathBuf, sounds: &[Sound]) -> (save: Save<LibraryFile>)
    ensures
        stores(save.contents, sounds@),
        saved_at(save, *data_dir, "library.toml"@),
{
    let mut entries: Vec<SoundMetadata> = Vec::new();
    let mut i: usize = 0;
    while i < sounds.len()
        invariant
            i <= sounds@.len(),
            entries@.len() == i,
            forall|k: int| 0 <= k < i ==> describes(#[trigger] entries@[k], sounds@[k]),
        decreases sounds@.len() - i,
    {
        entries.push(sounds[i].metadata());
        i += 1;
    }
    let path = child(data_dir, "library.toml");
    proof {
        reveal_strlit("toml.tmp");
        reveal_strlit("library");
        reveal_strlit("library.toml");
        reveal_strlit(".toml");
        assert("library.toml"@ =~= "library"@ + ".toml"@);
        lemma_temporary_name(path::path_bytes(*data_dir), "library"@);
    }
    let temporary_path = with_extension(&path, "toml.tmp");
    Save {
        contents: LibraryFile { version: LIBRARY_VERSION, sounds: entries },
        path,
        temporary_path,
    }
}

/// What is to be stored so that these settings are kept.
pub fn save_settings(data_dir: &PathBuf, settings: &Settings) -> (save: Save<Settings>)
    ensures
        keeps(save, *settings),
        saved_at(save, *data_dir, "settings.toml"@),
{
    let path = child(data_dir, "settings.toml");
    proof {
        reveal_strlit("toml.tmp");
        reveal_strlit("settings");
        reveal_strlit("settings.toml");
        reveal_strlit(".toml");
        assert("settings.toml"@ =~= "settings"@ + ".toml"@);
        lemma_temporary_name(path::path_bytes(*data_dir), "settings"@);
    }
    let temporary_path = with_extension(&path, "toml.tmp");
    Save { contents: settings.clone(), path, temporary_path }
}

/// What is saved is the settings.
pub open spec fn keeps(save: Save<Settings>, settings: Settings) -> bool {
    save.contents == settings
}

/// The settings, by what reading their file gave: the defaults where there is no file.
pub open spec fn settings_in(stored: Stored<Settings>) -> Result<Settings, Failure> {
    match stored {
        Stored::Read(settings) => Ok(settings),
        Stored::Malformed(message) => Err(Failure { kind: FailureKind::InvalidData, message }),
        Stored::Unreadable(failure) => if failure.kind == FailureKind::NotFound {
            Ok(Settings { local_playback: false, audio: AudioSettings::unset() })
        } else {
            Err(failure)
        },
    }
}

/// The settings, by what reading their file gave.
pub fn load_settings(stored: Stored<Settings>) -> (settings: Result<Settings, Failure>)
    ensures
        settings == settings_in(stored),
{
    match stored {
        Stored::Read(settings) => Ok(settings),
        Stored::Malformed(message) => Err(Failure { kind: FailureKind::InvalidData, message }),
        Stored::Unreadable(failure) => if failure.kind == FailureKind::NotFound {
            Ok(Settings::default())
        } else {
            Err(failure)
        },
    }
}

/// Settings that were saved are the settings that are loaded.
pub proof fn saved_settings_are_loaded(save: Save<Settings>, settings: Settings)
    requires
        keeps(save, settings),
    ensures
        settings_in(Stored::Read(save.contents)) == Ok::<Settings, Failure>(settings),
{
}

/// The stored library, by what reading its file gave: an empty one where there is no file.
pub fn load_library_file(stored: Stored<LibraryFile>) -> (library: Result<LibraryFile, Failure>)
    ensures
        match stored {
            Stored::Read(stored) => library == Ok::<LibraryFile, Failure>(stored),
            Stored::Malformed(message) => library == Err::<LibraryFile, Failure>(
                Failure { kind: FailureKind::InvalidData, message },
            ),
            Stored::Unreadable(failure) => if failure.kind == FailureKind::NotFound {
                library is Ok && library->Ok_0.version == LIBRARY_VERSION
                    && library->Ok_0.sounds@.len() == 0
            } else {
                library == Err::<LibraryFile, Failure>(failure)
            },
        },
{
    match stored {
        Stored::Read(library) => Ok(library),
        Stored::Malformed(message) => Err(Failure { kind: FailureKind::InvalidData, message }),
        Stored::Unreadable(failure) => if failure.kind == FailureKind::NotFound {
            Ok(LibraryFile { version: LIBRARY_VERSION, sounds: Vec::new() })
        } else {
            Err(failure)
        },
    }
}

proof fn lemma_last_entry_of_stored(
    entries: Seq<SoundMetadata>,
    sounds: Seq<Sound>,
    at: int,
)
    requires
        entries.len() == sounds.len(),
        0 <= at < sounds.len(),
        forall|i: int| 0 <= i < sounds.len() ==> describes(#[trigger] entries[i], sounds[i]),
        forall|i: int|
            0 <= i < sounds.len() && i != at ==> file_name_text((#[trigger] sounds[i]).path)
                != file_name_text(sounds[at].path),
    ensures
        last_entry(entries, file_name_text(sounds[at].path)) == at,
    decreases entries.len(),
{
    let last = entries.len() - 1;
    assert(describes(entries[last], sounds[last]));
    if last != at {
        assert forall|i: int| 0 <= i < last implies describes(
            #[trigger] entries.drop_last()[i],
            sounds.drop_last()[i],
        ) by {
            assert(describes(entries[i], sounds[i]));
        }
        lemma_last_entry_of_stored(entries.drop_last(), sounds.drop_last(), at);
    }
}

/// What is saved is loaded again: where the sounds were stored and sounds are loaded with that
/// library, a sound whose file is found comes back with its name, its aliases and its volume, as
/// long as no other sound and no other file has its file name.
pub proof fn saved_sound_is_loaded(
    sounds: Seq<Sound>,
    library: LibraryFile,
    files: Seq<PathBuf>,
    reloaded: Seq<Sound>,
    from: int,
    at: int,
)
    requires
        stores(library, sounds),
        loaded(reloaded, files, library.sounds@),
        0 <= from < sounds.len(),
        0 <= at < reloaded.len(),
        reloaded[at].path == sounds[from].path,
        sounds[from].volume <= MAX_VOLUME,
        forall|i: int|
            0 <= i < sounds.len() && i != from ==> file_name_text((#[trigger] sounds[i]).path)
                != file_name_text(sounds[from].path),
        forall|i: int|
            0 <= i < reloaded.len() && i != at ==> file_name_text((#[trigger] reloaded[i]).path)
                != file_name_text(sounds[from].path),
    ensures
        reloaded[at].name@ == sounds[from].name@,
        reloaded[at].aliases@ == sounds[from].aliases@,
        reloaded[at].volume == sounds[from].volume,
{
    let paths = paths_of(reloaded);
    lemma_last_entry_of_stored(library.sounds@, sounds, from);
    assert(describes(library.sounds@[from], sounds[from]));
    assert(paths[at] == sounds[from].path);
    assert forall|i: int| 0 <= i < at implies file_name_text(#[trigger] paths[i])
        != file_name_text(paths[at]) by {
        assert(paths[i] == reloaded[i].path);
    }
    assert(sound_with(reloaded[at], paths[at], metadata_at(library.sounds@, paths, at)));
}

/// No two of the sounds have the same file name.
pub open spec fn names_differ(sounds: Seq<Sound>) -> bool {
    forall|i: int, j: int|
        0 <= i < j < sounds.len() ==> file_name_text((#[trigger] sounds[i]).path)
            != file_name_text((#[trigger] sounds[j]).path)
}

/// The sounds are the same in name, path, aliases and volume, one by one and in the same order.
pub open spec fn same_sounds(left: Seq<Sound>, right: Seq<Sound>) -> bool {
    &&& left.len() == right.len()
    &&& forall|i: int|
        0 <= i < left.len() ==> {
            &&& (#[trigger] left[i]).path == right[i].path
            &&& left[i].name@ == right[i].name@
            &&& left[i].aliases@ == right[i].aliases@
            &&& left[i].volume == right[i].volume
        }
}

proof fn lemma_filter_count<A>(items: Seq<A>, wanted: spec_fn(A) -> bool, item: A)
    ensures
        items.filter(wanted).to_multiset().count(item) == if wanted(item) {
            items.to_multiset().count(item)
        } else {
            0
        },
    decreases items.len(),
{
    broadcast use vstd::seq_lib::group_to_multiset_ensures;

    reveal(Seq::filter);
    if items.len() > 0 {
        let rest = items.drop_last();
        lemma_filter_count(rest, wanted, item);
        assert(rest.push(items.last()) =~= items);
    }
}

/// The same paths in the order of paths are the same list, where paths with equal file names are
/// equal.
proof fn lemma_one_order(left: Seq<PathBuf>, right: Seq<PathBuf>)
    requires
        left.to_multiset() == right.to_multiset(),
        path::in_path_order(left),
        path::in_path_order(right),
        forall|i: int, j: int|
            0 <= i < left.len() && 0 <= j < left.len() && file_name_text(#[trigger] left[i])
                == file_name_text(#[trigger] left[j]) ==> i == j,
    ensures
        left == right,
    decreases left.len(),
{
    broadcast use vstd::seq_lib::group_to_multiset_ensures;

    assert(left.len() == right.len()) by {
        left.to_multiset_ensures();
        right.to_multiset_ensures();
    }
    if left.len() > 0 {
        let first = left[0];
        let other = right[0];
        assert(left.to_multiset().count(first) > 0);
        assert(right.contains(first));
        let k = choose|k: int| 0 <= k < right.len() && right[k] == first;
        assert(right.to_multiset().count(other) > 0);
        assert(left.contains(other));
        let m = choose|m: int| 0 <= m < left.len() && left[m] == other;
        assert(path::path_not_after(path::path_bytes(right[0]), path::path_bytes(right[k])));
        if m > 0 {
            assert(path::path_not_after(path::path_bytes(left[0]), path::path_bytes(left[m])));
            path::path_order_tells_paths_apart(
                path::path_bytes(left[0]),
                path::path_bytes(left[m]),
            );
            assert(file_name_text(left[0]) == file_name_text(left[m]));
        }
        assert(first == other);
        let left_rest = left.drop_first();
        let right_rest = right.drop_first();
        assert(left_rest =~= left.remove(0));
        assert(right_rest =~= right.remove(0));
        assert(left_rest.to_multiset() == right_rest.to_multiset()) by {
            left.to_multiset_ensures();
            right.to_multiset_ensures();
        }
        assert forall|i: int, j: int|
            0 <= i < left_rest.len() && 0 <= j < left_rest.len() && file_name_text(
                #[trigger] left_rest[i],
            ) == file_name_text(#[trigger] left_rest[j]) implies i == j by {
            assert(left_rest[i] == left[i + 1] && left_rest[j] == left[j + 1]);
        }
        assert(path::in_path_order(left_rest)) by {
            assert forall|i: int| 0 <= i < left_rest.len() implies #[trigger] left_rest[i]
                == left[i + 1] by {}
        }
        assert(path::in_path_order(right_rest)) by {
            assert forall|i: int| 0 <= i < right_rest.len() implies #[trigger] right_rest[i]
                == right[i + 1] by {}
        }
        lemma_one_order(left_rest, right_rest);
        assert(left =~= seq![first] + left_rest);
        assert(right =~= seq![first] + right_rest);
    } else {
        assert(left =~= right);
    }
}

/// What is saved is loaded again, as a whole: sounds that were loaded, then edited in name,
/// aliases and volume, and stored, are loaded again as they were stored, in the same order, as
/// long as the files are the same and no two of them have the same file name. In which order the
/// files are listed does not matter.
pub proof fn saved_library_is_loaded(
    files: Seq<PathBuf>,
    entries: Seq<SoundMetadata>,
    first: Seq<Sound>,
    edited: Seq<Sound>,
    library: LibraryFile,
    listed: Seq<PathBuf>,
    reloaded: Seq<Sound>,
)
    requires
        loaded(first, files, entries),
        paths_of(edited) == paths_of(first),
        forall|i: int| 0 <= i < edited.len() ==> (#[trigger] edited[i]).volume <= MAX_VOLUME,
        names_differ(edited),
        stores(library, edited),
        listed.to_multiset() == files.to_multiset(),
        loaded(reloaded, listed, library.sounds@),
    ensures
        same_sounds(reloaded, edited),
{
    let wanted = |file: PathBuf| supported(file);
    let paths = paths_of(edited);
    let again = paths_of(reloaded);
    assert(paths.to_multiset() =~= again.to_multiset()) by {
        assert forall|item: PathBuf| #[trigger] paths.to_multiset().count(item)
            == again.to_multiset().count(item) by {
            lemma_filter_count(files, wanted, item);
            lemma_filter_count(listed, wanted, item);
        }
    }
    assert forall|i: int, j: int|
        0 <= i < paths.len() && 0 <= j < paths.len() && file_name_text(#[trigger] paths[i])
            == file_name_text(#[trigger] paths[j]) implies i == j by {
        assert(paths[i] == edited[i].path && paths[j] == edited[j].path);
    }
    lemma_one_order(paths, again);
    assert forall|i: int| 0 <= i < reloaded.len() implies {
        &&& (#[trigger] reloaded[i]).path == edited[i].path
        &&& reloaded[i].name@ == edited[i].name@
        &&& reloaded[i].aliases@ == edited[i].aliases@
        &&& reloaded[i].volume == edited[i].volume
    } by {
        assert(again[i] == reloaded[i].path && paths[i] == edited[i].path);
        assert forall|k: int| 0 <= k < reloaded.len() && k != i implies file_name_text(
            (#[trigger] reloaded[k]).path,
        ) != file_name_text(edited[i].path) by {
            assert(again[k] == reloaded[k].path && paths[k] == edited[k].path);
        }
        saved_sound_is_loaded(edited, library, listed, reloaded, i, i);
    }
}

/// Every supported file that was found is a sound once it is loaded.
pub proof fn found_file_is_loaded(
    sounds: Seq<Sound>,
    files: Seq<PathBuf>,
    entries: Seq<SoundMetadata>,
    file: PathBuf,
)
    requires
        loaded(sounds, files, entries),
        files.contains(file),
        supported(file),
    ensures
        exists|at: int| 0 <= at < sounds.len() && (#[trigger] sounds[at]).path == file,
{
    broadcast use vstd::seq_lib::group_to_multiset_ensures;

    let wanted = |file: PathBuf| supported(file);
    let kept = files.filter(wanted);
    let i = choose|i: int| 0 <= i < files.len() && files[i] == file;
    files.lemma_filter_contains(wanted, i);
    assert(kept.contains(file));
    let paths = paths_of(sounds);
    assert(paths.to_multiset().count(file) > 0);
    assert(paths.contains(file));
    let at = choose|at: int| 0 <= at < paths.len() && paths[at] == file;
    assert(sounds[at].path == file);
}

/// Every loaded sound has a volume of at most the loudest, whatever was stored.
pub proof fn loaded_volume_is_bounded(
    sounds: Seq<Sound>,
    files: Seq<PathBuf>,
    entries: Seq<SoundMetadata>,
)
    requires
        loaded(sounds, files, entries),
    ensures
        forall|i: int| 0 <= i < sounds.len() ==> (#[trigger] sounds[i]).volume <= MAX_VOLUME,
{
    assert forall|i: int| 0 <= i < sounds.len() implies (#[trigger] sounds[i]).volume
        <= MAX_VOLUME by {
        assert(sound_with(sounds[i], paths_of(sounds)[i], metadata_at(entries, paths_of(sounds), i)));
    }
}

/// Only files are in the library: a loaded sound's file is among the files that were found, and
/// has the extension of a supported format. So a library stored afterwards has no entry without
/// a file.
pub proof fn loaded_sound_has_file(
    sounds: Seq<Sound>,
    files: Seq<PathBuf>,
    entries: Seq<SoundMetadata>,
    at: int,
)
    requires
        loaded(sounds, files, entries),
        0 <= at < sounds.len(),
    ensures
        files.contains(sounds[at].path),
        supported(sounds[at].path),
{
    broadcast use vstd::seq_lib::group_to_multiset_ensures;

    let wanted = |file: PathBuf| supported(file);
    let paths = paths_of(sounds);
    assert(paths[at] == sounds[at].path);
    assert(paths.to_multiset().count(paths[at]) > 0);
    let kept = files.filter(wanted);
    assert(kept.contains(paths[at]));
    let k = choose|k: int| 0 <= k < kept.len() && kept[k] == paths[at];
    files.lemma_filter_pred(wanted, k);
    files.lemma_filter_contains_rev(wanted, paths[at]);
}

/// The data directory, by the values of `XDG_DATA_HOME` and `HOME`.
pub fn data_dir(data_home: Option<PathBuf>, home: Option<PathBuf>) -> (directory: Result<
    PathBuf,
    Failure,
>)
    ensures
        match (data_home, home) {
            (Some(data_home), _) => directory is Ok && path::path_bytes(directory->Ok_0)
                == path::child_in(path::path_bytes(data_home), "soundboard-tui"@),
            (None, Some(home)) => directory is Ok && path::path_bytes(directory->Ok_0)
                == path::child_in(
                path::child_in(path::path_bytes(home), ".local/share"@),
                "soundboard-tui"@,
            ),
            (None, None) => directory is Err && failure::failure_is(
                directory->Err_0,
                FailureKind::NotFound,
                "data directory not found"@,
            ),
        },
{
    match (data_home, home) {
        (Some(data_home), _) => Ok(child(&data_home, "soundboard-tui")),
        (None, Some(home)) => Ok(child(&child(&home, ".local/share"), "soundboard-tui")),
        (None, None) => Err(Failure::new(FailureKind::NotFound, "data directory not found")),
    }
}

/// The directory of the managed sounds.
pub open spec fn sounds_dir_in(data_dir: PathBuf) -> Seq<u8> {
    path::child_in(path::path_bytes(data_dir), "sounds"@)
}

/// The directory of the managed sounds.
pub fn sounds_dir(data_dir: &PathBuf) -> (directory: PathBuf)
    ensures
        path::path_bytes(directory) == sounds_dir_in(*data_dir),
{
    child(data_dir, "sounds")
}

/// The path stands directly in the directory of the managed sounds.
pub open spec fn is_managed(data_dir: PathBuf, path: PathBuf) -> bool {
    path::parent_components(path::path_bytes(path)) == Some(
        path::components_in(sounds_dir_in(data_dir)),
    )
}

/// A file that stands directly in a directory may be deleted exactly where that directory is the
/// one of the managed sounds.
pub proof fn file_in_sounds_dir_is_managed(
    data_dir: PathBuf,
    directory: Seq<u8>,
    name: Seq<u8>,
    path: PathBuf,
)
    requires
        path::is_piece(name),
        path::path_bytes(path) == path::path_joined(directory, name),
    ensures
        is_managed(data_dir, path) == path::same_components(directory, sounds_dir_in(data_dir)),
{
    path::joined_piece_is_last(directory, name);
}

/// Lets a file be deleted only if it stands directly in the directory of the managed sounds.
pub fn delete_sound(data_dir: &PathBuf, path: &PathBuf) -> (allowed: Result<(), Failure>)
    ensures
        allowed is Ok <==> is_managed(*data_dir, *path),
        allowed matches Err(failure) ==> failure::failure_is(
            failure,
            FailureKind::PermissionDenied,
            "audio file is outside the managed sounds directory"@,
        ),
{
    let managed = match parent_of(path) {
        Some(parent) => same_path(&parent, &sounds_dir(data_dir)),
        None => false,
    };
    if managed {
        Ok(())
    } else {
        Err(
            Failure::new(
                FailureKind::PermissionDenied,
                "audio file is outside the managed sounds directory",
            ),
        )
    }
}

/// Outside work that an import asks for.
pub enum ImportRequest {
    /// Create this directory and what it stands in.
    CreateDirectory(PathBuf),
    /// Tell whether this is a regular file.
    Inspect(PathBuf),
    /// Tell whether something stands at this path.
    Exists(PathBuf),
    /// Copy the first file to the second path.
    Copy { source: PathBuf, destination: PathBuf },
}

/// What came of the outside work.
pub enum ImportReply {
    Done(Result<(), Failure>),
    Answer(bool),
}

/// Where an import stands with the file at hand.
pub enum ImportStage {
    /// The directory is being created.
    Prepare,
    /// It is not known yet whether the source is a regular file.
    Inspect { source: PathBuf },
    /// It is not known yet whether the destination is free; `suffix` counts the names tried.
    Locate { source: PathBuf, destination: PathBuf, suffix: u32 },
    /// The source is being copied.
    Copy { source: PathBuf },
}

/// The state of an import: the files from `next` on are still to come.
pub struct ImportState {
    pub sounds_dir: PathBuf,
    pub files: Vec<PathBuf>,
    pub next: usize,
    pub report: ImportReport,
    pub stage: ImportStage,
}

/// A running import. Its state accounts for every file that it has left behind.
pub struct ImportRun {
    state: ImportState,
}

/// What an import does next.
pub enum ImportStep {
    Ask { run: ImportRun, request: ImportRequest },
    Finished(Result<ImportReport, Failure>),
}

/// The most numbered names that are tried for one file.
pub const MAX_SUFFIX: u32 = 2147483647;

impl ImportState {
    /// Each file that has been at hand, but for the one that is, counts as imported or has an
    /// entry among the errors, and a destination stands directly in the sounds directory.
    pub open spec fn well_formed(self) -> bool {
        &&& self.next <= self.files@.len()
        &&& self.report.imported + self.report.errors@.len() + (if self.stage is Prepare {
            0int
        } else {
            1int
        }) == self.next
        &&& self.stage is Locate ==> path::parent_components(
            path::path_bytes(self.stage->Locate_destination),
        ) == Some(path::components_in(path::path_bytes(self.sounds_dir)))
    }

    /// The numbered names for the file at hand have not run out.
    pub open spec fn has_names(self) -> bool {
        self.stage is Locate ==> self.stage->Locate_suffix < MAX_SUFFIX
    }
}

impl View for ImportRun {
    type V = ImportState;

    closed spec fn view(&self) -> ImportState {
        self.state
    }
}

/// The entry of a report for a file that could not be imported.
pub open spec fn import_error(source: PathBuf, message: Seq<char>) -> Seq<char> {
    path::path_text(source) + ": "@ + message
}

/// The import goes on with this request for the file at hand; the report stays.
pub open spec fn import_asks(
    before: ImportState,
    step: ImportStep,
    stage: ImportStage,
    request: ImportRequest,
) -> bool {
    &&& step is Ask
    &&& step->Ask_run@ == (ImportState { stage, ..before })
    &&& step->Ask_request == request
}

/// The import goes on to the next file, or is over, with this many imported files and these
/// errors.
pub open spec fn import_proceeds(
    before: ImportState,
    step: ImportStep,
    imported: int,
    errors: Seq<Seq<char>>,
) -> bool {
    if before.next < before.files@.len() {
        &&& step is Ask
        &&& step->Ask_run@.sounds_dir == before.sounds_dir
        &&& step->Ask_run@.files == before.files
        &&& step->Ask_run@.next == before.next + 1
        &&& step->Ask_run@.report.imported == imported
        &&& text::views(step->Ask_run@.report.errors@) == errors
        &&& step->Ask_run@.stage == (ImportStage::Inspect {
            source: before.files@[before.next as int],
        })
        &&& step->Ask_request == ImportRequest::Inspect(before.files@[before.next as int])
    } else {
        &&& step is Finished
        &&& step->Finished_0 is Ok
        &&& step->Finished_0->Ok_0.imported == imported
        &&& text::views(step->Finished_0->Ok_0.errors@) == errors
    }
}

/// The import passes over the file at hand, with this message in the report.
pub open spec fn import_rejects(
    before: ImportState,
    step: ImportStep,
    source: PathBuf,
    message: Seq<char>,
) -> bool {
    import_proceeds(
        before,
        step,
        before.report.imported as int,
        text::views(before.report.errors@).push(import_error(source, message)),
    )
}

/// The import asks whether the name with this number is free.
pub open spec fn tries_number(
    before: ImportState,
    step: ImportStep,
    source: PathBuf,
    number: u32,
) -> bool {
    let source_bytes = path::path_bytes(source);
    match (
        path::component_text(path::stem_in(source_bytes)),
        path::component_text(path::extension_in(source_bytes)),
    ) {
        (None, _) => import_rejects(before, step, source, "invalid file name"@),
        (Some(_), None) => import_rejects(before, step, source, "invalid file extension"@),
        (Some(stem), Some(extension)) => {
            &&& step is Ask
            &&& step->Ask_run@.stage is Locate
            &&& step->Ask_request == ImportRequest::Exists(
                step->Ask_run@.stage->Locate_destination,
            )
            &&& import_asks(
                before,
                step,
                ImportStage::Locate {
                    source,
                    destination: step->Ask_run@.stage->Locate_destination,
                    suffix: number,
                },
                step->Ask_request,
            )
            &&& path::path_bytes(step->Ask_run@.stage->Locate_destination) == path::child_in(
                path::path_bytes(before.sounds_dir),
                numbered_name(stem, number as nat, extension),
            )
        },
    }
}

/// The name of a file with a number behind its stem.
pub open spec fn numbered_name(stem: Seq<char>, number: nat, extension: Seq<char>) -> Seq<char> {
    stem + " ("@ + text::decimal(number) + ")."@ + extension
}

proof fn lemma_numbered_name(source: Seq<u8>, stem: Seq<char>, number: nat, extension: Seq<char>)
    requires
        path::component_text(path::stem_in(source)) == Some(stem),
        path::component_text(path::extension_in(source)) == Some(extension),
    ensures
        path::is_piece(vstd::utf8::encode_utf8(numbered_name(stem, number, extension))),
{
    broadcast use vstd::utf8::decode_utf8_encode_utf8;

    path::name_is_piece(source);
    let name = path::name_in(source)->Some_0;
    let open = vstd::utf8::encode_utf8(" ("@);
    let digits = vstd::utf8::encode_utf8(text::decimal(number));
    let close = vstd::utf8::encode_utf8(")."@);
    reveal_strlit(" (");
    reveal_strlit(").");
    vstd::utf8::is_ascii_chars_encode_utf8(" ("@);
    vstd::utf8::is_ascii_chars_encode_utf8(")."@);
    text::lemma_decimal_encoded(number);
    text::lemma_encode_append(stem, " ("@);
    text::lemma_encode_append(stem + " ("@, text::decimal(number));
    text::lemma_encode_append(stem + " ("@ + text::decimal(number), ")."@);
    text::lemma_encode_append(stem + " ("@ + text::decimal(number) + ")."@, extension);
    let stem_bytes = path::stem_in(source)->Some_0;
    let extension_bytes = path::extension_in(source)->Some_0;
    path::lemma_stem_and_extension(source);
    let whole = vstd::utf8::encode_utf8(numbered_name(stem, number, extension));
    assert(whole == stem_bytes + open + digits + close + extension_bytes);
    assert(open[0] == 32 && open[1] == 40);
    assert(close[0] == 41 && close[1] == 46);
}

/// What an import does with a reply; one of another sort than the stage waits for ends it.
pub open spec fn import_transition(before: ImportState, reply: ImportReply, step: ImportStep) -> bool {
    let errors = text::views(before.report.errors@);
    match (before.stage, reply) {
        (ImportStage::Prepare, ImportReply::Done(Ok(()))) => import_proceeds(
            before,
            step,
            before.report.imported as int,
            errors,
        ),
        (ImportStage::Prepare, ImportReply::Done(Err(failure))) => step == ImportStep::Finished(
            Err(failure),
        ),
        (ImportStage::Inspect { source }, ImportReply::Answer(is_file)) => if !is_file {
            import_rejects(before, step, source, "not a regular file"@)
        } else if !supported(source) {
            import_rejects(before, step, source, "unsupported audio format"@)
        } else {
            match path::name_in(path::path_bytes(source)) {
                None => import_rejects(before, step, source, "file has no name"@),
                Some(name) => {
                    &&& step is Ask
                    &&& step->Ask_run@.stage is Locate
                    &&& step->Ask_request == ImportRequest::Exists(
                        step->Ask_run@.stage->Locate_destination,
                    )
                    &&& import_asks(
                        before,
                        step,
                        ImportStage::Locate {
                            source,
                            destination: step->Ask_run@.stage->Locate_destination,
                            suffix: 0,
                        },
                        step->Ask_request,
                    )
                    &&& path::path_bytes(step->Ask_run@.stage->Locate_destination)
                        == path::path_joined(path::path_bytes(before.sounds_dir), name)
                },
            }
        },
        (
            ImportStage::Locate { source, destination, suffix },
            ImportReply::Answer(exists),
        ) => if exists {
            tries_number(before, step, source, (suffix + 1) as u32)
        } else {
            import_asks(
                before,
                step,
                ImportStage::Copy { source },
                ImportRequest::Copy { source, destination },
            )
        },
        (ImportStage::Copy { source }, ImportReply::Done(Ok(()))) => import_proceeds(
            before,
            step,
            before.report.imported + 1,
            errors,
        ),
        (ImportStage::Copy { source }, ImportReply::Done(Err(failure))) => import_rejects(
            before,
            step,
            source,
            failure.message@,
        ),
        _ => step is Finished && step->Finished_0 is Err && failure::is_out_of_turn(
            step->Finished_0->Err_0,
        ),
    }
}

/// Begins to import files into the library.
pub fn import_sounds(data_dir: &PathBuf, paths: Vec<PathBuf>) -> (step: ImportStep)
    ensures
        step is Ask,
        step->Ask_run@.well_formed(),
        path::path_bytes(step->Ask_run@.sounds_dir) == sounds_dir_in(*data_dir),
        step->Ask_run@.files == paths,
        step->Ask_run@.next == 0,
        step->Ask_run@.report.imported == 0,
        step->Ask_run@.report.errors@.len() == 0,
        step->Ask_run@.stage is Prepare,
        step->Ask_request == ImportRequest::CreateDirectory(step->Ask_run@.sounds_dir),
{
    let directory = sounds_dir(data_dir);
    ImportStep::Ask {
        request: ImportRequest::CreateDirectory(directory.clone()),
        run: ImportRun {
            state: ImportState {
                sounds_dir: directory,
                files: paths,
                next: 0,
                report: ImportReport { imported: 0, errors: Vec::new() },
                stage: ImportStage::Prepare,
            },
        },
    }
}

impl ImportState {
    fn ask(self, stage: ImportStage, request: ImportRequest) -> (step: ImportStep)
        requires
            (ImportState { stage, ..self }).well_formed(),
        ensures
            import_asks(self, step, stage, request),
    {
        let ImportState { sounds_dir, files, next, report, stage: _ } = self;
        ImportStep::Ask {
            run: ImportRun { state: ImportState { sounds_dir, files, next, report, stage } },
            request,
        }
    }

    fn proceed(self) -> (step: ImportStep)
        requires
            self.next <= self.files@.len(),
            self.report.imported + self.report.errors@.len() == self.next,
        ensures
            import_proceeds(
                self,
                step,
                self.report.imported as int,
                text::views(self.report.errors@),
            ),
            step is Ask ==> step->Ask_run@.well_formed(),
    {
        if self.next < self.files.len() {
            let source = self.files[self.next].clone();
            let ImportState { sounds_dir, files, next, report, stage: _ } = self;
            ImportStep::Ask {
                request: ImportRequest::Inspect(source.clone()),
                run: ImportRun {
                    state: ImportState {
                        sounds_dir,
                        files,
                        next: next + 1,
                        report,
                        stage: ImportStage::Inspect { source },
                    },
                },
            }
        } else {
            ImportStep::Finished(Ok(self.report))
        }
    }

    fn reject(self, source: &PathBuf, message: &str) -> (step: ImportStep)
        requires
            self.next <= self.files@.len(),
            self.report.imported + self.report.errors@.len() + 1 == self.next,
        ensures
            import_rejects(self, step, *source, message@),
            step is Ask ==> step->Ask_run@.well_formed(),
    {
        let mut run = self;
        let entry = join3(&display(source), ": ", message);
        let ghost before = text::views(run.report.errors@);
        run.report.errors.push(entry);
        assert(text::views(run.report.errors@) == before.push(import_error(*source, message@)));
        run.proceed()
    }

    fn try_number(self, source: PathBuf, suffix: u32) -> (step: ImportStep)
        requires
            self.next <= self.files@.len(),
            self.report.imported + self.report.errors@.len() + 1 == self.next,
        ensures
            tries_number(self, step, source, suffix),
            step is Ask ==> step->Ask_run@.well_formed(),
    {
        let stem = match decode_component(stem_of(&source)) {
            Some(stem) => stem,
            None => return self.reject(&source, "invalid file name"),
        };
        let extension = match decode_component(extension_of(&source)) {
            Some(extension) => extension,
            None => return self.reject(&source, "invalid file extension"),
        };
        let mut name = join3(&stem, " (", &number(suffix as u128));
        name.append(").");
        name.append(&extension);
        let destination = child(&self.sounds_dir, &name);
        proof {
            lemma_numbered_name(path::path_bytes(source), stem@, suffix as nat, extension@);
            path::joined_piece_is_last(
                path::path_bytes(self.sounds_dir),
                vstd::utf8::encode_utf8(name@),
            );
        }
        self.ask(
            ImportStage::Locate { source, destination: destination.clone(), suffix },
            ImportRequest::Exists(destination),
        )
    }
}

impl ImportRun {
    #[verifier::type_invariant]
    closed spec fn accounted(self) -> bool {
        self.state.well_formed()
    }

    /// Whether the numbered names for the file at hand have not run out.
    pub fn has_names(&self) -> (has: bool)
        ensures
            has == self@.has_names(),
    {
        match &self.state.stage {
            ImportStage::Locate { suffix, .. } => *suffix < MAX_SUFFIX,
            _ => true,
        }
    }

    /// Takes what came of the work that was asked for, and says what is to be done next.
    pub fn advance(self, reply: ImportReply) -> (step: ImportStep)
        requires
            self@.has_names(),
        ensures
            import_transition(self@, reply, step),
            self@.well_formed(),
            step is Ask ==> step->Ask_run@.well_formed(),
    {
        proof {
            use_type_invariant(&self);
        }
        let ImportState { sounds_dir, files, next, report, stage } = self.state;
        let run = ImportState { sounds_dir, files, next, report, stage: ImportStage::Prepare };
        match (stage, reply) {
            (ImportStage::Prepare, ImportReply::Done(Ok(()))) => run.proceed(),
            (ImportStage::Prepare, ImportReply::Done(Err(failure))) => ImportStep::Finished(
                Err(failure),
            ),
            (ImportStage::Inspect { source }, ImportReply::Answer(is_file)) => {
                if !is_file {
                    return run.reject(&source, "not a regular file");
                }
                if !is_supported_audio(&source) {
                    return run.reject(&source, "unsupported audio format");
                }
                match name_of(&source) {
                    None => run.reject(&source, "file has no name"),
                    Some(name) => {
                        let destination = join_path(&run.sounds_dir, &name);
                        proof {
                            path::name_is_piece(path::path_bytes(source));
                            path::joined_piece_is_last(
                                path::path_bytes(run.sounds_dir),
                                path::path_bytes(name),
                            );
                        }
                        run.ask(
                            ImportStage::Locate {
                                source,
                                destination: destination.clone(),
                                suffix: 0,
                            },
                            ImportRequest::Exists(destination),
                        )
                    },
                }
            },
            (
                ImportStage::Locate { source, destination, suffix },
                ImportReply::Answer(exists),
            ) => if exists {
                run.try_number(source, suffix + 1)
            } else {
                run.ask(
                    ImportStage::Copy { source: source.clone() },
                    ImportRequest::Copy { source, destination },
                )
            },
            (ImportStage::Copy { source }, ImportReply::Done(Ok(()))) => {
                let mut run = run;
                run.report.imported = run.report.imported + 1;
                run.proceed()
            },
            (ImportStage::Copy { source }, ImportReply::Done(Err(failure))) => run.reject(
                &source,
                &failure.message,
            ),
            _ => ImportStep::Finished(Err(Failure::out_of_turn())),
        }
    }
}

/// An import copies a file only onto a path at which nothing stands, in the directory of the
/// managed sounds, and only a supported regular file.
pub proof fn import_never_overwrites(before: ImportState, reply: ImportReply, step: ImportStep)
    requires
        import_transition(before, reply, step),
    ensures
        step is Ask && step->Ask_request is Copy ==> reply == ImportReply::Answer(false)
            && before.stage is Locate && step->Ask_request == (ImportRequest::Copy {
            source: before.stage->Locate_source,
            destination: before.stage->Locate_destination,
        }),
        step is Ask && step->Ask_run@.stage is Locate ==> {
            &&& step->Ask_request == ImportRequest::Exists(
                step->Ask_run@.stage->Locate_destination,
            )
            &&& exists|name: Seq<u8>|
                path::is_piece(name) && #[trigger] path::path_joined(
                    path::path_bytes(before.sounds_dir),
                    name,
                ) == path::path_bytes(step->Ask_run@.stage->Locate_destination)
        },
        step is Ask ==> step->Ask_run@.sounds_dir == before.sounds_dir,
        before.stage is Inspect && step is Ask && step->Ask_run@.stage is Locate ==> reply
            == ImportReply::Answer(true) && supported(before.stage->Inspect_source)
            && step->Ask_run@.stage->Locate_source == before.stage->Inspect_source,
{
    if step is Ask && step->Ask_run@.stage is Locate {
        lemma_destination_is_piece(before, reply, step);
    }
}

proof fn lemma_destination_is_piece(
    before: ImportState,
    reply: ImportReply,
    step: ImportStep,
) -> (name: Seq<u8>)
    requires
        import_transition(before, reply, step),
        step is Ask,
        step->Ask_run@.stage is Locate,
    ensures
        path::is_piece(name),
        path::path_joined(path::path_bytes(before.sounds_dir), name) == path::path_bytes(
            step->Ask_run@.stage->Locate_destination,
        ),
{
    match before.stage {
        ImportStage::Inspect { source } => {
            path::name_is_piece(path::path_bytes(source));
            path::name_in(path::path_bytes(source))->Some_0
        },
        ImportStage::Locate { source, suffix, .. } => {
            let bytes = path::path_bytes(source);
            let stem = path::component_text(path::stem_in(bytes))->Some_0;
            let extension = path::component_text(path::extension_in(bytes))->Some_0;
            let number = ((suffix + 1) as u32) as nat;
            lemma_numbered_name(bytes, stem, number, extension);
            vstd::utf8::encode_utf8(numbered_name(stem, number, extension))
        },
        _ => Seq::empty(),
    }
}

/// What an import copies can be deleted again: a file is copied only to a path that stands directly
/// in the directory of the managed sounds, whatever the file is called and however many of its
/// names are taken.
pub proof fn imported_file_can_be_deleted(
    data_dir: PathBuf,
    before: ImportState,
    reply: ImportReply,
    step: ImportStep,
)
    requires
        before.well_formed(),
        path::path_bytes(before.sounds_dir) == sounds_dir_in(data_dir),
        import_transition(before, reply, step),
    ensures
        step is Ask && step->Ask_request is Copy ==> is_managed(
            data_dir,
            step->Ask_request->Copy_destination,
        ),
        step is Ask ==> step->Ask_run@.well_formed() && path::path_bytes(
            step->Ask_run@.sounds_dir,
        ) == sounds_dir_in(data_dir),
{
    import_accounts_for_each_file(before, reply, step);
}

/// Every file is either counted as imported or has an entry among the errors.
pub proof fn import_accounts_for_each_file(
    before: ImportState,
    reply: ImportReply,
    step: ImportStep,
)
    requires
        before.well_formed(),
        import_transition(before, reply, step),
    ensures
        step is Ask ==> step->Ask_run@.well_formed(),
        step matches ImportStep::Finished(Ok(report)) ==> report.imported + report.errors@.len()
            == before.files@.len(),
{
    assert(text::views(before.report.errors@).len() == before.report.errors@.len());
    if step is Ask {
        assert(text::views(step->Ask_run@.report.errors@).len()
            == step->Ask_run@.report.errors@.len());
        if step->Ask_run@.stage is Locate {
            let name = lemma_destination_is_piece(before, reply, step);
            path::joined_piece_is_last(path::path_bytes(before.sounds_dir), name);
        }
    }
    if let ImportStep::Finished(Ok(report)) = step {
        assert(text::views(report.errors@).len() == report.errors@.len());
    }
}

/// An upper bound on how often an import still asks for work.
pub open spec fn import_bound(state: ImportState) -> int {
    let most = MAX_SUFFIX + 4;
    (state.files@.len() - state.next) * most + match state.stage {
        ImportStage::Prepare => 0,
        ImportStage::Inspect { .. } => MAX_SUFFIX + 3,
        ImportStage::Locate { suffix, .. } => MAX_SUFFIX - suffix + 2,
        ImportStage::Copy { .. } => 1int,
    }
}

/// An import comes to an end: whatever the replies are, each brings it nearer to it.
pub proof fn import_ends(before: ImportState, reply: ImportReply, step: ImportStep)
    requires
        before.well_formed(),
        before.has_names(),
        import_transition(before, reply, step),
    ensures
        step is Ask ==> import_bound(step->Ask_run@) < import_bound(before),
        0 <= import_bound(before),
{
}

proof fn lemma_name_with_extension(
    path: PathBuf,
    directory: Seq<u8>,
    stem: Seq<char>,
    extension: Seq<char>,
)
    requires
        path::path_bytes(path) == path::path_joined(
            directory,
            vstd::utf8::encode_utf8(stem + seq!['.'] + extension),
        ),
        stem.len() > 0 && extension.len() > 0,
        !vstd::utf8::encode_utf8(stem + seq!['.'] + extension).contains(47),
        !vstd::utf8::encode_utf8(extension).contains(46),
    ensures
        path::component_text(path::name_in(path::path_bytes(path))) == Some(
            stem + seq!['.'] + extension,
        ),
        path::component_text(path::stem_in(path::path_bytes(path))) == Some(stem),
        path::component_text(path::extension_in(path::path_bytes(path))) == Some(extension),
{
    broadcast use {vstd::utf8::encode_utf8_valid_utf8, vstd::utf8::encode_utf8_decode_utf8};

    let name = vstd::utf8::encode_utf8(stem + seq!['.'] + extension);
    let first = vstd::utf8::encode_utf8(stem);
    let last = vstd::utf8::encode_utf8(extension);
    text::lemma_encode_append(stem, seq!['.']);
    text::lemma_encode_append(stem + seq!['.'], extension);
    vstd::utf8::is_ascii_chars_encode_utf8(seq!['.']);
    assert(vstd::utf8::encode_utf8(seq!['.']) =~= seq![46u8]);
    assert(name == first + seq![46u8] + last);
    assert(first.len() > 0) by {
        vstd::utf8::encode_utf8_first_scalar(stem);
        assert(vstd::utf8::decode_utf8(first) == stem);
    }
    assert(last.len() > 0) by {
        assert(vstd::utf8::decode_utf8(last) == extension);
    }
    assert(path::is_piece(name) && path::is_name(name)) by {
        assert(name.len() >= 3);
        assert(seq![46u8].len() == 1 && seq![47u8].len() == 1 && seq![46u8, 46u8].len() == 2);
    }
    path::joined_piece_is_last(directory, name);
    let at = first.len() as int;
    assert forall|i: int| at < i < name.len() implies #[trigger] name[i] != 46 by {
        assert(last.contains(last[i - at - 1]));
    }
    path::lemma_last_place_at(name, 46, at);
    assert(name.take(at) =~= first);
    assert(name.skip(at + 1) =~= last);
}

/// A sound without metadata is called what its file is called, without the extension and with a
/// space for each hyphen and underscore.
pub proof fn a_sound_is_called_like_its_file(
    path: PathBuf,
    directory: Seq<u8>,
    stem: Seq<char>,
    extension: Seq<char>,
    name: String,
    file: String,
)
    requires
        path::path_bytes(path) == path::path_joined(
            directory,
            vstd::utf8::encode_utf8(stem + seq!['.'] + extension),
        ),
        stem.len() > 0 && extension.len() > 0,
        !vstd::utf8::encode_utf8(stem + seq!['.'] + extension).contains(47),
        !vstd::utf8::encode_utf8(extension).contains(46),
        call_ensures(default_name, (&path,), name),
        call_ensures(file_name, (&path,), file),
    ensures
        file@ == stem + seq!['.'] + extension,
        name@.len() == stem.len(),
        forall|i: int|
            0 <= i < stem.len() ==> #[trigger] name@[i] == if stem[i] == '-' || stem[i] == '_' {
                ' '
            } else {
                stem[i]
            },
{
    lemma_name_with_extension(path, directory, stem, extension);
}

/// A file is supported exactly where its extension is, whatever stands before it.
pub proof fn the_extension_decides(
    path: PathBuf,
    directory: Seq<u8>,
    stem: Seq<char>,
    extension: &str,
    is_supported: bool,
    is_audio: bool,
)
    requires
        path::path_bytes(path) == path::path_joined(
            directory,
            vstd::utf8::encode_utf8(stem + seq!['.'] + extension@),
        ),
        stem.len() > 0 && extension@.len() > 0,
        !vstd::utf8::encode_utf8(stem + seq!['.'] + extension@).contains(47),
        !vstd::utf8::encode_utf8(extension@).contains(46),
        call_ensures(is_supported_audio, (&path,), is_supported),
        call_ensures(is_audio_extension, (extension,), is_audio),
    ensures
        is_supported == is_audio,
{
    lemma_name_with_extension(path, directory, stem, extension@);
}

/// The supported formats are AAC, FLAC, M4A, MP3, OGG, Opus and WAV, in upper or lower case, and no
/// others.
pub proof fn seven_formats_are_supported(
    extension: &str,
    lower: String,
    is_audio: bool,
    named: bool,
)
    requires
        extension.is_ascii(),
        call_ensures(text::to_ascii_lowercase, (extension,), lower),
        call_ensures(is_audio_extension, (extension,), is_audio),
        call_ensures(names_audio_format, (extension,), named),
    ensures
        is_audio <==> lower@ == "aac"@ || lower@ == "flac"@ || lower@ == "m4a"@ || lower@
            == "mp3"@ || lower@ == "ogg"@ || lower@ == "opus"@ || lower@ == "wav"@,
        named <==> extension@ == "aac"@ || extension@ == "flac"@ || extension@ == "m4a"@
            || extension@ == "mp3"@ || extension@ == "ogg"@ || extension@ == "opus"@ || extension@
            == "wav"@,
{
}

/// A sound is made again from what is stored of it; where nothing is stored, it is called like its
/// file, has no aliases and its full volume. No sound is louder than that.
pub proof fn a_sound_is_made_of_its_metadata(
    sound: Sound,
    metadata: SoundMetadata,
    again: Sound,
    file: String,
    other: SoundMetadata,
    of_other: Sound,
    bare: Sound,
    name: String,
)
    requires
        call_ensures(Sound::metadata, (&sound,), metadata),
        call_ensures(Sound::from_path, (sound.path, Some(&metadata)), again),
        call_ensures(Sound::file_name, (&sound,), file),
        call_ensures(Sound::from_path, (sound.path, Some(&other)), of_other),
        call_ensures(Sound::from_path, (sound.path, None), bare),
        call_ensures(default_name, (&sound.path,), name),
    ensures
        metadata.file@ == file@,
        metadata.name@ == sound.name@,
        metadata.aliases@ == sound.aliases@,
        metadata.volume == sound.volume,
        again.path == sound.path,
        again.name@ == sound.name@,
        again.aliases@ == sound.aliases@,
        sound.volume <= 100 ==> again.volume == sound.volume,
        of_other.volume <= 100 && of_other.volume <= other.volume,
        other.volume <= 100 ==> of_other.volume == other.volume,
        of_other.name@ == other.name@ && of_other.aliases@ == other.aliases@ && of_other.path
            == sound.path,
        bare.path == sound.path && bare.name@ == name@ && bare.aliases@.len() == 0 && bare.volume
            == 100,
{
}

/// The library holds the files that are supported audio, all of them and none else, each as often as
/// it was found, in the order of their paths.
pub proof fn the_library_is_the_supported_files(
    files: Vec<PathBuf>,
    library: LibraryFile,
    sounds: Vec<Sound>,
    file: PathBuf,
    is_supported: bool,
    at: (int, int),
)
    requires
        call_ensures(load_sounds, (files, &library), sounds),
        call_ensures(is_supported_audio, (&file,), is_supported),
        0 <= at.0 < at.1 < sounds@.len(),
    ensures
        paths_of(sounds@).contains(file) <==> files@.contains(file) && is_supported,
        is_supported ==> paths_of(sounds@).to_multiset().count(file)
            == files@.to_multiset().count(file),
        path::path_not_after(
            path::path_bytes(sounds@[at.0].path),
            path::path_bytes(sounds@[at.1].path),
        ),
{
    broadcast use vstd::seq_lib::group_to_multiset_ensures;

    let wanted = |other: PathBuf| supported(other);
    let paths = paths_of(sounds@);
    lemma_filter_count(files@, wanted, file);
    assert(paths.contains(file) <==> paths.to_multiset().count(file) > 0);
    assert(files@.contains(file) <==> files@.to_multiset().count(file) > 0);
    assert(paths[at.0] == sounds@[at.0].path && paths[at.1] == sounds@[at.1].path);
}

proof fn lemma_last_entry(entries: Seq<SoundMetadata>, file: Seq<char>)
    ensures
        -1 <= last_entry(entries, file) < entries.len(),
        last_entry(entries, file) >= 0 ==> entries[last_entry(entries, file)].file@ == file,
        forall|i: int|
            last_entry(entries, file) < i < entries.len() ==> (#[trigger] entries[i]).file@ != file,
    decreases entries.len(),
{
    if entries.len() > 0 && entries.last().file@ != file {
        let rest = entries.drop_last();
        lemma_last_entry(rest, file);
        assert forall|i: int| last_entry(entries, file) < i < entries.len() implies (
        #[trigger] entries[i]).file@ != file by {
            if i < rest.len() {
                assert(rest[i] == entries[i]);
            }
        }
    }
}

/// A sound has the metadata that was last stored for its file name; where none was stored, it is as
/// it would be without any.
pub proof fn a_sound_has_its_stored_metadata(
    files: Vec<PathBuf>,
    library: LibraryFile,
    sounds: Vec<Sound>,
    at: int,
    entry: int,
    file: String,
    name: String,
)
    requires
        call_ensures(load_sounds, (files, &library), sounds),
        0 <= at < sounds@.len(),
        call_ensures(Sound::file_name, (&sounds@[at],), file),
        call_ensures(default_name, (&sounds@[at].path,), name),
        forall|i: int|
            0 <= i < at ==> file_name_text((#[trigger] sounds@[i]).path) != file_name_text(
                sounds@[at].path,
            ),
    ensures
        0 <= entry < library.sounds@.len() && library.sounds@[entry].file@ == file@ && (forall|
            i: int,
        | entry < i < library.sounds@.len() ==> (#[trigger] library.sounds@[i]).file@ != file@)
            ==> {
            &&& sounds@[at].name@ == library.sounds@[entry].name@
            &&& sounds@[at].aliases@ == library.sounds@[entry].aliases@
            &&& library.sounds@[entry].volume <= 100 ==> sounds@[at].volume
                == library.sounds@[entry].volume
        },
        (forall|i: int|
            0 <= i < library.sounds@.len() ==> (#[trigger] library.sounds@[i]).file@ != file@)
            ==> {
            &&& sounds@[at].name@ == name@
            &&& sounds@[at].aliases@.len() == 0
            &&& sounds@[at].volume == 100
        },
        sounds@[at].volume <= 100,
{
    let paths = paths_of(sounds@);
    assert(paths[at] == sounds@[at].path);
    assert forall|i: int| 0 <= i < at implies file_name_text(#[trigger] paths[i])
        != file_name_text(paths[at]) by {
        assert(paths[i] == sounds@[i].path);
    }
    lemma_last_entry(library.sounds@, file@);
    assert(sound_with(sounds@[at], paths[at], metadata_at(library.sounds@, paths, at)));
}

/// Loading, editing, saving and loading again gives back what was edited, all of it and in the same
/// order: name, aliases and volume of each sound.
pub proof fn what_is_saved_is_loaded_again(
    files: Vec<PathBuf>,
    library: LibraryFile,
    first: Vec<Sound>,
    data_dir: PathBuf,
    edited: &[Sound],
    save: Save<LibraryFile>,
    listed: Vec<PathBuf>,
    again: Vec<Sound>,
    at: int,
)
    requires
        call_ensures(load_sounds, (files, &library), first),
        paths_of(edited@) == paths_of(first@),
        forall|i: int| 0 <= i < edited@.len() ==> (#[trigger] edited@[i]).volume <= 100,
        names_differ(edited@),
        call_ensures(save_sounds, (&data_dir, edited), save),
        listed@.to_multiset() == files@.to_multiset(),
        call_ensures(load_sounds, (listed, &save.contents), again),
        0 <= at < edited@.len(),
    ensures
        again@.len() == edited@.len(),
        again@[at].path == edited@[at].path,
        again@[at].name@ == edited@[at].name@,
        again@[at].aliases@ == edited@[at].aliases@,
        again@[at].volume == edited@[at].volume,
        save.contents.version == 1,
        save.contents.sounds@.len() == edited@.len(),
{
    saved_library_is_loaded(
        files@,
        library.sounds@,
        first@,
        edited@,
        save.contents,
        listed@,
        again@,
    );
    assert(again@[at].path == edited@[at].path);
}

/// Settings are loaded as they were saved. Without a file local playback is off and nothing is set
/// up; a file that cannot be understood or read is an error.
pub proof fn settings_are_kept(
    data_dir: PathBuf,
    settings: Settings,
    save: Save<Settings>,
    loaded_again: Result<Settings, Failure>,
    message: String,
    malformed: Result<Settings, Failure>,
    failure: Failure,
    unreadable: Result<Settings, Failure>,
)
    requires
        call_ensures(save_settings, (&data_dir, &settings), save),
        call_ensures(load_settings, (Stored::Read(save.contents),), loaded_again),
        call_ensures(load_settings, (Stored::Malformed(message),), malformed),
        call_ensures(load_settings, (Stored::Unreadable(failure),), unreadable),
    ensures
        loaded_again == Ok::<Settings, Failure>(settings),
        malformed is Err && malformed->Err_0.kind == FailureKind::InvalidData
            && malformed->Err_0.message == message,
        failure.kind == FailureKind::NotFound ==> {
            &&& unreadable is Ok
            &&& !unreadable->Ok_0.local_playback
            &&& !unreadable->Ok_0.audio.onboarding_complete
            &&& !unreadable->Ok_0.audio.managed_mix
            &&& unreadable->Ok_0.audio.mix_sink is None
            &&& unreadable->Ok_0.audio.virtual_source is None
            &&& unreadable->Ok_0.audio.physical_source is None
        },
        failure.kind != FailureKind::NotFound ==> unreadable == Err::<Settings, Failure>(failure),
{
}

/// A stored library is loaded as it was read; without a file it is empty, and a file that cannot be
/// understood or read is an error.
pub proof fn a_library_is_read_or_empty(
    library: LibraryFile,
    read: Result<LibraryFile, Failure>,
    message: String,
    malformed: Result<LibraryFile, Failure>,
    failure: Failure,
    unreadable: Result<LibraryFile, Failure>,
)
    requires
        call_ensures(load_library_file, (Stored::Read(library),), read),
        call_ensures(load_library_file, (Stored::Malformed(message),), malformed),
        call_ensures(load_library_file, (Stored::Unreadable(failure),), unreadable),
    ensures
        read == Ok::<LibraryFile, Failure>(library),
        malformed is Err && malformed->Err_0.kind == FailureKind::InvalidData
            && malformed->Err_0.message == message,
        failure.kind == FailureKind::NotFound ==> unreadable is Ok && unreadable->Ok_0.version == 1
            && unreadable->Ok_0.sounds@.len() == 0,
        failure.kind != FailureKind::NotFound ==> unreadable == Err::<LibraryFile, Failure>(
            failure,
        ),
{
}

/// The data stand in `soundboard-tui` of the data directory (the configured one, else
/// `.local/share` of the home directory): the sounds in `sounds`, the library and the settings each
/// in a file, written under another name first.
pub proof fn the_data_have_their_place(
    data_home: PathBuf,
    home: Option<PathBuf>,
    configured: Result<PathBuf, Failure>,
    default_place: Result<PathBuf, Failure>,
    data: PathBuf,
    directory: PathBuf,
    settings: Settings,
    saved_settings: Save<Settings>,
    sounds: &[Sound],
    saved_sounds: Save<LibraryFile>,
)
    requires
        call_ensures(data_dir, (Some(data_home), home), configured),
        call_ensures(data_dir, (None, home), default_place),
        call_ensures(sounds_dir, (&data,), directory),
        call_ensures(save_settings, (&data, &settings), saved_settings),
        call_ensures(save_sounds, (&data, sounds), saved_sounds),
    ensures
        configured is Ok,
        path::components_in(path::path_bytes(configured->Ok_0)) == path::components_in(
            path::path_bytes(data_home),
        ).push(vstd::utf8::encode_utf8("soundboard-tui"@)),
        home matches Some(home) ==> default_place is Ok && path::components_in(
            path::path_bytes(default_place->Ok_0),
        ) == path::components_in(
            path::path_joined(
                path::path_bytes(home),
                vstd::utf8::encode_utf8(".local/share"@),
            ),
        ).push(vstd::utf8::encode_utf8("soundboard-tui"@)),
        home is None ==> default_place is Err && default_place->Err_0.kind
            == FailureKind::NotFound,
        path::components_in(path::path_bytes(directory)) == path::components_in(
            path::path_bytes(data),
        ).push(vstd::utf8::encode_utf8("sounds"@)),
        path::components_in(path::path_bytes(saved_settings.path)) == path::components_in(
            path::path_bytes(data),
        ).push(vstd::utf8::encode_utf8("settings.toml"@)),
        path::components_in(path::path_bytes(saved_sounds.path)) == path::components_in(
            path::path_bytes(data),
        ).push(vstd::utf8::encode_utf8("library.toml"@)),
        path::components_in(path::path_bytes(saved_settings.temporary_path))
            == path::components_in(path::path_bytes(data)).push(
            vstd::utf8::encode_utf8("settings.toml"@ + ".tmp"@),
        ),
        path::components_in(path::path_bytes(saved_sounds.temporary_path)) == path::components_in(
            path::path_bytes(data),
        ).push(vstd::utf8::encode_utf8("library.toml"@ + ".tmp"@)),
{
    reveal_strlit("soundboard-tui");
    reveal_strlit("sounds");
    reveal_strlit("settings.toml");
    reveal_strlit("library.toml");
    path::lemma_text_is_piece("soundboard-tui"@);
    path::lemma_text_is_piece("sounds"@);
    path::lemma_text_is_piece("settings.toml"@);
    path::lemma_text_is_piece("library.toml"@);
    let name = vstd::utf8::encode_utf8("soundboard-tui"@);
    path::joined_piece_is_last(path::path_bytes(data_home), name);
    if let Some(home) = home {
        path::joined_piece_is_last(
            path::path_joined(path::path_bytes(home), vstd::utf8::encode_utf8(".local/share"@)),
            name,
        );
    }
    let bytes = path::path_bytes(data);
    path::joined_piece_is_last(bytes, vstd::utf8::encode_utf8("sounds"@));
    path::joined_piece_is_last(bytes, vstd::utf8::encode_utf8("settings.toml"@));
    path::joined_piece_is_last(bytes, vstd::utf8::encode_utf8("library.toml"@));
}

/// A file may be deleted where it stands directly in the directory of the managed sounds, under
/// whatever name, and nowhere else; what may not be deleted is refused.
pub proof fn only_managed_files_are_deleted(
    data: PathBuf,
    directory: PathBuf,
    name: Seq<u8>,
    inside: PathBuf,
    allowed: Result<(), Failure>,
    elsewhere: PathBuf,
    other: Seq<u8>,
    refused: Result<(), Failure>,
)
    requires
        call_ensures(sounds_dir, (&data,), directory),
        path::is_piece(name),
        path::path_bytes(inside) == path::path_joined(path::path_bytes(directory), name),
        call_ensures(delete_sound, (&data, &inside), allowed),
        path::path_bytes(elsewhere) == path::path_joined(other, name),
        !path::same_components(other, path::path_bytes(directory)),
        call_ensures(delete_sound, (&data, &elsewhere), refused),
    ensures
        allowed is Ok,
        refused is Err && refused->Err_0.kind == FailureKind::PermissionDenied,
        refused->Err_0.message@ == "audio file is outside the managed sounds directory"@,
{
    path::joined_piece_is_last(path::path_bytes(directory), name);
    path::joined_piece_is_last(other, name);
}

/// The import of the step, if it is not over, is handed this reply, and the next step is what it
/// does.
pub open spec fn import_goes_on(step: ImportStep, reply: ImportReply, next: ImportStep) -> bool {
    step is Ask ==> call_ensures(ImportRun::advance, (step->Ask_run, reply), next)
}

/// The import is at the file at this place, or over where there is none: this many files are
/// imported, and these are the errors.
pub open spec fn import_is_at(
    step: ImportStep,
    files: Seq<PathBuf>,
    place: int,
    imported: int,
    errors: Seq<Seq<char>>,
) -> bool {
    &&& place < files.len() ==> step is Ask && step->Ask_request == ImportRequest::Inspect(
        files[place],
    ) && step->Ask_run@.report.imported == imported && text::views(
        step->Ask_run@.report.errors@,
    ) == errors && step->Ask_run@.next == place + 1 && step->Ask_run@.files@ == files
    &&& place >= files.len() ==> step is Finished && step->Finished_0 is Ok
        && step->Finished_0->Ok_0.imported == imported && text::views(
        step->Finished_0->Ok_0.errors@,
    ) == errors
}

/// An import begins with the directory of the managed sounds, and then takes the first file; where
/// the directory cannot be created, that is its failure.
pub proof fn an_import_begins_with_the_directory(
    data: PathBuf,
    files: Vec<PathBuf>,
    directory: PathBuf,
    first: ImportStep,
    second: ImportStep,
    failure: Failure,
    failed: ImportStep,
)
    requires
        call_ensures(import_sounds, (&data, files), first),
        call_ensures(sounds_dir, (&data,), directory),
        import_goes_on(first, ImportReply::Done(Ok(())), second),
        import_goes_on(first, ImportReply::Done(Err(failure)), failed),
    ensures
        first is Ask,
        first->Ask_request matches ImportRequest::CreateDirectory(created) && path::path_bytes(
            created,
        ) == path::path_bytes(directory),
        import_is_at(second, files@, 0, 0, Seq::empty()),
        failed == ImportStep::Finished(Err(failure)),
{
    assert(text::views(first->Ask_run@.report.errors@) =~= Seq::empty());
}

/// A supported regular file is copied under its own name into the directory of the managed sounds,
/// counts as imported, and the next file follows.
pub proof fn a_file_is_imported_under_its_name(
    run: ImportRun,
    source: PathBuf,
    is_supported: bool,
    name: Seq<u8>,
    located: ImportStep,
    copying: ImportStep,
    copied: ImportStep,
)
    requires
        run@.stage == (ImportStage::Inspect { source }),
        call_ensures(is_supported_audio, (&source,), is_supported),
        is_supported,
        path::name_in(path::path_bytes(source)) == Some(name),
        call_ensures(ImportRun::advance, (run, ImportReply::Answer(true)), located),
        import_goes_on(located, ImportReply::Answer(false), copying),
        import_goes_on(copying, ImportReply::Done(Ok(())), copied),
    ensures
        located is Ask && copying is Ask,
        located->Ask_request matches ImportRequest::Exists(destination) && path::path_bytes(
            destination,
        ) == path::path_joined(path::path_bytes(run@.sounds_dir), name),
        copying->Ask_request == (ImportRequest::Copy {
            source,
            destination: located->Ask_request->Exists_0,
        }),
        import_is_at(
            copied,
            run@.files@,
            run@.next as int,
            run@.report.imported + 1,
            text::views(run@.report.errors@),
        ),
{
}

/// A name that is taken gives way to the name with the next number, from one on.
pub proof fn a_taken_name_gets_a_number(
    run: ImportRun,
    source: PathBuf,
    destination: PathBuf,
    suffix: u32,
    stem: Seq<char>,
    extension: Seq<char>,
    next: ImportStep,
    digits: String,
)
    requires
        run@.stage == (ImportStage::Locate { source, destination, suffix }),
        suffix < MAX_SUFFIX,
        path::component_text(path::stem_in(path::path_bytes(source))) == Some(stem),
        path::component_text(path::extension_in(path::path_bytes(source))) == Some(extension),
        call_ensures(ImportRun::advance, (run, ImportReply::Answer(true)), next),
        call_ensures(number, ((suffix + 1) as u128,), digits),
    ensures
        next is Ask,
        next->Ask_request matches ImportRequest::Exists(tried) && path::path_bytes(tried)
            == path::path_joined(
            path::path_bytes(run@.sounds_dir),
            vstd::utf8::encode_utf8(stem + " ("@ + digits@ + ")."@ + extension),
        ),
        next->Ask_run@.stage is Locate && next->Ask_run@.stage->Locate_suffix == suffix + 1
            && next->Ask_run@.stage->Locate_source == source,
        next->Ask_run@.report == run@.report,
{
}

/// The first name that is tried has no number.
pub proof fn names_are_numbered_from_one(run: ImportRun, source: PathBuf, located: ImportStep)
    requires
        run@.stage == (ImportStage::Inspect { source }),
        call_ensures(ImportRun::advance, (run, ImportReply::Answer(true)), located),
        located is Ask,
        located->Ask_run@.stage is Locate,
    ensures
        located->Ask_run@.stage->Locate_suffix == 0,
        located->Ask_run@.stage->Locate_source == source,
        located->Ask_run@.report == run@.report,
{
}

/// What cannot be imported is reported under its path with the reason, and the next file follows:
/// what is no regular file, what is not supported, and what could not be copied.
pub proof fn what_is_not_imported_is_reported(
    run: ImportRun,
    source: PathBuf,
    is_supported: bool,
    no_file: ImportStep,
    unsupported: ImportStep,
    failure: Failure,
    copying: ImportRun,
    uncopied: ImportStep,
)
    requires
        run@.stage == (ImportStage::Inspect { source }),
        call_ensures(is_supported_audio, (&source,), is_supported),
        !is_supported,
        call_ensures(ImportRun::advance, (run, ImportReply::Answer(false)), no_file),
        call_ensures(ImportRun::advance, (run, ImportReply::Answer(true)), unsupported),
        copying@.stage == (ImportStage::Copy { source }),
        call_ensures(ImportRun::advance, (copying, ImportReply::Done(Err(failure))), uncopied),
    ensures
        import_is_at(
            no_file,
            run@.files@,
            run@.next as int,
            run@.report.imported as int,
            text::views(run@.report.errors@).push(
                path::path_text(source) + ": "@ + "not a regular file"@,
            ),
        ),
        import_is_at(
            unsupported,
            run@.files@,
            run@.next as int,
            run@.report.imported as int,
            text::views(run@.report.errors@).push(
                path::path_text(source) + ": "@ + "unsupported audio format"@,
            ),
        ),
        import_is_at(
            uncopied,
            copying@.files@,
            copying@.next as int,
            copying@.report.imported as int,
            text::views(copying@.report.errors@).push(
                path::path_text(source) + ": "@ + failure.message@,
            ),
        ),
{
}

/// A file whose name cannot be read is called `unknown`, and one without an extension that can be
/// read is not supported.
pub proof fn unreadable_names_are_unknown(
    path: PathBuf,
    name: String,
    file: String,
    is_supported: bool,
)
    requires
        call_ensures(default_name, (&path,), name),
        call_ensures(file_name, (&path,), file),
        call_ensures(is_supported_audio, (&path,), is_supported),
    ensures
        path::component_text(path::name_in(path::path_bytes(path))) is None ==> file@
            == "unknown"@,
        path::component_text(path::stem_in(path::path_bytes(path))) is None ==> name@
            == "unknown"@,
        path::component_text(path::extension_in(path::path_bytes(path))) is None ==> !is_supported,
{
    reveal_strlit("unknown");
    assert(spaced("unknown"@) =~= "unknown"@);
}

/// Stored metadata belong to one file: of two files with the same name the second is as it would be
/// without any.
pub proof fn metadata_belong_to_the_first_file(
    files: Vec<PathBuf>,
    library: LibraryFile,
    sounds: Vec<Sound>,
    earlier: int,
    at: int,
    names: (String, String),
    name: String,
)
    requires
        call_ensures(load_sounds, (files, &library), sounds),
        0 <= earlier < at < sounds@.len(),
        call_ensures(Sound::file_name, (&sounds@[earlier],), names.0),
        call_ensures(Sound::file_name, (&sounds@[at],), names.1),
        names.0@ == names.1@,
        call_ensures(default_name, (&sounds@[at].path,), name),
    ensures
        sounds@[at].name@ == name@,
        sounds@[at].aliases@.len() == 0,
        sounds@[at].volume == 100,
{
    let paths = paths_of(sounds@);
    assert(paths[at] == sounds@[at].path && paths[earlier] == sounds@[earlier].path);
    assert(sound_with(sounds@[at], paths[at], metadata_at(library.sounds@, paths, at)));
}

/// A file without a name, or with one that cannot be numbered because it cannot be read, is reported
/// with that reason, and the next file follows. Names do not run out before their numbers do.
pub proof fn what_cannot_be_named_is_reported(
    run: ImportRun,
    source: PathBuf,
    is_supported: bool,
    nameless: ImportStep,
    locating: ImportRun,
    destination: PathBuf,
    suffix: u32,
    unnumbered: ImportStep,
    has: (bool, bool),
)
    requires
        run@.stage == (ImportStage::Inspect { source }),
        call_ensures(is_supported_audio, (&source,), is_supported),
        call_ensures(ImportRun::advance, (run, ImportReply::Answer(true)), nameless),
        locating@.stage == (ImportStage::Locate { source, destination, suffix }),
        call_ensures(ImportRun::advance, (locating, ImportReply::Answer(true)), unnumbered),
        call_ensures(ImportRun::has_names, (&run,), has.0),
        call_ensures(ImportRun::has_names, (&locating,), has.1),
    ensures
        is_supported && path::name_in(path::path_bytes(source)) is None ==> import_is_at(
            nameless,
            run@.files@,
            run@.next as int,
            run@.report.imported as int,
            text::views(run@.report.errors@).push(
                path::path_text(source) + ": "@ + "file has no name"@,
            ),
        ),
        path::component_text(path::stem_in(path::path_bytes(source))) is None ==> import_is_at(
            unnumbered,
            locating@.files@,
            locating@.next as int,
            locating@.report.imported as int,
            text::views(locating@.report.errors@).push(
                path::path_text(source) + ": "@ + "invalid file name"@,
            ),
        ),
        path::component_text(path::stem_in(path::path_bytes(source))) is Some
            && path::component_text(path::extension_in(path::path_bytes(source))) is None
            ==> import_is_at(
            unnumbered,
            locating@.files@,
            locating@.next as int,
            locating@.report.imported as int,
            text::views(locating@.report.errors@).push(
                path::path_text(source) + ": "@ + "invalid file extension"@,
            ),
        ),
        has.0,
        has.1 <==> suffix < 2147483647,
{
}

/// Whether a file is supported goes by its extension in lower case, of whatever letters it is made.
pub proof fn formats_are_known_in_any_case(
    extension: &str,
    is_audio: bool,
    lowered: &str,
    named: bool,
)
    requires
        call_ensures(is_audio_extension, (extension,), is_audio),
        lowered@ == text::lowercase(extension@),
        call_ensures(names_audio_format, (lowered,), named),
    ensures
        is_audio == named,
{
}

/// A name that is free is used, with or without a number: the file is copied there, and once it is
/// copied it counts as imported and the next file follows.
pub proof fn a_free_name_is_used(
    run: ImportRun,
    source: PathBuf,
    destination: PathBuf,
    suffix: u32,
    copying: ImportStep,
    copied: ImportStep,
)
    requires
        run@.stage == (ImportStage::Locate { source, destination, suffix }),
        suffix < MAX_SUFFIX,
        call_ensures(ImportRun::advance, (run, ImportReply::Answer(false)), copying),
        import_goes_on(copying, ImportReply::Done(Ok(())), copied),
    ensures
        copying is Ask,
        copying->Ask_request == (ImportRequest::Copy { source, destination }),
        import_is_at(
            copied,
            run@.files@,
            run@.next as int,
            run@.report.imported + 1,
            text::views(run@.report.errors@),
        ),
{
}

} // verus!
