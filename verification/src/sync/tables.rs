//! The two fixed tables of the synchronisation: the directories that the
//! repository owns outright, and the default configuration that is laid over
//! the folder after every run.

use vstd::prelude::*;

verus! {

/// The directory of the folder that holds the default configuration.
pub const OVERLAY_ROOT: &'static str = "configureddefaults";

/// One piece of default configuration: where it lies below the overlay's
/// root, where it goes below the folder, and whether it is a directory.
#[derive(Debug, Clone, Copy)]
pub struct OverlayEntry {
    pub source: &'static str,
    pub destination: &'static str,
    pub is_directory: bool,
}

/// The directories that are cleaned of everything untracked, in the order in
/// which they are cleaned.
pub open spec fn managed_directories() -> Seq<&'static str> {
    seq!["mods", "kubejs", "configureddefaults", "resourcepacks", "patchouli_books", "datapacks"]
}

/// How many managed directories there are.
pub const MANAGED_COUNT: usize = 6;

/// The managed directory of the given index.
pub fn managed_directory(index: usize) -> (name: &'static str)
    requires
        index < managed_directories().len(),
    ensures
        name == managed_directories()[index as int],
{
    if index == 0 {
        "mods"
    } else if index == 1 {
        "kubejs"
    } else if index == 2 {
        "configureddefaults"
    } else if index == 3 {
        "resourcepacks"
    } else if index == 4 {
        "patchouli_books"
    } else {
        "datapacks"
    }
}

/// A directory that goes where it lies.
pub open spec fn directory(path: &'static str) -> OverlayEntry {
    OverlayEntry { source: path, destination: path, is_directory: true }
}

/// A file that goes where it lies.
pub open spec fn file(path: &'static str) -> OverlayEntry {
    OverlayEntry { source: path, destination: path, is_directory: false }
}

/// The default configuration, in the order in which it is laid over the
/// folder.
pub open spec fn overlay_manifest() -> Seq<OverlayEntry> {
    seq![
        directory("config/fancymenu"),
        directory("customsplashscreen"),
        directory("config/fog"),
        file("config/customsplashscreen.json"),
        file("config/raised.json"),
        file("sodium-extra.properties"),
        file("sodiumextrainformation.json"),
        file("sodium-extra-options.json"),
        file("sodium-fingerprint.json"),
        file("sodium-mixins.properties"),
        file("sodium-options.json"),
        file("sodium-shadowy-path-blocks-options.json"),
        file("tectonic.json"),
        file("sparsestructures.json5"),
        file("parcool-client.toml"),
    ]
}

/// How many overlay entries there are.
pub const OVERLAY_COUNT: usize = 15;

fn a_directory(path: &'static str) -> (entry: OverlayEntry)
    ensures
        entry == directory(path),
{
    OverlayEntry { source: path, destination: path, is_directory: true }
}

fn a_file(path: &'static str) -> (entry: OverlayEntry)
    ensures
        entry == file(path),
{
    OverlayEntry { source: path, destination: path, is_directory: false }
}

/// The overlay entry of the given index.
pub fn overlay_entry(index: usize) -> (entry: OverlayEntry)
    requires
        index < overlay_manifest().len(),
    ensures
        entry == overlay_manifest()[index as int],
{
    if index == 0 {
        a_directory("config/fancymenu")
    } else if index == 1 {
        a_directory("customsplashscreen")
    } else if index == 2 {
        a_directory("config/fog")
    } else if index == 3 {
        a_file("config/customsplashscreen.json")
    } else if index == 4 {
        a_file("config/raised.json")
    } else if index == 5 {
        a_file("sodium-extra.properties")
    } else if index == 6 {
        a_file("sodiumextrainformation.json")
    } else if index == 7 {
        a_file("sodium-extra-options.json")
    } else if index == 8 {
        a_file("sodium-fingerprint.json")
    } else if index == 9 {
        a_file("sodium-mixins.properties")
    } else if index == 10 {
        a_file("sodium-options.json")
    } else if index == 11 {
        a_file("sodium-shadowy-path-blocks-options.json")
    } else if index == 12 {
        a_file("tectonic.json")
    } else if index == 13 {
        a_file("sparsestructures.json5")
    } else {
        a_file("parcool-client.toml")
    }
}

/// The tables have the sizes that their counts say.
pub proof fn lemma_table_sizes()
    ensures
        managed_directories().len() == MANAGED_COUNT,
        overlay_manifest().len() == OVERLAY_COUNT,
{
}

} // verus!
