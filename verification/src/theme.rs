//! Where the theme's texture files are kept.
//!
//! The files live in a directory of their own below the user's configuration
//! directory. Where that directory is depends on the machine, so a location is
//! given by the names to append to it.

use vstd::prelude::*;

verus! {

/// Name of the directory that holds the theme's files.
pub const TEXTURE_DIR: &'static str = "bit_flipper";

/// File name of the colour palette.
pub const PALETTE_FILE: &'static str = "__palette__.png";

/// File name of the texture atlas.
pub const ATLAS_FILE: &'static str = "__texture_atlas__.png";

/// The theme directory, relative to the configuration directory.
pub fn texture_path() -> (dir: &'static str)
    ensures
        dir@ == TEXTURE_DIR@,
{
    TEXTURE_DIR
}

/// The palette file, relative to the configuration directory: the theme
/// directory, then the file in it.
pub fn palette_path() -> (path: (&'static str, &'static str))
    ensures
        path.0@ == TEXTURE_DIR@,
        path.1@ == PALETTE_FILE@,
{
    (texture_path(), PALETTE_FILE)
}

/// The atlas file, relative to the configuration directory: the theme
/// directory, then the file in it.
pub fn atlas_path() -> (path: (&'static str, &'static str))
    ensures
        path.0@ == TEXTURE_DIR@,
        path.1@ == ATLAS_FILE@,
{
    (texture_path(), ATLAS_FILE)
}

} // verus!
