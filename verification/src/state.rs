//! The settings that outlive a run: the input paths and the state of the
//! user interface.
//!
//! Nothing here touches the disk. The caller finds out which paths exist and
//! hands that in.

use vstd::prelude::*;

verus! {

/// What the user interface remembers between sessions.
pub struct UiState {
    pub last_opened_folder: Option<String>,
}

impl Default for UiState {
    fn default() -> (state: Self)
        ensures
            state.last_opened_folder is None,
    {
        UiState { last_opened_folder: None }
    }
}

/// The files and the directory that a run is set up with. A path that is
/// `None` was not chosen.
pub struct InputPaths {
    pub light: Option<String>,
    pub dark: Option<String>,
    pub flat: Option<String>,
    pub darkflat: Option<String>,
    pub bias: Option<String>,
    pub hot_pixel_map: Option<String>,
    pub output_dir: Option<String>,
}

/// For each path of `InputPaths`, whether it exists on disk. What is said of
/// a path that was not chosen does not matter.
#[derive(Debug, Clone, Copy, PartialEq, Eq, Structural)]
pub struct PathsOnDisk {
    pub light: bool,
    pub dark: bool,
    pub flat: bool,
    pub darkflat: bool,
    pub bias: bool,
    pub hot_pixel_map: bool,
    pub output_dir: bool,
}

/// A path as it stands after validation: kept where it was chosen and
/// exists, forgotten otherwise.
pub open spec fn validated(path: Option<String>, exists: bool) -> Option<String> {
    if path is Some && exists {
        path
    } else {
        None
    }
}

/// Whether a path can be used: it was chosen and it exists.
pub fn is_path_valid(path: &Option<String>, exists: bool) -> (valid: bool)
    ensures
        valid == (path is Some && exists),
{
    path.is_some() && exists
}

impl Default for InputPaths {
    fn default() -> (paths: Self)
        ensures
            paths.light is None,
            paths.dark is None,
            paths.flat is None,
            paths.darkflat is None,
            paths.bias is None,
            paths.hot_pixel_map is None,
            paths.output_dir is None,
    {
        InputPaths {
            light: None,
            dark: None,
            flat: None,
            darkflat: None,
            bias: None,
            hot_pixel_map: None,
            output_dir: None,
        }
    }
}

impl InputPaths {
    /// Whether a run can be started: a primary input and an output directory
    /// are chosen.
    pub fn can_execute(&self) -> (ready: bool)
        ensures
            ready == (self.light is Some && self.output_dir is Some),
    {
        self.light.is_some() && self.output_dir.is_some()
    }

    /// Forgets every path that no longer exists on disk.
    pub fn validate_paths(&mut self, on_disk: &PathsOnDisk)
        ensures
            final(self).light == validated(old(self).light, on_disk.light),
            final(self).dark == validated(old(self).dark, on_disk.dark),
            final(self).flat == validated(old(self).flat, on_disk.flat),
            final(self).darkflat == validated(old(self).darkflat, on_disk.darkflat),
            final(self).bias == validated(old(self).bias, on_disk.bias),
            final(self).hot_pixel_map == validated(old(self).hot_pixel_map, on_disk.hot_pixel_map),
            final(self).output_dir == validated(old(self).output_dir, on_disk.output_dir),
    {
        if !is_path_valid(&self.light, on_disk.light) {
            self.light = None;
        }
        if !is_path_valid(&self.dark, on_disk.dark) {
            self.dark = None;
        }
        if !is_path_valid(&self.flat, on_disk.flat) {
            self.flat = None;
        }
        if !is_path_valid(&self.darkflat, on_disk.darkflat) {
            self.darkflat = None;
        }
        if !is_path_valid(&self.bias, on_disk.bias) {
            self.bias = None;
        }
        if !is_path_valid(&self.hot_pixel_map, on_disk.hot_pixel_map) {
            self.hot_pixel_map = None;
        }
        if !is_path_valid(&self.output_dir, on_disk.output_dir) {
            self.output_dir = None;
        }
    }
}

} // verus!
