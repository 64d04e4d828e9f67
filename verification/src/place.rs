//! Places in the file system: a directory and the names that lead on from it.

use std::path::PathBuf;
use vstd::prelude::*;

verus! {

/// `std::path::PathBuf`, carried through unread.
#[verifier::external_type_specification]
#[verifier::external_body]
pub struct ExPathBuf(PathBuf);

/// The file or directory that is reached from `base` through the names `parts`.
#[derive(Debug)]
pub struct Place {
    pub base: PathBuf,
    pub parts: Vec<String>,
}

/// What a `Place` says.
#[verifier::ext_equal]
pub struct PlaceView {
    pub base: PathBuf,
    pub parts: Seq<Seq<char>>,
}

impl View for Place {
    type V = PlaceView;

    open spec fn view(&self) -> PlaceView {
        PlaceView { base: self.base, parts: self.parts@.map_values(|part: String| part@) }
    }
}

/// `name` in the directory `base`.
pub open spec fn place_in(base: PathBuf, name: Seq<char>) -> PlaceView {
    PlaceView { base, parts: seq![name] }
}

/// `name` in the directory `base`.
pub fn in_directory(base: PathBuf, name: &str) -> (place: Place)
    ensures
        place@ == place_in(base, name@),
{
    let mut parts: Vec<String> = Vec::new();
    parts.push(name.to_string());
    let place = Place { base, parts };
    assert(place@ =~= place_in(base, name@));
    place
}

/// `name` in the directory `folder` of the directory `base`.
pub fn in_folder(base: PathBuf, folder: &str, name: &str) -> (place: Place)
    ensures
        place@ == (PlaceView { base, parts: seq![folder@, name@] }),
{
    let mut parts: Vec<String> = Vec::new();
    parts.push(folder.to_string());
    parts.push(name.to_string());
    let place = Place { base, parts };
    assert(place@ =~= PlaceView { base, parts: seq![folder@, name@] });
    place
}

} // verus!
