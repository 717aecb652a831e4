//! On-disk layout: where an image in full and its preview live.
//!
//! Both files carry the same name, under two separate roots. Nothing in this
//! module touches the file system; it only says which paths belong together.

use vstd::prelude::*;
use vstd::string::*;
use crate::text::to_chars;

verus! {

/// Root under which images are stored in full, byte for byte as received.
pub const FULL_IMG_PATH: &'static str = "images/full/";

/// Root under which previews are stored.
pub const PREVIEW_IMG_PATH: &'static str = "images/preview/";

/// Path of the full image stored under `name`.
pub open spec fn full_path_of(name: Seq<char>) -> Seq<char> {
    FULL_IMG_PATH@ + name
}

/// Path of the preview stored under `name`.
pub open spec fn preview_path_of(name: Seq<char>) -> Seq<char> {
    PREVIEW_IMG_PATH@ + name
}

/// Path of the full image stored under `name`.
pub fn full_path(name: &str) -> (path: String)
    ensures
        path@ == full_path_of(name@),
{
    let mut path = String::from_str(FULL_IMG_PATH);
    path.append(name);
    path
}

/// Path of the preview stored under `name`.
pub fn preview_path(name: &str) -> (path: String)
    ensures
        path@ == preview_path_of(name@),
{
    let mut path = String::from_str(PREVIEW_IMG_PATH);
    path.append(name);
    path
}

/// A character that parts the steps of a path.
pub open spec fn is_separator(c: char) -> bool {
    c == '/' || c == '\\'
}

/// The text holds no path separator: joined to a root, it names a file
/// right under that root and nothing anywhere else.
pub open spec fn is_plain_name(name: Seq<char>) -> bool {
    forall|i: int| 0 <= i < name.len() ==> !is_separator(#[trigger] name[i])
}

/// Tells whether the text holds no path separator.
pub fn is_plain(name: &str) -> (plain: bool)
    ensures
        plain == is_plain_name(name@),
{
    let chars = to_chars(name);
    let mut i: usize = 0;
    while i < chars.len()
        invariant
            i <= chars.len(),
            chars@ == name@,
            forall|k: int| 0 <= k < i ==> !is_separator(#[trigger] chars@[k]),
        decreases chars.len() - i,
    {
        if chars[i] == '/' || chars[i] == '\\' {
            assert(is_separator(name@[i as int]));
            return false;
        }
        i += 1;
    }
    true
}

/// One persisted image: its name and the two paths that go with it.
///
/// Assets are written once. Only the name is ever shown to a client.
pub struct StoredAsset {
    pub filename: String,
    pub full_path: String,
    pub preview_path: String,
}

/// Mathematical value of a [`StoredAsset`].
pub struct AssetModel {
    pub filename: Seq<char>,
    pub full_path: Seq<char>,
    pub preview_path: Seq<char>,
}

/// The asset that belongs to a name.
pub open spec fn asset_of(name: Seq<char>) -> AssetModel {
    AssetModel {
        filename: name,
        full_path: full_path_of(name),
        preview_path: preview_path_of(name),
    }
}

impl AssetModel {
    /// Both paths are the ones the layout assigns to the name.
    pub open spec fn wf(self) -> bool {
        self == asset_of(self.filename)
    }
}

impl View for StoredAsset {
    type V = AssetModel;

    open spec fn view(&self) -> AssetModel {
        AssetModel {
            filename: self.filename@,
            full_path: self.full_path@,
            preview_path: self.preview_path@,
        }
    }
}

impl StoredAsset {
    /// The asset stored under `filename`.
    pub fn new(filename: String) -> (asset: StoredAsset)
        ensures
            asset@ == asset_of(filename@),
    {
        let full_path = full_path(filename.as_str());
        let preview_path = preview_path(filename.as_str());
        StoredAsset { filename, full_path, preview_path }
    }

    /// A second handle on the same asset.
    pub fn duplicate(&self) -> (copy: StoredAsset)
        ensures
            copy@ == self@,
    {
        StoredAsset {
            filename: self.filename.clone(),
            full_path: self.full_path.clone(),
            preview_path: self.preview_path.clone(),
        }
    }
}

/// Different names are stored at different paths, under either root.
pub proof fn lemma_paths_follow_names(name_a: Seq<char>, name_b: Seq<char>)
    requires
        name_a != name_b,
    ensures
        full_path_of(name_a) != full_path_of(name_b),
        preview_path_of(name_a) != preview_path_of(name_b),
{
    let full = FULL_IMG_PATH@;
    let preview = PREVIEW_IMG_PATH@;
    assert(full_path_of(name_a).skip(full.len() as int) =~= name_a);
    assert(full_path_of(name_b).skip(full.len() as int) =~= name_b);
    assert(preview_path_of(name_a).skip(preview.len() as int) =~= name_a);
    assert(preview_path_of(name_b).skip(preview.len() as int) =~= name_b);
}

/// No preview is ever written over a full image: the two roots keep every
/// full path apart from every preview path.
pub proof fn lemma_roots_are_separate(name_a: Seq<char>, name_b: Seq<char>)
    ensures
        full_path_of(name_a) != preview_path_of(name_b),
{
    reveal_strlit("images/full/");
    reveal_strlit("images/preview/");
    assert(full_path_of(name_a)[7] == 'f');
    assert(preview_path_of(name_b)[7] == 'p');
}

} // verus!
