//! The local image store's layout: where an image's content and metadata
//! live, and how a stored image is put back together.

use crate::model::Image;
use crate::statement::{is_hyphenated_uuid, new_uuid_text};
use std::sync::Arc;
use vstd::prelude::*;
use vstd::string::StringExecFns;

verus! {

/// The metadata stored beside an image's content.
#[derive(Clone, Debug, PartialEq, Eq)]
pub struct ImageMetadata {
    pub file_name: String,
    pub mime_type: String,
}

/// One image part of an upload, as the client sent it.
#[derive(Clone, Debug, PartialEq, Eq)]
pub struct ImagePart {
    pub file_name: Option<String>,
    pub content_type: Option<String>,
    pub bytes: Vec<u8>,
}

impl ImagePart {
    /// File name and content type are mandatory for every image part.
    pub open spec fn complete(&self) -> bool {
        self.file_name.is_some() && self.content_type.is_some()
    }
}

/// Whether every image part carries its file name and content type. One
/// incomplete part fails the whole upload; none is skipped.
pub fn parts_complete(parts: &Vec<ImagePart>) -> (ok: bool)
    ensures
        ok == forall|i: int| 0 <= i < parts.len() ==> (#[trigger] parts[i]).complete(),
{
    let mut i: usize = 0;
    while i < parts.len()
        invariant
            i <= parts.len(),
            forall|j: int| 0 <= j < i ==> (#[trigger] parts[j]).complete(),
        decreases parts.len() - i,
    {
        if parts[i].file_name.is_none() || parts[i].content_type.is_none() {
            return false;
        }
        i = i + 1;
    }
    true
}

/// The path of the file that holds the content of image `id`.
pub open spec fn content_path_of(dir: Seq<char>, id: Seq<char>) -> Seq<char> {
    dir + "/"@ + id
}

/// The path of the metadata file of image `id`.
pub open spec fn meta_path_of(dir: Seq<char>, id: Seq<char>) -> Seq<char> {
    dir + "/"@ + id + ".meta"@
}

/// An image store in a flat directory on the local disk.
#[derive(Clone, Debug, PartialEq, Eq)]
pub struct LocalImageRepo {
    image_dir: String,
}

impl LocalImageRepo {
    /// The directory that holds the images.
    pub closed spec fn dir(&self) -> Seq<char> {
        self.image_dir@
    }

    /// A store over the directory `image_dir`.
    pub fn new(image_dir: String) -> (repo: Arc<LocalImageRepo>)
        ensures
            repo.dir() == image_dir@,
    {
        Arc::new(LocalImageRepo { image_dir })
    }

    /// The directory that holds the images.
    pub fn image_dir(&self) -> (dir: &str)
        ensures
            dir@ == self.dir(),
    {
        self.image_dir.as_str()
    }

    /// The path of the content file of image `id`.
    pub fn content_path(&self, id: &str) -> (path: String)
        ensures
            path@ == content_path_of(self.dir(), id@),
    {
        let mut path = self.image_dir.clone();
        path.append("/");
        path.append(id);
        path
    }

    /// The path of the metadata file of image `id`.
    pub fn meta_path(&self, id: &str) -> (path: String)
        ensures
            path@ == meta_path_of(self.dir(), id@),
    {
        let mut path = self.content_path(id);
        path.append(".meta");
        path
    }
}

/// Generates the identifier of a new image: a random UUID in hyphenated
/// form.
pub fn new_image_id() -> (id: String)
    ensures
        is_hyphenated_uuid(id@),
{
    new_uuid_text()
}

/// Puts a stored image back together from the content and the metadata
/// read for `id`.
pub fn loaded_image(id: &str, bytes: Vec<u8>, metadata: ImageMetadata) -> (image: Image)
    ensures
        image.id.is_some(),
        image.id.unwrap()@ == id@,
        image.file_name@ == metadata.file_name@,
        image.mime_type@ == metadata.mime_type@,
        image.bytes@ == bytes@,
{
    Image {
        id: Some(String::from_str(id)),
        file_name: metadata.file_name,
        mime_type: metadata.mime_type,
        bytes,
    }
}

} // verus!
