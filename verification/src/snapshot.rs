//! Versioned clipboard snapshots and lazy payloads.
use vstd::prelude::*;
use crate::node::NodeId;

verus! {

/// Recognised clipboard image formats.
#[derive(Clone, Copy, Debug, PartialEq, Eq, Hash, Structural)]
pub enum ImageFormat {
    /// PNG.
    Png,
    /// JPEG.
    Jpeg,
    /// Raw 32-bit RGBA bitmap.
    Rgba8,
}

/// Either inline bytes or an out-of-line fetch handle, chosen by size.
#[derive(Clone, Debug, PartialEq, Eq)]
pub enum LazyPayload {
    /// Bytes ride along inside the snapshot.
    Inline(Vec<u8>),
    /// Receiver fetches the bytes by hash on paste.
    OnDemand { hash: [u8; 32], size: u64 },
}

/// A reference to a file in a clipboard payload.
#[derive(Clone, Debug, PartialEq, Eq)]
pub enum FileRef {
    /// A path local to the originating node.
    OriginPath(String),
    /// Inline bytes for tiny files.
    Inline { name: String, data: Vec<u8> },
    /// Out-of-line: the receiver fetches by hash.
    OnDemand { name: String, size: u64, hash: [u8; 32] },
}

/// One representation of a clipboard payload.
#[derive(Clone, Debug, PartialEq, Eq)]
pub enum ClipItem {
    /// Plain UTF-8 text.
    Text(String),
    /// HTML with a plain-text fallback.
    Html { html: String, plain_fallback: String },
    /// Bitmap image, `hash` being the BLAKE3 hash of the bytes.
    Image { format: ImageFormat, hash: [u8; 32], data: LazyPayload },
    /// One or more files.
    Files(Vec<FileRef>),
}

/// A clipboard update: a Lamport version, the originating node, a
/// wall-clock timestamp (informational) and its representations.
#[derive(Clone, Debug, PartialEq, Eq)]
pub struct ClipboardSnapshot {
    /// Lamport version.
    pub version: u64,
    /// Originating node.
    pub origin: NodeId,
    /// Wall-clock timestamp at the source, in milliseconds.
    pub created_unix_ms: u64,
    /// Available representations.
    pub items: Vec<ClipItem>,
}

/// Mathematical model of a [`LazyPayload`].
pub enum LazyPayloadModel {
    Inline(Seq<u8>),
    OnDemand { hash: Seq<u8>, size: u64 },
}

/// Mathematical model of a [`FileRef`].
pub enum FileRefModel {
    OriginPath(Seq<char>),
    Inline { name: Seq<char>, data: Seq<u8> },
    OnDemand { name: Seq<char>, size: u64, hash: Seq<u8> },
}

/// Mathematical model of a [`ClipItem`].
pub enum ClipItemModel {
    Text(Seq<char>),
    Html { html: Seq<char>, plain_fallback: Seq<char> },
    Image { format: ImageFormat, hash: Seq<u8>, data: LazyPayloadModel },
    Files(Seq<FileRefModel>),
}

/// Mathematical model of a [`ClipboardSnapshot`].
pub struct SnapshotModel {
    pub version: u64,
    pub origin: Seq<u8>,
    pub created_unix_ms: u64,
    pub items: Seq<ClipItemModel>,
}

impl View for LazyPayload {
    type V = LazyPayloadModel;

    open spec fn view(&self) -> LazyPayloadModel {
        match self {
            LazyPayload::Inline(b) => LazyPayloadModel::Inline(b@),
            LazyPayload::OnDemand { hash, size } => LazyPayloadModel::OnDemand {
                hash: hash@,
                size: *size,
            },
        }
    }
}

impl View for FileRef {
    type V = FileRefModel;

    open spec fn view(&self) -> FileRefModel {
        match self {
            FileRef::OriginPath(p) => FileRefModel::OriginPath(p@),
            FileRef::Inline { name, data } => FileRefModel::Inline { name: name@, data: data@ },
            FileRef::OnDemand { name, size, hash } => FileRefModel::OnDemand {
                name: name@,
                size: *size,
                hash: hash@,
            },
        }
    }
}

/// The models of a sequence of file references.
pub open spec fn files_model(files: Seq<FileRef>) -> Seq<FileRefModel> {
    files.map_values(|f: FileRef| f@)
}

impl View for ClipItem {
    type V = ClipItemModel;

    open spec fn view(&self) -> ClipItemModel {
        match self {
            ClipItem::Text(t) => ClipItemModel::Text(t@),
            ClipItem::Html { html, plain_fallback } => ClipItemModel::Html {
                html: html@,
                plain_fallback: plain_fallback@,
            },
            ClipItem::Image { format, hash, data } => ClipItemModel::Image {
                format: *format,
                hash: hash@,
                data: data@,
            },
            ClipItem::Files(files) => ClipItemModel::Files(files_model(files@)),
        }
    }
}

/// The models of a sequence of clipboard items.
pub open spec fn items_model(items: Seq<ClipItem>) -> Seq<ClipItemModel> {
    items.map_values(|i: ClipItem| i@)
}

impl View for ClipboardSnapshot {
    type V = SnapshotModel;

    open spec fn view(&self) -> SnapshotModel {
        SnapshotModel {
            version: self.version,
            origin: self.origin@,
            created_unix_ms: self.created_unix_ms,
            items: items_model(self.items@),
        }
    }
}

/// A copy of a byte vector.
pub fn copy_bytes(v: &Vec<u8>) -> (r: Vec<u8>)
    ensures
        r@ == v@,
{
    let r = v.clone();
    assert(r@ =~= v@);
    r
}

impl LazyPayload {
    /// A deep copy with the same model.
    pub fn duplicate(&self) -> (r: LazyPayload)
        ensures
            r@ == self@,
    {
        match self {
            LazyPayload::Inline(b) => LazyPayload::Inline(copy_bytes(b)),
            LazyPayload::OnDemand { hash, size } => LazyPayload::OnDemand { hash: *hash, size: *size },
        }
    }
}

impl FileRef {
    /// A deep copy with the same model.
    pub fn duplicate(&self) -> (r: FileRef)
        ensures
            r@ == self@,
    {
        match self {
            FileRef::OriginPath(p) => FileRef::OriginPath(p.clone()),
            FileRef::Inline { name, data } => FileRef::Inline {
                name: name.clone(),
                data: copy_bytes(data),
            },
            FileRef::OnDemand { name, size, hash } => FileRef::OnDemand {
                name: name.clone(),
                size: *size,
                hash: *hash,
            },
        }
    }
}

/// A deep copy of a list of file references.
pub fn copy_files(files: &Vec<FileRef>) -> (r: Vec<FileRef>)
    ensures
        files_model(r@) == files_model(files@),
{
    let mut r: Vec<FileRef> = Vec::new();
    let mut i: usize = 0;
    while i < files.len()
        invariant
            0 <= i <= files.len(),
            r@.len() == i,
            forall|j: int| 0 <= j < i ==> r@[j]@ == files@[j]@,
        decreases files.len() - i,
    {
        r.push(files[i].duplicate());
        i = i + 1;
    }
    assert(files_model(r@) =~= files_model(files@));
    r
}

impl ClipItem {
    /// A deep copy with the same model.
    pub fn duplicate(&self) -> (r: ClipItem)
        ensures
            r@ == self@,
    {
        match self {
            ClipItem::Text(t) => ClipItem::Text(t.clone()),
            ClipItem::Html { html, plain_fallback } => ClipItem::Html {
                html: html.clone(),
                plain_fallback: plain_fallback.clone(),
            },
            ClipItem::Image { format, hash, data } => ClipItem::Image {
                format: *format,
                hash: *hash,
                data: data.duplicate(),
            },
            ClipItem::Files(files) => ClipItem::Files(copy_files(files)),
        }
    }
}

/// A deep copy of a list of clipboard items.
pub fn copy_items(items: &Vec<ClipItem>) -> (r: Vec<ClipItem>)
    ensures
        items_model(r@) == items_model(items@),
{
    let mut r: Vec<ClipItem> = Vec::new();
    let mut i: usize = 0;
    while i < items.len()
        invariant
            0 <= i <= items.len(),
            r@.len() == i,
            forall|j: int| 0 <= j < i ==> r@[j]@ == items@[j]@,
        decreases items.len() - i,
    {
        r.push(items[i].duplicate());
        i = i + 1;
    }
    assert(items_model(r@) =~= items_model(items@));
    r
}

impl ClipboardSnapshot {
    /// A deep copy with the same model.
    pub fn duplicate(&self) -> (r: ClipboardSnapshot)
        ensures
            r@ == self@,
    {
        ClipboardSnapshot {
            version: self.version,
            origin: self.origin,
            created_unix_ms: self.created_unix_ms,
            items: copy_items(&self.items),
        }
    }
}

} // verus!
