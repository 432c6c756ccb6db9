//! Where the bytes of an image live: content keys, the spool of pasted
//! images, relinking items to files that moved, and whether a document
//! carries all its images inside.

use vstd::prelude::*;

verus! {

/// The key of an image's content: a 32-byte hash.
#[derive(Debug, Clone, Copy, PartialEq, Eq, Hash)]
pub struct ContentHash {
    pub bytes: [u8; 32],
}

impl ContentHash {
    /// The key with these bytes.
    pub fn from_bytes(bytes: [u8; 32]) -> (h: Self)
        ensures
            h.bytes == bytes,
    {
        ContentHash { bytes }
    }

    /// Whether two keys are the same.
    pub fn same(&self, other: &ContentHash) -> (r: bool)
        ensures
            r == (*self == *other),
    {
        let mut i: usize = 0;
        while i < 32
            invariant
                i <= 32,
                forall|k: int| 0 <= k < i ==> self.bytes@[k] == other.bytes@[k],
            decreases 32 - i,
        {
            if self.bytes[i] != other.bytes[i] {
                return false;
            }
            i = i + 1;
        }
        proof {
            broadcast use vstd::array::group_array_axioms;
            assert forall|k: int| 0 <= k < 32 implies self.bytes[k] == other.bytes[k] by {
                assert(self.bytes@[k] == other.bytes@[k]);
            }
            assert(self.bytes =~= other.bytes);
        }
        true
    }

    /// The key in lower-case hexadecimal, two digits per byte.
    pub fn hex(&self) -> (s: String)
        ensures
            s@ == hex_spec(self.bytes@),
    {
        let mut s = String::new();
        let mut i: usize = 0;
        while i < 32
            invariant
                i <= 32,
                self.bytes@.len() == 32,
                s@ == hex_spec(self.bytes@.take(i as int)),
            decreases 32 - i,
        {
            let b = self.bytes[i];
            s.append(hex_digit(b / 16));
            s.append(hex_digit(b % 16));
            proof {
                assert(self.bytes@.take(i + 1).drop_last() == self.bytes@.take(i as int));
            }
            i = i + 1;
        }
        proof {
            assert(self.bytes@.take(32) == self.bytes@);
        }
        s
    }
}

/// The lower-case hexadecimal digit of `d`.
pub open spec fn hex_char(d: int) -> char {
    if d < 10 {
        (d + 48) as char
    } else {
        (d + 87) as char
    }
}

/// Bytes in lower-case hexadecimal, two digits per byte.
pub open spec fn hex_spec(b: Seq<u8>) -> Seq<char>
    decreases b.len(),
{
    if b.len() == 0 {
        Seq::empty()
    } else {
        hex_spec(b.drop_last()).push(hex_char((b.last() / 16) as int)).push(hex_char((b.last() % 16) as int))
    }
}

fn hex_digit(d: u8) -> (s: &'static str)
    requires
        d < 16,
    ensures
        s@ == seq![hex_char(d as int)],
{
    proof {
        reveal_strlit("0");
        reveal_strlit("1");
        reveal_strlit("2");
        reveal_strlit("3");
        reveal_strlit("4");
        reveal_strlit("5");
        reveal_strlit("6");
        reveal_strlit("7");
        reveal_strlit("8");
        reveal_strlit("9");
        reveal_strlit("a");
        reveal_strlit("b");
        reveal_strlit("c");
        reveal_strlit("d");
        reveal_strlit("e");
        reveal_strlit("f");
    }
    match d {
        0 => "0",
        1 => "1",
        2 => "2",
        3 => "3",
        4 => "4",
        5 => "5",
        6 => "6",
        7 => "7",
        8 => "8",
        9 => "9",
        10 => "a",
        11 => "b",
        12 => "c",
        13 => "d",
        14 => "e",
        _ => "f",
    }
}


/// Whether the path `path` lies inside the directory `dir`, as
/// `std::path::Path::starts_with` decides it (whole components, not text).
pub uninterp spec fn path_starts_with(path: Seq<char>, dir: Seq<char>) -> bool;

/// The path of `name` inside `dir`, as `std::path::Path::join` forms it.
pub uninterp spec fn joined_path(dir: Seq<char>, name: Seq<char>) -> Seq<char>;

/// Calls `Path::starts_with` on `path` and `dir`. Its answer depends on the
/// two paths alone and is named [`path_starts_with`].
#[verifier::external_body]
fn path_in_dir(path: &str, dir: &str) -> (r: bool)
    ensures
        r == path_starts_with(path@, dir@),
{
    std::path::Path::new(path).starts_with(dir)
}

/// Calls `Path::join` on `dir` and `name` and hands the path back as a
/// string. The path depends on the two arguments alone and is named
/// [`joined_path`].
#[verifier::external_body]
fn join_path(dir: &str, name: &str) -> (r: String)
    ensures
        r@ == joined_path(dir@, name@),
{
    std::path::Path::new(dir).join(name).to_string_lossy().into_owned()
}

/// Calls `Path::is_file`: whether a file is at `path` right now. What is on
/// disk can change at any time, so nothing is stated of the answer.
#[verifier::external_body]
fn is_file(path: &str) -> bool {
    std::path::Path::new(path).is_file()
}

/// The file name a pasted image gets in the spool: its key in hexadecimal
/// with the `.png` extension.
pub open spec fn spool_name(hash: ContentHash) -> Seq<char> {
    hex_spec(hash.bytes@) + ".png"@
}

/// Where the spool keeps the pasted image with this key: its file name
/// inside the spool directory.
pub fn spool_path(dir: &str, hash: ContentHash) -> (p: String)
    ensures
        p@ == joined_path(dir@, spool_name(hash)),
{
    let mut name = hash.hex();
    name.append(".png");
    join_path(dir, name.as_str())
}

/// The size of an image in pixels.
#[derive(Debug, Clone, Copy, PartialEq, Eq, Structural)]
pub struct PxSize {
    pub x: u32,
    pub y: u32,
}

/// The file format of an image, where it is known.
#[derive(Debug, Clone, Copy, PartialEq, Eq, Structural)]
pub enum ImageFormat {
    Unknown,
    Png,
    Jpeg,
    Webp,
}

/// Why an item has no image.
#[derive(Debug, Clone, Copy, PartialEq, Eq, Structural)]
pub enum MissingReason {
    FileNotFound,
    Unreadable,
}

/// The image an item shows: its content key, where its bytes are, and what
/// was known of the file when it was added.
#[derive(Debug, Clone, PartialEq, Eq)]
pub struct AssetRef {
    pub hash: ContentHash,
    pub path: String,
    pub px_size: PxSize,
    pub format: ImageFormat,
    pub embedded: bool,
    pub mtime: i64,
    pub file_size: u64,
}

/// A text note.
#[derive(Debug, Clone, PartialEq, Eq)]
pub struct TextNote {
    pub text: String,
}

/// What an item on the board is.
#[derive(Debug, Clone, PartialEq, Eq)]
pub enum ItemKind {
    Image(AssetRef),
    Text(TextNote),
    /// An image whose file could not be found; it stays on the board.
    Missing { original_path: String, reason: MissingReason },
}

/// [`AssetRef`] with its path as characters.
pub struct AssetView {
    pub hash: ContentHash,
    pub path: Seq<char>,
    pub px_size: PxSize,
    pub format: ImageFormat,
    pub embedded: bool,
    pub mtime: i64,
    pub file_size: u64,
}

/// [`ItemKind`] with its texts as characters.
pub enum KindView {
    Image(AssetView),
    Text(Seq<char>),
    Missing(Seq<char>, MissingReason),
}

impl View for AssetRef {
    type V = AssetView;

    open spec fn view(&self) -> AssetView {
        AssetView {
            hash: self.hash,
            path: self.path@,
            px_size: self.px_size,
            format: self.format,
            embedded: self.embedded,
            mtime: self.mtime,
            file_size: self.file_size,
        }
    }
}

impl View for ItemKind {
    type V = KindView;

    open spec fn view(&self) -> KindView {
        match self {
            ItemKind::Image(a) => KindView::Image(a@),
            ItemKind::Text(n) => KindView::Text(n.text@),
            ItemKind::Missing { original_path, reason } => KindView::Missing(
                original_path@,
                *reason,
            ),
        }
    }
}

/// A decoded preview of an image and the size of the image it came from.
#[derive(Debug, Clone, PartialEq, Eq)]
pub struct Thumbnail {
    pub pixels: Vec<u8>,
    pub source_width: u32,
    pub source_height: u32,
    pub dominant: u32,
}

/// What was read of a file when it was opened.
#[derive(Debug, Clone, Copy, PartialEq, Eq, Structural)]
pub struct SourceMeta {
    pub mtime_ms: i64,
    pub bytes: u64,
}

impl Default for SourceMeta {
    fn default() -> (m: Self)
        ensures
            m == (SourceMeta { mtime_ms: 0, bytes: 0 }),
    {
        SourceMeta { mtime_ms: 0, bytes: 0 }
    }
}

/// `a`, or 1 when `a` is 0.
pub open spec fn at_least_one(a: u32) -> u32 {
    if a == 0 { 1 } else { a }
}

/// What an item becomes after its file was just read at `resolved` (with
/// content key `content`); `None` when the item is no target of relinking
/// (a note), when there is no file, or when a missing item's file gave no
/// key.
///
/// An image gets the new path and its repaired key, and nothing else of it
/// changes. A file inside the spool of pasted images is a different case:
/// its key is the key of the pixels and is never rewritten, and an image
/// that already had a path keeps it (reading the document's own copy is
/// no move). A missing item becomes an image again, with the size of the
/// picture just read and the file's time and size.
pub open spec fn relinked_spec(
    current: KindView,
    resolved: Option<Seq<char>>,
    content: Option<ContentHash>,
    spool_dir: Option<Seq<char>>,
    thumb_w: u32,
    thumb_h: u32,
    meta: SourceMeta,
) -> Option<KindView> {
    match resolved {
        None => None,
        Some(path) => {
            let in_spool = match spool_dir {
                Some(dir) => path_starts_with(path, dir),
                None => false,
            };
            match current {
                KindView::Text(_) => None,
                KindView::Image(a) => {
                    let hash = if in_spool {
                        a.hash
                    } else {
                        match content {
                            Some(c) => c,
                            None => a.hash,
                        }
                    };
                    let keep_old_path = in_spool && a.path.len() > 0;
                    Some(KindView::Image(AssetView { hash, path: if keep_old_path { a.path } else { path }, ..a }))
                },
                KindView::Missing(_, _) => match content {
                    None => None,
                    Some(c) => Some(
                        KindView::Image(
                            AssetView {
                                hash: c,
                                path,
                                px_size: PxSize { x: at_least_one(thumb_w), y: at_least_one(thumb_h) },
                                format: ImageFormat::Unknown,
                                embedded: false,
                                mtime: meta.mtime_ms,
                                file_size: meta.bytes,
                            },
                        ),
                    ),
                },
            }
        },
    }
}

/// The kind an item should have after its file was just read; see
/// [`relinked_spec`].
pub fn relinked_kind(
    current: &ItemKind,
    resolved: Option<&str>,
    content: Option<ContentHash>,
    spool_dir: Option<&str>,
    thumb: &Thumbnail,
    meta: SourceMeta,
) -> (r: Option<ItemKind>)
    ensures
        match r {
            Some(k) => relinked_spec(
                current@,
                match resolved {
                    Some(p) => Some(p@),
                    None => None,
                },
                content,
                match spool_dir {
                    Some(d) => Some(d@),
                    None => None,
                },
                thumb.source_width,
                thumb.source_height,
                meta,
            ) == Some(k@),
            None => relinked_spec(
                current@,
                match resolved {
                    Some(p) => Some(p@),
                    None => None,
                },
                content,
                match spool_dir {
                    Some(d) => Some(d@),
                    None => None,
                },
                thumb.source_width,
                thumb.source_height,
                meta,
            ) is None,
        },
{
    let path = match resolved {
        Some(p) => p,
        None => return None,
    };
    let in_spool = match spool_dir {
        Some(dir) => path_in_dir(path, dir),
        None => false,
    };
    match current {
        ItemKind::Text(_) => None,
        ItemKind::Image(asset) => {
            let hash = if in_spool {
                asset.hash
            } else {
                match content {
                    Some(c) => c,
                    None => asset.hash,
                }
            };
            let keep_old_path = in_spool && !asset.path.as_str().is_empty();
            let new_path = if keep_old_path {
                asset.path.clone()
            } else {
                String::from_str(path)
            };
            Some(
                ItemKind::Image(
                    AssetRef {
                        hash,
                        path: new_path,
                        px_size: asset.px_size,
                        format: asset.format,
                        embedded: asset.embedded,
                        mtime: asset.mtime,
                        file_size: asset.file_size,
                    },
                ),
            )
        },
        ItemKind::Missing { .. } => match content {
            None => None,
            Some(c) => {
                let w = if thumb.source_width == 0 { 1 } else { thumb.source_width };
                let h = if thumb.source_height == 0 { 1 } else { thumb.source_height };
                Some(
                    ItemKind::Image(
                        AssetRef {
                            hash: c,
                            path: String::from_str(path),
                            px_size: PxSize { x: w, y: h },
                            format: ImageFormat::Unknown,
                            embedded: false,
                            mtime: meta.mtime_ms,
                            file_size: meta.bytes,
                        },
                    ),
                )
            },
        },
    }
}


/// What a worker learnt of the content of an image it decoded.
#[derive(Debug, Clone, Copy, PartialEq, Eq)]
pub enum ContentOrigin {
    /// A user's file whose bytes have this key.
    File(ContentHash),
    /// A pasted image stored in the spool under the key of its pixels.
    Spooled(ContentHash),
}

/// The key an image's asset gets and, for a pasted image, its path in the
/// spool: the content key whenever one is known (so that copies of one
/// picture are one asset), else the key of the job as a fallback.
pub open spec fn asset_location_spec(
    spool_dir: Option<Seq<char>>,
    job_hash: ContentHash,
    origin: Option<ContentOrigin>,
) -> (ContentHash, Option<Seq<char>>) {
    match origin {
        Some(ContentOrigin::Spooled(c)) => (
            c,
            match spool_dir {
                Some(d) => Some(joined_path(d, spool_name(c))),
                None => None,
            },
        ),
        Some(ContentOrigin::File(c)) => (c, None),
        None => (job_hash, None),
    }
}

/// The key and, for a pasted image, the spool path of the asset a decoded
/// image becomes; see [`asset_location_spec`].
pub fn asset_location(spool_dir: Option<&str>, job_hash: ContentHash, origin: Option<
    ContentOrigin,
>) -> (r: (ContentHash, Option<String>))
    ensures
        r.0 == asset_location_spec(
            match spool_dir {
                Some(d) => Some(d@),
                None => None,
            },
            job_hash,
            origin,
        ).0,
        match r.1 {
            Some(p) => asset_location_spec(
                match spool_dir {
                    Some(d) => Some(d@),
                    None => None,
                },
                job_hash,
                origin,
            ).1 == Some(p@),
            None => asset_location_spec(
                match spool_dir {
                    Some(d) => Some(d@),
                    None => None,
                },
                job_hash,
                origin,
            ).1 is None,
        },
{
    match origin {
        Some(ContentOrigin::Spooled(content)) => (
            content,
            match spool_dir {
                Some(dir) => Some(spool_path(dir, content)),
                None => None,
            },
        ),
        Some(ContentOrigin::File(content)) => (content, None),
        None => (job_hash, None),
    }
}

/// Where the bytes of an asset are, for saving.
#[derive(Debug, Clone, PartialEq, Eq)]
pub enum AssetBytes {
    /// A file of ours (in the spool): always stored inside the document.
    Ours(String),
    /// A user's file: linked in a linked document.
    UserFile(String),
    /// Nothing is left of it.
    Missing,
}

/// The decision of [`locate_bytes`] from what is on disk: the asset's own
/// file if it is there (ours when it lies in the spool), else the spool's
/// copy of its key if that is there, else nothing.
pub open spec fn bytes_decision(
    asset_path: Seq<char>,
    in_spool: bool,
    have_file: bool,
    spool_copy: Option<Seq<char>>,
    spool_copy_is_file: bool,
) -> Option<(bool, Seq<char>)> {
    if have_file {
        Some((in_spool, asset_path))
    } else {
        match spool_copy {
            Some(p) => if spool_copy_is_file {
                Some((true, p))
            } else {
                None
            },
            None => None,
        }
    }
}

/// The answer as (ours, path), or `None` when missing.
pub open spec fn bytes_found(r: AssetBytes) -> Option<(bool, Seq<char>)> {
    match r {
        AssetBytes::Ours(p) => Some((true, p@)),
        AssetBytes::UserFile(p) => Some((false, p@)),
        AssetBytes::Missing => None,
    }
}

/// [`bytes_decision`] for `asset`, when the disk says whether its file
/// (`have_file`) and the spool's copy of its key (`copy_is_file`) exist.
pub open spec fn located_by(
    spool_dir: Option<&str>,
    asset: &AssetRef,
    have_file: bool,
    copy_is_file: bool,
) -> Option<(bool, Seq<char>)> {
    let in_spool = match spool_dir {
        Some(d) => path_starts_with(asset.path@, d@),
        None => false,
    };
    let copy = match spool_dir {
        Some(d) => Some(joined_path(d@, spool_name(asset.hash))),
        None => None,
    };
    bytes_decision(asset.path@, in_spool, have_file, copy, copy_is_file)
}

/// The order in which the bytes of an asset are looked for: its own file
/// first (ours when it lies in the spool, else the user's); when that is
/// gone, the spool's copy of its key, which is ours and so packed into the
/// document; missing only when neither is there or there is no spool.
pub proof fn law_own_file_then_spool_copy(
    spool_dir: Option<&str>,
    asset: &AssetRef,
    copy_is_file: bool,
)
    ensures
        located_by(spool_dir, asset, true, copy_is_file) == Some(
            (
                match spool_dir {
                    Some(d) => path_starts_with(asset.path@, d@),
                    None => false,
                },
                asset.path@,
            ),
        ),
        spool_dir matches Some(d) ==> located_by(spool_dir, asset, false, true) == Some(
            (true, joined_path(d@, hex_spec(asset.hash.bytes@) + ".png"@)),
        ),
        located_by(spool_dir, asset, false, false) is None,
        spool_dir is None ==> located_by(spool_dir, asset, false, copy_is_file) is None,
{
}

/// Where the bytes of `asset` are, given what the disk said: whether the
/// asset's own file exists (`have_file`) and whether the spool's copy of its
/// key exists (`copy_is_file`). Its own file wins (ours if it lies inside
/// the spool, else the user's), then the spool's copy, else missing.
pub fn bytes_at(spool_dir: Option<&str>, asset: &AssetRef, have_file: bool, copy_is_file: bool) -> (r:
    AssetBytes)
    ensures
        bytes_found(r) == located_by(spool_dir, asset, have_file, copy_is_file),
{
    let in_spool = match spool_dir {
        Some(dir) => path_in_dir(asset.path.as_str(), dir),
        None => false,
    };
    if have_file {
        let p = asset.path.clone();
        return if in_spool {
            AssetBytes::Ours(p)
        } else {
            AssetBytes::UserFile(p)
        };
    }
    match spool_dir {
        Some(dir) => {
            if copy_is_file {
                AssetBytes::Ours(spool_path(dir, asset.hash))
            } else {
                AssetBytes::Missing
            }
        },
        None => AssetBytes::Missing,
    }
}

/// Where the bytes of `asset` are: its own file when that exists (ours if
/// inside the spool, else the user's), else the copy the spool holds of
/// its key, else missing. Files on disk can come and go, so the contract
/// says what is handed back for the answers the disk gave; [`bytes_at`]
/// says it for each of them.
pub fn locate_bytes(spool_dir: Option<&str>, asset: &AssetRef) -> (r: AssetBytes)
    ensures
        ({
            &&& asset.path@.len() > 0
            &&& bytes_found(r) == located_by(spool_dir, asset, true, false)
        }) || bytes_found(r) == located_by(spool_dir, asset, false, true) || bytes_found(r)
            == located_by(spool_dir, asset, false, false),
{
    let have_file = !asset.path.as_str().is_empty() && is_file(asset.path.as_str());
    let copy_is_file = if have_file {
        false
    } else {
        match spool_dir {
            Some(dir) => {
                let copy = spool_path(dir, asset.hash);
                is_file(copy.as_str())
            },
            None => false,
        }
    };
    bytes_at(spool_dir, asset, have_file, copy_is_file)
}

/// How a document is saved: images linked where they are, or all packed
/// inside the document.
#[derive(Debug, Clone, Copy, PartialEq, Eq, Structural)]
pub enum SaveMode {
    Linked,
    Packed,
}

/// Whether `index` holds the key `h`.
pub open spec fn holds_key(index: Seq<ContentHash>, h: ContentHash) -> bool {
    exists|j: int| 0 <= j < index.len() && index[j] == h
}

/// A document is packed when it stores something and every image of the
/// board is stored inside it; notes and missing images do not count, as
/// they have no bytes to store.
pub open spec fn mode_spec(items: Seq<KindView>, index: Seq<ContentHash>) -> SaveMode {
    if index.len() == 0 {
        SaveMode::Linked
    } else if forall|i: int|
        0 <= i < items.len() ==> (#[trigger] items[i] matches KindView::Image(a) ==> holds_key(
            index,
            a.hash,
        )) {
        SaveMode::Packed
    } else {
        SaveMode::Linked
    }
}

fn index_holds(index: &[ContentHash], h: &ContentHash) -> (r: bool)
    ensures
        r == holds_key(index@, *h),
{
    let mut j: usize = 0;
    while j < index.len()
        invariant
            j <= index@.len(),
            forall|k: int| 0 <= k < j ==> index@[k] != *h,
        decreases index@.len() - j,
    {
        if index[j].same(h) {
            return true;
        }
        j = j + 1;
    }
    false
}

/// The mode a document is in, read from what it really stores: the kinds
/// of the board's items and the keys stored inside the document.
pub fn mode_of_document(items: &[ItemKind], index: &[ContentHash]) -> (m: SaveMode)
    ensures
        m == mode_spec(items@.map_values(|k: ItemKind| k@), index@),
{
    let ghost views = items@.map_values(|k: ItemKind| k@);
    if index.len() == 0 {
        return SaveMode::Linked;
    }
    let mut i: usize = 0;
    while i < items.len()
        invariant
            i <= items@.len(),
            views == items@.map_values(|k: ItemKind| k@),
            forall|k: int|
                0 <= k < i ==> (#[trigger] views[k] matches KindView::Image(a) ==> holds_key(
                    index@,
                    a.hash,
                )),
        decreases items@.len() - i,
    {
        match &items[i] {
            ItemKind::Image(asset) => {
                if !index_holds(index, &asset.hash) {
                    proof {
                        assert(views[i as int] == items@[i as int]@);
                    }
                    return SaveMode::Linked;
                }
            },
            _ => {},
        }
        proof {
            assert(views[i as int] == items@[i as int]@);
        }
        i = i + 1;
    }
    SaveMode::Packed
}

/// The number of images among `items` (notes and missing images are not).
pub open spec fn image_count(items: Seq<KindView>) -> nat
    decreases items.len(),
{
    if items.len() == 0 {
        0
    } else {
        image_count(items.drop_last()) + if items.last() is Image {
            1nat
        } else {
            0nat
        }
    }
}

/// The number of images among `items` whose key the document stores inside.
pub open spec fn inside_count(items: Seq<KindView>, index: Seq<ContentHash>) -> nat
    decreases items.len(),
{
    if items.len() == 0 {
        0
    } else {
        inside_count(items.drop_last(), index) + match items.last() {
            KindView::Image(a) => if holds_key(index, a.hash) {
                1nat
            } else {
                0nat
            },
            _ => 0nat,
        }
    }
}

/// Where the images of the open document are kept, as the status bar shows it.
#[derive(Debug, Clone, Copy, PartialEq, Eq, Structural)]
pub struct StorageView {
    /// The document is saved packed.
    pub packed: bool,
    /// Images on the board.
    pub images: usize,
    /// Of them, the ones the document's file stores inside.
    pub inside: usize,
    /// The document has a file.
    pub has_file: bool,
}

/// Counts, from the document's own table, how many images of the board it
/// stores inside.
pub fn storage_view(mode: SaveMode, items: &[ItemKind], index: &[ContentHash], has_file: bool) -> (v:
    StorageView)
    ensures
        v.packed == (mode == SaveMode::Packed),
        v.images == image_count(items@.map_values(|k: ItemKind| k@)),
        v.inside == inside_count(items@.map_values(|k: ItemKind| k@), index@),
        v.has_file == has_file,
{
    let ghost views = items@.map_values(|k: ItemKind| k@);
    let mut images: usize = 0;
    let mut inside: usize = 0;
    let mut i: usize = 0;
    while i < items.len()
        invariant
            i <= items@.len(),
            views == items@.map_values(|k: ItemKind| k@),
            images == image_count(views.take(i as int)),
            inside == inside_count(views.take(i as int), index@),
            inside <= images <= i,
        decreases items@.len() - i,
    {
        proof {
            assert(views.take(i + 1).drop_last() == views.take(i as int));
            assert(views.take(i + 1).last() == items@[i as int]@);
        }
        match &items[i] {
            ItemKind::Image(asset) => {
                images = images + 1;
                if index_holds(index, &asset.hash) {
                    inside = inside + 1;
                }
            },
            _ => {},
        }
        i = i + 1;
    }
    proof {
        assert(views.take(items@.len() as int) == views);
    }
    StorageView { packed: mode == SaveMode::Packed, images, inside, has_file }
}

/// The document never stores more images than the board holds, and a
/// document that reads as packed stores every one of them.
pub proof fn law_packed_stores_every_image(items: Seq<KindView>, index: Seq<ContentHash>)
    ensures
        inside_count(items, index) <= image_count(items),
        mode_spec(items, index) == SaveMode::Packed ==> inside_count(items, index) == image_count(
            items,
        ),
    decreases items.len(),
{
    if items.len() > 0 {
        law_packed_stores_every_image(items.drop_last(), index);
        if mode_spec(items, index) == SaveMode::Packed {
            assert(index.len() > 0);
            assert forall|i: int|
                0 <= i < items.drop_last().len() implies (#[trigger] items.drop_last()[i] matches KindView::Image(
                a,
            ) ==> holds_key(index, a.hash)) by {
                assert(items.drop_last()[i] == items[i]);
            }
            assert(mode_spec(items.drop_last(), index) == SaveMode::Packed);
            let k = items.len() - 1;
            assert(items[k] matches KindView::Image(a) ==> holds_key(index, a.hash));
        }
    }
}

/// Whether every image among `items` has its key in `index`.
proof fn lemma_counts_equal_iff_all_inside(items: Seq<KindView>, index: Seq<ContentHash>)
    ensures
        inside_count(items, index) <= image_count(items),
        (inside_count(items, index) == image_count(items)) <==> (forall|i: int|
            0 <= i < items.len() ==> (#[trigger] items[i] matches KindView::Image(a) ==> holds_key(
                index,
                a.hash,
            ))),
    decreases items.len(),
{
    if items.len() > 0 {
        let before = items.drop_last();
        lemma_counts_equal_iff_all_inside(before, index);
        let k = items.len() - 1;
        assert forall|i: int| 0 <= i < before.len() implies before[i] == items[i] by {}
        if inside_count(items, index) == image_count(items) {
            assert forall|i: int|
                0 <= i < items.len() implies (#[trigger] items[i] matches KindView::Image(a)
                ==> holds_key(index, a.hash)) by {
                if i < k {
                    assert(before[i] == items[i]);
                }
            }
        } else {
            if forall|i: int|
                0 <= i < items.len() ==> (#[trigger] items[i] matches KindView::Image(a)
                    ==> holds_key(index, a.hash)) {
                assert forall|i: int|
                    0 <= i < before.len() implies (#[trigger] before[i] matches KindView::Image(a)
                    ==> holds_key(index, a.hash)) by {
                    assert(before[i] == items[i]);
                }
                assert(items[k] matches KindView::Image(a) ==> holds_key(index, a.hash));
            }
        }
    }
}

/// A document is packed exactly when it stores something and stores every
/// image of the board: the number of images it holds inside equals the
/// number of images. Notes and missing images play no part.
pub proof fn law_packed_means_every_image_inside(items: Seq<KindView>, index: Seq<ContentHash>)
    ensures
        mode_spec(items, index) == SaveMode::Packed <==> (index.len() > 0 && inside_count(
            items,
            index,
        ) == image_count(items)),
        index.len() == 0 ==> mode_spec(items, index) == SaveMode::Linked,
{
    lemma_counts_equal_iff_all_inside(items, index);
}

/// Adding a note or a missing image anywhere among the items changes
/// neither the mode of the document nor its counts of images: a packed
/// document saved while one image was missing still reads as packed.
pub proof fn law_non_images_change_nothing(
    items: Seq<KindView>,
    index: Seq<ContentHash>,
    pos: int,
    k: KindView,
)
    requires
        0 <= pos <= items.len(),
        !(k is Image),
    ensures
        mode_spec(items.insert(pos, k), index) == mode_spec(items, index),
        image_count(items.insert(pos, k)) == image_count(items),
        inside_count(items.insert(pos, k), index) == inside_count(items, index),
    decreases items.len(),
{
    let longer = items.insert(pos, k);
    if pos == items.len() {
        assert(longer.drop_last() =~= items);
    } else {
        law_non_images_change_nothing(items.drop_last(), index, pos, k);
        assert(longer.drop_last() =~= items.drop_last().insert(pos, k));
        assert(longer.last() == items.last());
    }
    lemma_counts_equal_iff_all_inside(items, index);
    lemma_counts_equal_iff_all_inside(longer, index);
}

/// A board with no images is packed by any document that stores something,
/// and an image whose key the document lacks makes it linked.
pub proof fn law_images_decide_the_mode(items: Seq<KindView>, index: Seq<ContentHash>, i: int)
    ensures
        index.len() > 0 && (forall|j: int| 0 <= j < items.len() ==> !(#[trigger] items[j] is Image))
            ==> mode_spec(items, index) == SaveMode::Packed,
        0 <= i < items.len() ==> (items[i] matches KindView::Image(a) && !holds_key(index, a.hash)
            ==> mode_spec(items, index) == SaveMode::Linked),
{
}

/// The channels of a packed ARGB colour (alpha in the top byte), in the
/// order red, green, blue, alpha.
pub fn rgba_of_argb(dominant: u32) -> (c: [u8; 4])
    ensures
        c@ == seq![
            ((dominant >> 16u32) & 0xffu32) as u8,
            ((dominant >> 8u32) & 0xffu32) as u8,
            (dominant & 0xffu32) as u8,
            ((dominant >> 24u32) & 0xffu32) as u8,
        ],
{
    let r = ((dominant >> 16u32) & 0xffu32) as u8;
    let g = ((dominant >> 8u32) & 0xffu32) as u8;
    let b = (dominant & 0xffu32) as u8;
    let a = ((dominant >> 24u32) & 0xffu32) as u8;
    let c = [r, g, b, a];
    assert(c@ =~= seq![r, g, b, a]);
    c
}

/// A note is never relinked.
pub proof fn law_notes_are_never_relinked(
    text: Seq<char>,
    resolved: Option<Seq<char>>,
    content: Option<ContentHash>,
    spool_dir: Option<Seq<char>>,
    w: u32,
    h: u32,
    meta: SourceMeta,
)
    ensures
        relinked_spec(KindView::Text(text), resolved, content, spool_dir, w, h, meta) is None,
{
}

/// The key of a pasted image (a file inside the spool) is never rewritten
/// by relinking, whatever key its file hashes to; and nothing else about
/// it changes when it already had its path.
pub proof fn law_pasted_keys_are_never_repaired(
    a: AssetView,
    path: Seq<char>,
    content: Option<ContentHash>,
    dir: Seq<char>,
    w: u32,
    h: u32,
    meta: SourceMeta,
)
    requires
        path_starts_with(path, dir),
    ensures
        relinked_spec(KindView::Image(a), Some(path), content, Some(dir), w, h, meta) matches Some(
            KindView::Image(b),
        ) && b.hash == a.hash,
        a.path.len() > 0 ==> relinked_spec(
            KindView::Image(a),
            Some(path),
            content,
            Some(dir),
            w,
            h,
            meta,
        ) == Some(KindView::Image(a)),
{
    assert(AssetView { hash: a.hash, path: a.path, ..a } == a);
}

/// Relinking an image changes only where it is and its key: its size,
/// format, embedding, time and file size stay as they were.
pub proof fn law_relink_touches_only_path_and_key(
    a: AssetView,
    resolved: Option<Seq<char>>,
    content: Option<ContentHash>,
    spool_dir: Option<Seq<char>>,
    w: u32,
    h: u32,
    meta: SourceMeta,
)
    ensures
        relinked_spec(KindView::Image(a), resolved, content, spool_dir, w, h, meta) matches Some(
            KindView::Image(b),
        ) ==> b.px_size == a.px_size && b.format == a.format && b.embedded == a.embedded && b.mtime
            == a.mtime && b.file_size == a.file_size,
{
}

/// Opening a healthy document changes nothing: an image whose file is where
/// it says, with the key it says, comes out of relinking unchanged.
pub proof fn law_healthy_image_is_unchanged(
    a: AssetView,
    spool_dir: Option<Seq<char>>,
    w: u32,
    h: u32,
    meta: SourceMeta,
)
    ensures
        relinked_spec(KindView::Image(a), Some(a.path), Some(a.hash), spool_dir, w, h, meta) == Some(
            KindView::Image(a),
        ),
{
    assert(AssetView { hash: a.hash, path: a.path, ..a } == a);
}

} // verus!
