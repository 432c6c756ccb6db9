use refx_ui::assets::rgba_of_argb;
use refx_ui::assets::{
    asset_location, bytes_at, locate_bytes, mode_of_document, relinked_kind, spool_path, storage_view, AssetBytes,
    AssetRef, ContentHash, ContentOrigin, ImageFormat, ItemKind, MissingReason, PxSize,
    SaveMode, SourceMeta, StorageView, TextNote, Thumbnail,
};

fn content_hash(n: u8) -> ContentHash {
    ContentHash::from_bytes([n; 32])
}

fn thumb_of(w: u32, h: u32) -> Thumbnail {
    Thumbnail {
        pixels: vec![0; 128 * 128 * 4],
        source_width: w,
        source_height: h,
        dominant: 0,
    }
}

fn image_kind(hash: u8, path: &str) -> ItemKind {
    ItemKind::Image(AssetRef {
        hash: content_hash(hash),
        path: path.to_owned(),
        px_size: PxSize { x: 100, y: 80 },
        format: ImageFormat::Unknown,
        embedded: false,
        mtime: 42,
        file_size: 4242,
    })
}

#[test]
fn a_pasted_image_always_has_a_path_to_come_back_from() {
    let dir = "/data/RefX/pasted";
    let content = content_hash(1);
    let (hash, path) = asset_location(
        Some(dir),
        content_hash(2),
        Some(ContentOrigin::Spooled(content)),
    );

    let path = path.expect("no path: the image is lost on recovery");
    assert_eq!(hash, content);
    let path = std::path::Path::new(&path);
    assert_eq!(path.parent(), Some(std::path::Path::new(dir)));
    assert_eq!(
        path.file_name().unwrap().to_string_lossy(),
        format!("{}.png", "01".repeat(32)),
        "the file name must be the key: the sweep turns names back into keys"
    );
}

#[test]
fn a_file_gets_the_key_of_its_bytes_not_of_its_path() {
    let job_key = content_hash(10);
    let content = content_hash(11);
    assert_ne!(content, job_key);

    let (hash, path) = asset_location(
        Some("/data/RefX/pasted"),
        job_key,
        Some(ContentOrigin::File(content)),
    );
    assert_eq!(hash, content, "the key is still the path's");
    assert_eq!(path, None, "a user's file was pointed at the spool");
}

#[test]
fn the_same_picture_in_two_places_collapses_to_one_asset() {
    let content = content_hash(20);
    let here = content_hash(21);
    let there = content_hash(22);
    assert_ne!(here, there);

    let (a, _) = asset_location(None, here, Some(ContentOrigin::File(content)));
    let (b, _) = asset_location(None, there, Some(ContentOrigin::File(content)));
    assert_eq!(a, b, "one picture became two assets");
}

#[test]
fn a_file_we_could_not_hash_still_becomes_a_picture() {
    let job_key = content_hash(30);
    let (hash, path) = asset_location(None, job_key, None);
    assert_eq!(hash, job_key);
    assert_eq!(path, None);
}

#[test]
fn the_key_is_written_in_lower_case_hexadecimal() {
    let mut bytes = [0u8; 32];
    bytes[0] = 0xab;
    bytes[31] = 0x0f;
    let hex = ContentHash::from_bytes(bytes).hex();
    assert_eq!(hex.len(), 64);
    assert!(hex.starts_with("ab00"));
    assert!(hex.ends_with("000f"));
    assert_eq!(
        spool_path("/data/RefX/pasted", ContentHash::from_bytes(bytes)),
        format!("/data/RefX/pasted/ab{}0f.png", "0".repeat(60))
    );
}

#[test]
fn a_relinked_image_gets_a_new_path_and_a_repaired_key() {
    let before = image_kind(9, "/gone/cat.png");
    let content = content_hash(77);

    let after = relinked_kind(
        &before,
        Some("/found/cat.png"),
        Some(content),
        Some("/data/RefX/pasted"),
        &thumb_of(4000, 3000),
        SourceMeta {
            mtime_ms: 999,
            bytes: 1,
        },
    )
    .expect("a new place was expected");

    let ItemKind::Image(asset) = &after else {
        panic!("must still be an image");
    };
    assert_eq!(asset.path, "/found/cat.png");
    assert_eq!(asset.hash, content, "the key was not repaired");
    assert_eq!(asset.px_size, PxSize { x: 100, y: 80 }, "px_size was touched");
    assert_eq!(asset.mtime, 42, "mtime was touched");
    assert_eq!(asset.file_size, 4242, "file_size was touched");
}

#[test]
fn a_pasted_image_never_has_its_key_repaired() {
    let spool = "/data/RefX/pasted";
    let pixels_key = content_hash(5);
    let in_spool = spool_path(spool, pixels_key);
    let before = ItemKind::Image(AssetRef {
        hash: pixels_key,
        path: in_spool.clone(),
        px_size: PxSize { x: 10, y: 10 },
        format: ImageFormat::Unknown,
        embedded: false,
        mtime: 0,
        file_size: 0,
    });
    let png_file_key = content_hash(200);

    let after = relinked_kind(
        &before,
        Some(&in_spool),
        Some(png_file_key),
        Some(spool),
        &thumb_of(10, 10),
        SourceMeta::default(),
    )
    .expect("a place was expected");

    let ItemKind::Image(asset) = &after else {
        panic!("must still be an image");
    };
    assert_eq!(
        asset.hash, pixels_key,
        "the key of a pasted image was overwritten: the sweep would delete it"
    );
    assert_eq!(after, before, "nothing should change at all");
}

#[test]
fn a_missing_item_becomes_a_picture_again_when_the_file_turns_up() {
    let before = ItemKind::Missing {
        original_path: "/gone/cat.png".to_owned(),
        reason: MissingReason::FileNotFound,
    };
    let content = content_hash(3);

    let after = relinked_kind(
        &before,
        Some("/found/cat.png"),
        Some(content),
        None,
        &thumb_of(1600, 1200),
        SourceMeta {
            mtime_ms: 5,
            bytes: 6,
        },
    )
    .expect("must become a picture again");

    let ItemKind::Image(asset) = &after else {
        panic!("must be an image now");
    };
    assert_eq!(asset.hash, content);
    assert_eq!(asset.path, "/found/cat.png");
    assert_eq!(asset.px_size, PxSize { x: 1600, y: 1200 });
    assert_eq!(asset.mtime, 5);
    assert_eq!(asset.file_size, 6);
}

#[test]
fn opening_a_healthy_document_changes_nothing() {
    let before = image_kind(9, "/work/cat.png");
    let same_key = content_hash(9);

    let after = relinked_kind(
        &before,
        Some("/work/cat.png"),
        Some(same_key),
        None,
        &thumb_of(100, 80),
        SourceMeta {
            mtime_ms: 42,
            bytes: 4242,
        },
    )
    .expect("a place was expected");

    assert_eq!(
        after, before,
        "nothing changed but a new value came back: every open would dirty the document"
    );
}

#[test]
fn a_note_is_never_relinked() {
    let note = ItemKind::Text(TextNote {
        text: "อย่าแตะ".to_owned(),
    });
    assert_eq!(
        relinked_kind(
            &note,
            Some("/found/cat.png"),
            None,
            None,
            &thumb_of(10, 10),
            SourceMeta::default(),
        ),
        None
    );
}

#[test]
fn a_missing_item_without_a_key_stays_missing() {
    let before = ItemKind::Missing {
        original_path: "/gone/cat.png".to_owned(),
        reason: MissingReason::FileNotFound,
    };
    assert_eq!(
        relinked_kind(
            &before,
            Some("/found/cat.png"),
            None,
            None,
            &thumb_of(0, 0),
            SourceMeta::default(),
        ),
        None
    );
    let found = relinked_kind(
        &before,
        Some("/found/cat.png"),
        Some(content_hash(4)),
        None,
        &thumb_of(0, 0),
        SourceMeta::default(),
    );
    let Some(ItemKind::Image(asset)) = found else {
        panic!("must be an image");
    };
    assert_eq!(asset.px_size, PxSize { x: 1, y: 1 });
}

/// The running test binary is a file that surely exists: reached through
/// `/proc/self` it stands for a file in the spool, and the spool directory
/// named elsewhere makes it a user's file.
#[test]
fn where_the_bytes_of_an_asset_live() {
    let spool = "/proc/self";
    let user_file = "/proc/self/exe";
    let ours = "/proc/self/exe";

    let asset = |hash: u8, path: &str| AssetRef {
        hash: content_hash(hash),
        path: path.to_owned(),
        px_size: PxSize { x: 8, y: 8 },
        format: ImageFormat::Unknown,
        embedded: false,
        mtime: 0,
        file_size: 0,
    };

    assert_eq!(
        locate_bytes(Some("/data/RefX/pasted"), &asset(3, user_file)),
        AssetBytes::UserFile(user_file.to_owned()),
    );
    assert_eq!(
        locate_bytes(None, &asset(3, user_file)),
        AssetBytes::UserFile(user_file.to_owned()),
    );
    assert_eq!(
        locate_bytes(Some(spool), &asset(7, ours)),
        AssetBytes::Ours(ours.to_owned()),
    );
    assert_eq!(
        locate_bytes(Some(spool), &asset(9, "E:/gone/away.png")),
        AssetBytes::Missing,
    );
    assert_eq!(locate_bytes(Some(spool), &asset(9, "")), AssetBytes::Missing);
}

#[test]
fn a_document_is_packed_only_when_every_image_is_inside_it() {
    let items = vec![
        image_kind(1, "E:/photos/a.png"),
        image_kind(2, "E:/pasted/b.png"),
        ItemKind::Text(TextNote {
            text: "note".to_owned(),
        }),
    ];
    assert_eq!(mode_of_document(&items, &[]), SaveMode::Linked);
    assert_eq!(mode_of_document(&items, &[content_hash(2)]), SaveMode::Linked);
    assert_eq!(
        mode_of_document(&items, &[content_hash(1), content_hash(2)]),
        SaveMode::Packed
    );
}

#[test]
fn the_dominant_colour_is_read_as_argb() {
    assert_eq!(rgba_of_argb(0x80_11_22_33), [0x11, 0x22, 0x33, 0x80]);
    assert_eq!(rgba_of_argb(0xff_00_00_00), [0, 0, 0, 0xff]);
}

#[test]
fn each_answer_of_the_disk_picks_its_own_place() {
    let asset = |path: &str| AssetRef {
        hash: content_hash(5),
        path: path.to_owned(),
        px_size: PxSize { x: 8, y: 8 },
        format: ImageFormat::Unknown,
        embedded: false,
        mtime: 0,
        file_size: 0,
    };
    let spool = "/data/RefX/pasted";
    let copy = spool_path(spool, content_hash(5));
    assert_eq!(
        bytes_at(Some(spool), &asset("/photos/a.png"), true, true),
        AssetBytes::UserFile("/photos/a.png".to_owned())
    );
    assert_eq!(
        bytes_at(Some(spool), &asset("/data/RefX/pasted/x.png"), true, false),
        AssetBytes::Ours("/data/RefX/pasted/x.png".to_owned())
    );
    assert_eq!(bytes_at(Some(spool), &asset("/photos/a.png"), false, true), AssetBytes::Ours(copy));
    assert_eq!(bytes_at(Some(spool), &asset("/photos/a.png"), false, false), AssetBytes::Missing);
    assert_eq!(bytes_at(None, &asset("/photos/a.png"), false, true), AssetBytes::Missing);
}

#[test]
fn reading_the_copy_inside_the_document_never_rewrites_the_document() {
    let spool = "/data/RefX/pasted";
    let thumb = thumb_of(100, 80);
    let meta = SourceMeta {
        mtime_ms: 999,
        bytes: 12345,
    };

    let from_file = image_kind(9, "E:/photos/cat.png");
    let unpacked = "/data/RefX/pasted/aabb.png";
    let desired = relinked_kind(
        &from_file,
        Some(unpacked),
        Some(content_hash(9)),
        Some(spool),
        &thumb,
        meta,
    )
    .expect("an image always has a result");
    assert_eq!(desired, from_file, "reading the copy in the document changed the document");

    let pasted_path = "/data/RefX/pasted/ccdd.png";
    let pasted = ItemKind::Image(AssetRef {
        hash: content_hash(4),
        path: pasted_path.to_owned(),
        px_size: PxSize { x: 100, y: 80 },
        format: ImageFormat::Unknown,
        embedded: false,
        mtime: 42,
        file_size: 4242,
    });
    let desired = relinked_kind(
        &pasted,
        Some(pasted_path),
        Some(content_hash(77)),
        Some(spool),
        &thumb,
        meta,
    )
    .unwrap();
    assert_eq!(desired, pasted, "the pasted image changed");
}

#[test]
fn the_storage_view_counts_the_images_the_document_holds() {
    let items = vec![
        image_kind(1, "/a.png"),
        image_kind(2, "/b.png"),
        ItemKind::Text(TextNote { text: "note".to_owned() }),
        ItemKind::Missing { original_path: "/c.png".to_owned(), reason: MissingReason::FileNotFound },
    ];
    let view = storage_view(SaveMode::Packed, &items, &[content_hash(2)], true);
    assert_eq!(view, StorageView { packed: true, images: 2, inside: 1, has_file: true });
    let none = storage_view(SaveMode::Linked, &items, &[], false);
    assert_eq!(none, StorageView { packed: false, images: 2, inside: 0, has_file: false });
}
