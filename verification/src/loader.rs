//! The archive loader: treats a byte buffer as a zip archive, decodes the
//! `docData.json` member into the document model, then attaches the layer
//! and tile image members the document declares.
//!
//! Only the two archive operations (opening the index, reading one member)
//! are trusted wrappers around the outside zip reader; everything around
//! them is verified against the names they introduce.

use vstd::prelude::*;

use crate::decimal::{spec_decimal, u64_to_string};
use crate::error::PyxelError;
use crate::json::json_of;
use crate::pyxel::{spec_document, CanvasV, LayerV, PyxelV, TilesetV};
use std::io::Read;

verus! {

/// An open archive over an in-memory byte buffer.
pub(crate) type Archive = zip::ZipArchive<std::io::Cursor<Vec<u8>>>;

/// The outside zip reader's archive handle, opaque to the library's logic.
#[verifier::external_type_specification]
#[verifier::external_body]
#[verifier::reject_recursive_types(R)]
pub struct ExZipArchive<R>(zip::ZipArchive<R>);

/// An in-memory reader position, opaque to the library's logic.
#[verifier::external_type_specification]
#[verifier::external_body]
#[verifier::reject_recursive_types(T)]
pub struct ExCursor<T>(std::io::Cursor<T>);

/// What an open archive holds: each member name mapped to the member's
/// decompressed contents, restricted to the members the zip reader can open
/// and read without error.
pub uninterp spec fn archive_members(a: Archive) -> Map<Seq<char>, Seq<u8>>;

/// What the outside zip reader makes of a byte buffer: the archive's members
/// (as [`archive_members`] describes them), or `None` where the bytes are
/// not a valid zip archive. The result is a function of the bytes alone.
pub uninterp spec fn zip_entries(bytes: Seq<u8>) -> Option<Map<Seq<char>, Seq<u8>>>;

/// Relies on `zip::ZipArchive::new`: reads the central directory of a zip
/// archive, deterministically in the bytes, and rejects bytes that are not a
/// valid archive.
#[verifier::external_body]
pub(crate) fn open_archive(buf: &[u8]) -> (r: Result<Archive, PyxelError>)
    ensures
        match r {
            Ok(a) => zip_entries(buf@) == Some(archive_members(a)),
            Err(e) => zip_entries(buf@) is None && e is Zip,
        },
{
    match zip::ZipArchive::new(std::io::Cursor::new(buf.to_vec())) {
        Ok(a) => Ok(a),
        Err(e) => Err(PyxelError::Zip(format!("not a valid archive: {}", e))),
    }
}

/// Relies on `zip::ZipArchive::by_name` (and the member reader it returns):
/// yields the named member's decompressed contents, fails exactly on the
/// members that cannot be opened and fully read — a missing name above all —
/// and leaves the archive's contents as they were.
#[verifier::external_body]
pub(crate) fn read_member(a: &mut Archive, name: &str) -> (r: Result<Vec<u8>, PyxelError>)
    ensures
        archive_members(*final(a)) == archive_members(*old(a)),
        match r {
            Ok(v) => archive_members(*old(a)).dom().contains(name@) && v@ == archive_members(
                *old(a),
            )[name@],
            Err(e) => !archive_members(*old(a)).dom().contains(name@) && e is Zip,
        },
{
    let mut file = match a.by_name(name) {
        Ok(f) => f,
        Err(zip::result::ZipError::FileNotFound) => {
            return Err(PyxelError::Zip(format!("archive member {} is missing", name)));
        },
        Err(e) => {
            return Err(PyxelError::Zip(format!("cannot open archive member {}: {}", name, e)));
        },
    };
    let mut buf = Vec::new();
    match file.read_to_end(&mut buf) {
        Ok(_) => Ok(buf),
        Err(e) => Err(PyxelError::Zip(format!("cannot read archive member {}: {}", name, e))),
    }
}

/// The name of the image member for layer `i`.
pub open spec fn spec_layer_member(i: int) -> Seq<char> {
    "layer"@ + spec_decimal(i as nat) + ".png"@
}

/// The name of the image member for tile `i`.
pub open spec fn spec_tile_member(i: int) -> Seq<char> {
    "tile"@ + spec_decimal(i as nat) + ".png"@
}

/// Builds the member name `prefix` + decimal index + `.png`.
pub(crate) fn member_name(prefix: &str, i: usize) -> (s: String)
    ensures
        s@ == prefix@ + spec_decimal(i as nat) + ".png"@,
{
    let mut s = String::from_str(prefix);
    let digits = u64_to_string(i as u64);
    s.append(digits.as_str());
    s.append(".png");
    proof {
        assert(s@ =~= prefix@ + spec_decimal(i as nat) + ".png"@);
    }
    s
}

/// The document a byte buffer denotes, fully loaded: the buffer is a zip
/// archive whose `docData.json` member decodes into the document model, the
/// declared layer count matches the decoded layers, and every declared layer
/// and tile image member is present; each image payload is attached to its
/// node. `None` where any step fails.
pub open spec fn spec_load(bytes: Seq<u8>) -> Option<PyxelV> {
    match zip_entries(bytes) {
        Some(members) => if members.dom().contains("docData.json"@) {
            match json_of(members["docData.json"@]) {
                Some(j) => match spec_document(j) {
                    Some(d) => if d.canvas.num_layers == d.canvas.layers.len() && (forall|i: int|
                        0 <= i < d.canvas.layers.len() ==> members.dom().contains(
                            #[trigger] spec_layer_member(i),
                        )) && (forall|i: int|
                        0 <= i < d.tileset.num_tiles ==> members.dom().contains(
                            #[trigger] spec_tile_member(i),
                        )) {
                        Some(
                            PyxelV {
                                canvas: CanvasV {
                                    layers: Seq::new(
                                        d.canvas.layers.len(),
                                        |i: int|
                                            LayerV {
                                                image_data: members[spec_layer_member(i)],
                                                ..d.canvas.layers[i]
                                            },
                                    ),
                                    ..d.canvas
                                },
                                tileset: TilesetV {
                                    image_data: Seq::new(
                                        d.tileset.num_tiles as nat,
                                        |i: int| members[spec_tile_member(i)],
                                    ),
                                    ..d.tileset
                                },
                                ..d
                            },
                        )
                    } else {
                        None
                    },
                    None => None,
                },
                None => None,
            }
        } else {
            None
        },
        None => None,
    }
}

} // verus!
