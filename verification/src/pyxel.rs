//! The document model: the typed entities a PyxelEdit document is made of,
//! and the verified decoding of each from the metadata member's JSON.

use vstd::prelude::*;

use crate::decimal::{parse_usize, spec_parse_usize};
use crate::deserialization::{
    deserialize_as_degrees, deserialize_as_milliseconds, deserialize_map_as_vec,
    deserialize_multipliers, spec_degrees, spec_map_as_vec, spec_milliseconds, spec_multipliers,
};
use crate::error::PyxelError;
use crate::json::{lookup, spec_lookup, Json};
use crate::json::{json_of, parse_json};
use crate::loader::{archive_members, member_name, open_archive, read_member, spec_layer_member, spec_load, spec_tile_member, zip_entries};
use crate::version::{parse_version, spec_semver, Version, VersionV};
use std::collections::BTreeMap;

verus! {

/// The value of a single hexadecimal digit, upper or lower case.
pub open spec fn spec_hex_digit(c: char) -> Option<u8> {
    let v = c as u32;
    if 48 <= v <= 57 {
        Some((v - 48) as u8)
    } else if 97 <= v <= 102 {
        Some((v - 87) as u8)
    } else if 65 <= v <= 70 {
        Some((v - 55) as u8)
    } else {
        None
    }
}

/// Decodes one hexadecimal digit; `None` on any other character.
pub fn hex_digit(c: char) -> (r: Option<u8>)
    ensures
        r == spec_hex_digit(c),
{
    let v = c as u32;
    if 48 <= v && v <= 57 {
        Some((v - 48) as u8)
    } else if 97 <= v && v <= 102 {
        Some((v - 87) as u8)
    } else if 65 <= v && v <= 70 {
        Some((v - 55) as u8)
    } else {
        None
    }
}

/// The byte two hexadecimal digits spell, high digit first.
pub open spec fn spec_hex_byte(hi: char, lo: char) -> Option<u8> {
    match (spec_hex_digit(hi), spec_hex_digit(lo)) {
        (Some(h), Some(l)) => Some((h * 16 + l) as u8),
        _ => None,
    }
}

/// An RGBA color.
#[derive(Clone, Copy, Debug, Eq, PartialEq, Structural)]
pub struct Color {
    /// The red component of this color.
    pub r: u8,
    /// The green component of this color.
    pub g: u8,
    /// The blue component of this color.
    pub b: u8,
    /// The alpha component of this color.
    pub a: u8,
}

impl View for Color {
    type V = Color;

    open spec fn view(&self) -> Color {
        *self
    }
}

impl DeepView for Color {
    type V = Color;

    open spec fn deep_view(&self) -> Color {
        *self
    }
}

/// The color an eight-digit hexadecimal string denotes, in AARRGGBB order:
/// alpha first, then red, green, blue. Anything but exactly eight hex digits
/// has no color.
pub open spec fn spec_color(s: Seq<char>) -> Option<Color> {
    if s.len() == 8 {
        match (
            spec_hex_byte(s[0], s[1]),
            spec_hex_byte(s[2], s[3]),
            spec_hex_byte(s[4], s[5]),
            spec_hex_byte(s[6], s[7]),
        ) {
            (Some(a), Some(r), Some(g), Some(b)) => Some(Color { r, g, b, a }),
            _ => None,
        }
    } else {
        None
    }
}

impl Color {
    /// Decodes a color from an eight-digit hexadecimal string in AARRGGBB
    /// order (alpha first, then red, green, blue — not RRGGBBAA).
    ///
    /// Fails on any other length and on any non-hexadecimal character.
    pub fn from_hex(s: &str) -> (r: Result<Color, PyxelError>)
        ensures
            match r {
                Ok(c) => spec_color(s@) == Some(c),
                Err(e) => spec_color(s@) is None && e is Serde,
            },
    {
        let n = s.unicode_len();
        if n != 8 {
            return Err(
                PyxelError::Serde(String::from_str("a color must be exactly 8 hex digits")),
            );
        }
        let d0 = hex_digit(s.get_char(0));
        let d1 = hex_digit(s.get_char(1));
        let d2 = hex_digit(s.get_char(2));
        let d3 = hex_digit(s.get_char(3));
        let d4 = hex_digit(s.get_char(4));
        let d5 = hex_digit(s.get_char(5));
        let d6 = hex_digit(s.get_char(6));
        let d7 = hex_digit(s.get_char(7));
        match (d0, d1, d2, d3, d4, d5, d6, d7) {
            (
                Some(h0),
                Some(h1),
                Some(h2),
                Some(h3),
                Some(h4),
                Some(h5),
                Some(h6),
                Some(h7),
            ) => Ok(
                Color {
                    r: h2 * 16 + h3,
                    g: h4 * 16 + h5,
                    b: h6 * 16 + h7,
                    a: h0 * 16 + h1,
                },
            ),
            _ => Err(PyxelError::Serde(String::from_str("a color may hold only hex digits"))),
        }
    }
}

impl std::str::FromStr for Color {
    type Err = PyxelError;

    fn from_str(s: &str) -> Result<Color, PyxelError> {
        Color::from_hex(s)
    }
}

/// A Pyxel blend mode: the pixel-compositing operation used when flattening
/// a layer onto the canvas beneath it. A closed enumeration of eleven named
/// modes, each tied one-to-one to a fixed lowercase wire tag.
#[derive(Clone, Copy, Debug, Eq, PartialEq, Structural)]
pub enum BlendMode {
    /// Normal blend mode (wire tag `normal`).
    Normal,
    /// Multiply blend mode (wire tag `multiply`).
    Multiply,
    /// Add blend mode (wire tag `add`).
    Add,
    /// Difference blend mode (wire tag `difference`).
    Difference,
    /// Darken blend mode (wire tag `darken`).
    Darken,
    /// Lighten blend mode (wire tag `lighten`).
    Lighten,
    /// Hard light blend mode (wire tag `hardlight`).
    Hardlight,
    /// Invert blend mode (wire tag `invert`).
    Invert,
    /// Overlay blend mode (wire tag `overlay`).
    Overlay,
    /// Screen blend mode (wire tag `screen`).
    Screen,
    /// Subtract blend mode (wire tag `subtract`).
    Subtract,
}

impl View for BlendMode {
    type V = BlendMode;

    open spec fn view(&self) -> BlendMode {
        *self
    }
}

impl DeepView for BlendMode {
    type V = BlendMode;

    open spec fn deep_view(&self) -> BlendMode {
        *self
    }
}

/// The blend mode a wire tag names; `None` for any string that is not one of
/// the eleven known lowercase tags.
pub open spec fn spec_blend_mode(s: Seq<char>) -> Option<BlendMode> {
    if s == "normal"@ {
        Some(BlendMode::Normal)
    } else if s == "multiply"@ {
        Some(BlendMode::Multiply)
    } else if s == "add"@ {
        Some(BlendMode::Add)
    } else if s == "difference"@ {
        Some(BlendMode::Difference)
    } else if s == "darken"@ {
        Some(BlendMode::Darken)
    } else if s == "lighten"@ {
        Some(BlendMode::Lighten)
    } else if s == "hardlight"@ {
        Some(BlendMode::Hardlight)
    } else if s == "invert"@ {
        Some(BlendMode::Invert)
    } else if s == "overlay"@ {
        Some(BlendMode::Overlay)
    } else if s == "screen"@ {
        Some(BlendMode::Screen)
    } else if s == "subtract"@ {
        Some(BlendMode::Subtract)
    } else {
        None
    }
}

/// Decodes a blend-mode tag. An unknown tag is an error naming the
/// enumeration, never a silent fallback to the normal mode.
pub fn decode_blend_mode(s: &String) -> (r: Result<BlendMode, PyxelError>)
    ensures
        match r {
            Ok(b) => spec_blend_mode(s@) == Some(b),
            Err(e) => spec_blend_mode(s@) is None && e is Serde,
        },
{
    if *s == String::from_str("normal") {
        Ok(BlendMode::Normal)
    } else if *s == String::from_str("multiply") {
        Ok(BlendMode::Multiply)
    } else if *s == String::from_str("add") {
        Ok(BlendMode::Add)
    } else if *s == String::from_str("difference") {
        Ok(BlendMode::Difference)
    } else if *s == String::from_str("darken") {
        Ok(BlendMode::Darken)
    } else if *s == String::from_str("lighten") {
        Ok(BlendMode::Lighten)
    } else if *s == String::from_str("hardlight") {
        Ok(BlendMode::Hardlight)
    } else if *s == String::from_str("invert") {
        Ok(BlendMode::Invert)
    } else if *s == String::from_str("overlay") {
        Ok(BlendMode::Overlay)
    } else if *s == String::from_str("screen") {
        Ok(BlendMode::Screen)
    } else if *s == String::from_str("subtract") {
        Ok(BlendMode::Subtract)
    } else {
        Err(
            PyxelError::Serde(
                String::from_str("blendMode is not one of the eleven known blend-mode tags"),
            ),
        )
    }
}

} // verus!

verus! {

broadcast use vstd::laws_cmp::group_laws_cmp;

/// The JSON value a field lookup found, if any.
pub open spec fn spec_opt_val(o: Option<&Json>) -> Option<Json> {
    match o {
        Some(j) => Some(*j),
        None => None,
    }
}

/// A required unsigned 64-bit field's value.
pub open spec fn spec_opt_u64(o: Option<Json>) -> Option<u64> {
    match o {
        Some(Json::UInt(n)) => Some(n),
        _ => None,
    }
}

/// A required 8-bit field's value.
pub open spec fn spec_opt_u8(o: Option<Json>) -> Option<u8> {
    match o {
        Some(Json::UInt(n)) => if n <= 255 {
            Some(n as u8)
        } else {
            None
        },
        _ => None,
    }
}

/// A required 16-bit field's value.
pub open spec fn spec_opt_u16(o: Option<Json>) -> Option<u16> {
    match o {
        Some(Json::UInt(n)) => if n <= u16::MAX {
            Some(n as u16)
        } else {
            None
        },
        _ => None,
    }
}

/// A required index-sized field's value.
pub open spec fn spec_opt_usize(o: Option<Json>) -> Option<usize> {
    match o {
        Some(Json::UInt(n)) => if n <= usize::MAX {
            Some(n as usize)
        } else {
            None
        },
        _ => None,
    }
}

/// A required signed 32-bit field's value.
pub open spec fn spec_opt_i32(o: Option<Json>) -> Option<i32> {
    match o {
        Some(Json::UInt(n)) => if n <= i32::MAX {
            Some(n as i32)
        } else {
            None
        },
        Some(Json::SInt(m)) => if i32::MIN <= m <= i32::MAX {
            Some(m as i32)
        } else {
            None
        },
        _ => None,
    }
}

/// A required boolean field's value.
pub open spec fn spec_opt_bool(o: Option<Json>) -> Option<bool> {
    match o {
        Some(Json::Bool(b)) => Some(b),
        _ => None,
    }
}

/// A required string field's value.
pub open spec fn spec_opt_str(o: Option<Json>) -> Option<Seq<char>> {
    match o {
        Some(Json::Str(s)) => Some(s@),
        _ => None,
    }
}

/// The deserialization error for a field that is missing or holds the wrong
/// kind of value, naming the field and the entity it belongs to.
fn field_err(field: &str, entity: &str) -> (e: PyxelError)
    ensures
        e is Serde,
{
    PyxelError::Serde(
        String::from_str("missing or invalid field `").concat(field).concat("` in ").concat(
            entity,
        ),
    )
}

/// Reads a required non-negative 64-bit integer field.
fn req_u64(v: Option<&Json>, field: &str, entity: &str) -> (r: Result<u64, PyxelError>)
    ensures
        match r {
            Ok(x) => spec_opt_u64(spec_opt_val(v)) == Some(x),
            Err(e) => spec_opt_u64(spec_opt_val(v)) is None && e is Serde,
        },
{
    match v {
        Some(Json::UInt(n)) => Ok(*n),
        _ => Err(field_err(field, entity)),
    }
}

/// Reads a required 8-bit unsigned integer field.
fn req_u8(v: Option<&Json>, field: &str, entity: &str) -> (r: Result<u8, PyxelError>)
    ensures
        match r {
            Ok(x) => spec_opt_u8(spec_opt_val(v)) == Some(x),
            Err(e) => spec_opt_u8(spec_opt_val(v)) is None && e is Serde,
        },
{
    match v {
        Some(Json::UInt(n)) => if *n <= 255 {
            Ok(*n as u8)
        } else {
            Err(field_err(field, entity))
        },
        _ => Err(field_err(field, entity)),
    }
}

/// Reads a required 16-bit unsigned integer field.
fn req_u16(v: Option<&Json>, field: &str, entity: &str) -> (r: Result<u16, PyxelError>)
    ensures
        match r {
            Ok(x) => spec_opt_u16(spec_opt_val(v)) == Some(x),
            Err(e) => spec_opt_u16(spec_opt_val(v)) is None && e is Serde,
        },
{
    match v {
        Some(Json::UInt(n)) => if *n <= u16::MAX as u64 {
            Ok(*n as u16)
        } else {
            Err(field_err(field, entity))
        },
        _ => Err(field_err(field, entity)),
    }
}

/// Reads a required index-sized unsigned integer field.
fn req_usize(v: Option<&Json>, field: &str, entity: &str) -> (r: Result<usize, PyxelError>)
    ensures
        match r {
            Ok(x) => spec_opt_usize(spec_opt_val(v)) == Some(x),
            Err(e) => spec_opt_usize(spec_opt_val(v)) is None && e is Serde,
        },
{
    match v {
        Some(Json::UInt(n)) => if *n <= usize::MAX as u64 {
            Ok(*n as usize)
        } else {
            Err(field_err(field, entity))
        },
        _ => Err(field_err(field, entity)),
    }
}

/// Reads a required signed 32-bit integer field.
fn req_i32(v: Option<&Json>, field: &str, entity: &str) -> (r: Result<i32, PyxelError>)
    ensures
        match r {
            Ok(x) => spec_opt_i32(spec_opt_val(v)) == Some(x),
            Err(e) => spec_opt_i32(spec_opt_val(v)) is None && e is Serde,
        },
{
    match v {
        Some(Json::UInt(n)) => if *n <= i32::MAX as u64 {
            Ok(*n as i32)
        } else {
            Err(field_err(field, entity))
        },
        Some(Json::SInt(m)) => if i32::MIN as i64 <= *m && *m <= i32::MAX as i64 {
            Ok(*m as i32)
        } else {
            Err(field_err(field, entity))
        },
        _ => Err(field_err(field, entity)),
    }
}

/// Reads a required boolean field.
fn req_bool(v: Option<&Json>, field: &str, entity: &str) -> (r: Result<bool, PyxelError>)
    ensures
        match r {
            Ok(x) => spec_opt_bool(spec_opt_val(v)) == Some(x),
            Err(e) => spec_opt_bool(spec_opt_val(v)) is None && e is Serde,
        },
{
    match v {
        Some(Json::Bool(b)) => Ok(*b),
        _ => Err(field_err(field, entity)),
    }
}

/// Reads a required string field.
fn req_str(v: Option<&Json>, field: &str, entity: &str) -> (r: Result<String, PyxelError>)
    ensures
        match r {
            Ok(x) => spec_opt_str(spec_opt_val(v)) == Some(x@),
            Err(e) => spec_opt_str(spec_opt_val(v)) is None && e is Serde,
        },
{
    match v {
        Some(Json::Str(s)) => Ok(s.clone()),
        _ => Err(field_err(field, entity)),
    }
}

/// A reference to a tile in a Pyxel tileset: a placement of a tileset tile
/// onto a canvas layer grid cell, with rotation and horizontal flip.
#[derive(Clone, Copy, Debug, Eq, PartialEq, Structural)]
pub struct TileRef {
    /// The index of the tile in the tileset.
    pub index: usize,
    /// The rotation of the tile in whole degrees: the wire carries a
    /// quadrant code, so a decoded value is one of 0, 90, 180 or 270.
    pub rot: u64,
    /// Whether the tile is flipped horizontally.
    pub flip_x: bool,
}

impl View for TileRef {
    type V = TileRef;

    open spec fn view(&self) -> TileRef {
        *self
    }
}

impl DeepView for TileRef {
    type V = TileRef;

    open spec fn deep_view(&self) -> TileRef {
        *self
    }
}

impl TileRef {
    /// Returns the index of the tile in the tileset.
    pub fn index(&self) -> (r: usize)
        ensures
            r == self.index,
    {
        self.index
    }

    /// Returns the rotation of this tile in whole degrees.
    pub fn rot(&self) -> (r: u64)
        ensures
            r == self.rot,
    {
        self.rot
    }

    /// Returns `true` if the tile is flipped horizontally.
    pub fn flip_x(&self) -> (r: bool)
        ensures
            r == self.flip_x,
    {
        self.flip_x
    }
}

/// The rotation field's decoding: the angle transcoder applied to the looked
/// up value.
pub open spec fn spec_opt_degrees(o: Option<Json>) -> Option<u64> {
    match o {
        Some(jv) => spec_degrees(jv),
        None => None,
    }
}

/// The tile reference a JSON value denotes: an object with a tile `index`, a
/// `rot` quadrant code, and a `flipX` flag.
pub open spec fn spec_tile_ref(j: Json) -> Option<TileRef> {
    match j {
        Json::Obj(fields) => {
            let fs = fields@;
            let index = spec_opt_usize(spec_lookup(fs, "index"@));
            let rot = spec_opt_degrees(spec_lookup(fs, "rot"@));
            let flip_x = spec_opt_bool(spec_lookup(fs, "flipX"@));
            if index is Some && rot is Some && flip_x is Some {
                Some(TileRef { index: index->Some_0, rot: rot->Some_0, flip_x: flip_x->Some_0 })
            } else {
                None
            }
        },
        _ => None,
    }
}

/// Decodes one tile reference.
pub fn decode_tile_ref(j: &Json) -> (r: Result<TileRef, PyxelError>)
    ensures
        match r {
            Ok(t) => spec_tile_ref(*j) == Some(t),
            Err(e) => spec_tile_ref(*j) is None && e is Serde,
        },
{
    match j {
        Json::Obj(fields) => {
            let index = match req_usize(lookup(fields, "index"), "index", "tileRef") {
                Ok(x) => x,
                Err(e) => return Err(e),
            };
            let rot = match lookup(fields, "rot") {
                Some(jv) => match deserialize_as_degrees(jv) {
                    Ok(d) => d,
                    Err(e) => return Err(e),
                },
                None => return Err(field_err("rot", "tileRef")),
            };
            let flip_x = match req_bool(lookup(fields, "flipX"), "flipX", "tileRef") {
                Ok(x) => x,
                Err(e) => return Err(e),
            };
            Ok(TileRef { index, rot, flip_x })
        },
        _ => Err(field_err("tileRef", "layer")),
    }
}

} // verus!

verus! {

/// The tile-reference map a sequence of object fields denotes: each key is a
/// decimal grid index, each value a tile reference. A later field with the
/// same key overwrites an earlier one; any unparsable key or value fails the
/// whole map.
pub open spec fn spec_tile_refs(f: Seq<(String, Json)>) -> Option<Map<usize, TileRef>>
    decreases f.len(),
{
    if f.len() == 0 {
        Some(Map::empty())
    } else {
        let rest = spec_tile_refs(f.drop_last());
        let k = spec_parse_usize(f.last().0@);
        let t = spec_tile_ref(f.last().1);
        if rest is Some && k is Some && t is Some {
            Some(rest->Some_0.insert(k->Some_0, t->Some_0))
        } else {
            None
        }
    }
}

/// An unparsable key or tile reference anywhere fails the whole map.
proof fn lemma_tile_refs_element_none(f: Seq<(String, Json)>, i: int)
    requires
        0 <= i < f.len(),
        spec_parse_usize(f[i].0@) is None || spec_tile_ref(f[i].1) is None,
    ensures
        spec_tile_refs(f) is None,
    decreases f.len(),
{
    if i < f.len() - 1 {
        assert(f.drop_last()[i] == f[i]);
        lemma_tile_refs_element_none(f.drop_last(), i);
    }
}

/// Decodes a layer's tile-reference map: decimal grid indices to tile
/// references, a later entry for the same index overwriting an earlier one.
#[verifier::loop_isolation(false)]
pub fn decode_tile_refs(fields: &Vec<(String, Json)>) -> (r: Result<
    BTreeMap<usize, TileRef>,
    PyxelError,
>)
    ensures
        match r {
            Ok(m) => spec_tile_refs(fields@) == Some(m@),
            Err(e) => spec_tile_refs(fields@) is None && e is Serde,
        },
{
    let mut m: BTreeMap<usize, TileRef> = BTreeMap::new();
    let mut i: usize = 0;
    proof {
        assert(fields@.take(0) =~= Seq::<(String, Json)>::empty());
    }
    while i < fields.len()
        invariant
            i <= fields@.len(),
            spec_tile_refs(fields@.take(i as int)) == Some(m@),
        decreases fields@.len() - i,
    {
        proof {
            assert(fields@.take(i + 1).drop_last() =~= fields@.take(i as int));
            assert(fields@.take(i + 1).last() == fields@[i as int]);
        }
        let k = match parse_usize(fields[i].0.as_str()) {
            Some(k) => k,
            None => {
                proof {
                    lemma_tile_refs_element_none(fields@, i as int);
                }
                return Err(field_err("tileRefs", "layer"));
            },
        };
        let t = match decode_tile_ref(&fields[i].1) {
            Ok(t) => t,
            Err(e) => {
                proof {
                    lemma_tile_refs_element_none(fields@, i as int);
                }
                return Err(e);
            },
        };
        m.insert(k, t);
        i = i + 1;
    }
    proof {
        assert(fields@.take(fields@.len() as int) =~= fields@);
    }
    Ok(m)
}

/// A Pyxel canvas layer.
#[derive(Debug)]
pub struct Layer {
    pub(crate) alpha: u8,
    pub(crate) blend_mode: BlendMode,
    pub(crate) hidden: bool,
    pub(crate) muted: bool,
    pub(crate) name: String,
    pub(crate) soloed: bool,
    pub(crate) tile_refs: BTreeMap<usize, TileRef>,
    pub(crate) image_data: Vec<u8>,
}

/// The mathematical value of a [`Layer`].
#[verifier::ext_equal]
pub ghost struct LayerV {
    /// The alpha value, 0 to 255.
    pub alpha: u8,
    /// The blend mode.
    pub blend_mode: BlendMode,
    /// Whether the layer is hidden in the editor.
    pub hidden: bool,
    /// Whether the layer is muted in the editor.
    pub muted: bool,
    /// The layer's name.
    pub name: Seq<char>,
    /// Whether the layer is soloed in the editor.
    pub soloed: bool,
    /// The sparse grid of tile references, keyed by grid index.
    pub tile_refs: Map<usize, TileRef>,
    /// The raw bytes of the layer's image member, attached by the loader.
    pub image_data: Seq<u8>,
}

impl View for Layer {
    type V = LayerV;

    closed spec fn view(&self) -> LayerV {
        LayerV {
            alpha: self.alpha,
            blend_mode: self.blend_mode,
            hidden: self.hidden,
            muted: self.muted,
            name: self.name@,
            soloed: self.soloed,
            tile_refs: self.tile_refs@,
            image_data: self.image_data@,
        }
    }
}

impl DeepView for Layer {
    type V = LayerV;

    closed spec fn deep_view(&self) -> LayerV {
        self.view()
    }
}

impl Layer {
    /// Returns the alpha value of this layer.
    pub fn alpha(&self) -> (r: u8)
        ensures
            r == self@.alpha,
    {
        self.alpha
    }

    /// Returns the blend mode for this layer.
    pub fn blend_mode(&self) -> (r: BlendMode)
        ensures
            r == self@.blend_mode,
    {
        self.blend_mode
    }

    /// Returns `true` if this layer is hidden in the PyxelEdit UI.
    pub fn hidden(&self) -> (r: bool)
        ensures
            r == self@.hidden,
    {
        self.hidden
    }

    /// Returns `true` if this layer is muted in the PyxelEdit UI.
    pub fn muted(&self) -> (r: bool)
        ensures
            r == self@.muted,
    {
        self.muted
    }

    /// Returns the name of this layer.
    pub fn name(&self) -> (r: &String)
        ensures
            r@ == self@.name,
    {
        &self.name
    }

    /// Returns `true` if this layer is soloed in the PyxelEdit UI.
    pub fn soloed(&self) -> (r: bool)
        ensures
            r == self@.soloed,
    {
        self.soloed
    }

    /// Returns the tilerefs for this layer.
    pub fn tile_refs(&self) -> (r: &BTreeMap<usize, TileRef>)
        ensures
            r@ == self@.tile_refs,
    {
        &self.tile_refs
    }

    /// Returns the raw bytes of the image for this layer.
    pub fn image_data(&self) -> (r: &Vec<u8>)
        ensures
            r@ == self@.image_data,
    {
        &self.image_data
    }
}

/// The blend-mode field's decoding: the tag of a string value.
pub open spec fn spec_opt_blend(o: Option<Json>) -> Option<BlendMode> {
    match o {
        Some(Json::Str(s)) => spec_blend_mode(s@),
        _ => None,
    }
}

/// The tile-reference field's decoding: the map of an object value.
pub open spec fn spec_opt_tile_refs(o: Option<Json>) -> Option<Map<usize, TileRef>> {
    match o {
        Some(Json::Obj(f)) => spec_tile_refs(f@),
        _ => None,
    }
}

/// The layer a JSON value denotes: an object with `alpha`, `blendMode`,
/// `hidden`, `muted`, `name`, `soloed` and `tileRefs` fields; unknown fields
/// are ignored, and the image payload starts empty, attached later by the
/// loader.
pub open spec fn spec_layer(j: Json) -> Option<LayerV> {
    match j {
        Json::Obj(fields) => {
            let fs = fields@;
            let alpha = spec_opt_u8(spec_lookup(fs, "alpha"@));
            let blend_mode = spec_opt_blend(spec_lookup(fs, "blendMode"@));
            let hidden = spec_opt_bool(spec_lookup(fs, "hidden"@));
            let muted = spec_opt_bool(spec_lookup(fs, "muted"@));
            let name = spec_opt_str(spec_lookup(fs, "name"@));
            let soloed = spec_opt_bool(spec_lookup(fs, "soloed"@));
            let tile_refs = spec_opt_tile_refs(spec_lookup(fs, "tileRefs"@));
            if alpha is Some && blend_mode is Some && hidden is Some && muted is Some
                && name is Some && soloed is Some && tile_refs is Some {
                Some(
                    LayerV {
                        alpha: alpha->Some_0,
                        blend_mode: blend_mode->Some_0,
                        hidden: hidden->Some_0,
                        muted: muted->Some_0,
                        name: name->Some_0,
                        soloed: soloed->Some_0,
                        tile_refs: tile_refs->Some_0,
                        image_data: Seq::empty(),
                    },
                )
            } else {
                None
            }
        },
        _ => None,
    }
}

/// Decodes one canvas layer from its JSON object. The image payload starts
/// empty; the archive loader attaches it afterwards.
pub fn decode_layer(j: &Json) -> (r: Result<Layer, PyxelError>)
    ensures
        match r {
            Ok(l) => spec_layer(*j) == Some(l@),
            Err(e) => spec_layer(*j) is None && e is Serde,
        },
{
    match j {
        Json::Obj(fields) => {
            let alpha = match req_u8(lookup(fields, "alpha"), "alpha", "layer") {
                Ok(x) => x,
                Err(e) => return Err(e),
            };
            let blend_mode = match lookup(fields, "blendMode") {
                Some(jv) => match jv {
                    Json::Str(s) => match decode_blend_mode(s) {
                        Ok(b) => b,
                        Err(e) => return Err(e),
                    },
                    _ => return Err(field_err("blendMode", "layer")),
                },
                None => return Err(field_err("blendMode", "layer")),
            };
            let hidden = match req_bool(lookup(fields, "hidden"), "hidden", "layer") {
                Ok(x) => x,
                Err(e) => return Err(e),
            };
            let muted = match req_bool(lookup(fields, "muted"), "muted", "layer") {
                Ok(x) => x,
                Err(e) => return Err(e),
            };
            let name = match req_str(lookup(fields, "name"), "name", "layer") {
                Ok(x) => x,
                Err(e) => return Err(e),
            };
            let soloed = match req_bool(lookup(fields, "soloed"), "soloed", "layer") {
                Ok(x) => x,
                Err(e) => return Err(e),
            };
            let tile_refs = match lookup(fields, "tileRefs") {
                Some(jv) => match jv {
                    Json::Obj(tf) => match decode_tile_refs(tf) {
                        Ok(m) => m,
                        Err(e) => return Err(e),
                    },
                    _ => return Err(field_err("tileRefs", "layer")),
                },
                None => return Err(field_err("tileRefs", "layer")),
            };
            Ok(
                Layer {
                    alpha,
                    blend_mode,
                    hidden,
                    muted,
                    name,
                    soloed,
                    tile_refs,
                    image_data: Vec::new(),
                },
            )
        },
        _ => Err(field_err("layer", "canvas")),
    }
}

} // verus!

verus! {

/// The palette slot a JSON value denotes: `null` is an empty slot, a string
/// is a hex color; anything else is rejected.
pub open spec fn spec_color_slot(j: Json) -> Option<Option<Color>> {
    match j {
        Json::Null => Some(None),
        Json::Str(s) => match spec_color(s@) {
            Some(c) => Some(Some(c)),
            None => None,
        },
        _ => None,
    }
}

/// Decodes one palette slot.
pub fn decode_color_slot(j: &Json) -> (r: Result<Option<Color>, PyxelError>)
    ensures
        match r {
            Ok(c) => spec_color_slot(*j) == Some(c),
            Err(e) => spec_color_slot(*j) is None && e is Serde,
        },
{
    match j {
        Json::Null => Ok(None),
        Json::Str(s) => match Color::from_hex(s.as_str()) {
            Ok(c) => Ok(Some(c)),
            Err(e) => Err(e),
        },
        _ => Err(field_err("colors", "palette")),
    }
}

/// The integer-keyed palette-color entries of an object's fields, in field
/// order.
pub open spec fn spec_color_entries(f: Seq<(String, Json)>) -> Option<
    Seq<(usize, Option<Color>)>,
>
    decreases f.len(),
{
    if f.len() == 0 {
        Some(Seq::empty())
    } else {
        let rest = spec_color_entries(f.drop_last());
        let k = spec_parse_usize(f.last().0@);
        let c = spec_color_slot(f.last().1);
        if rest is Some && k is Some && c is Some {
            Some(rest->Some_0.push((k->Some_0, c->Some_0)))
        } else {
            None
        }
    }
}

/// An unparsable key or slot anywhere fails the whole entry list.
proof fn lemma_color_entries_element_none(f: Seq<(String, Json)>, i: int)
    requires
        0 <= i < f.len(),
        spec_parse_usize(f[i].0@) is None || spec_color_slot(f[i].1) is None,
    ensures
        spec_color_entries(f) is None,
    decreases f.len(),
{
    if i < f.len() - 1 {
        assert(f.drop_last()[i] == f[i]);
        lemma_color_entries_element_none(f.drop_last(), i);
    }
}

/// The palette-color field's decoding: an integer-keyed map of hex colors
/// and nulls, materialized into a dense sequence by key.
pub open spec fn spec_opt_colors(o: Option<Json>) -> Option<Seq<Option<Color>>> {
    match o {
        Some(Json::Obj(f)) => match spec_color_entries(f@) {
            Some(es) => spec_map_as_vec(es),
            None => None,
        },
        _ => None,
    }
}

/// Decodes the palette's colors: an integer-keyed map of hex colors and
/// empty (`null`) slots, materialized into a dense sequence by key.
#[verifier::loop_isolation(false)]
pub fn decode_colors(fields: &Vec<(String, Json)>) -> (r: Result<Vec<Option<Color>>, PyxelError>)
    ensures
        match r {
            Ok(v) => (match spec_color_entries(fields@) {
                Some(es) => spec_map_as_vec(es) == Some(v.deep_view()),
                None => false,
            }),
            Err(e) => (match spec_color_entries(fields@) {
                Some(es) => spec_map_as_vec(es) is None,
                None => true,
            }) && e is Serde,
        },
{
    let mut entries: Vec<(usize, Option<Color>)> = Vec::new();
    let mut i: usize = 0;
    proof {
        assert(fields@.take(0) =~= Seq::<(String, Json)>::empty());
        assert(entries.deep_view() =~= Seq::<(usize, Option<Color>)>::empty());
    }
    while i < fields.len()
        invariant
            i <= fields@.len(),
            spec_color_entries(fields@.take(i as int)) == Some(entries.deep_view()),
        decreases fields@.len() - i,
    {
        proof {
            assert(fields@.take(i + 1).drop_last() =~= fields@.take(i as int));
            assert(fields@.take(i + 1).last() == fields@[i as int]);
        }
        let k = match parse_usize(fields[i].0.as_str()) {
            Some(k) => k,
            None => {
                proof {
                    lemma_color_entries_element_none(fields@, i as int);
                }
                return Err(field_err("colors", "palette"));
            },
        };
        let c = match decode_color_slot(&fields[i].1) {
            Ok(c) => c,
            Err(e) => {
                proof {
                    lemma_color_entries_element_none(fields@, i as int);
                }
                return Err(e);
            },
        };
        let ghost old_dv = entries.deep_view();
        entries.push((k, c));
        proof {
            assert(entries.deep_view() =~= old_dv.push((k, c)));
        }
        i = i + 1;
    }
    proof {
        assert(fields@.take(fields@.len() as int) =~= fields@);
    }
    deserialize_map_as_vec(entries)
}

/// A Pyxel palette: an ordered sequence of color slots (a slot may be
/// empty), with its display geometry in the editor.
#[derive(Debug)]
pub struct Palette {
    pub(crate) colors: Vec<Option<Color>>,
    pub(crate) height: u8,
    pub(crate) num_colors: usize,
    pub(crate) width: u8,
}

/// The mathematical value of a [`Palette`].
#[verifier::ext_equal]
pub ghost struct PaletteV {
    /// The color slots, in palette order; an empty slot is `None`.
    pub colors: Seq<Option<Color>>,
    /// The palette's display height in the editor.
    pub height: u8,
    /// The color count the source declares; kept as sent, not used to
    /// validate the slot sequence's length.
    pub num_colors: usize,
    /// The palette's display width in the editor.
    pub width: u8,
}

impl View for Palette {
    type V = PaletteV;

    closed spec fn view(&self) -> PaletteV {
        PaletteV {
            colors: self.colors.deep_view(),
            height: self.height,
            num_colors: self.num_colors,
            width: self.width,
        }
    }
}

impl DeepView for Palette {
    type V = PaletteV;

    closed spec fn deep_view(&self) -> PaletteV {
        self.view()
    }
}

impl Palette {
    /// Returns the colors that make up this palette.
    pub fn colors(&self) -> (r: &Vec<Option<Color>>)
        ensures
            r.deep_view() == self@.colors,
    {
        &self.colors
    }

    /// Returns the height of this palette when displayed in the PyxelEdit UI.
    pub fn height(&self) -> (r: u8)
        ensures
            r == self@.height,
    {
        self.height
    }

    /// Returns the width of this palette when displayed in the PyxelEdit UI.
    pub fn width(&self) -> (r: u8)
        ensures
            r == self@.width,
    {
        self.width
    }
}

/// The palette a JSON value denotes: an object with `colors`, `height`,
/// `numColors` and `width` fields.
pub open spec fn spec_palette(j: Json) -> Option<PaletteV> {
    match j {
        Json::Obj(fields) => {
            let fs = fields@;
            let colors = spec_opt_colors(spec_lookup(fs, "colors"@));
            let height = spec_opt_u8(spec_lookup(fs, "height"@));
            let num_colors = spec_opt_usize(spec_lookup(fs, "numColors"@));
            let width = spec_opt_u8(spec_lookup(fs, "width"@));
            if colors is Some && height is Some && num_colors is Some && width is Some {
                Some(
                    PaletteV {
                        colors: colors->Some_0,
                        height: height->Some_0,
                        num_colors: num_colors->Some_0,
                        width: width->Some_0,
                    },
                )
            } else {
                None
            }
        },
        _ => None,
    }
}

/// Decodes the document's palette.
pub fn decode_palette(j: &Json) -> (r: Result<Palette, PyxelError>)
    ensures
        match r {
            Ok(p) => spec_palette(*j) == Some(p@),
            Err(e) => spec_palette(*j) is None && e is Serde,
        },
{
    match j {
        Json::Obj(fields) => {
            let colors = match lookup(fields, "colors") {
                Some(jv) => match jv {
                    Json::Obj(cf) => match decode_colors(cf) {
                        Ok(v) => v,
                        Err(e) => return Err(e),
                    },
                    _ => return Err(field_err("colors", "palette")),
                },
                None => return Err(field_err("colors", "palette")),
            };
            let height = match req_u8(lookup(fields, "height"), "height", "palette") {
                Ok(x) => x,
                Err(e) => return Err(e),
            };
            let num_colors = match req_usize(lookup(fields, "numColors"), "numColors", "palette") {
                Ok(x) => x,
                Err(e) => return Err(e),
            };
            let width = match req_u8(lookup(fields, "width"), "width", "palette") {
                Ok(x) => x,
                Err(e) => return Err(e),
            };
            Ok(Palette { colors, height, num_colors, width })
        },
        _ => Err(field_err("palette", "document")),
    }
}

} // verus!

verus! {

/// The integer-keyed layer entries of an object's fields, in field order.
pub open spec fn spec_layer_entries(f: Seq<(String, Json)>) -> Option<Seq<(usize, LayerV)>>
    decreases f.len(),
{
    if f.len() == 0 {
        Some(Seq::empty())
    } else {
        let rest = spec_layer_entries(f.drop_last());
        let k = spec_parse_usize(f.last().0@);
        let l = spec_layer(f.last().1);
        if rest is Some && k is Some && l is Some {
            Some(rest->Some_0.push((k->Some_0, l->Some_0)))
        } else {
            None
        }
    }
}

/// An unparsable key or layer anywhere fails the whole entry list.
proof fn lemma_layer_entries_element_none(f: Seq<(String, Json)>, i: int)
    requires
        0 <= i < f.len(),
        spec_parse_usize(f[i].0@) is None || spec_layer(f[i].1) is None,
    ensures
        spec_layer_entries(f) is None,
    decreases f.len(),
{
    if i < f.len() - 1 {
        assert(f.drop_last()[i] == f[i]);
        lemma_layer_entries_element_none(f.drop_last(), i);
    }
}

/// The layer field's decoding: an integer-keyed map of layers, materialized
/// into a dense sequence by key.
pub open spec fn spec_opt_layers(o: Option<Json>) -> Option<Seq<LayerV>> {
    match o {
        Some(Json::Obj(f)) => match spec_layer_entries(f@) {
            Some(es) => spec_map_as_vec(es),
            None => None,
        },
        _ => None,
    }
}

/// Decodes the canvas's layers: an integer-keyed map of layers, materialized
/// into a dense sequence by key.
#[verifier::loop_isolation(false)]
pub fn decode_layers(fields: &Vec<(String, Json)>) -> (r: Result<Vec<Layer>, PyxelError>)
    ensures
        match r {
            Ok(v) => (match spec_layer_entries(fields@) {
                Some(es) => spec_map_as_vec(es) == Some(v.deep_view()),
                None => false,
            }),
            Err(e) => (match spec_layer_entries(fields@) {
                Some(es) => spec_map_as_vec(es) is None,
                None => true,
            }) && e is Serde,
        },
{
    let mut entries: Vec<(usize, Layer)> = Vec::new();
    let mut i: usize = 0;
    proof {
        assert(fields@.take(0) =~= Seq::<(String, Json)>::empty());
        assert(entries.deep_view() =~= Seq::<(usize, LayerV)>::empty());
    }
    while i < fields.len()
        invariant
            i <= fields@.len(),
            spec_layer_entries(fields@.take(i as int)) == Some(entries.deep_view()),
        decreases fields@.len() - i,
    {
        proof {
            assert(fields@.take(i + 1).drop_last() =~= fields@.take(i as int));
            assert(fields@.take(i + 1).last() == fields@[i as int]);
        }
        let k = match parse_usize(fields[i].0.as_str()) {
            Some(k) => k,
            None => {
                proof {
                    lemma_layer_entries_element_none(fields@, i as int);
                }
                return Err(field_err("layers", "canvas"));
            },
        };
        let l = match decode_layer(&fields[i].1) {
            Ok(l) => l,
            Err(e) => {
                proof {
                    lemma_layer_entries_element_none(fields@, i as int);
                }
                return Err(e);
            },
        };
        let ghost old_dv = entries.deep_view();
        let ghost lv = l@;
        entries.push((k, l));
        proof {
            assert(entries.deep_view() =~= old_dv.push((k, lv)));
        }
        i = i + 1;
    }
    proof {
        assert(fields@.take(fields@.len() as int) =~= fields@);
    }
    deserialize_map_as_vec(entries)
}

/// A Pyxel canvas: the ordered layers and the pixel and tile geometry.
#[derive(Debug)]
pub struct Canvas {
    pub(crate) layers: Vec<Layer>,
    pub(crate) height: i32,
    pub(crate) num_layers: usize,
    pub(crate) tile_height: u16,
    pub(crate) tile_width: u16,
    pub(crate) width: i32,
}

/// The mathematical value of a [`Canvas`].
#[verifier::ext_equal]
pub ghost struct CanvasV {
    /// The layers, in order.
    pub layers: Seq<LayerV>,
    /// The canvas height in pixels.
    pub height: i32,
    /// The layer count the source declares; the loader requires it to match
    /// the decoded layer sequence's length.
    pub num_layers: usize,
    /// The height of the canvas's tiles in pixels.
    pub tile_height: u16,
    /// The width of the canvas's tiles in pixels.
    pub tile_width: u16,
    /// The canvas width in pixels.
    pub width: i32,
}

impl View for Canvas {
    type V = CanvasV;

    closed spec fn view(&self) -> CanvasV {
        CanvasV {
            layers: self.layers.deep_view(),
            height: self.height,
            num_layers: self.num_layers,
            tile_height: self.tile_height,
            tile_width: self.tile_width,
            width: self.width,
        }
    }
}

impl DeepView for Canvas {
    type V = CanvasV;

    closed spec fn deep_view(&self) -> CanvasV {
        self.view()
    }
}

impl Canvas {
    /// Returns the layers of this canvas.
    pub fn layers(&self) -> (r: &Vec<Layer>)
        ensures
            r.deep_view() == self@.layers,
    {
        &self.layers
    }

    /// Returns the height of this canvas in pixels.
    pub fn height(&self) -> (r: i32)
        ensures
            r == self@.height,
    {
        self.height
    }

    /// Returns the height of the tiles in this canvas in pixels.
    pub fn tile_height(&self) -> (r: u16)
        ensures
            r == self@.tile_height,
    {
        self.tile_height
    }

    /// Returns the width of the tiles in this canvas in pixels.
    pub fn tile_width(&self) -> (r: u16)
        ensures
            r == self@.tile_width,
    {
        self.tile_width
    }

    /// Returns the width of this canvas in pixels.
    pub fn width(&self) -> (r: i32)
        ensures
            r == self@.width,
    {
        self.width
    }
}

/// The canvas a JSON value denotes: an object with `layers`, `height`,
/// `numLayers`, `tileHeight`, `tileWidth` and `width` fields.
pub open spec fn spec_canvas(j: Json) -> Option<CanvasV> {
    match j {
        Json::Obj(fields) => {
            let fs = fields@;
            let layers = spec_opt_layers(spec_lookup(fs, "layers"@));
            let height = spec_opt_i32(spec_lookup(fs, "height"@));
            let num_layers = spec_opt_usize(spec_lookup(fs, "numLayers"@));
            let tile_height = spec_opt_u16(spec_lookup(fs, "tileHeight"@));
            let tile_width = spec_opt_u16(spec_lookup(fs, "tileWidth"@));
            let width = spec_opt_i32(spec_lookup(fs, "width"@));
            if layers is Some && height is Some && num_layers is Some && tile_height is Some
                && tile_width is Some && width is Some {
                Some(
                    CanvasV {
                        layers: layers->Some_0,
                        height: height->Some_0,
                        num_layers: num_layers->Some_0,
                        tile_height: tile_height->Some_0,
                        tile_width: tile_width->Some_0,
                        width: width->Some_0,
                    },
                )
            } else {
                None
            }
        },
        _ => None,
    }
}

/// Decodes the document's canvas.
pub fn decode_canvas(j: &Json) -> (r: Result<Canvas, PyxelError>)
    ensures
        match r {
            Ok(c) => spec_canvas(*j) == Some(c@),
            Err(e) => spec_canvas(*j) is None && e is Serde,
        },
{
    match j {
        Json::Obj(fields) => {
            let layers = match lookup(fields, "layers") {
                Some(jv) => match jv {
                    Json::Obj(lf) => match decode_layers(lf) {
                        Ok(v) => v,
                        Err(e) => return Err(e),
                    },
                    _ => return Err(field_err("layers", "canvas")),
                },
                None => return Err(field_err("layers", "canvas")),
            };
            let height = match req_i32(lookup(fields, "height"), "height", "canvas") {
                Ok(x) => x,
                Err(e) => return Err(e),
            };
            let num_layers = match req_usize(lookup(fields, "numLayers"), "numLayers", "canvas") {
                Ok(x) => x,
                Err(e) => return Err(e),
            };
            let tile_height = match req_u16(
                lookup(fields, "tileHeight"),
                "tileHeight",
                "canvas",
            ) {
                Ok(x) => x,
                Err(e) => return Err(e),
            };
            let tile_width = match req_u16(lookup(fields, "tileWidth"), "tileWidth", "canvas") {
                Ok(x) => x,
                Err(e) => return Err(e),
            };
            let width = match req_i32(lookup(fields, "width"), "width", "canvas") {
                Ok(x) => x,
                Err(e) => return Err(e),
            };
            Ok(Canvas { layers, height, num_layers, tile_height, tile_width, width })
        },
        _ => Err(field_err("canvas", "document")),
    }
}

/// A Pyxel tileset: the tile geometry, the declared tile count, and the
/// attached tile images.
#[derive(Debug)]
pub struct Tileset {
    pub(crate) fixed_width: bool,
    pub(crate) num_tiles: usize,
    pub(crate) tile_height: u16,
    pub(crate) tile_width: u16,
    pub(crate) tiles_wide: u8,
    pub(crate) image_data: Vec<Vec<u8>>,
}

/// The mathematical value of a [`Tileset`].
#[verifier::ext_equal]
pub ghost struct TilesetV {
    /// Whether the tileset displays fixed-width in the editor.
    pub fixed_width: bool,
    /// The tile count the source declares; it drives how many tile images
    /// the loader attaches.
    pub num_tiles: usize,
    /// The height of the tiles in pixels.
    pub tile_height: u16,
    /// The width of the tiles in pixels.
    pub tile_width: u16,
    /// The tileset's display width in tiles in the editor.
    pub tiles_wide: u8,
    /// The raw bytes of the tile image members, index-aligned, attached by
    /// the loader.
    pub image_data: Seq<Seq<u8>>,
}

impl View for Tileset {
    type V = TilesetV;

    closed spec fn view(&self) -> TilesetV {
        TilesetV {
            fixed_width: self.fixed_width,
            num_tiles: self.num_tiles,
            tile_height: self.tile_height,
            tile_width: self.tile_width,
            tiles_wide: self.tiles_wide,
            image_data: self.image_data.deep_view(),
        }
    }
}

impl DeepView for Tileset {
    type V = TilesetV;

    closed spec fn deep_view(&self) -> TilesetV {
        self.view()
    }
}

impl Tileset {
    /// Returns `true` if this tileset is fixed width when displayed in the
    /// PyxelEdit UI.
    pub fn fixed_width(&self) -> (r: bool)
        ensures
            r == self@.fixed_width,
    {
        self.fixed_width
    }

    /// Returns the tile height in pixels of the tiles in this tileset.
    pub fn tile_height(&self) -> (r: u16)
        ensures
            r == self@.tile_height,
    {
        self.tile_height
    }

    /// Returns the tile width in pixels of the tiles in this tileset.
    pub fn tile_width(&self) -> (r: u16)
        ensures
            r == self@.tile_width,
    {
        self.tile_width
    }

    /// Returns the width of this tileset when displayed in the PyxelEdit UI.
    pub fn tiles_wide(&self) -> (r: u8)
        ensures
            r == self@.tiles_wide,
    {
        self.tiles_wide
    }

    /// Returns raw bytes of the images for the tiles in this tileset.
    pub fn image_data(&self) -> (r: &Vec<Vec<u8>>)
        ensures
            r.deep_view() == self@.image_data,
    {
        &self.image_data
    }
}

/// The tileset a JSON value denotes: an object with `fixedWidth`,
/// `numTiles`, `tileHeight`, `tileWidth` and `tilesWide` fields; the image
/// payloads start empty, attached later by the loader.
pub open spec fn spec_tileset(j: Json) -> Option<TilesetV> {
    match j {
        Json::Obj(fields) => {
            let fs = fields@;
            let fixed_width = spec_opt_bool(spec_lookup(fs, "fixedWidth"@));
            let num_tiles = spec_opt_usize(spec_lookup(fs, "numTiles"@));
            let tile_height = spec_opt_u16(spec_lookup(fs, "tileHeight"@));
            let tile_width = spec_opt_u16(spec_lookup(fs, "tileWidth"@));
            let tiles_wide = spec_opt_u8(spec_lookup(fs, "tilesWide"@));
            if fixed_width is Some && num_tiles is Some && tile_height is Some
                && tile_width is Some && tiles_wide is Some {
                Some(
                    TilesetV {
                        fixed_width: fixed_width->Some_0,
                        num_tiles: num_tiles->Some_0,
                        tile_height: tile_height->Some_0,
                        tile_width: tile_width->Some_0,
                        tiles_wide: tiles_wide->Some_0,
                        image_data: Seq::empty(),
                    },
                )
            } else {
                None
            }
        },
        _ => None,
    }
}

/// Decodes the document's tileset. The image payloads start empty; the
/// archive loader attaches one per declared tile afterwards.
pub fn decode_tileset(j: &Json) -> (r: Result<Tileset, PyxelError>)
    ensures
        match r {
            Ok(t) => spec_tileset(*j) == Some(t@),
            Err(e) => spec_tileset(*j) is None && e is Serde,
        },
{
    match j {
        Json::Obj(fields) => {
            let fixed_width = match req_bool(
                lookup(fields, "fixedWidth"),
                "fixedWidth",
                "tileset",
            ) {
                Ok(x) => x,
                Err(e) => return Err(e),
            };
            let num_tiles = match req_usize(lookup(fields, "numTiles"), "numTiles", "tileset") {
                Ok(x) => x,
                Err(e) => return Err(e),
            };
            let tile_height = match req_u16(
                lookup(fields, "tileHeight"),
                "tileHeight",
                "tileset",
            ) {
                Ok(x) => x,
                Err(e) => return Err(e),
            };
            let tile_width = match req_u16(lookup(fields, "tileWidth"), "tileWidth", "tileset") {
                Ok(x) => x,
                Err(e) => return Err(e),
            };
            let tiles_wide = match req_u8(lookup(fields, "tilesWide"), "tilesWide", "tileset") {
                Ok(x) => x,
                Err(e) => return Err(e),
            };
            let t = Tileset {
                fixed_width,
                num_tiles,
                tile_height,
                tile_width,
                tiles_wide,
                image_data: Vec::new(),
            };
            proof {
                assert(t@.image_data =~= Seq::<Seq<u8>>::empty());
            }
            Ok(t)
        },
        _ => Err(field_err("tileset", "document")),
    }
}

} // verus!

verus! {

/// A Pyxel animation: a run of frames starting at a base tile, with a base
/// frame duration and per-frame duration multipliers.
#[derive(Debug)]
pub struct Animation {
    pub(crate) base_tile: usize,
    pub(crate) frame_duration: u64,
    pub(crate) frame_duration_multipliers: Vec<u64>,
    pub(crate) length: usize,
    pub(crate) name: String,
}

/// The mathematical value of an [`Animation`].
#[verifier::ext_equal]
pub ghost struct AnimationV {
    /// The canvas tile the animation starts on.
    pub base_tile: usize,
    /// The base frame duration in milliseconds.
    pub frame_duration: u64,
    /// The per-frame duration multipliers, each scaled by one hundred as on
    /// the wire (`100` stands for 1x).
    pub frame_duration_multipliers: Seq<u64>,
    /// The number of frames.
    pub length: usize,
    /// The animation's name.
    pub name: Seq<char>,
}

impl View for Animation {
    type V = AnimationV;

    closed spec fn view(&self) -> AnimationV {
        AnimationV {
            base_tile: self.base_tile,
            frame_duration: self.frame_duration,
            frame_duration_multipliers: self.frame_duration_multipliers@,
            length: self.length,
            name: self.name@,
        }
    }
}

impl DeepView for Animation {
    type V = AnimationV;

    closed spec fn deep_view(&self) -> AnimationV {
        self.view()
    }
}

impl Animation {
    /// Returns the canvas tile this animation starts on.
    pub fn base_tile(&self) -> (r: usize)
        ensures
            r == self@.base_tile,
    {
        self.base_tile
    }

    /// Returns the base frame duration for this animation, in milliseconds.
    pub fn frame_duration(&self) -> (r: u64)
        ensures
            r == self@.frame_duration,
    {
        self.frame_duration
    }

    /// Returns the frame duration multipliers for this animation, each
    /// scaled by one hundred as on the wire (`100` stands for 1x).
    pub fn frame_duration_multipliers(&self) -> (r: &Vec<u64>)
        ensures
            r@ == self@.frame_duration_multipliers,
    {
        &self.frame_duration_multipliers
    }

    /// Returns the number of frames in this animation.
    pub fn length(&self) -> (r: usize)
        ensures
            r == self@.length,
    {
        self.length
    }

    /// Returns the name of this animation.
    pub fn name(&self) -> (r: &String)
        ensures
            r@ == self@.name,
    {
        &self.name
    }
}

/// The frame-duration field's decoding: the duration transcoder applied to
/// the looked up value.
pub open spec fn spec_opt_millis(o: Option<Json>) -> Option<u64> {
    match o {
        Some(jv) => spec_milliseconds(jv),
        None => None,
    }
}

/// The multipliers field's decoding: the multiplier transcoder applied to
/// the looked up value.
pub open spec fn spec_opt_multipliers(o: Option<Json>) -> Option<Seq<u64>> {
    match o {
        Some(jv) => spec_multipliers(jv),
        None => None,
    }
}

/// The animation a JSON value denotes: an object with `baseTile`,
/// `frameDuration`, `frameDurationMultipliers`, `length` and `name` fields.
pub open spec fn spec_animation(j: Json) -> Option<AnimationV> {
    match j {
        Json::Obj(fields) => {
            let fs = fields@;
            let base_tile = spec_opt_usize(spec_lookup(fs, "baseTile"@));
            let frame_duration = spec_opt_millis(spec_lookup(fs, "frameDuration"@));
            let multipliers = spec_opt_multipliers(spec_lookup(fs, "frameDurationMultipliers"@));
            let length = spec_opt_usize(spec_lookup(fs, "length"@));
            let name = spec_opt_str(spec_lookup(fs, "name"@));
            if base_tile is Some && frame_duration is Some && multipliers is Some
                && length is Some && name is Some {
                Some(
                    AnimationV {
                        base_tile: base_tile->Some_0,
                        frame_duration: frame_duration->Some_0,
                        frame_duration_multipliers: multipliers->Some_0,
                        length: length->Some_0,
                        name: name->Some_0,
                    },
                )
            } else {
                None
            }
        },
        _ => None,
    }
}

/// Decodes one animation.
pub fn decode_animation(j: &Json) -> (r: Result<Animation, PyxelError>)
    ensures
        match r {
            Ok(a) => spec_animation(*j) == Some(a@),
            Err(e) => spec_animation(*j) is None && e is Serde,
        },
{
    match j {
        Json::Obj(fields) => {
            let base_tile = match req_usize(lookup(fields, "baseTile"), "baseTile", "animation") {
                Ok(x) => x,
                Err(e) => return Err(e),
            };
            let frame_duration = match lookup(fields, "frameDuration") {
                Some(jv) => match deserialize_as_milliseconds(jv) {
                    Ok(ms) => ms,
                    Err(e) => return Err(e),
                },
                None => return Err(field_err("frameDuration", "animation")),
            };
            let frame_duration_multipliers = match lookup(fields, "frameDurationMultipliers") {
                Some(jv) => match deserialize_multipliers(jv) {
                    Ok(v) => v,
                    Err(e) => return Err(e),
                },
                None => return Err(field_err("frameDurationMultipliers", "animation")),
            };
            let length = match req_usize(lookup(fields, "length"), "length", "animation") {
                Ok(x) => x,
                Err(e) => return Err(e),
            };
            let name = match req_str(lookup(fields, "name"), "name", "animation") {
                Ok(x) => x,
                Err(e) => return Err(e),
            };
            Ok(Animation { base_tile, frame_duration, frame_duration_multipliers, length, name })
        },
        _ => Err(field_err("animation", "document")),
    }
}

/// The integer-keyed animation entries of an object's fields, in field
/// order.
pub open spec fn spec_animation_entries(f: Seq<(String, Json)>) -> Option<
    Seq<(usize, AnimationV)>,
>
    decreases f.len(),
{
    if f.len() == 0 {
        Some(Seq::empty())
    } else {
        let rest = spec_animation_entries(f.drop_last());
        let k = spec_parse_usize(f.last().0@);
        let a = spec_animation(f.last().1);
        if rest is Some && k is Some && a is Some {
            Some(rest->Some_0.push((k->Some_0, a->Some_0)))
        } else {
            None
        }
    }
}

/// An unparsable key or animation anywhere fails the whole entry list.
proof fn lemma_animation_entries_element_none(f: Seq<(String, Json)>, i: int)
    requires
        0 <= i < f.len(),
        spec_parse_usize(f[i].0@) is None || spec_animation(f[i].1) is None,
    ensures
        spec_animation_entries(f) is None,
    decreases f.len(),
{
    if i < f.len() - 1 {
        assert(f.drop_last()[i] == f[i]);
        lemma_animation_entries_element_none(f.drop_last(), i);
    }
}

/// The animations field's decoding: an integer-keyed map of animations,
/// materialized into a dense sequence by key.
pub open spec fn spec_opt_animations(o: Option<Json>) -> Option<Seq<AnimationV>> {
    match o {
        Some(Json::Obj(f)) => match spec_animation_entries(f@) {
            Some(es) => spec_map_as_vec(es),
            None => None,
        },
        _ => None,
    }
}

/// Decodes the document's animations: an integer-keyed map of animations,
/// materialized into a dense sequence by key.
#[verifier::loop_isolation(false)]
pub fn decode_animations(fields: &Vec<(String, Json)>) -> (r: Result<Vec<Animation>, PyxelError>)
    ensures
        match r {
            Ok(v) => (match spec_animation_entries(fields@) {
                Some(es) => spec_map_as_vec(es) == Some(v.deep_view()),
                None => false,
            }),
            Err(e) => (match spec_animation_entries(fields@) {
                Some(es) => spec_map_as_vec(es) is None,
                None => true,
            }) && e is Serde,
        },
{
    let mut entries: Vec<(usize, Animation)> = Vec::new();
    let mut i: usize = 0;
    proof {
        assert(fields@.take(0) =~= Seq::<(String, Json)>::empty());
        assert(entries.deep_view() =~= Seq::<(usize, AnimationV)>::empty());
    }
    while i < fields.len()
        invariant
            i <= fields@.len(),
            spec_animation_entries(fields@.take(i as int)) == Some(entries.deep_view()),
        decreases fields@.len() - i,
    {
        proof {
            assert(fields@.take(i + 1).drop_last() =~= fields@.take(i as int));
            assert(fields@.take(i + 1).last() == fields@[i as int]);
        }
        let k = match parse_usize(fields[i].0.as_str()) {
            Some(k) => k,
            None => {
                proof {
                    lemma_animation_entries_element_none(fields@, i as int);
                }
                return Err(field_err("animations", "document"));
            },
        };
        let a = match decode_animation(&fields[i].1) {
            Ok(a) => a,
            Err(e) => {
                proof {
                    lemma_animation_entries_element_none(fields@, i as int);
                }
                return Err(e);
            },
        };
        let ghost old_dv = entries.deep_view();
        let ghost av = a@;
        entries.push((k, a));
        proof {
            assert(entries.deep_view() =~= old_dv.push((k, av)));
        }
        i = i + 1;
    }
    proof {
        assert(fields@.take(fields@.len() as int) =~= fields@);
    }
    deserialize_map_as_vec(entries)
}

} // verus!

verus! {

/// A Pyxel document: the root entity owning one palette, one canvas, one
/// tileset, the animations, the document name, and the editor version that
/// produced it.
#[derive(Debug)]
pub struct Pyxel {
    pub(crate) animations: Vec<Animation>,
    pub(crate) canvas: Canvas,
    pub(crate) name: String,
    pub(crate) palette: Palette,
    pub(crate) tileset: Tileset,
    pub(crate) version: Version,
}

/// The mathematical value of a [`Pyxel`] document.
#[verifier::ext_equal]
pub ghost struct PyxelV {
    /// The animations, in order.
    pub animations: Seq<AnimationV>,
    /// The canvas.
    pub canvas: CanvasV,
    /// The document's name.
    pub name: Seq<char>,
    /// The palette.
    pub palette: PaletteV,
    /// The tileset.
    pub tileset: TilesetV,
    /// The editor version that produced the document.
    pub version: VersionV,
}

impl View for Pyxel {
    type V = PyxelV;

    closed spec fn view(&self) -> PyxelV {
        PyxelV {
            animations: self.animations.deep_view(),
            canvas: self.canvas@,
            name: self.name@,
            palette: self.palette@,
            tileset: self.tileset@,
            version: self.version@,
        }
    }
}

impl DeepView for Pyxel {
    type V = PyxelV;

    closed spec fn deep_view(&self) -> PyxelV {
        self.view()
    }
}

impl Pyxel {
    /// Returns the animations for this document.
    pub fn animations(&self) -> (r: &Vec<Animation>)
        ensures
            r.deep_view() == self@.animations,
    {
        &self.animations
    }

    /// Returns the canvas for this document.
    pub fn canvas(&self) -> (r: &Canvas)
        ensures
            r@ == self@.canvas,
    {
        &self.canvas
    }

    /// Returns the name of this document.
    pub fn name(&self) -> (r: &String)
        ensures
            r@ == self@.name,
    {
        &self.name
    }

    /// Returns the palette for this document.
    pub fn palette(&self) -> (r: &Palette)
        ensures
            r@ == self@.palette,
    {
        &self.palette
    }

    /// Returns the tileset for this document.
    pub fn tileset(&self) -> (r: &Tileset)
        ensures
            r@ == self@.tileset,
    {
        &self.tileset
    }

    /// Returns the version of PyxelEdit this document was created with.
    pub fn version(&self) -> (r: &Version)
        ensures
            r@ == self@.version,
    {
        &self.version
    }
}

/// The version field's decoding: the semantic-version parse of a string
/// value.
pub open spec fn spec_opt_version(o: Option<Json>) -> Option<VersionV> {
    match o {
        Some(Json::Str(s)) => spec_semver(s@),
        _ => None,
    }
}

/// The document a JSON value denotes: an object with `animations`, `canvas`,
/// `name`, `palette`, `tileset` and `version` fields. Image payloads start
/// empty; the archive loader attaches them afterwards.
pub open spec fn spec_document(j: Json) -> Option<PyxelV> {
    match j {
        Json::Obj(fields) => {
            let fs = fields@;
            let animations = spec_opt_animations(spec_lookup(fs, "animations"@));
            let canvas = spec_opt_canvas(spec_lookup(fs, "canvas"@));
            let name = spec_opt_str(spec_lookup(fs, "name"@));
            let palette = spec_opt_palette(spec_lookup(fs, "palette"@));
            let tileset = spec_opt_tileset(spec_lookup(fs, "tileset"@));
            let version = spec_opt_version(spec_lookup(fs, "version"@));
            if animations is Some && canvas is Some && name is Some && palette is Some
                && tileset is Some && version is Some {
                Some(
                    PyxelV {
                        animations: animations->Some_0,
                        canvas: canvas->Some_0,
                        name: name->Some_0,
                        palette: palette->Some_0,
                        tileset: tileset->Some_0,
                        version: version->Some_0,
                    },
                )
            } else {
                None
            }
        },
        _ => None,
    }
}

/// The canvas field's decoding.
pub open spec fn spec_opt_canvas(o: Option<Json>) -> Option<CanvasV> {
    match o {
        Some(jv) => spec_canvas(jv),
        None => None,
    }
}

/// The palette field's decoding.
pub open spec fn spec_opt_palette(o: Option<Json>) -> Option<PaletteV> {
    match o {
        Some(jv) => spec_palette(jv),
        None => None,
    }
}

/// The tileset field's decoding.
pub open spec fn spec_opt_tileset(o: Option<Json>) -> Option<TilesetV> {
    match o {
        Some(jv) => spec_tileset(jv),
        None => None,
    }
}

/// Decodes a whole document from its parsed JSON. Image payloads start
/// empty; the archive loader attaches them afterwards.
pub fn decode_document(j: &Json) -> (r: Result<Pyxel, PyxelError>)
    ensures
        match r {
            Ok(d) => spec_document(*j) == Some(d@),
            Err(e) => spec_document(*j) is None && e is Serde,
        },
{
    match j {
        Json::Obj(fields) => {
            let animations = match lookup(fields, "animations") {
                Some(jv) => match jv {
                    Json::Obj(af) => match decode_animations(af) {
                        Ok(v) => v,
                        Err(e) => return Err(e),
                    },
                    _ => return Err(field_err("animations", "document")),
                },
                None => return Err(field_err("animations", "document")),
            };
            let canvas = match lookup(fields, "canvas") {
                Some(jv) => match decode_canvas(jv) {
                    Ok(c) => c,
                    Err(e) => return Err(e),
                },
                None => return Err(field_err("canvas", "document")),
            };
            let name = match req_str(lookup(fields, "name"), "name", "document") {
                Ok(x) => x,
                Err(e) => return Err(e),
            };
            let palette = match lookup(fields, "palette") {
                Some(jv) => match decode_palette(jv) {
                    Ok(p) => p,
                    Err(e) => return Err(e),
                },
                None => return Err(field_err("palette", "document")),
            };
            let tileset = match lookup(fields, "tileset") {
                Some(jv) => match decode_tileset(jv) {
                    Ok(t) => t,
                    Err(e) => return Err(e),
                },
                None => return Err(field_err("tileset", "document")),
            };
            let version = match lookup(fields, "version") {
                Some(jv) => match jv {
                    Json::Str(s) => match parse_version(s.as_str()) {
                        Some(v) => v,
                        None => return Err(field_err("version", "document")),
                    },
                    _ => return Err(field_err("version", "document")),
                },
                None => return Err(field_err("version", "document")),
            };
            Ok(Pyxel { animations, canvas, name, palette, tileset, version })
        },
        _ => Err(field_err("document", "archive")),
    }
}

} // verus!

verus! {

/// Loads a Pyxel document from an in-memory byte buffer.
///
/// The buffer must be a zip archive holding a `docData.json` member, one
/// `layer{i}.png` member per decoded canvas layer (the declared `numLayers`
/// must match the decoded layer count), and one `tile{i}.png` member per
/// declared tile. A buffer that is not a valid archive, and an archive
/// missing any required member, fail with an archive-structure error; a
/// member that does not decode fails with a deserialization error. The load
/// is all-or-nothing: on any failure no document is returned.
#[verifier::loop_isolation(false)]
pub fn load_from_memory(buf: &[u8]) -> (r: Result<Pyxel, PyxelError>)
    ensures
        match r {
            Ok(d) => spec_load(buf@) == Some(d@),
            Err(e) => spec_load(buf@) is None && (e is Zip || e is Serde),
        },
        zip_entries(buf@) is None ==> (r matches Err(e) && e is Zip),
        (zip_entries(buf@) matches Some(m) && !m.dom().contains("docData.json"@)) ==> (
        r matches Err(e) && e is Zip),
{
    let mut archive = match open_archive(buf) {
        Ok(a) => a,
        Err(e) => return Err(e),
    };
    let ghost members = archive_members(archive);
    let data = match read_member(&mut archive, "docData.json") {
        Ok(v) => v,
        Err(e) => return Err(e),
    };
    let json = match parse_json(data.as_slice()) {
        Ok(j) => j,
        Err(e) => return Err(e),
    };
    let mut doc = match decode_document(&json) {
        Ok(d) => d,
        Err(e) => return Err(e),
    };
    let ghost d0 = doc@;
    let n_layers = doc.canvas.layers.len();
    if doc.canvas.num_layers != n_layers {
        return Err(
            PyxelError::Serde(
                String::from_str("numLayers does not match the number of decoded layers"),
            ),
        );
    }
    let mut i: usize = 0;
    while i < n_layers
        invariant
            i <= n_layers,
            archive_members(archive) == members,
            doc@.canvas.layers.len() == n_layers,
            forall|j: int| i <= j < n_layers ==> doc@.canvas.layers[j] == d0.canvas.layers[j],
            forall|j: int|
                0 <= j < i ==> members.dom().contains(#[trigger] spec_layer_member(j))
                    && doc@.canvas.layers[j] == (LayerV {
                    image_data: members[spec_layer_member(j)],
                    ..d0.canvas.layers[j]
                }),
            doc@.canvas.height == d0.canvas.height,
            doc@.canvas.num_layers == d0.canvas.num_layers,
            doc@.canvas.tile_height == d0.canvas.tile_height,
            doc@.canvas.tile_width == d0.canvas.tile_width,
            doc@.canvas.width == d0.canvas.width,
            doc@.animations == d0.animations,
            doc@.name == d0.name,
            doc@.palette == d0.palette,
            doc@.tileset == d0.tileset,
            doc@.version == d0.version,
        decreases n_layers - i,
    {
        let name = member_name("layer", i);
        let bytes = match read_member(&mut archive, name.as_str()) {
            Ok(b) => b,
            Err(e) => {
                proof {
                    assert(!members.dom().contains(spec_layer_member(i as int)));
                }
                return Err(e);
            },
        };
        let layer = &mut doc.canvas.layers[i];
        layer.image_data = bytes;
        i = i + 1;
    }
    let ghost d1 = doc@;
    let n_tiles = doc.tileset.num_tiles;
    let mut t: usize = 0;
    while t < n_tiles
        invariant
            t <= n_tiles,
            archive_members(archive) == members,
            doc@.tileset.image_data.len() == t,
            forall|j: int|
                0 <= j < t ==> members.dom().contains(#[trigger] spec_tile_member(j))
                    && doc@.tileset.image_data[j] == members[spec_tile_member(j)],
            doc@.canvas == d1.canvas,
            doc@.animations == d1.animations,
            doc@.name == d1.name,
            doc@.palette == d1.palette,
            doc@.version == d1.version,
            doc@.tileset.fixed_width == d1.tileset.fixed_width,
            doc@.tileset.num_tiles == d1.tileset.num_tiles,
            doc@.tileset.tile_height == d1.tileset.tile_height,
            doc@.tileset.tile_width == d1.tileset.tile_width,
            doc@.tileset.tiles_wide == d1.tileset.tiles_wide,
        decreases n_tiles - t,
    {
        let name = member_name("tile", t);
        let bytes = match read_member(&mut archive, name.as_str()) {
            Ok(b) => b,
            Err(e) => {
                proof {
                    assert(!members.dom().contains(spec_tile_member(t as int)));
                }
                return Err(e);
            },
        };
        doc.tileset.image_data.push(bytes);
        t = t + 1;
    }
    proof {
        assert(spec_load(buf@) is Some);
        let expected = spec_load(buf@)->Some_0;
        assert(doc@.canvas.layers =~= expected.canvas.layers);
        assert(doc@.tileset.image_data =~= expected.tileset.image_data);
        assert(doc@.canvas =~= expected.canvas);
        assert(doc@.tileset =~= expected.tileset);
        assert(doc@ =~= expected);
    }
    Ok(doc)
}

} // verus!
