use pyxel::{load_from_memory, BlendMode, Color, PyxelError, TileRef, Version};
use std::collections::BTreeMap;
use std::io::{Cursor, Write};

fn build_archive(entries: &[(&str, &[u8])]) -> Vec<u8> {
    let mut w = zip::ZipWriter::new(Cursor::new(Vec::new()));
    for (name, data) in entries {
        w.start_file(*name, zip::write::SimpleFileOptions::default()).unwrap();
        w.write_all(data).unwrap();
    }
    w.finish().unwrap().into_inner()
}

fn layer_json(
    name: &str,
    blend: &str,
    hidden: bool,
    muted: bool,
    soloed: bool,
    tile_refs: &str,
) -> String {
    format!(
        "{{\"alpha\": 255, \"blendMode\": \"{}\", \"hidden\": {}, \"muted\": {}, \
         \"name\": \"{}\", \"soloed\": {}, \"tileRefs\": {{{}}}}}",
        blend, hidden, muted, name, soloed, tile_refs
    )
}

fn tile_ref_json(index: usize, rot: u64, flip_x: bool) -> String {
    format!("{{\"index\": {}, \"rot\": {}, \"flipX\": {}}}", index, rot, flip_x)
}

/// The canonical fixture document: the JSON metadata of a small archive with
/// eleven layers, four tiles, fifteen palette colors and three animations.
fn doc_json(blend_mode_layer_0: &str, num_layers: usize, canvas_width: i32) -> String {
    let palette_hex = [
        "ffbe3535", "fff99b97", "ff915f33", "ffd17f30", "fff7ee59", "ff59cd36", "ff83f0dc",
        "ff75a1ec", "ff4137cd", "ffcc59c6", "ffffffff", "ffcacaca", "ff8e8e8e", "ff5b5b5b",
        "ff000000",
    ];
    let colors = palette_hex
        .iter()
        .enumerate()
        .map(|(i, h)| format!("\"{}\": \"{}\"", i, h))
        .collect::<Vec<_>>()
        .join(", ");

    // Layer 0 of the canvas holds four tile references; layer 1 holds the
    // eight rotation/flip combinations at grid cells 56 to 63.
    let refs0 = (0..4).map(|i| format!("\"{}\": {}", i, tile_ref_json(0, 0, false))).collect::<
        Vec<_>,
    >().join(", ");
    let refs1 = (0..8)
        .map(|i| format!("\"{}\": {}", 56 + i, tile_ref_json(0, (i % 4) as u64, i >= 4)))
        .collect::<Vec<_>>()
        .join(", ");

    let blends = [
        blend_mode_layer_0,
        "screen",
        "overlay",
        "invert",
        "hardlight",
        "lighten",
        "darken",
        "difference",
        "add",
        "multiply",
        "normal",
    ];
    let mut layers: Vec<String> = Vec::new();
    for i in 0..11 {
        let refs = if i == 0 {
            refs0.clone()
        } else if i == 1 {
            refs1.clone()
        } else {
            String::new()
        };
        layers.push(format!(
            "\"{}\": {}",
            i,
            layer_json(
                &format!("Layer {}", 10 - i),
                blends[i],
                i == 3,
                i == 2,
                i == 1,
                &refs,
            )
        ));
    }

    let animations = [
        "\"0\": {\"baseTile\": 0, \"frameDuration\": 150, \"frameDurationMultipliers\": [100, 200, 300, 400], \"length\": 4, \"name\": \"Animation 1\"}",
        "\"1\": {\"baseTile\": 4, \"frameDuration\": 100, \"frameDurationMultipliers\": [100, 100], \"length\": 2, \"name\": \"Animation 2\"}",
        "\"2\": {\"baseTile\": 6, \"frameDuration\": 1000, \"frameDurationMultipliers\": [100, 100], \"length\": 2, \"name\": \"Animation 3\"}",
    ];

    format!(
        "{{\"name\": \"test_v0.4.8\", \"version\": \"0.4.8\", \
         \"palette\": {{\"colors\": {{{}}}, \"height\": 4, \"numColors\": 15, \"width\": 8}}, \
         \"canvas\": {{\"layers\": {{{}}}, \"height\": 128, \"numLayers\": {}, \
         \"tileHeight\": 16, \"tileWidth\": 32, \"width\": {}}}, \
         \"tileset\": {{\"fixedWidth\": false, \"numTiles\": 4, \"tileHeight\": 16, \
         \"tileWidth\": 32, \"tilesWide\": 8}}, \
         \"animations\": {{{}}}}}",
        colors,
        layers.join(", "),
        num_layers,
        canvas_width,
        animations.join(", ")
    )
}

fn fixture_archive() -> Vec<u8> {
    let doc = doc_json("subtract", 11, 256);
    let mut entries: Vec<(String, Vec<u8>)> = vec![("docData.json".to_string(), doc.into_bytes())];
    for i in 0..11 {
        entries.push((format!("layer{}.png", i), format!("layer image {}", i).into_bytes()));
    }
    for i in 0..4 {
        entries.push((format!("tile{}.png", i), format!("tile image {}", i).into_bytes()));
    }
    let borrowed: Vec<(&str, &[u8])> =
        entries.iter().map(|(n, d)| (n.as_str(), d.as_slice())).collect();
    build_archive(&borrowed)
}

fn check_animation(
    animation: &pyxel::Animation,
    base_tile: usize,
    frame_duration_ms: u64,
    multipliers: &[u64],
    length: usize,
    name: &str,
) {
    assert_eq!(base_tile, animation.base_tile());
    assert_eq!(frame_duration_ms, animation.frame_duration());
    assert_eq!(multipliers, animation.frame_duration_multipliers().as_slice());
    assert_eq!(length, animation.length());
    assert_eq!(name, animation.name());
}

fn check_layer(
    layer: &pyxel::Layer,
    alpha: u8,
    blend_mode: BlendMode,
    hidden: bool,
    muted: bool,
    name: &str,
    soloed: bool,
    num_tile_refs: usize,
) {
    assert_eq!(alpha, layer.alpha());
    assert_eq!(blend_mode, layer.blend_mode());
    assert_eq!(hidden, layer.hidden());
    assert_eq!(muted, layer.muted());
    assert_eq!(name, layer.name());
    assert_eq!(soloed, layer.soloed());
    assert_eq!(num_tile_refs, layer.tile_refs().len());
}

#[test]
fn load_from_memory_v0_4_8() {
    let buf = fixture_archive();
    let doc = load_from_memory(&buf).unwrap();

    // animations
    assert_eq!(3, doc.animations().len());
    check_animation(&doc.animations()[0], 0, 150, &[100, 200, 300, 400], 4, "Animation 1");
    check_animation(&doc.animations()[1], 4, 100, &[100, 100], 2, "Animation 2");
    check_animation(&doc.animations()[2], 6, 1000, &[100, 100], 2, "Animation 3");

    // canvas
    assert_eq!(11, doc.canvas().layers().len());
    check_layer(&doc.canvas().layers()[0], 255, BlendMode::Subtract, false, false, "Layer 10", false, 4);
    check_layer(&doc.canvas().layers()[1], 255, BlendMode::Screen, false, false, "Layer 9", true, 8);
    check_layer(&doc.canvas().layers()[2], 255, BlendMode::Overlay, false, true, "Layer 8", false, 0);
    check_layer(&doc.canvas().layers()[3], 255, BlendMode::Invert, true, false, "Layer 7", false, 0);
    check_layer(&doc.canvas().layers()[4], 255, BlendMode::Hardlight, false, false, "Layer 6", false, 0);
    check_layer(&doc.canvas().layers()[5], 255, BlendMode::Lighten, false, false, "Layer 5", false, 0);
    check_layer(&doc.canvas().layers()[6], 255, BlendMode::Darken, false, false, "Layer 4", false, 0);
    check_layer(&doc.canvas().layers()[7], 255, BlendMode::Difference, false, false, "Layer 3", false, 0);
    check_layer(&doc.canvas().layers()[8], 255, BlendMode::Add, false, false, "Layer 2", false, 0);
    check_layer(&doc.canvas().layers()[9], 255, BlendMode::Multiply, false, false, "Layer 1", false, 0);
    check_layer(&doc.canvas().layers()[10], 255, BlendMode::Normal, false, false, "Layer 0", false, 0);

    assert_eq!(128, doc.canvas().height());
    assert_eq!(16, doc.canvas().tile_height());
    assert_eq!(32, doc.canvas().tile_width());
    assert_eq!(256, doc.canvas().width());

    // layer image payloads are attached in index order
    assert_eq!(b"layer image 0".as_slice(), doc.canvas().layers()[0].image_data().as_slice());
    assert_eq!(b"layer image 10".as_slice(), doc.canvas().layers()[10].image_data().as_slice());

    // name
    assert_eq!("test_v0.4.8", doc.name());

    // palette
    assert_eq!(15, doc.palette().colors().len());
    assert_eq!(4, doc.palette().height());
    assert_eq!(8, doc.palette().width());

    // tileset
    assert_eq!(false, doc.tileset().fixed_width());
    assert_eq!(16, doc.tileset().tile_height());
    assert_eq!(32, doc.tileset().tile_width());
    assert_eq!(8, doc.tileset().tiles_wide());
    assert_eq!(4, doc.tileset().image_data().len());
    assert_eq!(b"tile image 3".as_slice(), doc.tileset().image_data()[3].as_slice());

    // version
    let expected = Version {
        major: 0,
        minor: 4,
        patch: 8,
        pre: String::new(),
        build: String::new(),
    };
    assert_eq!(expected, *doc.version());
}

#[test]
fn load_palette_colors() {
    let buf = fixture_archive();
    let doc = load_from_memory(&buf).unwrap();

    assert_eq!(
        &vec![
            Some(Color { r: 190, g: 53, b: 53, a: 255 }),
            Some(Color { r: 249, g: 155, b: 151, a: 255 }),
            Some(Color { r: 145, g: 95, b: 51, a: 255 }),
            Some(Color { r: 209, g: 127, b: 48, a: 255 }),
            Some(Color { r: 247, g: 238, b: 89, a: 255 }),
            Some(Color { r: 89, g: 205, b: 54, a: 255 }),
            Some(Color { r: 131, g: 240, b: 220, a: 255 }),
            Some(Color { r: 117, g: 161, b: 236, a: 255 }),
            Some(Color { r: 65, g: 55, b: 205, a: 255 }),
            Some(Color { r: 204, g: 89, b: 198, a: 255 }),
            Some(Color { r: 255, g: 255, b: 255, a: 255 }),
            Some(Color { r: 202, g: 202, b: 202, a: 255 }),
            Some(Color { r: 142, g: 142, b: 142, a: 255 }),
            Some(Color { r: 91, g: 91, b: 91, a: 255 }),
            Some(Color { r: 0, g: 0, b: 0, a: 255 })
        ],
        doc.palette().colors()
    );
}

#[test]
fn load_canvas_layer_tilerefs() {
    let buf = fixture_archive();
    let doc = load_from_memory(&buf).unwrap();

    let mut tile_refs = BTreeMap::new();
    tile_refs.insert(56, TileRef { index: 0, rot: 0, flip_x: false });
    tile_refs.insert(57, TileRef { index: 0, rot: 90, flip_x: false });
    tile_refs.insert(58, TileRef { index: 0, rot: 180, flip_x: false });
    tile_refs.insert(59, TileRef { index: 0, rot: 270, flip_x: false });
    tile_refs.insert(60, TileRef { index: 0, rot: 0, flip_x: true });
    tile_refs.insert(61, TileRef { index: 0, rot: 90, flip_x: true });
    tile_refs.insert(62, TileRef { index: 0, rot: 180, flip_x: true });
    tile_refs.insert(63, TileRef { index: 0, rot: 270, flip_x: true });

    assert_eq!(&tile_refs, doc.canvas().layers()[1].tile_refs());
}

#[test]
fn missing_doc_data_is_archive_error() {
    let buf = build_archive(&[("layer0.png", b"x".as_slice())]);
    let err = load_from_memory(&buf).unwrap_err();
    assert!(matches!(err, PyxelError::Zip(_)), "expected an archive-structure error");
}

#[test]
fn not_an_archive_is_archive_error() {
    let err = load_from_memory(b"this is not a zip archive").unwrap_err();
    assert!(matches!(err, PyxelError::Zip(_)));
}

#[test]
fn invalid_json_is_deserialization_error() {
    let buf = build_archive(&[("docData.json", b"{not valid json".as_slice())]);
    let err = load_from_memory(&buf).unwrap_err();
    assert!(matches!(err, PyxelError::Serde(_)));
}

#[test]
fn unknown_blend_mode_is_deserialization_error() {
    let doc = doc_json("glow", 11, 256);
    let buf = build_archive(&[("docData.json", doc.as_bytes())]);
    let err = load_from_memory(&buf).unwrap_err();
    assert!(matches!(err, PyxelError::Serde(_)), "a layer with blendMode \"glow\" must fail");
}

#[test]
fn missing_layer_member_is_fatal() {
    let doc = doc_json("subtract", 11, 256);
    let mut entries: Vec<(String, Vec<u8>)> = vec![("docData.json".to_string(), doc.into_bytes())];
    for i in 0..11 {
        if i == 5 {
            continue;
        }
        entries.push((format!("layer{}.png", i), b"img".to_vec()));
    }
    for i in 0..4 {
        entries.push((format!("tile{}.png", i), b"img".to_vec()));
    }
    let borrowed: Vec<(&str, &[u8])> =
        entries.iter().map(|(n, d)| (n.as_str(), d.as_slice())).collect();
    let err = load_from_memory(&build_archive(&borrowed)).unwrap_err();
    assert!(matches!(err, PyxelError::Zip(_)));
}

#[test]
fn missing_tile_member_is_fatal() {
    let doc = doc_json("subtract", 11, 256);
    let mut entries: Vec<(String, Vec<u8>)> = vec![("docData.json".to_string(), doc.into_bytes())];
    for i in 0..11 {
        entries.push((format!("layer{}.png", i), b"img".to_vec()));
    }
    for i in 0..3 {
        entries.push((format!("tile{}.png", i), b"img".to_vec()));
    }
    let borrowed: Vec<(&str, &[u8])> =
        entries.iter().map(|(n, d)| (n.as_str(), d.as_slice())).collect();
    let err = load_from_memory(&build_archive(&borrowed)).unwrap_err();
    assert!(matches!(err, PyxelError::Zip(_)));
}

#[test]
fn declared_layer_count_must_match() {
    let doc = doc_json("subtract", 12, 256);
    let mut entries: Vec<(String, Vec<u8>)> = vec![("docData.json".to_string(), doc.into_bytes())];
    for i in 0..12 {
        entries.push((format!("layer{}.png", i), b"img".to_vec()));
    }
    for i in 0..4 {
        entries.push((format!("tile{}.png", i), b"img".to_vec()));
    }
    let borrowed: Vec<(&str, &[u8])> =
        entries.iter().map(|(n, d)| (n.as_str(), d.as_slice())).collect();
    let err = load_from_memory(&build_archive(&borrowed)).unwrap_err();
    assert!(matches!(err, PyxelError::Serde(_)));
}

#[test]
fn negative_canvas_width_is_kept() {
    let doc = doc_json("subtract", 11, -256);
    let mut entries: Vec<(String, Vec<u8>)> = vec![("docData.json".to_string(), doc.into_bytes())];
    for i in 0..11 {
        entries.push((format!("layer{}.png", i), b"img".to_vec()));
    }
    for i in 0..4 {
        entries.push((format!("tile{}.png", i), b"img".to_vec()));
    }
    let borrowed: Vec<(&str, &[u8])> =
        entries.iter().map(|(n, d)| (n.as_str(), d.as_slice())).collect();
    let loaded = load_from_memory(&build_archive(&borrowed)).unwrap();
    assert_eq!(-256, loaded.canvas().width());
}

#[test]
fn same_bytes_same_document() {
    let buf = fixture_archive();
    let a = load_from_memory(&buf).unwrap();
    let b = load_from_memory(&buf).unwrap();
    assert_eq!(a.name(), b.name());
    assert_eq!(a.version(), b.version());
    assert_eq!(a.palette().colors(), b.palette().colors());
    assert_eq!(a.canvas().layers().len(), b.canvas().layers().len());
    assert_eq!(
        a.canvas().layers()[1].tile_refs(),
        b.canvas().layers()[1].tile_refs()
    );
    assert_eq!(a.tileset().image_data(), b.tileset().image_data());
}

#[test]
fn version_is_parsed_from_the_metadata() {
    let buf = fixture_archive();
    let doc = load_from_memory(&buf).unwrap();
    let v = doc.version();
    assert_eq!((0, 4, 8), (v.major, v.minor, v.patch));
    assert_eq!("", v.pre);
    assert_eq!("", v.build);
}

#[test]
fn invalid_version_text_is_deserialization_error() {
    let doc = doc_json("subtract", 11, 256).replace("\"version\": \"0.4.8\"", "\"version\": \"zzz\"");
    let buf = build_archive(&[("docData.json", doc.as_bytes())]);
    let err = load_from_memory(&buf).unwrap_err();
    assert!(matches!(err, PyxelError::Serde(_)));
}

#[test]
fn prerelease_and_build_are_kept() {
    let doc = doc_json("subtract", 11, 256)
        .replace("\"version\": \"0.4.8\"", "\"version\": \"1.2.3-alpha+build5\"");
    let mut entries: Vec<(String, Vec<u8>)> = vec![("docData.json".to_string(), doc.into_bytes())];
    for i in 0..11 {
        entries.push((format!("layer{}.png", i), b"img".to_vec()));
    }
    for i in 0..4 {
        entries.push((format!("tile{}.png", i), b"img".to_vec()));
    }
    let borrowed: Vec<(&str, &[u8])> =
        entries.iter().map(|(n, d)| (n.as_str(), d.as_slice())).collect();
    let loaded = load_from_memory(&build_archive(&borrowed)).unwrap();
    assert_eq!("alpha", loaded.version().pre);
    assert_eq!("build5", loaded.version().build);
    assert_eq!(1, loaded.version().major);
}
