use rive_rs::artboard::Artboard;
use rive_rs::file::File;
use rive_rs::instantiate::{Handle, Instantiate};
use rive_rs::scene::{Loop, Scene, SceneError};
use rive_rs::state_machine::StateMachine;

fn push_u32(out: &mut Vec<u8>, v: u32) {
    out.extend_from_slice(&v.to_le_bytes());
}

fn push_name(out: &mut Vec<u8>, name: &[u8]) {
    out.push(name.len() as u8);
    out.extend_from_slice(name);
}

struct MachineSpec<'a> {
    name: &'a [u8],
    loop_byte: u8,
    duration: Option<u64>,
}

struct ArtboardSpec<'a> {
    name: &'a [u8],
    width: u32,
    height: u32,
    translucent: bool,
    components: Vec<&'a [u8]>,
    machines: Vec<MachineSpec<'a>>,
    prims: Vec<[u32; 4]>,
}

fn build_asset(artboards: &[ArtboardSpec]) -> Vec<u8> {
    let mut out = vec![0x52, 0x56, 0x46, 0x31, artboards.len() as u8];
    for ab in artboards {
        push_name(&mut out, ab.name);
        push_u32(&mut out, ab.width);
        push_u32(&mut out, ab.height);
        out.push(if ab.translucent { 1 } else { 0 });
        out.push(ab.components.len() as u8);
        for c in &ab.components {
            push_name(&mut out, c);
        }
        out.push(ab.machines.len() as u8);
        for m in &ab.machines {
            push_name(&mut out, m.name);
            out.push(m.loop_byte);
            match m.duration {
                Some(d) => {
                    out.push(1);
                    out.extend_from_slice(&d.to_le_bytes());
                }
                None => {
                    out.push(0);
                    out.extend_from_slice(&0u64.to_le_bytes());
                }
            }
        }
        out.push(ab.prims.len() as u8);
        for p in &ab.prims {
            for v in p {
                push_u32(&mut out, *v);
            }
        }
    }
    out
}

fn plain_artboard<'a>(name: &'a [u8], width: u32, height: u32) -> ArtboardSpec<'a> {
    ArtboardSpec {
        name,
        width,
        height,
        translucent: false,
        components: vec![],
        machines: vec![],
        prims: vec![[0, 0, 10, 10]],
    }
}

#[test]
fn import_valid_asset() {
    let bytes = build_asset(&[plain_artboard(b"Main", 50, 50)]);
    let file = File::import(&bytes).expect("valid asset");
    assert_eq!(file.artboard_count(), 1);
}

#[test]
fn import_rejects_bad_magic() {
    let mut bytes = build_asset(&[plain_artboard(b"Main", 50, 50)]);
    bytes[0] = 0x00;
    assert!(File::import(&bytes).is_none());
}

#[test]
fn import_rejects_truncated_buffer() {
    let bytes = build_asset(&[plain_artboard(b"Main", 50, 50)]);
    assert!(File::import(&bytes[..bytes.len() - 1]).is_none());
    assert!(File::import(&[]).is_none());
    assert!(File::import(&bytes[..4]).is_none());
}

#[test]
fn import_rejects_trailing_bytes() {
    let mut bytes = build_asset(&[plain_artboard(b"Main", 50, 50)]);
    bytes.push(0);
    assert!(File::import(&bytes).is_none());
}

#[test]
fn import_rejects_zero_sized_artboard() {
    let bytes = build_asset(&[plain_artboard(b"Main", 0, 50)]);
    assert!(File::import(&bytes).is_none());
    let bytes = build_asset(&[plain_artboard(b"Main", 50, 0)]);
    assert!(File::import(&bytes).is_none());
}

#[test]
fn artboard_reports_parsed_fields() {
    let mut spec = plain_artboard(b"Main", 320, 200);
    spec.translucent = true;
    let bytes = build_asset(&[spec]);
    let file = File::import(&bytes).unwrap();
    let ab = Artboard::instantiate(&file, Handle::Default).unwrap();
    assert_eq!(ab.width(), 320);
    assert_eq!(ab.height(), 200);
    // a bare artboard scene is treated as opaque, whatever the asset flags
    assert!(!ab.is_translucent());
    assert_eq!(ab.name().unwrap(), "Main");
}

#[test]
fn translucency_flag_surfaces_through_machine_scene() {
    let spec = ArtboardSpec {
        name: b"Main",
        width: 50,
        height: 50,
        translucent: true,
        components: vec![],
        machines: vec![MachineSpec { name: b"motor", loop_byte: 0, duration: None }],
        prims: vec![],
    };
    let bytes = build_asset(&[spec]);
    let file = File::import(&bytes).unwrap();
    let ab = Artboard::instantiate(&file, Handle::Default).unwrap();
    assert!(!ab.is_translucent());
    let machine = StateMachine::instantiate(&ab, Handle::Default).unwrap();
    assert!(machine.is_translucent());
}

#[test]
fn artboard_name_invalid_utf8_is_encoding_error() {
    let bytes = build_asset(&[plain_artboard(&[0xff, 0xfe], 50, 50)]);
    let file = File::import(&bytes).unwrap();
    let ab = Artboard::instantiate(&file, Handle::Default).unwrap();
    assert_eq!(ab.name(), Err(SceneError::InvalidNameEncoding));
    assert_eq!(ab.width(), 50);
}

#[test]
fn artboard_name_multibyte_utf8_decodes() {
    let label = "Grü\u{00df}e";
    let bytes = build_asset(&[plain_artboard(label.as_bytes(), 50, 50)]);
    let file = File::import(&bytes).unwrap();
    let ab = Artboard::instantiate(&file, Handle::Default).unwrap();
    assert_eq!(ab.name().unwrap(), label);
}

#[test]
fn handle_resolution_by_index_and_name() {
    let bytes = build_asset(&[plain_artboard(b"First", 50, 50), plain_artboard(b"Second", 60, 60)]);
    let file = File::import(&bytes).unwrap();
    let second = Artboard::instantiate(&file, Handle::Index(1)).unwrap();
    assert_eq!(second.name().unwrap(), "Second");
    let by_name = Artboard::instantiate(&file, Handle::Name("First".to_string())).unwrap();
    assert_eq!(by_name.width(), 50);
}

#[test]
fn handle_resolution_misses_are_absence() {
    let bytes = build_asset(&[plain_artboard(b"First", 50, 50), plain_artboard(b"Second", 60, 60)]);
    let file = File::import(&bytes).unwrap();
    assert!(Artboard::instantiate(&file, Handle::Index(2)).is_none());
    assert!(Artboard::instantiate(&file, Handle::Index(100)).is_none());
    assert!(Artboard::instantiate(&file, Handle::Name("Third".to_string())).is_none());
}

#[test]
fn machine_records_parse_exactly() {
    let spec = ArtboardSpec {
        name: b"Main",
        width: 50,
        height: 50,
        translucent: false,
        components: vec![],
        machines: vec![
            MachineSpec { name: b"walk", loop_byte: 1, duration: Some(2_000_000_000) },
            MachineSpec { name: b"bounce", loop_byte: 2, duration: None },
        ],
        prims: vec![[0, 0, 10, 10]],
    };
    let bytes = build_asset(&[spec]);
    let file = File::import(&bytes).unwrap();
    let ab = Artboard::instantiate(&file, Handle::Default).unwrap();
    let walk = StateMachine::instantiate(&ab, Handle::Name("walk".to_string())).unwrap();
    assert_eq!(walk.loop_mode(), Loop::Loop);
    assert_eq!(walk.duration(), Some(2_000_000_000));
    assert_eq!(walk.name().unwrap(), "walk");
    let bounce = StateMachine::instantiate(&ab, Handle::Index(1)).unwrap();
    assert_eq!(bounce.loop_mode(), Loop::PingPong);
    assert_eq!(bounce.duration(), None);
    assert!(StateMachine::instantiate(&ab, Handle::Index(2)).is_none());
    assert!(StateMachine::instantiate(&ab, Handle::Name("run".to_string())).is_none());
}

#[test]
fn import_rejects_bad_loop_and_flag_bytes() {
    let spec = ArtboardSpec {
        name: b"Main",
        width: 50,
        height: 50,
        translucent: false,
        components: vec![],
        machines: vec![MachineSpec { name: b"walk", loop_byte: 3, duration: None }],
        prims: vec![],
    };
    assert!(File::import(&build_asset(&[spec])).is_none());
    let mut bytes = build_asset(&[plain_artboard(b"Main", 50, 50)]);
    // corrupt the translucency byte, which admits only 0 and 1
    let pos = 4 + 1 + 1 + 4 + 4 + 4;
    bytes[pos] = 7;
    assert!(File::import(&bytes).is_none());
}

#[test]
fn components_snapshot_names() {
    let spec = ArtboardSpec {
        name: b"Main",
        width: 50,
        height: 50,
        translucent: false,
        components: vec![b"Body", b"Eye"],
        machines: vec![],
        prims: vec![],
    };
    let bytes = build_asset(&[spec]);
    let file = File::import(&bytes).unwrap();
    let mut ab = Artboard::instantiate(&file, Handle::Default).unwrap();
    let comps = ab.components();
    assert_eq!(comps.len(), 2);
    assert_eq!(comps.name(0).unwrap(), "Body");
    assert_eq!(comps.name(1).unwrap(), "Eye");
    assert_eq!(comps.name_bytes(1).as_slice(), b"Eye");
}

#[test]
fn empty_asset_has_nothing_to_instantiate() {
    let bytes = build_asset(&[]);
    let file = File::import(&bytes).unwrap();
    assert_eq!(file.artboard_count(), 0);
    assert!(Artboard::instantiate(&file, Handle::Default).is_none());
    assert!(Artboard::instantiate(&file, Handle::Index(0)).is_none());
}

#[test]
fn ownership_artboard_keeps_file_alive() {
    let bytes = build_asset(&[plain_artboard(b"Main", 50, 50)]);
    let file = File::import(&bytes).unwrap();
    let ab = Artboard::instantiate(&file, Handle::Default).unwrap();
    drop(file);
    // the artboard still owns the parsed asset through its retained parent
    assert_eq!(ab.width(), 50);
    assert_eq!(ab.name().unwrap(), "Main");
}

#[test]
fn wrappers_are_shareable_across_threads() {
    fn shareable<T: Send + Sync>() {}
    shareable::<File>();
    shareable::<Artboard>();
    shareable::<StateMachine>();
}

#[test]
fn file_clone_shares_the_asset() {
    let bytes = build_asset(&[plain_artboard(b"Main", 50, 50)]);
    let file = File::import(&bytes).unwrap();
    let other = file.clone();
    drop(file);
    assert_eq!(other.artboard_count(), 1);
    let ab = Artboard::instantiate(&other, Handle::Default).unwrap();
    assert_eq!(ab.height(), 50);
}
