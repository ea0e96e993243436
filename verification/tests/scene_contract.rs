use rive_rs::any_scene::AnyScene;
use rive_rs::artboard::Artboard;
use rive_rs::file::File;
use rive_rs::instantiate::{Handle, Instantiate};
use rive_rs::renderer::{CommandRecorder, RenderCommand};
use rive_rs::scene::{Loop, Scene, Viewport};
use rive_rs::state_machine::StateMachine;
use rive_rs::transform::{view_transforms, Affine};

fn push_u32(out: &mut Vec<u8>, v: u32) {
    out.extend_from_slice(&v.to_le_bytes());
}

fn push_name(out: &mut Vec<u8>, name: &[u8]) {
    out.push(name.len() as u8);
    out.extend_from_slice(name);
}

/// One artboard, 50 by 50, with one rectangle; optionally one default
/// state machine named "motor".
fn small_asset(with_machine: bool) -> Vec<u8> {
    let mut out = vec![0x52, 0x56, 0x46, 0x31, 1];
    push_name(&mut out, b"Main");
    push_u32(&mut out, 50);
    push_u32(&mut out, 50);
    out.push(0);
    out.push(0); // no components
    if with_machine {
        out.push(1);
        push_name(&mut out, b"motor");
        out.push(1); // loop
        out.push(1); // has a duration
        out.extend_from_slice(&1_000_000_000u64.to_le_bytes());
    } else {
        out.push(0);
    }
    out.push(1); // one rectangle
    for v in [5u32, 5, 40, 40] {
        push_u32(&mut out, v);
    }
    out
}

fn default_artboard(bytes: &[u8]) -> Artboard {
    let file = File::import(bytes).unwrap();
    Artboard::instantiate(&file, Handle::Default).unwrap()
}

/// Applies `t` to the pixel point (x, y); the result is (xn, yn, den).
fn apply(t: &Affine, x: i128, y: i128) -> (i128, i128, i128) {
    (t.a * x + t.c * y + t.tx, t.b * x + t.d * y + t.ty, t.den)
}

#[test]
fn transform_round_trip_is_exact() {
    for (cw, ch, sw, sh) in [(50u32, 50u32, 100u32, 100u32), (640, 480, 1920, 1080), (7, 3, 5, 11)]
    {
        let (fwd, inv) = view_transforms(cw, ch, sw, sh);
        let inv = inv.expect("positive surface has an inverse");
        for (x, y) in [(0i128, 0i128), (10, 20), (4096, 1), (0, 99999)] {
            let (qx, qy, qd) = apply(&fwd, x, y);
            // apply the inverse to the rational point (qx/qd, qy/qd)
            let rx = inv.a * qx + inv.c * qy + inv.tx * qd;
            let ry = inv.b * qx + inv.d * qy + inv.ty * qd;
            let rd = inv.den * qd;
            assert_eq!(rx, x * rd);
            assert_eq!(ry, y * rd);
        }
    }
}

#[test]
fn degenerate_surface_has_no_inverse() {
    let (_, inv) = view_transforms(50, 50, 0, 100);
    assert!(inv.is_none());
    let (_, inv) = view_transforms(50, 50, 100, 0);
    assert!(inv.is_none());
}

#[test]
fn draw_balances_the_state_stack() {
    let ab = default_artboard(&small_asset(false));
    let mut rec = CommandRecorder::new();
    ab.draw(&mut rec);
    let mut depth = 0i64;
    for c in &rec.commands {
        match c {
            RenderCommand::StatePush => depth += 1,
            RenderCommand::StatePop => depth -= 1,
            _ => (),
        }
        assert!(depth >= 0);
    }
    assert_eq!(depth, 0);
    assert!(rec.commands.len() >= 3);
}

#[test]
fn fallback_scene_is_the_bare_artboard() {
    let ab = default_artboard(&small_asset(false));
    let scene = AnyScene::machine_or_artboard(ab, Handle::Default);
    let inner = scene.as_artboard().expect("no machine: fallback to the artboard");
    assert_eq!(inner.width(), 50);
    assert_eq!(scene.width(), 50);
    assert_eq!(scene.height(), 50);
    assert_eq!(scene.name().unwrap(), "Main");
}

#[test]
fn preferred_machine_wins_when_present() {
    let ab = default_artboard(&small_asset(true));
    let scene = AnyScene::machine_or_artboard(ab, Handle::Default);
    assert!(scene.as_machine().is_some());
    assert!(scene.as_artboard().is_none());
    assert_eq!(scene.name().unwrap(), "motor");
    assert_eq!(scene.loop_mode(), Loop::Loop);
    assert_eq!(scene.duration(), Some(1_000_000_000));
}

#[test]
fn bare_artboard_reports_oneshot_and_no_duration() {
    let ab = default_artboard(&small_asset(true));
    // even with machines available, the bare artboard scene itself is static
    assert_eq!(ab.loop_mode(), Loop::OneShot);
    assert_eq!(ab.duration(), None);
}

#[test]
fn end_to_end_scale_two_and_nonempty_output() {
    let mut scene = AnyScene::machine_or_artboard(default_artboard(&small_asset(true)), Handle::Default);
    let mut viewport = Viewport::new(100, 100);
    let mut rec = CommandRecorder::new();
    let drew = scene.advance_and_maybe_draw(&mut rec, 0, &mut viewport);
    assert!(drew);
    // the frame is bracketed: push, transform, content, pop
    assert!(matches!(rec.commands[0], RenderCommand::StatePush));
    let t = match rec.commands[1] {
        RenderCommand::Transform(t) => t,
        _ => panic!("expected the view transform after the state push"),
    };
    // uniform scale 2, no offsets
    assert_eq!(t.a, 2 * t.den);
    assert_eq!(t.d, 2 * t.den);
    assert_eq!(t.b, 0);
    assert_eq!(t.c, 0);
    assert_eq!(t.tx, 0);
    assert_eq!(t.ty, 0);
    assert!(rec.commands.iter().any(|c| matches!(c, RenderCommand::Path(_))));
    assert!(matches!(rec.commands[rec.commands.len() - 1], RenderCommand::StatePop));
    assert!(viewport.inverse_view_transform.is_some());
}

#[test]
fn resize_recomputes_transform_next_frame() {
    let mut scene = AnyScene::machine_or_artboard(default_artboard(&small_asset(false)), Handle::Default);
    let mut viewport = Viewport::new(100, 100);
    let mut rec = CommandRecorder::new();
    scene.advance_and_maybe_draw(&mut rec, 16_000_000, &mut viewport);
    let first_inverse = viewport.inverse_view_transform.unwrap();
    // centred exactly: no offset at 100 by 100
    assert_eq!(first_inverse.tx, 0);

    viewport.resize(200, 100);
    // the stale mapping survives until the next frame recomputes it
    assert_eq!(viewport.inverse_view_transform.unwrap(), first_inverse);

    let mut rec2 = CommandRecorder::new();
    scene.advance_and_maybe_draw(&mut rec2, 16_000_000, &mut viewport);
    let t = match rec2.commands[1] {
        RenderCommand::Transform(t) => t,
        _ => panic!("expected the view transform after the state push"),
    };
    // still scale 2, now centred with a 50-pixel horizontal offset
    assert_eq!(t.a, 2 * t.den);
    assert_eq!(t.tx, 50 * t.den);
    assert_eq!(t.ty, 0);
    let inv = viewport.inverse_view_transform.unwrap();
    assert_ne!(inv, first_inverse);
    // mapping the surface centre (100, 50) back: subtract the 50-pixel
    // offset and divide by the scale of 2, giving content (25, 25)
    let cx = inv.a * 100 + inv.c * 50 + inv.tx;
    let cy = inv.b * 100 + inv.d * 50 + inv.ty;
    assert_eq!(cx, 25 * inv.den);
    assert_eq!(cy, 25 * inv.den);
}

#[test]
fn pointer_events_queue_on_machines_only() {
    let mut machine_scene =
        AnyScene::machine_or_artboard(default_artboard(&small_asset(true)), Handle::Default);
    let mut viewport = Viewport::new(100, 100);

    // before any frame there is no cached mapping: events are dropped
    machine_scene.pointer_down(10, 10, &viewport);
    {
        let m = machine_scene.as_machine().unwrap();
        assert_eq!(m.pending_input_count(), 0);
    }

    let mut rec = CommandRecorder::new();
    machine_scene.advance_and_maybe_draw(&mut rec, 0, &mut viewport);
    machine_scene.pointer_down(10, 10, &viewport);
    machine_scene.pointer_move(12, 10, &viewport);
    machine_scene.pointer_up(12, 10, &viewport);
    assert_eq!(machine_scene.as_machine().unwrap().pending_input_count(), 3);

    // the next advance consumes the queued events
    machine_scene.advance_and_apply(16_000_000);
    assert_eq!(machine_scene.as_machine().unwrap().pending_input_count(), 0);
}

#[test]
fn scenes_advance_independently() {
    let file = File::import(&small_asset(true)).unwrap();
    let ab = Artboard::instantiate(&file, Handle::Default).unwrap();
    let mut first = StateMachine::instantiate(&ab, Handle::Default).unwrap();
    let mut second = StateMachine::instantiate(&ab, Handle::Default).unwrap();
    let mut viewport = Viewport::new(100, 100);
    let mut rec = CommandRecorder::new();
    first.advance_and_maybe_draw(&mut rec, 0, &mut viewport);
    first.pointer_down(10, 10, &viewport);
    assert_eq!(first.pending_input_count(), 1);
    assert_eq!(second.pending_input_count(), 0);
    second.advance_and_apply(5);
    assert_eq!(first.pending_input_count(), 1);
}

#[test]
fn advance_reports_change_only_when_time_passes() {
    let file = File::import(&small_asset(true)).unwrap();
    let ab = Artboard::instantiate(&file, Handle::Default).unwrap();
    let mut machine = StateMachine::instantiate(&ab, Handle::Default).unwrap();
    assert!(!machine.advance_and_apply(0));
    assert!(machine.advance_and_apply(16_000_000));

    let mut bare = Artboard::instantiate(&file, Handle::Default).unwrap();
    assert!(bare.advance_and_apply(0));
    assert!(bare.advance_and_apply(u64::MAX));
    assert!(bare.advance_and_apply(u64::MAX));
}

#[test]
fn surface_to_content_uses_cached_mapping() {
    let mut scene = AnyScene::machine_or_artboard(default_artboard(&small_asset(false)), Handle::Default);
    let mut viewport = Viewport::new(100, 100);
    assert!(viewport.surface_to_content(10, 10).is_none());
    let mut rec = CommandRecorder::new();
    scene.advance_and_maybe_draw(&mut rec, 0, &mut viewport);
    let (xn, yn, den) = viewport.surface_to_content(100, 40).unwrap();
    // scale 2, no offset: surface (100, 40) is content (50, 20)
    assert_eq!(xn, 50 * den);
    assert_eq!(yn, 20 * den);
}
