//! The binary asset format and its parser.
//!
//! An asset buffer holds a magic tag and a list of artboard records; each
//! artboard carries its name (raw bytes), intrinsic size, compositing hint,
//! component names, state machines, and drawable content. The spec-level
//! cursor functions below define the format byte for byte; the executable
//! parser is proved to return exactly what they describe, and it rejects
//! malformed buffers by returning absence, never by failing.

use vstd::prelude::*;

use crate::renderer::Rect;
use crate::scene::Loop;

verus! {

/// A state machine inside an artboard: a named behaviour with a playback
/// policy and an optional natural duration in nanoseconds.
#[derive(Debug)]
pub struct MachineRecord {
    pub name: Vec<u8>,
    pub loop_mode: Loop,
    pub duration: Option<u64>,
}

/// The spec-level value of a machine record.
pub struct MachineData {
    pub name: Seq<u8>,
    pub loop_mode: Loop,
    pub duration: Option<u64>,
}

impl View for MachineRecord {
    type V = MachineData;

    open spec fn view(&self) -> MachineData {
        MachineData { name: self.name@, loop_mode: self.loop_mode, duration: self.duration }
    }
}

/// A named drawable region: intrinsic size, compositing hint, component
/// names, state machines, and rectangle content.
#[derive(Debug)]
pub struct ArtboardRecord {
    pub name: Vec<u8>,
    pub width: u32,
    pub height: u32,
    pub translucent: bool,
    pub components: Vec<Vec<u8>>,
    pub machines: Vec<MachineRecord>,
    pub prims: Vec<Rect>,
}

/// The spec-level value of an artboard record.
pub struct ArtboardData {
    pub name: Seq<u8>,
    pub width: u32,
    pub height: u32,
    pub translucent: bool,
    pub components: Seq<Seq<u8>>,
    pub machines: Seq<MachineData>,
    pub prims: Seq<Rect>,
}

impl View for ArtboardRecord {
    type V = ArtboardData;

    open spec fn view(&self) -> ArtboardData {
        ArtboardData {
            name: self.name@,
            width: self.width,
            height: self.height,
            translucent: self.translucent,
            components: self.components@.map_values(|n: Vec<u8>| n@),
            machines: self.machines@.map_values(|m: MachineRecord| m@),
            prims: self.prims@,
        }
    }
}

/// A fully parsed asset: the list of artboards it defines.
#[derive(Debug)]
pub struct FileRecord {
    pub artboards: Vec<ArtboardRecord>,
}

/// The spec-level value of a parsed asset.
pub struct FileData {
    pub artboards: Seq<ArtboardData>,
}

impl View for FileRecord {
    type V = FileData;

    open spec fn view(&self) -> FileData {
        FileData { artboards: self.artboards@.map_values(|a: ArtboardRecord| a@) }
    }
}

/// A parsed artboard always has positive intrinsic size.
pub open spec fn artboard_wf(a: ArtboardData) -> bool {
    a.width >= 1 && a.height >= 1
}

pub open spec fn file_wf(f: FileData) -> bool {
    forall|i: int| 0 <= i < f.artboards.len() ==> artboard_wf(#[trigger] f.artboards[i])
}

proof fn lemma_cons_assoc<T>(acc: Seq<T>, x: T, rest: Seq<T>)
    ensures
        acc + (seq![x] + rest) == acc.push(x) + rest,
{
    assert(acc + (seq![x] + rest) =~= acc.push(x) + rest);
}

/// The value of four little-endian bytes.
pub open spec fn le32(b: Seq<u8>, p: int) -> int {
    b[p] + 0x100 * b[p + 1] + 0x1_0000 * b[p + 2] + 0x100_0000 * b[p + 3]
}

/// The value of eight little-endian bytes.
pub open spec fn le64(b: Seq<u8>, p: int) -> int {
    le32(b, p) + 0x1_0000_0000 * le32(b, p + 4)
}

pub open spec fn sp_u8(b: Seq<u8>, p: int) -> Option<(u8, int)> {
    if 0 <= p < b.len() {
        Some((b[p], p + 1))
    } else {
        None
    }
}

pub open spec fn sp_u32(b: Seq<u8>, p: int) -> Option<(u32, int)> {
    if 0 <= p && p + 4 <= b.len() {
        Some((le32(b, p) as u32, p + 4))
    } else {
        None
    }
}

pub open spec fn sp_u64(b: Seq<u8>, p: int) -> Option<(u64, int)> {
    if 0 <= p && p + 8 <= b.len() {
        Some((le64(b, p) as u64, p + 8))
    } else {
        None
    }
}

/// A length-prefixed byte string: one length byte, then that many bytes.
pub open spec fn sp_name(b: Seq<u8>, p: int) -> Option<(Seq<u8>, int)> {
    match sp_u8(b, p) {
        None => None,
        Some((n, p1)) => {
            if p1 + n <= b.len() {
                Some((b.subrange(p1, p1 + n), p1 + n))
            } else {
                None
            }
        },
    }
}

pub open spec fn sp_names(b: Seq<u8>, p: int, count: int) -> Option<(Seq<Seq<u8>>, int)>
    decreases count,
{
    if count <= 0 {
        Some((Seq::empty(), p))
    } else {
        match sp_name(b, p) {
            None => None,
            Some((s, p1)) => match sp_names(b, p1, count - 1) {
                None => None,
                Some((rest, p2)) => Some((seq![s] + rest, p2)),
            },
        }
    }
}

/// One state machine: name, loop byte (0, 1, 2), duration flag (0, 1) and
/// eight duration bytes, meaningful only when the flag is set.
pub open spec fn sp_machine(b: Seq<u8>, p: int) -> Option<(MachineData, int)> {
    match sp_name(b, p) {
        None => None,
        Some((name, p1)) => match sp_u8(b, p1) {
            None => None,
            Some((lb, p2)) => {
                if lb > 2 {
                    None
                } else {
                    match sp_u8(b, p2) {
                        None => None,
                        Some((flag, p3)) => {
                            if flag > 1 {
                                None
                            } else {
                                match sp_u64(b, p3) {
                                    None => None,
                                    Some((dur, p4)) => Some(
                                        (
                                            MachineData {
                                                name: name,
                                                loop_mode: loop_of_byte(lb),
                                                duration: if flag == 1 {
                                                    Some(dur)
                                                } else {
                                                    None
                                                },
                                            },
                                            p4,
                                        ),
                                    ),
                                }
                            }
                        },
                    }
                }
            },
        },
    }
}

pub open spec fn loop_of_byte(lb: u8) -> Loop {
    if lb == 0 {
        Loop::OneShot
    } else if lb == 1 {
        Loop::Loop
    } else {
        Loop::PingPong
    }
}

pub open spec fn sp_machines(b: Seq<u8>, p: int, count: int) -> Option<(Seq<MachineData>, int)>
    decreases count,
{
    if count <= 0 {
        Some((Seq::empty(), p))
    } else {
        match sp_machine(b, p) {
            None => None,
            Some((m, p1)) => match sp_machines(b, p1, count - 1) {
                None => None,
                Some((rest, p2)) => Some((seq![m] + rest, p2)),
            },
        }
    }
}

/// One rectangle: x, y, width, height as little-endian 32-bit values.
pub open spec fn sp_prim(b: Seq<u8>, p: int) -> Option<(Rect, int)> {
    match sp_u32(b, p) {
        None => None,
        Some((x, p1)) => match sp_u32(b, p1) {
            None => None,
            Some((y, p2)) => match sp_u32(b, p2) {
                None => None,
                Some((w, p3)) => match sp_u32(b, p3) {
                    None => None,
                    Some((h, p4)) => Some((Rect { x: x, y: y, width: w, height: h }, p4)),
                },
            },
        },
    }
}

pub open spec fn sp_prims(b: Seq<u8>, p: int, count: int) -> Option<(Seq<Rect>, int)>
    decreases count,
{
    if count <= 0 {
        Some((Seq::empty(), p))
    } else {
        match sp_prim(b, p) {
            None => None,
            Some((r, p1)) => match sp_prims(b, p1, count - 1) {
                None => None,
                Some((rest, p2)) => Some((seq![r] + rest, p2)),
            },
        }
    }
}

/// One artboard record. A zero width or height is malformed.
pub open spec fn sp_artboard(b: Seq<u8>, p: int) -> Option<(ArtboardData, int)> {
    match sp_name(b, p) {
        None => None,
        Some((name, p1)) => match sp_u32(b, p1) {
            None => None,
            Some((w, p2)) => match sp_u32(b, p2) {
                None => None,
                Some((h, p3)) => {
                    if w < 1 || h < 1 {
                        None
                    } else {
                        match sp_u8(b, p3) {
                            None => None,
                            Some((tl, p4)) => {
                                if tl > 1 {
                                    None
                                } else {
                                    sp_artboard_tail(b, p4, name, w, h, tl == 1)
                                }
                            },
                        }
                    }
                },
            },
        },
    }
}

/// The lists at the end of an artboard record: components, machines, prims.
pub open spec fn sp_artboard_tail(
    b: Seq<u8>,
    p: int,
    name: Seq<u8>,
    w: u32,
    h: u32,
    translucent: bool,
) -> Option<(ArtboardData, int)> {
    match sp_u8(b, p) {
        None => None,
        Some((cc, p1)) => match sp_names(b, p1, cc as int) {
            None => None,
            Some((comps, p2)) => match sp_u8(b, p2) {
                None => None,
                Some((mc, p3)) => match sp_machines(b, p3, mc as int) {
                    None => None,
                    Some((machs, p4)) => match sp_u8(b, p4) {
                        None => None,
                        Some((pc, p5)) => match sp_prims(b, p5, pc as int) {
                            None => None,
                            Some((prims, p6)) => Some(
                                (
                                    ArtboardData {
                                        name: name,
                                        width: w,
                                        height: h,
                                        translucent: translucent,
                                        components: comps,
                                        machines: machs,
                                        prims: prims,
                                    },
                                    p6,
                                ),
                            ),
                        },
                    },
                },
            },
        },
    }
}

pub open spec fn sp_artboards(b: Seq<u8>, p: int, count: int) -> Option<(Seq<ArtboardData>, int)>
    decreases count,
{
    if count <= 0 {
        Some((Seq::empty(), p))
    } else {
        match sp_artboard(b, p) {
            None => None,
            Some((a, p1)) => match sp_artboards(b, p1, count - 1) {
                None => None,
                Some((rest, p2)) => Some((seq![a] + rest, p2)),
            },
        }
    }
}

/// The whole buffer: magic `R V F 1`, an artboard count byte, the artboard
/// records, and nothing after them.
pub open spec fn sp_file(b: Seq<u8>) -> Option<FileData> {
    if b.len() < 5 || b[0] != 0x52 || b[1] != 0x56 || b[2] != 0x46 || b[3] != 0x31 {
        None
    } else {
        match sp_artboards(b, 5, b[4] as int) {
            None => None,
            Some((abs, e)) => {
                if e == b.len() {
                    Some(FileData { artboards: abs })
                } else {
                    None
                }
            },
        }
    }
}

fn rd_u8(b: &[u8], p: usize) -> (r: Option<(u8, usize)>)
    ensures
        (match r {
            Some((v, q)) => sp_u8(b@, p as int) == Some((v, q as int)) && q <= b@.len(),
            None => sp_u8(b@, p as int) is None,
        }),
{
    if p < b.len() {
        Some((*vstd::slice::slice_index_get(b, p), p + 1))
    } else {
        None
    }
}

fn rd_u32(b: &[u8], p: usize) -> (r: Option<(u32, usize)>)
    ensures
        (match r {
            Some((v, q)) => sp_u32(b@, p as int) == Some((v, q as int)) && q <= b@.len(),
            None => sp_u32(b@, p as int) is None,
        }),
{
    if p <= b.len() && b.len() - p >= 4 {
        let b0 = *vstd::slice::slice_index_get(b, p) as u32;
        let b1 = *vstd::slice::slice_index_get(b, p + 1) as u32;
        let b2 = *vstd::slice::slice_index_get(b, p + 2) as u32;
        let b3 = *vstd::slice::slice_index_get(b, p + 3) as u32;
        let v = b0 + b1 * 0x100 + b2 * 0x1_0000 + b3 * 0x100_0000;
        Some((v, p + 4))
    } else {
        None
    }
}

fn rd_u64(b: &[u8], p: usize) -> (r: Option<(u64, usize)>)
    ensures
        (match r {
            Some((v, q)) => sp_u64(b@, p as int) == Some((v, q as int)) && q <= b@.len(),
            None => sp_u64(b@, p as int) is None,
        }),
{
    if p <= b.len() && b.len() - p >= 8 {
        let lo = match rd_u32(b, p) {
            Some((v, _)) => v,
            None => 0,
        };
        let hi = match rd_u32(b, p + 4) {
            Some((v, _)) => v,
            None => 0,
        };
        let v = lo as u64 + (hi as u64) * 0x1_0000_0000;
        Some((v, p + 8))
    } else {
        None
    }
}

fn rd_name(b: &[u8], p: usize) -> (r: Option<(Vec<u8>, usize)>)
    ensures
        (match r {
            Some((v, q)) => sp_name(b@, p as int) == Some((v@, q as int)) && q <= b@.len(),
            None => sp_name(b@, p as int) is None,
        }),
{
    match rd_u8(b, p) {
        None => None,
        Some((n, p1)) => {
            if b.len() - p1 >= n as usize {
                let s = vstd::slice::slice_subrange(b, p1, p1 + n as usize);
                Some((vstd::slice::slice_to_vec(s), p1 + n as usize))
            } else {
                None
            }
        },
    }
}

fn rd_names(b: &[u8], p: usize, count: u8) -> (r: Option<(Vec<Vec<u8>>, usize)>)
    ensures
        (match r {
            Some((v, q)) => sp_names(b@, p as int, count as int) == Some(
                (v@.map_values(|n: Vec<u8>| n@), q as int),
            ),
            None => sp_names(b@, p as int, count as int) is None,
        }),
{
    let mut out: Vec<Vec<u8>> = Vec::new();
    let mut pos = p;
    let mut i: u8 = 0;
    while i < count
        invariant
            i <= count,
            (sp_names(b@, p as int, count as int) == (match sp_names(
                b@,
                pos as int,
                (count - i) as int,
            ) {
                None => None::<(Seq<Seq<u8>>, int)>,
                Some((rest, e)) => Some((out@.map_values(|n: Vec<u8>| n@) + rest, e)),
            })),
        decreases count - i,
    {
        match rd_name(b, pos) {
            None => {
                return None;
            },
            Some((s, p1)) => {
                let ghost old_map = out@.map_values(|n: Vec<u8>| n@);
                out.push(s);
                pos = p1;
                i = i + 1;
                proof {
                    assert(out@.map_values(|n: Vec<u8>| n@) =~= old_map.push(s@));
                    match sp_names(b@, pos as int, (count - i) as int) {
                        Some((rest, e)) => lemma_cons_assoc(old_map, s@, rest),
                        None => (),
                    }
                }
            },
        }
    }
    proof {
        assert(out@.map_values(|n: Vec<u8>| n@) + Seq::<Seq<u8>>::empty() =~= out@.map_values(
            |n: Vec<u8>| n@,
        ));
    }
    Some((out, pos))
}

fn rd_machine(b: &[u8], p: usize) -> (r: Option<(MachineRecord, usize)>)
    ensures
        (match r {
            Some((v, q)) => sp_machine(b@, p as int) == Some((v@, q as int)) && q <= b@.len(),
            None => sp_machine(b@, p as int) is None,
        }),
{
    let (name, p1) = match rd_name(b, p) {
        None => {
            return None;
        },
        Some(v) => v,
    };
    let (lb, p2) = match rd_u8(b, p1) {
        None => {
            return None;
        },
        Some(v) => v,
    };
    if lb > 2 {
        return None;
    }
    let (flag, p3) = match rd_u8(b, p2) {
        None => {
            return None;
        },
        Some(v) => v,
    };
    if flag > 1 {
        return None;
    }
    let (dur, p4) = match rd_u64(b, p3) {
        None => {
            return None;
        },
        Some(v) => v,
    };
    let loop_mode = if lb == 0 {
        Loop::OneShot
    } else if lb == 1 {
        Loop::Loop
    } else {
        Loop::PingPong
    };
    let duration = if flag == 1 {
        Some(dur)
    } else {
        None
    };
    Some((MachineRecord { name, loop_mode, duration }, p4))
}

fn rd_machines(b: &[u8], p: usize, count: u8) -> (r: Option<(Vec<MachineRecord>, usize)>)
    ensures
        (match r {
            Some((v, q)) => sp_machines(b@, p as int, count as int) == Some(
                (v@.map_values(|m: MachineRecord| m@), q as int),
            ),
            None => sp_machines(b@, p as int, count as int) is None,
        }),
{
    let mut out: Vec<MachineRecord> = Vec::new();
    let mut pos = p;
    let mut i: u8 = 0;
    while i < count
        invariant
            i <= count,
            (sp_machines(b@, p as int, count as int) == (match sp_machines(
                b@,
                pos as int,
                (count - i) as int,
            ) {
                None => None::<(Seq<MachineData>, int)>,
                Some((rest, e)) => Some((out@.map_values(|m: MachineRecord| m@) + rest, e)),
            })),
        decreases count - i,
    {
        match rd_machine(b, pos) {
            None => {
                return None;
            },
            Some((m, p1)) => {
                let ghost old_map = out@.map_values(|x: MachineRecord| x@);
                let ghost mv = m@;
                out.push(m);
                pos = p1;
                i = i + 1;
                proof {
                    assert(out@.map_values(|x: MachineRecord| x@) =~= old_map.push(mv));
                    match sp_machines(b@, pos as int, (count - i) as int) {
                        Some((rest, e)) => lemma_cons_assoc(old_map, mv, rest),
                        None => (),
                    }
                }
            },
        }
    }
    proof {
        assert(out@.map_values(|m: MachineRecord| m@) + Seq::<MachineData>::empty()
            =~= out@.map_values(|m: MachineRecord| m@));
    }
    Some((out, pos))
}

fn rd_prim(b: &[u8], p: usize) -> (r: Option<(Rect, usize)>)
    ensures
        (match r {
            Some((v, q)) => sp_prim(b@, p as int) == Some((v, q as int)) && q <= b@.len(),
            None => sp_prim(b@, p as int) is None,
        }),
{
    let (x, p1) = match rd_u32(b, p) {
        None => {
            return None;
        },
        Some(v) => v,
    };
    let (y, p2) = match rd_u32(b, p1) {
        None => {
            return None;
        },
        Some(v) => v,
    };
    let (w, p3) = match rd_u32(b, p2) {
        None => {
            return None;
        },
        Some(v) => v,
    };
    let (h, p4) = match rd_u32(b, p3) {
        None => {
            return None;
        },
        Some(v) => v,
    };
    Some((Rect { x, y, width: w, height: h }, p4))
}

fn rd_prims(b: &[u8], p: usize, count: u8) -> (r: Option<(Vec<Rect>, usize)>)
    ensures
        (match r {
            Some((v, q)) => sp_prims(b@, p as int, count as int) == Some((v@, q as int)),
            None => sp_prims(b@, p as int, count as int) is None,
        }),
{
    let mut out: Vec<Rect> = Vec::new();
    let mut pos = p;
    let mut i: u8 = 0;
    while i < count
        invariant
            i <= count,
            (sp_prims(b@, p as int, count as int) == (match sp_prims(
                b@,
                pos as int,
                (count - i) as int,
            ) {
                None => None::<(Seq<Rect>, int)>,
                Some((rest, e)) => Some((out@ + rest, e)),
            })),
        decreases count - i,
    {
        match rd_prim(b, pos) {
            None => {
                return None;
            },
            Some((pr, p1)) => {
                let ghost old_map = out@;
                out.push(pr);
                pos = p1;
                i = i + 1;
                proof {
                    match sp_prims(b@, pos as int, (count - i) as int) {
                        Some((rest, e)) => lemma_cons_assoc(old_map, pr, rest),
                        None => (),
                    }
                }
            },
        }
    }
    proof {
        assert(out@ + Seq::<Rect>::empty() =~= out@);
    }
    Some((out, pos))
}

fn rd_artboard(b: &[u8], p: usize) -> (r: Option<(ArtboardRecord, usize)>)
    ensures
        (match r {
            Some((v, q)) => sp_artboard(b@, p as int) == Some((v@, q as int)),
            None => sp_artboard(b@, p as int) is None,
        }),
{
    let (name, p1) = match rd_name(b, p) {
        None => {
            return None;
        },
        Some(v) => v,
    };
    let (w, p2) = match rd_u32(b, p1) {
        None => {
            return None;
        },
        Some(v) => v,
    };
    let (h, p3) = match rd_u32(b, p2) {
        None => {
            return None;
        },
        Some(v) => v,
    };
    if w < 1 || h < 1 {
        return None;
    }
    let (tl, p4) = match rd_u8(b, p3) {
        None => {
            return None;
        },
        Some(v) => v,
    };
    if tl > 1 {
        return None;
    }
    let (cc, p5) = match rd_u8(b, p4) {
        None => {
            return None;
        },
        Some(v) => v,
    };
    let (comps, p6) = match rd_names(b, p5, cc) {
        None => {
            return None;
        },
        Some(v) => v,
    };
    let (mc, p7) = match rd_u8(b, p6) {
        None => {
            return None;
        },
        Some(v) => v,
    };
    let (machs, p8) = match rd_machines(b, p7, mc) {
        None => {
            return None;
        },
        Some(v) => v,
    };
    let (pc, p9) = match rd_u8(b, p8) {
        None => {
            return None;
        },
        Some(v) => v,
    };
    let (prims, p10) = match rd_prims(b, p9, pc) {
        None => {
            return None;
        },
        Some(v) => v,
    };
    let record = ArtboardRecord {
        name,
        width: w,
        height: h,
        translucent: tl == 1,
        components: comps,
        machines: machs,
        prims,
    };
    Some((record, p10))
}

fn rd_artboards(b: &[u8], p: usize, count: u8) -> (r: Option<(Vec<ArtboardRecord>, usize)>)
    ensures
        (match r {
            Some((v, q)) => sp_artboards(b@, p as int, count as int) == Some(
                (v@.map_values(|a: ArtboardRecord| a@), q as int),
            ),
            None => sp_artboards(b@, p as int, count as int) is None,
        }),
{
    let mut out: Vec<ArtboardRecord> = Vec::new();
    let mut pos = p;
    let mut i: u8 = 0;
    while i < count
        invariant
            i <= count,
            (sp_artboards(b@, p as int, count as int) == (match sp_artboards(
                b@,
                pos as int,
                (count - i) as int,
            ) {
                None => None::<(Seq<ArtboardData>, int)>,
                Some((rest, e)) => Some((out@.map_values(|a: ArtboardRecord| a@) + rest, e)),
            })),
        decreases count - i,
    {
        match rd_artboard(b, pos) {
            None => {
                return None;
            },
            Some((a, p1)) => {
                let ghost old_map = out@.map_values(|x: ArtboardRecord| x@);
                let ghost av = a@;
                out.push(a);
                pos = p1;
                i = i + 1;
                proof {
                    assert(out@.map_values(|x: ArtboardRecord| x@) =~= old_map.push(av));
                    match sp_artboards(b@, pos as int, (count - i) as int) {
                        Some((rest, e)) => lemma_cons_assoc(old_map, av, rest),
                        None => (),
                    }
                }
            },
        }
    }
    proof {
        assert(out@.map_values(|a: ArtboardRecord| a@) + Seq::<ArtboardData>::empty()
            =~= out@.map_values(|a: ArtboardRecord| a@));
    }
    Some((out, pos))
}

/// Parses a whole asset buffer. The result is exactly what the format
/// definition says the bytes mean; malformed bytes yield absence and no
/// partial object.
pub fn parse_file(b: &[u8]) -> (r: Option<FileRecord>)
    ensures
        (match r {
            Some(f) => sp_file(b@) == Some(f@),
            None => sp_file(b@) is None,
        }),
{
    if b.len() < 5 {
        return None;
    }
    let m0 = *vstd::slice::slice_index_get(b, 0);
    let m1 = *vstd::slice::slice_index_get(b, 1);
    let m2 = *vstd::slice::slice_index_get(b, 2);
    let m3 = *vstd::slice::slice_index_get(b, 3);
    if m0 != 0x52 || m1 != 0x56 || m2 != 0x46 || m3 != 0x31 {
        return None;
    }
    let count = *vstd::slice::slice_index_get(b, 4);
    match rd_artboards(b, 5, count) {
        None => None,
        Some((abs, e)) => {
            if e == b.len() {
                Some(FileRecord { artboards: abs })
            } else {
                None
            }
        },
    }
}

/// Everything a successful parse returns is well formed: each artboard's
/// size was checked to be positive on the way in.
pub proof fn lemma_sp_artboard_wf(b: Seq<u8>, p: int)
    ensures
        sp_artboard(b, p) matches Some((a, _)) ==> artboard_wf(a),
{
}

pub proof fn lemma_sp_artboards_wf(b: Seq<u8>, p: int, count: int)
    ensures
        sp_artboards(b, p, count) matches Some((s, _)) ==> forall|i: int|
            0 <= i < s.len() ==> artboard_wf(#[trigger] s[i]),
    decreases count,
{
    if count > 0 {
        match sp_artboard(b, p) {
            None => {},
            Some((a, p1)) => {
                lemma_sp_artboard_wf(b, p);
                lemma_sp_artboards_wf(b, p1, count - 1);
            },
        }
    }
}

pub proof fn lemma_sp_file_wf(b: Seq<u8>)
    ensures
        sp_file(b) matches Some(f) ==> file_wf(f),
{
    if b.len() >= 5 {
        lemma_sp_artboards_wf(b, 5, b[4] as int);
    }
}

} // verus!
