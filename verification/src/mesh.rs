use vstd::prelude::*;
use crate::coords::UVec3;
use crate::block::Block;
use crate::block::Rgba;
use crate::dir::Dir;
use crate::dir::DirMask;
use crate::dir::b2i;
use crate::ao::AoFaces;
use crate::ao::AoQuad;
use crate::grid::Structure;
use crate::grid::count_spec;
use crate::grid::delin_coord;

verus! {

/// A mesh vertex position. Coordinates are chunk-local cell corners, so
/// each component lies in `[0, size]`.
#[derive(Clone, Copy, PartialEq, Eq, Structural, Debug)]
pub struct MeshVertex {
    pub x: u32,
    pub y: u32,
    pub z: u32,
}

/// A vertex color, channels in three-thousandths: the block color
/// (thousandths) times the corner's ambient-occlusion level (0..=3).
/// Alpha is the block alpha, untouched by occlusion.
#[derive(Clone, Copy, PartialEq, Eq, Structural, Debug)]
pub struct MeshColor {
    pub r: u32,
    pub g: u32,
    pub b: u32,
    pub a: u32,
}

/// A flat face normal; each component is -1, 0 or 1.
#[derive(Clone, Copy, PartialEq, Eq, Structural, Debug)]
pub struct MeshNormal {
    pub x: i32,
    pub y: i32,
    pub z: i32,
}

/// The four parallel buffers handed to the rendering host: vertex
/// positions, per-vertex colors, per-vertex normals, and triangle
/// indices (two triangles per emitted quad).
pub struct MeshData {
    pub vertices: Vec<MeshVertex>,
    pub colors: Vec<MeshColor>,
    pub normals: Vec<MeshNormal>,
    pub indices: Vec<u32>,
}

/// `s` if the face is emitted, nothing otherwise.
pub open spec fn seg<A>(emitted: bool, s: Seq<A>) -> Seq<A> {
    if emitted {
        s
    } else {
        Seq::empty()
    }
}

pub open spec fn mvert(x: u32, y: u32, z: u32) -> MeshVertex {
    MeshVertex { x, y, z }
}

/// The four corner positions of face `d` of the unit cube at `p`, in
/// the fixed winding that matches `face_indices`.
pub open spec fn face_verts(p: UVec3, d: Dir) -> Seq<MeshVertex> {
    let x0 = p.x;
    let y0 = p.y;
    let z0 = p.z;
    let x1 = (p.x + 1) as u32;
    let y1 = (p.y + 1) as u32;
    let z1 = (p.z + 1) as u32;
    match d {
        Dir::Left => seq![mvert(x0, y0, z0), mvert(x0, y0, z1), mvert(x0, y1, z1), mvert(x0, y1, z0)],
        Dir::Right => seq![mvert(x1, y0, z0), mvert(x1, y0, z1), mvert(x1, y1, z1), mvert(x1, y1, z0)],
        Dir::Down => seq![mvert(x0, y0, z0), mvert(x1, y0, z0), mvert(x1, y0, z1), mvert(x0, y0, z1)],
        Dir::Up => seq![mvert(x0, y1, z0), mvert(x1, y1, z0), mvert(x1, y1, z1), mvert(x0, y1, z1)],
        Dir::Back => seq![mvert(x0, y0, z0), mvert(x0, y1, z0), mvert(x1, y1, z0), mvert(x1, y0, z0)],
        Dir::Forward => seq![mvert(x0, y0, z1), mvert(x0, y1, z1), mvert(x1, y1, z1), mvert(x1, y0, z1)],
    }
}

/// The block color darkened by one corner's occlusion level: RGB scaled
/// by `level` (three-thousandths), alpha kept (times 3 for the shared
/// denominator).
pub open spec fn scale_color(c: Rgba, level: u8) -> MeshColor {
    MeshColor {
        r: (c.r * level) as u32,
        g: (c.g * level) as u32,
        b: (c.b * level) as u32,
        a: (c.a * 3) as u32,
    }
}

/// The four per-vertex colors of one face; vertex k takes the quad
/// corner c2, c1, c0, c3 respectively, matching the winding of
/// `face_verts`.
pub open spec fn face_colors(c: Rgba, q: AoQuad) -> Seq<MeshColor> {
    seq![scale_color(c, q.c2), scale_color(c, q.c1), scale_color(c, q.c0), scale_color(c, q.c3)]
}

pub open spec fn face_normal(d: Dir) -> MeshNormal {
    match d {
        Dir::Left => MeshNormal { x: -1i32, y: 0, z: 0 },
        Dir::Right => MeshNormal { x: 1, y: 0, z: 0 },
        Dir::Down => MeshNormal { x: 0, y: -1i32, z: 0 },
        Dir::Up => MeshNormal { x: 0, y: 1, z: 0 },
        Dir::Back => MeshNormal { x: 0, y: 0, z: -1i32 },
        Dir::Forward => MeshNormal { x: 0, y: 0, z: 1 },
    }
}

/// The face normal, repeated for each of the four vertices.
pub open spec fn face_normals(d: Dir) -> Seq<MeshNormal> {
    seq![face_normal(d), face_normal(d), face_normal(d), face_normal(d)]
}

/// Six indices forming the two triangles of one face, over the four
/// vertices just pushed at `base`; the winding alternates per axis side
/// so that every face winds consistently with its normal.
pub open spec fn face_indices(d: Dir, base: int) -> Seq<u32> {
    match d {
        Dir::Left | Dir::Down | Dir::Back => seq![
            base as u32,
            (base + 1) as u32,
            (base + 3) as u32,
            (base + 1) as u32,
            (base + 2) as u32,
            (base + 3) as u32,
        ],
        Dir::Right | Dir::Up | Dir::Forward => seq![
            base as u32,
            (base + 3) as u32,
            (base + 1) as u32,
            (base + 1) as u32,
            (base + 3) as u32,
            (base + 2) as u32,
        ],
    }
}

/// Vertices contributed by one voxel: the faces set in `m`, in the fixed
/// order Left, Right, Down, Up, Back, Forward.
pub open spec fn parts_verts(p: UVec3, m: DirMask) -> Seq<MeshVertex> {
    seg(m.left, face_verts(p, Dir::Left)) + seg(m.right, face_verts(p, Dir::Right)) + seg(
        m.down,
        face_verts(p, Dir::Down),
    ) + seg(m.up, face_verts(p, Dir::Up)) + seg(m.back, face_verts(p, Dir::Back)) + seg(
        m.forward,
        face_verts(p, Dir::Forward),
    )
}

pub open spec fn parts_colors(c: Rgba, ao: AoFaces, m: DirMask) -> Seq<MeshColor> {
    seg(m.left, face_colors(c, ao.left)) + seg(m.right, face_colors(c, ao.right)) + seg(
        m.down,
        face_colors(c, ao.down),
    ) + seg(m.up, face_colors(c, ao.up)) + seg(m.back, face_colors(c, ao.back)) + seg(
        m.forward,
        face_colors(c, ao.forward),
    )
}

pub open spec fn parts_normals(m: DirMask) -> Seq<MeshNormal> {
    seg(m.left, face_normals(Dir::Left)) + seg(m.right, face_normals(Dir::Right)) + seg(
        m.down,
        face_normals(Dir::Down),
    ) + seg(m.up, face_normals(Dir::Up)) + seg(m.back, face_normals(Dir::Back)) + seg(
        m.forward,
        face_normals(Dir::Forward),
    )
}

pub open spec fn parts_indices(m: DirMask, base: int) -> Seq<u32> {
    let b1 = base + 4 * b2i(m.left);
    let b2 = b1 + 4 * b2i(m.right);
    let b3 = b2 + 4 * b2i(m.down);
    let b4 = b3 + 4 * b2i(m.up);
    let b5 = b4 + 4 * b2i(m.back);
    seg(m.left, face_indices(Dir::Left, base)) + seg(m.right, face_indices(Dir::Right, b1)) + seg(
        m.down,
        face_indices(Dir::Down, b2),
    ) + seg(m.up, face_indices(Dir::Up, b3)) + seg(m.back, face_indices(Dir::Back, b4)) + seg(
        m.forward,
        face_indices(Dir::Forward, b5),
    )
}

/// One voxel contributes four buffer entries per set face, and six
/// indices per set face.
#[verifier::rlimit(100)]
#[verifier::spinoff_prover]
pub proof fn lemma_parts_lens(p: UVec3, m: DirMask, c: Rgba, ao: AoFaces, base: int)
    ensures
        parts_verts(p, m).len() == 4 * m.count_spec(),
        parts_colors(c, ao, m).len() == 4 * m.count_spec(),
        parts_normals(m).len() == 4 * m.count_spec(),
        parts_indices(m, base).len() == 6 * m.count_spec(),
{
    assert(parts_verts(p, m).len() == 4 * m.count_spec()) by {
        assert(face_verts(p, Dir::Left).len() == 4);
        assert(face_verts(p, Dir::Right).len() == 4);
        assert(face_verts(p, Dir::Down).len() == 4);
        assert(face_verts(p, Dir::Up).len() == 4);
        assert(face_verts(p, Dir::Back).len() == 4);
        assert(face_verts(p, Dir::Forward).len() == 4);
    }
    assert(parts_colors(c, ao, m).len() == 4 * m.count_spec()) by {
        assert(face_colors(c, ao.left).len() == 4);
        assert(face_colors(c, ao.right).len() == 4);
        assert(face_colors(c, ao.down).len() == 4);
        assert(face_colors(c, ao.up).len() == 4);
        assert(face_colors(c, ao.back).len() == 4);
        assert(face_colors(c, ao.forward).len() == 4);
    }
    assert(parts_normals(m).len() == 4 * m.count_spec()) by {
        assert(face_normals(Dir::Left).len() == 4);
        assert(face_normals(Dir::Right).len() == 4);
        assert(face_normals(Dir::Down).len() == 4);
        assert(face_normals(Dir::Up).len() == 4);
        assert(face_normals(Dir::Back).len() == 4);
        assert(face_normals(Dir::Forward).len() == 4);
    }
    assert(parts_indices(m, base).len() == 6 * m.count_spec()) by {
        let b1 = base + 4 * b2i(m.left);
        let b2 = b1 + 4 * b2i(m.right);
        let b3 = b2 + 4 * b2i(m.down);
        let b4 = b3 + 4 * b2i(m.up);
        let b5 = b4 + 4 * b2i(m.back);
        assert(face_indices(Dir::Left, base).len() == 6);
        assert(face_indices(Dir::Right, b1).len() == 6);
        assert(face_indices(Dir::Down, b2).len() == 6);
        assert(face_indices(Dir::Up, b3).len() == 6);
        assert(face_indices(Dir::Back, b4).len() == 6);
        assert(face_indices(Dir::Forward, b5).len() == 6);
    }
}

fn scale_color_exec(c: Rgba, level: u8) -> (m: MeshColor)
    requires
        c.r <= 1000,
        c.g <= 1000,
        c.b <= 1000,
        c.a <= 1000,
    ensures
        m == scale_color(c, level),
{
    proof {
        assert(c.r * level <= 255000 && c.g * level <= 255000 && c.b * level <= 255000)
            by (nonlinear_arith)
            requires
                c.r <= 1000,
                c.g <= 1000,
                c.b <= 1000,
                level <= 255,
        ;
    }
    MeshColor { r: c.r * level as u32, g: c.g * level as u32, b: c.b * level as u32, a: c.a * 3 }
}

/// Appends the four vertices, colors and normals and the six indices of
/// one face.
fn push_face(
    d: Dir,
    position: UVec3,
    color: Rgba,
    quad: AoQuad,
    vertices: &mut Vec<MeshVertex>,
    colors: &mut Vec<MeshColor>,
    normals: &mut Vec<MeshNormal>,
    indices: &mut Vec<u32>,
)
    requires
        position.x + 1 <= u32::MAX,
        position.y + 1 <= u32::MAX,
        position.z + 1 <= u32::MAX,
        old(vertices)@.len() + 4 <= u32::MAX,
        color.r <= 1000,
        color.g <= 1000,
        color.b <= 1000,
        color.a <= 1000,
    ensures
        final(vertices)@ == old(vertices)@ + face_verts(position, d),
        final(colors)@ == old(colors)@ + face_colors(color, quad),
        final(normals)@ == old(normals)@ + face_normals(d),
        final(indices)@ == old(indices)@ + face_indices(d, old(vertices)@.len() as int),
{
    let base = vertices.len() as u32;
    let x0 = position.x;
    let y0 = position.y;
    let z0 = position.z;
    let x1 = position.x + 1;
    let y1 = position.y + 1;
    let z1 = position.z + 1;
    match d {
        Dir::Left => {
            vertices.push(MeshVertex { x: x0, y: y0, z: z0 });
            vertices.push(MeshVertex { x: x0, y: y0, z: z1 });
            vertices.push(MeshVertex { x: x0, y: y1, z: z1 });
            vertices.push(MeshVertex { x: x0, y: y1, z: z0 });
        },
        Dir::Right => {
            vertices.push(MeshVertex { x: x1, y: y0, z: z0 });
            vertices.push(MeshVertex { x: x1, y: y0, z: z1 });
            vertices.push(MeshVertex { x: x1, y: y1, z: z1 });
            vertices.push(MeshVertex { x: x1, y: y1, z: z0 });
        },
        Dir::Down => {
            vertices.push(MeshVertex { x: x0, y: y0, z: z0 });
            vertices.push(MeshVertex { x: x1, y: y0, z: z0 });
            vertices.push(MeshVertex { x: x1, y: y0, z: z1 });
            vertices.push(MeshVertex { x: x0, y: y0, z: z1 });
        },
        Dir::Up => {
            vertices.push(MeshVertex { x: x0, y: y1, z: z0 });
            vertices.push(MeshVertex { x: x1, y: y1, z: z0 });
            vertices.push(MeshVertex { x: x1, y: y1, z: z1 });
            vertices.push(MeshVertex { x: x0, y: y1, z: z1 });
        },
        Dir::Back => {
            vertices.push(MeshVertex { x: x0, y: y0, z: z0 });
            vertices.push(MeshVertex { x: x0, y: y1, z: z0 });
            vertices.push(MeshVertex { x: x1, y: y1, z: z0 });
            vertices.push(MeshVertex { x: x1, y: y0, z: z0 });
        },
        Dir::Forward => {
            vertices.push(MeshVertex { x: x0, y: y0, z: z1 });
            vertices.push(MeshVertex { x: x0, y: y1, z: z1 });
            vertices.push(MeshVertex { x: x1, y: y1, z: z1 });
            vertices.push(MeshVertex { x: x1, y: y0, z: z1 });
        },
    }
    colors.push(scale_color_exec(color, quad.c2));
    colors.push(scale_color_exec(color, quad.c1));
    colors.push(scale_color_exec(color, quad.c0));
    colors.push(scale_color_exec(color, quad.c3));
    match d {
        Dir::Left => {
            normals.push(MeshNormal { x: -1, y: 0, z: 0 });
            normals.push(MeshNormal { x: -1, y: 0, z: 0 });
            normals.push(MeshNormal { x: -1, y: 0, z: 0 });
            normals.push(MeshNormal { x: -1, y: 0, z: 0 });
        },
        Dir::Right => {
            normals.push(MeshNormal { x: 1, y: 0, z: 0 });
            normals.push(MeshNormal { x: 1, y: 0, z: 0 });
            normals.push(MeshNormal { x: 1, y: 0, z: 0 });
            normals.push(MeshNormal { x: 1, y: 0, z: 0 });
        },
        Dir::Down => {
            normals.push(MeshNormal { x: 0, y: -1, z: 0 });
            normals.push(MeshNormal { x: 0, y: -1, z: 0 });
            normals.push(MeshNormal { x: 0, y: -1, z: 0 });
            normals.push(MeshNormal { x: 0, y: -1, z: 0 });
        },
        Dir::Up => {
            normals.push(MeshNormal { x: 0, y: 1, z: 0 });
            normals.push(MeshNormal { x: 0, y: 1, z: 0 });
            normals.push(MeshNormal { x: 0, y: 1, z: 0 });
            normals.push(MeshNormal { x: 0, y: 1, z: 0 });
        },
        Dir::Back => {
            normals.push(MeshNormal { x: 0, y: 0, z: -1 });
            normals.push(MeshNormal { x: 0, y: 0, z: -1 });
            normals.push(MeshNormal { x: 0, y: 0, z: -1 });
            normals.push(MeshNormal { x: 0, y: 0, z: -1 });
        },
        Dir::Forward => {
            normals.push(MeshNormal { x: 0, y: 0, z: 1 });
            normals.push(MeshNormal { x: 0, y: 0, z: 1 });
            normals.push(MeshNormal { x: 0, y: 0, z: 1 });
            normals.push(MeshNormal { x: 0, y: 0, z: 1 });
        },
    }
    match d {
        Dir::Left | Dir::Down | Dir::Back => {
            indices.push(base);
            indices.push(base + 1);
            indices.push(base + 3);
            indices.push(base + 1);
            indices.push(base + 2);
            indices.push(base + 3);
        },
        Dir::Right | Dir::Up | Dir::Forward => {
            indices.push(base);
            indices.push(base + 3);
            indices.push(base + 1);
            indices.push(base + 1);
            indices.push(base + 3);
            indices.push(base + 2);
        },
    }
    proof {
        assert(vertices@ =~= old(vertices)@ + face_verts(position, d));
        assert(colors@ =~= old(colors)@ + face_colors(color, quad));
        assert(normals@ =~= old(normals)@ + face_normals(d));
        assert(indices@ =~= old(indices)@ + face_indices(d, old(vertices)@.len() as int));
    }
}

/// Concatenation is associative: appending six segments one by one is
/// appending their concatenation.
proof fn lemma_concat_chain6<A>(
    v0: Seq<A>,
    t1: Seq<A>,
    t2: Seq<A>,
    t3: Seq<A>,
    t4: Seq<A>,
    t5: Seq<A>,
    t6: Seq<A>,
)
    ensures
        v0 + t1 + t2 + t3 + t4 + t5 + t6 == v0 + (t1 + t2 + t3 + t4 + t5 + t6),
{
    assert(v0 + t1 + t2 + t3 + t4 + t5 + t6 =~= v0 + (t1 + t2 + t3 + t4 + t5 + t6));
}

/// Appends one face's buffers when `emit` holds, nothing otherwise.
fn push_face_if(
    emit: bool,
    d: Dir,
    position: UVec3,
    color: Rgba,
    quad: AoQuad,
    vertices: &mut Vec<MeshVertex>,
    colors: &mut Vec<MeshColor>,
    normals: &mut Vec<MeshNormal>,
    indices: &mut Vec<u32>,
)
    requires
        position.x + 1 <= u32::MAX,
        position.y + 1 <= u32::MAX,
        position.z + 1 <= u32::MAX,
        old(vertices)@.len() + 4 <= u32::MAX,
        color.r <= 1000,
        color.g <= 1000,
        color.b <= 1000,
        color.a <= 1000,
    ensures
        final(vertices)@ == old(vertices)@ + seg(emit, face_verts(position, d)),
        final(colors)@ == old(colors)@ + seg(emit, face_colors(color, quad)),
        final(normals)@ == old(normals)@ + seg(emit, face_normals(d)),
        final(indices)@ == old(indices)@ + seg(emit, face_indices(d, old(vertices)@.len() as int)),
        final(vertices)@.len() == old(vertices)@.len() + 4 * b2i(emit),
{
    if emit {
        push_face(d, position, color, quad, vertices, colors, normals, indices);
        proof {
            assert(face_verts(position, d).len() == 4);
        }
    } else {
        proof {
            assert(vertices@ =~= vertices@ + seg(emit, face_verts(position, d)));
            assert(colors@ =~= colors@ + seg(emit, face_colors(color, quad)));
            assert(normals@ =~= normals@ + seg(emit, face_normals(d)));
            assert(indices@ =~= indices@ + seg(emit, face_indices(d, vertices@.len() as int)));
        }
    }
}

/// Appends the geometry of one voxel's cube: every face set in
/// `directions`, at the voxel position, with the block color darkened
/// per corner by `ao`.
pub fn cube_mesh_parts(
    position: UVec3,
    directions: DirMask,
    color: Rgba,
    ao: AoFaces,
    vertices: &mut Vec<MeshVertex>,
    colors: &mut Vec<MeshColor>,
    normals: &mut Vec<MeshNormal>,
    indices: &mut Vec<u32>,
)
    requires
        position.x + 1 <= u32::MAX,
        position.y + 1 <= u32::MAX,
        position.z + 1 <= u32::MAX,
        old(vertices)@.len() + 24 <= u32::MAX,
        color.r <= 1000,
        color.g <= 1000,
        color.b <= 1000,
        color.a <= 1000,
    ensures
        final(vertices)@ == old(vertices)@ + parts_verts(position, directions),
        final(colors)@ == old(colors)@ + parts_colors(color, ao, directions),
        final(normals)@ == old(normals)@ + parts_normals(directions),
        final(indices)@ == old(indices)@ + parts_indices(directions, old(vertices)@.len() as int),
{
    let ghost base = old(vertices)@.len() as int;
    push_face_if(
        directions.left,
        Dir::Left,
        position,
        color,
        ao.left,
        vertices,
        colors,
        normals,
        indices,
    );
    push_face_if(
        directions.right,
        Dir::Right,
        position,
        color,
        ao.right,
        vertices,
        colors,
        normals,
        indices,
    );
    push_face_if(
        directions.down,
        Dir::Down,
        position,
        color,
        ao.down,
        vertices,
        colors,
        normals,
        indices,
    );
    push_face_if(
        directions.up,
        Dir::Up,
        position,
        color,
        ao.up,
        vertices,
        colors,
        normals,
        indices,
    );
    push_face_if(
        directions.back,
        Dir::Back,
        position,
        color,
        ao.back,
        vertices,
        colors,
        normals,
        indices,
    );
    push_face_if(
        directions.forward,
        Dir::Forward,
        position,
        color,
        ao.forward,
        vertices,
        colors,
        normals,
        indices,
    );
    proof {
        let tv1 = seg(directions.left, face_verts(position, Dir::Left));
        let tv2 = seg(directions.right, face_verts(position, Dir::Right));
        let tv3 = seg(directions.down, face_verts(position, Dir::Down));
        let tv4 = seg(directions.up, face_verts(position, Dir::Up));
        let tv5 = seg(directions.back, face_verts(position, Dir::Back));
        let tv6 = seg(directions.forward, face_verts(position, Dir::Forward));
        lemma_concat_chain6(old(vertices)@, tv1, tv2, tv3, tv4, tv5, tv6);
        let tc1 = seg(directions.left, face_colors(color, ao.left));
        let tc2 = seg(directions.right, face_colors(color, ao.right));
        let tc3 = seg(directions.down, face_colors(color, ao.down));
        let tc4 = seg(directions.up, face_colors(color, ao.up));
        let tc5 = seg(directions.back, face_colors(color, ao.back));
        let tc6 = seg(directions.forward, face_colors(color, ao.forward));
        lemma_concat_chain6(old(colors)@, tc1, tc2, tc3, tc4, tc5, tc6);
        let tn1 = seg(directions.left, face_normals(Dir::Left));
        let tn2 = seg(directions.right, face_normals(Dir::Right));
        let tn3 = seg(directions.down, face_normals(Dir::Down));
        let tn4 = seg(directions.up, face_normals(Dir::Up));
        let tn5 = seg(directions.back, face_normals(Dir::Back));
        let tn6 = seg(directions.forward, face_normals(Dir::Forward));
        lemma_concat_chain6(old(normals)@, tn1, tn2, tn3, tn4, tn5, tn6);
        let b1 = base + 4 * b2i(directions.left);
        let b2 = b1 + 4 * b2i(directions.right);
        let b3 = b2 + 4 * b2i(directions.down);
        let b4 = b3 + 4 * b2i(directions.up);
        let b5 = b4 + 4 * b2i(directions.back);
        let ti1 = seg(directions.left, face_indices(Dir::Left, base));
        let ti2 = seg(directions.right, face_indices(Dir::Right, b1));
        let ti3 = seg(directions.down, face_indices(Dir::Down, b2));
        let ti4 = seg(directions.up, face_indices(Dir::Up, b3));
        let ti5 = seg(directions.back, face_indices(Dir::Back, b4));
        let ti6 = seg(directions.forward, face_indices(Dir::Forward, b5));
        lemma_concat_chain6(old(indices)@, ti1, ti2, ti3, ti4, ti5, ti6);
    }
}

/// Quads the voxel at linear index `i` emits: none for `Air`, one per
/// set visibility bit otherwise.
pub open spec fn voxel_quads<S: Structure>(s: S, i: int) -> int {
    let p = delin_coord(i, s.size_spec());
    if s.block_at(p) == Block::Air {
        0
    } else {
        s.cull_at(p).count_spec()
    }
}

/// Quads emitted by the voxels at linear indices below `n`.
pub open spec fn quads_upto<S: Structure>(s: S, n: int) -> int
    decreases n,
{
    if n <= 0 {
        0
    } else {
        quads_upto(s, n - 1) + voxel_quads(s, n - 1)
    }
}

/// Total quads a full pass over the grid emits: one per set visibility
/// bit of every non-`Air` voxel, and none for `Air` voxels.
pub open spec fn total_quads_spec<S: Structure>(s: S) -> int {
    quads_upto(s, count_spec(s.size_spec()))
}

pub open spec fn voxel_verts<S: Structure>(s: S, i: int) -> Seq<MeshVertex> {
    let p = delin_coord(i, s.size_spec());
    if s.block_at(p) == Block::Air {
        Seq::empty()
    } else {
        parts_verts(p, s.cull_at(p))
    }
}

pub open spec fn voxel_colors<S: Structure>(s: S, i: int) -> Seq<MeshColor> {
    let p = delin_coord(i, s.size_spec());
    if s.block_at(p) == Block::Air {
        Seq::empty()
    } else {
        parts_colors(s.block_at(p).color_spec(), s.ao_at(p), s.cull_at(p))
    }
}

pub open spec fn voxel_normals<S: Structure>(s: S, i: int) -> Seq<MeshNormal> {
    let p = delin_coord(i, s.size_spec());
    if s.block_at(p) == Block::Air {
        Seq::empty()
    } else {
        parts_normals(s.cull_at(p))
    }
}

pub open spec fn voxel_indices<S: Structure>(s: S, i: int) -> Seq<u32> {
    let p = delin_coord(i, s.size_spec());
    if s.block_at(p) == Block::Air {
        Seq::empty()
    } else {
        parts_indices(s.cull_at(p), 4 * quads_upto(s, i))
    }
}

pub open spec fn verts_upto<S: Structure>(s: S, n: int) -> Seq<MeshVertex>
    decreases n,
{
    if n <= 0 {
        Seq::empty()
    } else {
        verts_upto(s, n - 1) + voxel_verts(s, n - 1)
    }
}

pub open spec fn colors_upto<S: Structure>(s: S, n: int) -> Seq<MeshColor>
    decreases n,
{
    if n <= 0 {
        Seq::empty()
    } else {
        colors_upto(s, n - 1) + voxel_colors(s, n - 1)
    }
}

pub open spec fn normals_upto<S: Structure>(s: S, n: int) -> Seq<MeshNormal>
    decreases n,
{
    if n <= 0 {
        Seq::empty()
    } else {
        normals_upto(s, n - 1) + voxel_normals(s, n - 1)
    }
}

pub open spec fn indices_upto<S: Structure>(s: S, n: int) -> Seq<u32>
    decreases n,
{
    if n <= 0 {
        Seq::empty()
    } else {
        indices_upto(s, n - 1) + voxel_indices(s, n - 1)
    }
}

/// The whole vertex buffer of a grid, voxel by voxel in storage order.
pub open spec fn mesh_verts_spec<S: Structure>(s: S) -> Seq<MeshVertex> {
    verts_upto(s, count_spec(s.size_spec()))
}

pub open spec fn mesh_colors_spec<S: Structure>(s: S) -> Seq<MeshColor> {
    colors_upto(s, count_spec(s.size_spec()))
}

pub open spec fn mesh_normals_spec<S: Structure>(s: S) -> Seq<MeshNormal> {
    normals_upto(s, count_spec(s.size_spec()))
}

pub open spec fn mesh_indices_spec<S: Structure>(s: S) -> Seq<u32> {
    indices_upto(s, count_spec(s.size_spec()))
}

/// No prefix of voxels emits more than six quads per voxel.
pub proof fn lemma_quads_upto_bound<S: Structure>(s: S, n: int)
    requires
        n >= 0,
    ensures
        0 <= quads_upto(s, n) <= 6 * n,
    decreases n,
{
    if n > 0 {
        lemma_quads_upto_bound(s, n - 1);
    }
}

/// The buffers over a voxel prefix hold four entries per quad, and six
/// indices per quad.
pub proof fn lemma_upto_lens<S: Structure>(s: S, n: int)
    requires
        n >= 0,
    ensures
        verts_upto(s, n).len() == 4 * quads_upto(s, n),
        colors_upto(s, n).len() == 4 * quads_upto(s, n),
        normals_upto(s, n).len() == 4 * quads_upto(s, n),
        indices_upto(s, n).len() == 6 * quads_upto(s, n),
    decreases n,
{
    if n > 0 {
        lemma_upto_lens(s, n - 1);
        let p = delin_coord(n - 1, s.size_spec());
        lemma_parts_lens(
            p,
            s.cull_at(p),
            s.block_at(p).color_spec(),
            s.ao_at(p),
            4 * quads_upto(s, n - 1),
        );
    }
}

/// Mesh building: walks every voxel in storage order and emits, for each
/// non-`Air` voxel, one quad per set visibility bit, colored by the
/// block color darkened with the corner occlusion levels. `Air` voxels
/// emit nothing.
pub fn create_structure_mesh<S: Structure>(structure: &S) -> (mesh: MeshData)
    requires
        structure.inv(),
        24 * count_spec(structure.size_spec()) <= u32::MAX,
    ensures
        mesh.vertices@ == mesh_verts_spec(*structure),
        mesh.colors@ == mesh_colors_spec(*structure),
        mesh.normals@ == mesh_normals_spec(*structure),
        mesh.indices@ == mesh_indices_spec(*structure),
        mesh.vertices@.len() == 4 * total_quads_spec(*structure),
        mesh.colors@.len() == mesh.vertices@.len(),
        mesh.normals@.len() == mesh.vertices@.len(),
        mesh.indices@.len() == 6 * total_quads_spec(*structure),
{
    proof {
        structure.lemma_inv_size();
    }
    let mut vertices: Vec<MeshVertex> = Vec::new();
    let mut colors: Vec<MeshColor> = Vec::new();
    let mut normals: Vec<MeshNormal> = Vec::new();
    let mut indices: Vec<u32> = Vec::new();
    let total = structure.count();
    let mut index: usize = 0;
    while index < total
        invariant
            structure.inv(),
            total == count_spec(structure.size_spec()),
            24 * total <= u32::MAX,
            index <= total,
            vertices@ == verts_upto(*structure, index as int),
            colors@ == colors_upto(*structure, index as int),
            normals@ == normals_upto(*structure, index as int),
            indices@ == indices_upto(*structure, index as int),
        decreases total - index,
    {
        proof {
            lemma_upto_lens(*structure, index as int);
            lemma_quads_upto_bound(*structure, index as int);
        }
        let position = structure.delinearize(index);
        let block = structure.get_block(position);
        if block != Block::Air {
            let mask = structure.get_cull(position);
            let color = block.color();
            let ao = structure.get_ao(position);
            cube_mesh_parts(
                position,
                mask,
                color,
                ao,
                &mut vertices,
                &mut colors,
                &mut normals,
                &mut indices,
            );
        }
        proof {
            if structure.block_at(position) == Block::Air {
                assert(vertices@ =~= verts_upto(*structure, index + 1));
                assert(colors@ =~= colors_upto(*structure, index + 1));
                assert(normals@ =~= normals_upto(*structure, index + 1));
                assert(indices@ =~= indices_upto(*structure, index + 1));
            }
        }
        index = index + 1;
    }
    proof {
        lemma_upto_lens(*structure, total as int);
    }
    MeshData { vertices, colors, normals, indices }
}

} // verus!
