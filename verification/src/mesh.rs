//! The two mesh builders: walking every solid block of a world and emitting
//! packed vertex (and index) data per chunk.
//!
//! Both builders share the same traversal: chunks in grid order, each chunk
//! paired with its own pre-sized buffer group; within a chunk, solid blocks
//! in flat-index order; per solid block, the six faces in [`BlockFace`]
//! declaration order. Faces are never culled against neighbours — every
//! solid block contributes all six faces, deliberately, as a naive
//! baseline. The emitted-primitive counter marks the valid prefix of each
//! buffer; the remainder keeps whatever a previous pass left there.
//!
//! The quad builder emits four corner vertices and six triangle-list
//! indices per face; the point builder emits a single vertex per face,
//! tagged with the face ordinal for a later geometry-expansion stage.

use vstd::arithmetic::div_mod::{lemma_fundamental_div_mod, lemma_fundamental_div_mod_converse};
use vstd::prelude::*;

use crate::block::{Block, BlockId};
use crate::chunk::{
    grid3_dims_ok, solid_pairs, spec_chunk_height, BlockSubPos, Chunk,
};
use crate::texture::{
    face_ordinal, spec_corner_order, spec_face, spec_face_texture, spec_pack_tex, BlockFace,
    SolidBlockDefinition,
};
use crate::utils::{spec_ix, spec_iy, spec_iz, spec_world_pos_of, WorldPosition};
use crate::world::{grid2_dims_ok, spec_grid_length, ChunkPos, World};

verus! {

/// One packed vertex: an integer voxel-corner position and the 32-bit
/// texture attribute (bits 31..16 the tile index; low bits the corner-order
/// code for quads, the face ordinal for points).
#[derive(Debug, Clone, Copy, PartialEq, Eq, Structural)]
pub struct MeshVertex {
    pub position: WorldPosition,
    pub tex_info: u32,
}

/// Grid dimensions under which meshing cannot overflow: both grids are
/// consistent, every world coordinate (plus one step) fits its component,
/// and the per-chunk buffer sizes and index values fit 32 bits.
pub open spec fn mesh_dims_ok(
    size: usize,
    width: usize,
    chunk_size: usize,
    chunk_width: usize,
) -> bool {
    &&& grid2_dims_ok(size, width)
    &&& grid3_dims_ok(chunk_size, chunk_width)
    &&& (width as int) * (chunk_width as int) <= 0xFFFF_FFFF
    &&& spec_grid_length(size, width) * (chunk_width as int) <= 0xFFFF_FFFF
    &&& spec_chunk_height(chunk_size, chunk_width) <= 0xFFFF
    &&& (chunk_size as int) * 36 <= 0xFFFF_FFFF
}

/// Corner `j` (in emission order) of face `f` of the unit cube whose
/// origin corner is `o`. The per-face corner walks are chosen for
/// consistent winding under a clockwise backface-culling convention.
pub open spec fn spec_face_corner(o: WorldPosition, f: BlockFace, j: int) -> WorldPosition {
    match f {
        BlockFace::North => if j == 0 {
            spec_iy(spec_ix(o))
        } else if j == 1 {
            spec_ix(o)
        } else if j == 2 {
            o
        } else {
            spec_iy(o)
        },
        BlockFace::South => if j == 0 {
            spec_iy(spec_iz(o))
        } else if j == 1 {
            spec_iz(o)
        } else if j == 2 {
            spec_ix(spec_iz(o))
        } else {
            spec_iy(spec_ix(spec_iz(o)))
        },
        BlockFace::East => if j == 0 {
            spec_iz(spec_iy(spec_ix(o)))
        } else if j == 1 {
            spec_iz(spec_ix(o))
        } else if j == 2 {
            spec_ix(o)
        } else {
            spec_iy(spec_ix(o))
        },
        BlockFace::West => if j == 0 {
            spec_iy(o)
        } else if j == 1 {
            o
        } else if j == 2 {
            spec_iz(o)
        } else {
            spec_iy(spec_iz(o))
        },
        BlockFace::Up => if j == 0 {
            spec_iy(o)
        } else if j == 1 {
            spec_iz(spec_iy(o))
        } else if j == 2 {
            spec_ix(spec_iz(spec_iy(o)))
        } else {
            spec_ix(spec_iy(o))
        },
        BlockFace::Down => if j == 0 {
            spec_iz(o)
        } else if j == 1 {
            o
        } else if j == 2 {
            spec_ix(o)
        } else {
            spec_iz(spec_ix(o))
        },
    }
}

/// The quad-mesh vertex for corner `j` of face `f` of a block at `o` with
/// definition `d`: the corner position, and the face's tile packed with the
/// corner-order code.
pub open spec fn spec_quad_vertex(
    o: WorldPosition,
    d: SolidBlockDefinition,
    f: BlockFace,
    j: int,
) -> MeshVertex {
    MeshVertex {
        position: spec_face_corner(o, f, j),
        tex_info: spec_pack_tex(spec_face_texture(d, f).0, spec_corner_order(j)),
    }
}

/// The point-mesh vertex for face `f` of a block at `o` with definition
/// `d`: the block's origin, and the face's tile packed with the face
/// ordinal.
pub open spec fn spec_point_vertex(
    o: WorldPosition,
    d: SolidBlockDefinition,
    f: BlockFace,
) -> MeshVertex {
    MeshVertex {
        position: o,
        tex_info: spec_pack_tex(spec_face_texture(d, f).0, face_ordinal(f) as u8),
    }
}

/// The index-buffer offset pattern of one quad: two triangles,
/// `0, 1, 2, 0, 2, 3`, relative to the quad's four-vertex base.
pub open spec fn spec_quad_index_offset(m: int) -> int {
    if m == 0 {
        0
    } else if m == 1 {
        1
    } else if m == 2 {
        2
    } else if m == 3 {
        0
    } else if m == 4 {
        2
    } else {
        3
    }
}

/// The value at position `m` of a quad index buffer: the `m % 6`-th offset
/// of quad `m / 6`, shifted by that quad's four-vertex base.
pub open spec fn spec_quad_index(m: int) -> int {
    4 * (m / 6) + spec_quad_index_offset(m % 6)
}

/// Emits one face of one solid block into a quad mesh: four corner
/// vertices at `current * 4`, six triangle indices at `current * 6`. The
/// rest of both buffers is untouched.
fn gen_cube_mesh<
    const SIZE: usize,
    const WIDTH: usize,
    const CHUNK_SIZE: usize,
    const CHUNK_WIDTH: usize,
>(
    vertex: &mut Vec<MeshVertex>,
    index: &mut Vec<u32>,
    chunk_pos: ChunkPos<SIZE, WIDTH>,
    block_pos: BlockSubPos<CHUNK_SIZE, CHUNK_WIDTH>,
    def: &SolidBlockDefinition,
    current: u32,
    face: BlockFace,
)
    requires
        mesh_dims_ok(SIZE, WIDTH, CHUNK_SIZE, CHUNK_WIDTH),
        chunk_pos.wf(),
        block_pos.wf(),
        (current as int) * 4 + 4 <= old(vertex)@.len(),
        (current as int) * 6 + 6 <= old(index)@.len(),
        (current as int) * 4 + 4 <= 0xFFFF_FFFF,
        (current as int) * 6 + 6 <= 0xFFFF_FFFF,
    ensures
        final(vertex)@.len() == old(vertex)@.len(),
        final(index)@.len() == old(index)@.len(),
        forall|j: int|
            0 <= j < 4 ==> final(vertex)@[(current as int) * 4 + j] == #[trigger] spec_quad_vertex(
                spec_world_pos_of(chunk_pos@, block_pos@, WIDTH as int, CHUNK_WIDTH as int),
                *def,
                face,
                j,
            ),
        forall|m: int|
            (current as int) * 6 <= m < (current as int) * 6 + 6 ==> ((
            #[trigger] final(index)@[m]) as int) == spec_quad_index(m),
        forall|m: int|
            0 <= m < old(vertex)@.len() && !((current as int) * 4 <= m < (current as int) * 4
                + 4) ==> final(vertex)@[m] == old(vertex)@[m],
        forall|m: int|
            0 <= m < old(index)@.len() && !((current as int) * 6 <= m < (current as int) * 6
                + 6) ==> final(index)@[m] == old(index)@[m],
{
    let vertex_base = (current as usize) * 4;
    let index_base = (current as usize) * 6;
    let base = current * 4;
    index[index_base] = base;
    index[index_base + 1] = base + 1;
    index[index_base + 2] = base + 2;
    index[index_base + 3] = base;
    index[index_base + 4] = base + 2;
    index[index_base + 5] = base + 3;
    let origin = WorldPosition::from_parts(chunk_pos, block_pos);
    let (c0, c1, c2, c3) = match face {
        BlockFace::North => (origin.ix().iy(), origin.ix(), origin, origin.iy()),
        BlockFace::South => (
            origin.iz().iy(),
            origin.iz(),
            origin.iz().ix(),
            origin.iz().ix().iy(),
        ),
        BlockFace::East => (
            origin.ix().iy().iz(),
            origin.ix().iz(),
            origin.ix(),
            origin.ix().iy(),
        ),
        BlockFace::West => (origin.iy(), origin, origin.iz(), origin.iz().iy()),
        BlockFace::Up => (
            origin.iy(),
            origin.iy().iz(),
            origin.iy().iz().ix(),
            origin.iy().ix(),
        ),
        BlockFace::Down => (origin.iz(), origin, origin.ix(), origin.ix().iz()),
    };
    let uvs = def.face_texture(face).into_arr();
    vertex[vertex_base] = MeshVertex { position: c0, tex_info: uvs[0].into_u32() };
    vertex[vertex_base + 1] = MeshVertex { position: c1, tex_info: uvs[1].into_u32() };
    vertex[vertex_base + 2] = MeshVertex { position: c2, tex_info: uvs[2].into_u32() };
    vertex[vertex_base + 3] = MeshVertex { position: c3, tex_info: uvs[3].into_u32() };
    proof {
        let c = current as int;
        assert forall|m: int| c * 6 <= m < c * 6 + 6 implies spec_quad_index(m) == 4 * c
            + spec_quad_index_offset(m - c * 6) by {
            lemma_fundamental_div_mod_converse(m, 6, c, m - c * 6);
        }
    }
}

/// A quad-mesh output buffer group for one chunk: corner vertices, triangle
/// indices, and the number of faces emitted by the latest pass.
#[derive(Debug)]
pub struct QuadBufferGroup {
    pub vertex: Vec<MeshVertex>,
    pub index: Vec<u32>,
    pub count: u32,
}

impl QuadBufferGroup {
    /// A buffer group pre-sized for the worst case of a chunk of
    /// `chunk_size` blocks: every block solid, all six faces each, four
    /// vertices and six indices per face.
    pub fn new(chunk_size: usize) -> (r: Self)
        requires
            (chunk_size as int) * 36 <= 0xFFFF_FFFF,
        ensures
            r.vertex@.len() == (chunk_size as int) * 24,
            r.index@.len() == (chunk_size as int) * 36,
            r.count == 0,
    {
        let zero = MeshVertex { position: WorldPosition { x: 0, y: 0, z: 0 }, tex_info: 0 };
        let mut vertex: Vec<MeshVertex> = Vec::new();
        let target_v = chunk_size * 24;
        while vertex.len() < target_v
            invariant
                vertex@.len() <= target_v as int,
            decreases target_v - vertex@.len(),
        {
            vertex.push(zero);
        }
        let mut index: Vec<u32> = Vec::new();
        let target_i = chunk_size * 36;
        while index.len() < target_i
            invariant
                index@.len() <= target_i as int,
            decreases target_i - index@.len(),
        {
            index.push(0);
        }
        Self { vertex, index, count: 0 }
    }
}

/// What one pass of the quad builder guarantees of a buffer group `g`,
/// given the chunk contents, the chunk's flat grid index `ci`, and the
/// group's previous contents `old_g`: the count is six faces per solid
/// block; the written prefix holds exactly the corner vertices and
/// triangle indices of every face of every solid block, in emission order;
/// and everything beyond the prefix is unchanged.
pub open spec fn spec_quad_group_built<Id: BlockId>(
    chunk: Seq<Block<Id>>,
    ci: int,
    old_g: QuadBufferGroup,
    g: QuadBufferGroup,
    world_width: int,
    chunk_width: int,
) -> bool {
    let pairs = solid_pairs(chunk);
    &&& g.vertex@.len() == old_g.vertex@.len()
    &&& g.index@.len() == old_g.index@.len()
    &&& g.count as int == 6 * pairs.len()
    &&& forall|k: int, f: int, j: int|
        0 <= k < pairs.len() && 0 <= f < 6 && 0 <= j < 4 ==> g.vertex@[k * 24 + f * 4 + j]
            == #[trigger] spec_quad_vertex(
            spec_world_pos_of(ci, pairs[k].0, world_width, chunk_width),
            pairs[k].1.def_spec(),
            spec_face(f),
            j,
        )
    &&& forall|m: int|
        0 <= m < 36 * pairs.len() ==> ((#[trigger] g.index@[m]) as int) == spec_quad_index(m)
    &&& forall|m: int|
        24 * pairs.len() <= m < g.vertex@.len() ==> g.vertex@[m] == old_g.vertex@[m]
    &&& forall|m: int|
        36 * pairs.len() <= m < g.index@.len() ==> g.index@[m] == old_g.index@[m]
}

/// Emits all six faces of one solid block into a quad mesh, faces in
/// declaration order: block `k` of the emission occupies vertices
/// `k * 24 .. k * 24 + 24` and indices `k * 36 .. k * 36 + 36`. The rest
/// of both buffers is untouched.
#[verifier::rlimit(100)]
fn gen_block_cube_mesh<
    const SIZE: usize,
    const WIDTH: usize,
    const CHUNK_SIZE: usize,
    const CHUNK_WIDTH: usize,
>(
    vertex: &mut Vec<MeshVertex>,
    index: &mut Vec<u32>,
    chunk_pos: ChunkPos<SIZE, WIDTH>,
    block_pos: BlockSubPos<CHUNK_SIZE, CHUNK_WIDTH>,
    def: &SolidBlockDefinition,
    k: u32,
)
    requires
        mesh_dims_ok(SIZE, WIDTH, CHUNK_SIZE, CHUNK_WIDTH),
        chunk_pos.wf(),
        block_pos.wf(),
        (k as int) * 24 + 24 <= old(vertex)@.len(),
        (k as int) * 36 + 36 <= old(index)@.len(),
        (k as int) * 36 + 36 <= 0xFFFF_FFFF,
    ensures
        final(vertex)@.len() == old(vertex)@.len(),
        final(index)@.len() == old(index)@.len(),
        forall|f: int, j: int|
            0 <= f < 6 && 0 <= j < 4 ==> final(vertex)@[(k as int) * 24 + f * 4 + j]
                == #[trigger] spec_quad_vertex(
                spec_world_pos_of(chunk_pos@, block_pos@, WIDTH as int, CHUNK_WIDTH as int),
                *def,
                spec_face(f),
                j,
            ),
        forall|m: int|
            (k as int) * 36 <= m < (k as int) * 36 + 36 ==> ((#[trigger] final(index)@[m]) as int)
                == spec_quad_index(m),
        forall|m: int|
            0 <= m < old(vertex)@.len() && !((k as int) * 24 <= m < (k as int) * 24 + 24)
                ==> final(vertex)@[m] == old(vertex)@[m],
        forall|m: int|
            0 <= m < old(index)@.len() && !((k as int) * 36 <= m < (k as int) * 36 + 36)
                ==> final(index)@[m] == old(index)@[m],
{
    let mut f: u8 = 0;
    while f < 6
        invariant
            mesh_dims_ok(SIZE, WIDTH, CHUNK_SIZE, CHUNK_WIDTH),
            chunk_pos.wf(),
            block_pos.wf(),
            f <= 6,
            (k as int) * 24 + 24 <= old(vertex)@.len(),
            (k as int) * 36 + 36 <= old(index)@.len(),
            (k as int) * 36 + 36 <= 0xFFFF_FFFF,
            vertex@.len() == old(vertex)@.len(),
            index@.len() == old(index)@.len(),
            forall|ff: int, j: int|
                0 <= ff < f as int && 0 <= j < 4 ==> vertex@[(k as int) * 24 + ff * 4 + j]
                    == #[trigger] spec_quad_vertex(
                    spec_world_pos_of(chunk_pos@, block_pos@, WIDTH as int, CHUNK_WIDTH as int),
                    *def,
                    spec_face(ff),
                    j,
                ),
            forall|m: int|
                (k as int) * 36 <= m < (k as int) * 36 + 6 * f as int ==> ((
                #[trigger] index@[m]) as int) == spec_quad_index(m),
            forall|m: int|
                0 <= m < old(vertex)@.len() && !((k as int) * 24 <= m < (k as int) * 24 + 4 * f
                    as int) ==> vertex@[m] == old(vertex)@[m],
            forall|m: int|
                0 <= m < old(index)@.len() && !((k as int) * 36 <= m < (k as int) * 36 + 6 * f
                    as int) ==> index@[m] == old(index)@[m],
        decreases 6 - f,
    {
        let face = BlockFace::from_ordinal(f);
        let current = k * 6 + (f as u32);
        gen_cube_mesh(vertex, index, chunk_pos, block_pos, def, current, face);
        f = f + 1;
    }
}

/// Emits the quad mesh of one chunk into its buffer group: six faces per
/// solid block, four vertices and six indices per face, written to the
/// buffer prefix in emission order.
#[verifier::rlimit(100)]
pub fn build_chunk_quad_mesh<
    Id: BlockId,
    const SIZE: usize,
    const WIDTH: usize,
    const CHUNK_SIZE: usize,
    const CHUNK_WIDTH: usize,
>(
    chunk: &Chunk<Id, CHUNK_SIZE, CHUNK_WIDTH>,
    chunk_pos: ChunkPos<SIZE, WIDTH>,
    group: &mut QuadBufferGroup,
)
    requires
        mesh_dims_ok(SIZE, WIDTH, CHUNK_SIZE, CHUNK_WIDTH),
        chunk.wf(),
        chunk_pos.wf(),
        old(group).vertex@.len() >= (CHUNK_SIZE as int) * 24,
        old(group).index@.len() >= (CHUNK_SIZE as int) * 36,
    ensures
        spec_quad_group_built(
            chunk@,
            chunk_pos@,
            *old(group),
            *final(group),
            WIDTH as int,
            CHUNK_WIDTH as int,
        ),
{
    proof {
        crate::chunk::lemma_solid_pairs_len(chunk@);
    }
    let solids = chunk.iter_solid();
    let ghost pairs = solid_pairs(chunk@);
    group.count = 0;
    let n = solids.len();
    let mut k: usize = 0;
    while k < n
        invariant
            mesh_dims_ok(SIZE, WIDTH, CHUNK_SIZE, CHUNK_WIDTH),
            chunk_pos.wf(),
            pairs == solid_pairs(chunk@),
            n as int == pairs.len(),
            pairs.len() <= CHUNK_SIZE as int,
            solids@.map_values(
                |p: (BlockSubPos<CHUNK_SIZE, CHUNK_WIDTH>, Id)| (p.0@, p.1),
            ) == pairs,
            forall|q: int| 0 <= q < solids@.len() ==> (#[trigger] solids@[q]).0.wf(),
            k <= n,
            group.count as int == 6 * k as int,
            group.vertex@.len() == old(group).vertex@.len(),
            group.index@.len() == old(group).index@.len(),
            old(group).vertex@.len() >= (CHUNK_SIZE as int) * 24,
            old(group).index@.len() >= (CHUNK_SIZE as int) * 36,
            forall|q: int, f: int, j: int|
                0 <= q < k as int && 0 <= f < 6 && 0 <= j < 4 ==> group.vertex@[q * 24 + f * 4
                    + j] == #[trigger] spec_quad_vertex(
                    spec_world_pos_of(
                        chunk_pos@,
                        pairs[q].0,
                        WIDTH as int,
                        CHUNK_WIDTH as int,
                    ),
                    pairs[q].1.def_spec(),
                    spec_face(f),
                    j,
                ),
            forall|m: int|
                0 <= m < 36 * k as int ==> ((#[trigger] group.index@[m]) as int)
                    == spec_quad_index(m),
            forall|m: int|
                24 * k as int <= m < group.vertex@.len() ==> group.vertex@[m] == old(
                    group,
                ).vertex@[m],
            forall|m: int|
                36 * k as int <= m < group.index@.len() ==> group.index@[m] == old(
                    group,
                ).index@[m],
        decreases n - k,
    {
        let (block_pos, id) = solids[k];
        proof {
            assert(pairs[k as int] == (block_pos@, id));
        }
        let def = id.definition();
        gen_block_cube_mesh(
            &mut group.vertex,
            &mut group.index,
            chunk_pos,
            block_pos,
            &def,
            k as u32,
        );
        group.count = group.count + 6;
        k = k + 1;
    }
}

/// Every group is pre-sized for the worst case of a chunk of
/// `chunk_size` blocks.
pub open spec fn spec_quad_groups_sized(gs: Seq<QuadBufferGroup>, chunk_size: usize) -> bool {
    forall|c: int|
        0 <= c < gs.len() ==> (#[trigger] gs[c]).vertex@.len() >= (chunk_size as int) * 24
            && gs[c].index@.len() >= (chunk_size as int) * 36
}

/// Emits the quad mesh of every chunk of the world, each into its own
/// buffer group, chunks in ascending grid order.
pub fn build_world_quad_mesh<
    Id: BlockId,
    const SIZE: usize,
    const WIDTH: usize,
    const CHUNK_SIZE: usize,
    const CHUNK_WIDTH: usize,
>(world: &World<Id, SIZE, WIDTH, CHUNK_SIZE, CHUNK_WIDTH>, groups: &mut Vec<QuadBufferGroup>)
    requires
        mesh_dims_ok(SIZE, WIDTH, CHUNK_SIZE, CHUNK_WIDTH),
        world.wf(),
        old(groups)@.len() == SIZE as int,
        spec_quad_groups_sized(old(groups)@, CHUNK_SIZE),
    ensures
        final(groups)@.len() == SIZE as int,
        forall|i: int|
            0 <= i < SIZE as int ==> spec_quad_group_built(
                world@[i]@,
                i,
                #[trigger] old(groups)@[i],
                final(groups)@[i],
                WIDTH as int,
                CHUNK_WIDTH as int,
            ),
{
    let mut i: usize = 0;
    while i < SIZE
        invariant
            mesh_dims_ok(SIZE, WIDTH, CHUNK_SIZE, CHUNK_WIDTH),
            world.wf(),
            i <= SIZE,
            groups@.len() == SIZE as int,
            old(groups)@.len() == SIZE as int,
            spec_quad_groups_sized(old(groups)@, CHUNK_SIZE),
            forall|c: int|
                i as int <= c < SIZE as int ==> #[trigger] groups@[c] == old(groups)@[c],
            forall|c: int|
                0 <= c < i as int ==> spec_quad_group_built(
                    world@[c]@,
                    c,
                    #[trigger] old(groups)@[c],
                    groups@[c],
                    WIDTH as int,
                    CHUNK_WIDTH as int,
                ),
        decreases SIZE - i,
    {
        let pos = ChunkPos::<SIZE, WIDTH>::from_index(i);
        let chunk = world.chunk(pos);
        proof {
            assert(groups@[i as int] == old(groups)@[i as int]);
            assert(old(groups)@[i as int].vertex@.len() >= (CHUNK_SIZE as int) * 24
                && old(groups)@[i as int].index@.len() >= (CHUNK_SIZE as int) * 36);
        }
        build_chunk_quad_mesh(chunk, pos, &mut groups[i]);
        i = i + 1;
    }
}

/// Emits one face of one solid block into a point mesh: a single vertex at
/// `current`, positioned at the block's origin and tagged with the face
/// ordinal. The rest of the buffer is untouched.
fn gen_face_point<
    const SIZE: usize,
    const WIDTH: usize,
    const CHUNK_SIZE: usize,
    const CHUNK_WIDTH: usize,
>(
    vertex: &mut Vec<MeshVertex>,
    chunk_pos: ChunkPos<SIZE, WIDTH>,
    block_pos: BlockSubPos<CHUNK_SIZE, CHUNK_WIDTH>,
    def: &SolidBlockDefinition,
    current: u32,
    face: BlockFace,
)
    requires
        mesh_dims_ok(SIZE, WIDTH, CHUNK_SIZE, CHUNK_WIDTH),
        chunk_pos.wf(),
        block_pos.wf(),
        (current as int) < old(vertex)@.len(),
    ensures
        final(vertex)@.len() == old(vertex)@.len(),
        final(vertex)@[current as int] == spec_point_vertex(
            spec_world_pos_of(chunk_pos@, block_pos@, WIDTH as int, CHUNK_WIDTH as int),
            *def,
            face,
        ),
        forall|m: int|
            0 <= m < old(vertex)@.len() && m != current as int ==> final(vertex)@[m] == old(
                vertex,
            )@[m],
{
    let faceid = face.face_id();
    let origin = WorldPosition::from_parts(chunk_pos, block_pos);
    let tile = def.face_texture(face);
    vertex[current as usize] = MeshVertex {
        position: origin,
        tex_info: crate::texture::TextureInfo::new(tile.0, faceid).into_u32(),
    };
}

/// A point-mesh output buffer group for one chunk: one vertex per emitted
/// face, and the number of faces emitted by the latest pass.
#[derive(Debug)]
pub struct PointBufferGroup {
    pub vertex: Vec<MeshVertex>,
    pub count: u32,
}

impl PointBufferGroup {
    /// A buffer group pre-sized for the worst case of a chunk of
    /// `chunk_size` blocks: every block solid, all six faces each, one
    /// vertex per face.
    pub fn new(chunk_size: usize) -> (r: Self)
        requires
            (chunk_size as int) * 6 <= 0xFFFF_FFFF,
        ensures
            r.vertex@.len() == (chunk_size as int) * 6,
            r.count == 0,
    {
        let zero = MeshVertex { position: WorldPosition { x: 0, y: 0, z: 0 }, tex_info: 0 };
        let mut vertex: Vec<MeshVertex> = Vec::new();
        let target_v = chunk_size * 6;
        while vertex.len() < target_v
            invariant
                vertex@.len() <= target_v as int,
            decreases target_v - vertex@.len(),
        {
            vertex.push(zero);
        }
        Self { vertex, count: 0 }
    }
}

/// What one pass of the point builder guarantees of a buffer group `g`:
/// the count is six faces per solid block; the written prefix holds one
/// vertex per face of every solid block, in emission order; and everything
/// beyond the prefix is unchanged.
pub open spec fn spec_point_group_built<Id: BlockId>(
    chunk: Seq<Block<Id>>,
    ci: int,
    old_g: PointBufferGroup,
    g: PointBufferGroup,
    world_width: int,
    chunk_width: int,
) -> bool {
    let pairs = solid_pairs(chunk);
    &&& g.vertex@.len() == old_g.vertex@.len()
    &&& g.count as int == 6 * pairs.len()
    &&& forall|k: int, f: int|
        0 <= k < pairs.len() && 0 <= f < 6 ==> g.vertex@[k * 6 + f]
            == #[trigger] spec_point_vertex(
            spec_world_pos_of(ci, pairs[k].0, world_width, chunk_width),
            pairs[k].1.def_spec(),
            spec_face(f),
        )
    &&& forall|m: int|
        6 * pairs.len() <= m < g.vertex@.len() ==> g.vertex@[m] == old_g.vertex@[m]
}

/// Emits the point mesh of one chunk into its buffer group: six faces per
/// solid block, one vertex per face, written to the buffer prefix in
/// emission order.
#[verifier::rlimit(100)]
pub fn build_chunk_point_mesh<
    Id: BlockId,
    const SIZE: usize,
    const WIDTH: usize,
    const CHUNK_SIZE: usize,
    const CHUNK_WIDTH: usize,
>(
    chunk: &Chunk<Id, CHUNK_SIZE, CHUNK_WIDTH>,
    chunk_pos: ChunkPos<SIZE, WIDTH>,
    group: &mut PointBufferGroup,
)
    requires
        mesh_dims_ok(SIZE, WIDTH, CHUNK_SIZE, CHUNK_WIDTH),
        chunk.wf(),
        chunk_pos.wf(),
        old(group).vertex@.len() >= (CHUNK_SIZE as int) * 6,
    ensures
        spec_point_group_built(
            chunk@,
            chunk_pos@,
            *old(group),
            *final(group),
            WIDTH as int,
            CHUNK_WIDTH as int,
        ),
{
    proof {
        crate::chunk::lemma_solid_pairs_len(chunk@);
    }
    let solids = chunk.iter_solid();
    let ghost pairs = solid_pairs(chunk@);
    group.count = 0;
    let n = solids.len();
    let mut k: usize = 0;
    while k < n
        invariant
            mesh_dims_ok(SIZE, WIDTH, CHUNK_SIZE, CHUNK_WIDTH),
            chunk_pos.wf(),
            pairs == solid_pairs(chunk@),
            n as int == pairs.len(),
            pairs.len() <= CHUNK_SIZE as int,
            solids@.map_values(
                |p: (BlockSubPos<CHUNK_SIZE, CHUNK_WIDTH>, Id)| (p.0@, p.1),
            ) == pairs,
            forall|q: int| 0 <= q < solids@.len() ==> (#[trigger] solids@[q]).0.wf(),
            k <= n,
            group.count as int == 6 * k as int,
            group.vertex@.len() == old(group).vertex@.len(),
            old(group).vertex@.len() >= (CHUNK_SIZE as int) * 6,
            forall|q: int, ff: int|
                0 <= q < k as int && 0 <= ff < 6 ==> group.vertex@[q * 6 + ff]
                    == #[trigger] spec_point_vertex(
                    spec_world_pos_of(
                        chunk_pos@,
                        pairs[q].0,
                        WIDTH as int,
                        CHUNK_WIDTH as int,
                    ),
                    pairs[q].1.def_spec(),
                    spec_face(ff),
                ),
            forall|m: int|
                6 * k as int <= m < group.vertex@.len() ==> group.vertex@[m] == old(
                    group,
                ).vertex@[m],
        decreases n - k,
    {
        let (block_pos, id) = solids[k];
        proof {
            assert(pairs[k as int] == (block_pos@, id));
        }
        let def = id.definition();
        let mut f: u8 = 0;
        while f < 6
            invariant
                mesh_dims_ok(SIZE, WIDTH, CHUNK_SIZE, CHUNK_WIDTH),
                chunk_pos.wf(),
                block_pos.wf(),
                pairs == solid_pairs(chunk@),
                n as int == pairs.len(),
                pairs.len() <= CHUNK_SIZE as int,
                k < n,
                pairs[k as int] == (block_pos@, id),
                def == id.def_spec(),
                f <= 6,
                group.count as int == 6 * k as int + f as int,
                group.vertex@.len() == old(group).vertex@.len(),
                old(group).vertex@.len() >= (CHUNK_SIZE as int) * 6,
                forall|q: int, ff: int|
                    0 <= q < k as int && 0 <= ff < 6 ==> group.vertex@[q * 6 + ff]
                        == #[trigger] spec_point_vertex(
                        spec_world_pos_of(
                            chunk_pos@,
                            pairs[q].0,
                            WIDTH as int,
                            CHUNK_WIDTH as int,
                        ),
                        pairs[q].1.def_spec(),
                        spec_face(ff),
                    ),
                forall|ff: int|
                    0 <= ff < f as int ==> group.vertex@[k as int * 6 + ff]
                        == #[trigger] spec_point_vertex(
                        spec_world_pos_of(
                            chunk_pos@,
                            pairs[k as int].0,
                            WIDTH as int,
                            CHUNK_WIDTH as int,
                        ),
                        pairs[k as int].1.def_spec(),
                        spec_face(ff),
                    ),
                forall|m: int|
                    6 * k as int + f as int <= m < group.vertex@.len() ==> group.vertex@[m]
                        == old(group).vertex@[m],
            decreases 6 - f,
        {
            let face = BlockFace::from_ordinal(f);
            let current = group.count;
            gen_face_point(&mut group.vertex, chunk_pos, block_pos, &def, current, face);
            group.count = current + 1;
            f = f + 1;
        }
        k = k + 1;
    }
}

/// Every group is pre-sized for the worst case of a chunk of
/// `chunk_size` blocks.
pub open spec fn spec_point_groups_sized(gs: Seq<PointBufferGroup>, chunk_size: usize) -> bool {
    forall|c: int|
        0 <= c < gs.len() ==> (#[trigger] gs[c]).vertex@.len() >= (chunk_size as int) * 6
}

/// Emits the point mesh of every chunk of the world, each into its own
/// buffer group, chunks in ascending grid order.
pub fn build_world_point_mesh<
    Id: BlockId,
    const SIZE: usize,
    const WIDTH: usize,
    const CHUNK_SIZE: usize,
    const CHUNK_WIDTH: usize,
>(world: &World<Id, SIZE, WIDTH, CHUNK_SIZE, CHUNK_WIDTH>, groups: &mut Vec<PointBufferGroup>)
    requires
        mesh_dims_ok(SIZE, WIDTH, CHUNK_SIZE, CHUNK_WIDTH),
        world.wf(),
        old(groups)@.len() == SIZE as int,
        spec_point_groups_sized(old(groups)@, CHUNK_SIZE),
    ensures
        final(groups)@.len() == SIZE as int,
        forall|i: int|
            0 <= i < SIZE as int ==> spec_point_group_built(
                world@[i]@,
                i,
                #[trigger] old(groups)@[i],
                final(groups)@[i],
                WIDTH as int,
                CHUNK_WIDTH as int,
            ),
{
    let mut i: usize = 0;
    while i < SIZE
        invariant
            mesh_dims_ok(SIZE, WIDTH, CHUNK_SIZE, CHUNK_WIDTH),
            world.wf(),
            i <= SIZE,
            groups@.len() == SIZE as int,
            old(groups)@.len() == SIZE as int,
            spec_point_groups_sized(old(groups)@, CHUNK_SIZE),
            forall|c: int|
                i as int <= c < SIZE as int ==> #[trigger] groups@[c] == old(groups)@[c],
            forall|c: int|
                0 <= c < i as int ==> spec_point_group_built(
                    world@[c]@,
                    c,
                    #[trigger] old(groups)@[c],
                    groups@[c],
                    WIDTH as int,
                    CHUNK_WIDTH as int,
                ),
        decreases SIZE - i,
    {
        let pos = ChunkPos::<SIZE, WIDTH>::from_index(i);
        let chunk = world.chunk(pos);
        proof {
            assert(groups@[i as int] == old(groups)@[i as int]);
            assert(old(groups)@[i as int].vertex@.len() >= (CHUNK_SIZE as int) * 6);
        }
        build_chunk_point_mesh(chunk, pos, &mut groups[i]);
        i = i + 1;
    }
}

/// Meshing is deterministic: two quad-builder passes over the same chunk
/// agree on the face count and byte-for-byte on the written prefixes of
/// the vertex and index buffers, whatever either buffer held before.
pub proof fn lemma_quad_mesh_deterministic<Id: BlockId>(
    chunk: Seq<Block<Id>>,
    ci: int,
    old_a: QuadBufferGroup,
    a: QuadBufferGroup,
    old_b: QuadBufferGroup,
    b: QuadBufferGroup,
    world_width: int,
    chunk_width: int,
)
    requires
        spec_quad_group_built(chunk, ci, old_a, a, world_width, chunk_width),
        spec_quad_group_built(chunk, ci, old_b, b, world_width, chunk_width),
    ensures
        a.count == b.count,
        forall|m: int| 0 <= m < 4 * (a.count as int) ==> a.vertex@[m] == b.vertex@[m],
        forall|m: int| 0 <= m < 6 * (a.count as int) ==> a.index@[m] == b.index@[m],
{
    let pairs = solid_pairs(chunk);
    assert forall|m: int| 0 <= m < 4 * (a.count as int) implies a.vertex@[m] == b.vertex@[m] by {
        let k = m / 24;
        let r = m % 24;
        let f = r / 4;
        let j = r % 4;
        lemma_fundamental_div_mod(m, 24);
        lemma_fundamental_div_mod(r, 4);
        assert(m == k * 24 + f * 4 + j);
        assert(0 <= k < pairs.len());
        let v = spec_quad_vertex(
            spec_world_pos_of(ci, pairs[k].0, world_width, chunk_width),
            pairs[k].1.def_spec(),
            spec_face(f),
            j,
        );
        assert(a.vertex@[k * 24 + f * 4 + j] == v);
        assert(b.vertex@[k * 24 + f * 4 + j] == v);
    }
}

/// Meshing is deterministic: two point-builder passes over the same chunk
/// agree on the face count and byte-for-byte on the written vertex prefix,
/// whatever the buffer held before.
pub proof fn lemma_point_mesh_deterministic<Id: BlockId>(
    chunk: Seq<Block<Id>>,
    ci: int,
    old_a: PointBufferGroup,
    a: PointBufferGroup,
    old_b: PointBufferGroup,
    b: PointBufferGroup,
    world_width: int,
    chunk_width: int,
)
    requires
        spec_point_group_built(chunk, ci, old_a, a, world_width, chunk_width),
        spec_point_group_built(chunk, ci, old_b, b, world_width, chunk_width),
    ensures
        a.count == b.count,
        forall|m: int| 0 <= m < a.count as int ==> a.vertex@[m] == b.vertex@[m],
{
    let pairs = solid_pairs(chunk);
    assert forall|m: int| 0 <= m < a.count as int implies a.vertex@[m] == b.vertex@[m] by {
        let k = m / 6;
        let f = m % 6;
        lemma_fundamental_div_mod(m, 6);
        assert(m == k * 6 + f);
        assert(0 <= k < pairs.len());
        let v = spec_point_vertex(
            spec_world_pos_of(ci, pairs[k].0, world_width, chunk_width),
            pairs[k].1.def_spec(),
            spec_face(f),
        );
        assert(a.vertex@[k * 6 + f] == v);
        assert(b.vertex@[k * 6 + f] == v);
    }
}

} // verus!
