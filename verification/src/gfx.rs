//! The render-resource registry and mesh topology.
//!
//! GPU and window calls live outside the library; what is verified here is
//! the registry of resource handles with its validity invariant, and the
//! index-buffer generation for the meshes, proven to reference only
//! existing vertices. Vertex positions are trigonometric and are produced
//! by the caller alongside these index buffers.

use vstd::prelude::*;

verus! {

/// A compiled shader stage, held by its non-zero handle.
#[derive(Debug, Clone, Copy, PartialEq, Eq, Structural)]
pub struct Shader(pub u32);

/// A linked shader program, held by its non-zero handle.
#[derive(Debug, Clone, Copy, PartialEq, Eq, Structural)]
pub struct Program(pub u32);

/// A two-dimensional texture, held by its non-zero handle.
#[derive(Debug, Clone, Copy, PartialEq, Eq, Structural)]
pub struct Texture(pub u32);

/// A six-faced cubemap texture, held by its non-zero handle.
#[derive(Debug, Clone, Copy, PartialEq, Eq, Structural)]
pub struct Cubemap(pub u32);

/// An uploaded mesh: its buffer handles and its vertex and index counts.
#[derive(Debug, Clone, Copy, PartialEq, Eq, Structural)]
pub struct Mesh {
    pub vbo: u32,
    pub vao: u32,
    pub ebo: u32,
    pub vertices: i32,
    pub indices: i32,
}

impl Shader {
    /// A zero handle names no resource.
    pub open spec fn wf(self) -> bool {
        self.0 != 0
    }
}

impl Program {
    /// A zero handle names no resource.
    pub open spec fn wf(self) -> bool {
        self.0 != 0
    }
}

impl Texture {
    /// A zero handle names no resource.
    pub open spec fn wf(self) -> bool {
        self.0 != 0
    }
}

impl Cubemap {
    /// A zero handle names no resource.
    pub open spec fn wf(self) -> bool {
        self.0 != 0
    }
}

impl Mesh {
    /// All three buffer handles valid and the counts non-negative.
    pub open spec fn wf(self) -> bool {
        &&& self.vbo != 0
        &&& self.vao != 0
        &&& self.ebo != 0
        &&& self.vertices >= 0
        &&& self.indices >= 0
    }

    /// Assembles a mesh record. `None` exactly when a handle is zero or a
    /// count negative.
    pub fn new(vbo: u32, vao: u32, ebo: u32, vertices: i32, indices: i32) -> (r: Option<Mesh>)
        ensures
            match r {
                Some(m) => m.wf() && m == (Mesh { vbo, vao, ebo, vertices, indices }),
                None => vbo == 0 || vao == 0 || ebo == 0 || vertices < 0 || indices < 0,
            },
    {
        if vbo == 0 || vao == 0 || ebo == 0 || vertices < 0 || indices < 0 {
            return None;
        }
        Some(Mesh { vbo, vao, ebo, vertices, indices })
    }
}

/// The full registry of render resources a scene draws from.
pub struct Graphics {
    pub progs: Vec<Program>,
    pub meshes: Vec<Mesh>,
    pub textures: Vec<Texture>,
    pub cubemap: Cubemap,
}

impl Graphics {
    /// Every held resource is valid.
    pub open spec fn wf(self) -> bool {
        &&& forall|i: int| 0 <= i < self.progs.len() ==> self.progs[i].wf()
        &&& forall|i: int| 0 <= i < self.meshes.len() ==> self.meshes[i].wf()
        &&& forall|i: int| 0 <= i < self.textures.len() ==> self.textures[i].wf()
        &&& self.cubemap.wf()
    }

    /// Assembles the registry from loaded resources, admitting it exactly
    /// when every handle is valid.
    pub fn new(progs: Vec<Program>, meshes: Vec<Mesh>, textures: Vec<Texture>, cubemap: Cubemap)
        -> (r: Option<Graphics>)
        ensures
            match r {
                Some(g) => g.wf() && g.progs == progs && g.meshes == meshes
                    && g.textures == textures && g.cubemap == cubemap,
                None => !(Graphics { progs, meshes, textures, cubemap }).wf(),
            },
    {
        if cubemap.0 == 0 {
            return None;
        }
        let mut i: usize = 0;
        while i < progs.len()
            invariant
                0 <= i <= progs.len(),
                forall|k: int| 0 <= k < i ==> progs[k].wf(),
            decreases progs.len() - i,
        {
            if progs[i].0 == 0 {
                proof {
                    let g = Graphics { progs, meshes, textures, cubemap };
                    assert(g.progs[i as int] == progs[i as int]);
                    assert(!g.wf());
                }
                return None;
            }
            i = i + 1;
        }
        let mut i: usize = 0;
        while i < meshes.len()
            invariant
                0 <= i <= meshes.len(),
                forall|k: int| 0 <= k < i ==> meshes[k].wf(),
            decreases meshes.len() - i,
        {
            let m = meshes[i];
            if m.vbo == 0 || m.vao == 0 || m.ebo == 0 || m.vertices < 0 || m.indices < 0 {
                proof {
                    let g = Graphics { progs, meshes, textures, cubemap };
                    assert(g.meshes[i as int] == meshes[i as int]);
                    assert(!g.wf());
                }
                return None;
            }
            i = i + 1;
        }
        let mut i: usize = 0;
        while i < textures.len()
            invariant
                0 <= i <= textures.len(),
                forall|k: int| 0 <= k < i ==> textures[k].wf(),
            decreases textures.len() - i,
        {
            if textures[i].0 == 0 {
                proof {
                    let g = Graphics { progs, meshes, textures, cubemap };
                    assert(g.textures[i as int] == textures[i as int]);
                    assert(!g.wf());
                }
                return None;
            }
            i = i + 1;
        }
        Some(Graphics { progs, meshes, textures, cubemap })
    }
}

/// Vertices of the sphere grid: one ring per latitude step including both
/// poles' rows, each ring closed by a repeated seam column.
pub open spec fn sphere_vertex_count(h_div: int, v_div: int) -> int {
    (v_div + 2) * (h_div + 1)
}

/// Indices of the sphere's triangle list: six per grid cell, the polar
/// rows holding one triangle per cell instead of two.
pub open spec fn sphere_index_count(h_div: int, v_div: int) -> int {
    6 * h_div * v_div
}

/// The index entries of one grid cell: the upper triangle except in the
/// first (north polar) row, then the lower triangle except in the last
/// (south polar) row. `k1` is the cell's vertex in its own ring, `k2` the
/// vertex below it.
pub open spec fn sphere_cell_seq(i: int, rows: int, h: int, j: int) -> Seq<u32> {
    let k1 = i * (h + 1) + j;
    let k2 = (i + 1) * (h + 1) + j;
    let upper: Seq<u32> = if i != 0 {
        seq![k1 as u32, k2 as u32, (k1 + 1) as u32]
    } else {
        Seq::empty()
    };
    let lower: Seq<u32> = if i != rows - 1 {
        seq![(k1 + 1) as u32, k2 as u32, (k2 + 1) as u32]
    } else {
        Seq::empty()
    };
    upper + lower
}

/// The entries of one ring row's first `j` cells.
pub open spec fn sphere_row_seq(i: int, rows: int, h: int, j: int) -> Seq<u32>
    decreases j,
{
    if j <= 0 {
        Seq::empty()
    } else {
        sphere_row_seq(i, rows, h, j - 1) + sphere_cell_seq(i, rows, h, j - 1)
    }
}

/// The entries of the first `i` ring rows.
pub open spec fn sphere_grid_seq(i: int, rows: int, h: int) -> Seq<u32>
    decreases i,
{
    if i <= 0 {
        Seq::empty()
    } else {
        sphere_grid_seq(i - 1, rows, h) + sphere_row_seq(i - 1, rows, h, h)
    }
}

/// Triangles emitted by one ring row of the sphere grid, in index entries.
pub open spec fn sphere_row_len(i: int, rows: int, h: int) -> int {
    ((if i == 0 { 0int } else { 3int }) + (if i == rows - 1 { 0int } else { 3int })) * h
}

/// Index entries emitted by the first `i` ring rows.
pub open spec fn sphere_rows_len(i: int, rows: int, h: int) -> int
    decreases i,
{
    if i <= 0 {
        0
    } else {
        sphere_rows_len(i - 1, rows, h) + sphere_row_len(i - 1, rows, h)
    }
}

/// All rows of the grid together give six entries per cell.
proof fn lemma_sphere_rows_total(i: int, rows: int, h: int)
    requires
        2 <= rows,
        0 <= h,
        0 <= i <= rows,
    ensures
        sphere_rows_len(i, rows, h) == if i < rows {
            6 * h * i - (if i > 0 { 3 * h } else { 0int })
        } else {
            6 * h * (rows - 1)
        },
    decreases i,
{
    if i > 0 {
        lemma_sphere_rows_total(i - 1, rows, h);
        assert(6 * h * i - 6 * h * (i - 1) == 6 * h) by (nonlinear_arith);
    }
}

impl Mesh {
    /// The triangle indices of a UV sphere with `h_div` sectors and
    /// `v_div` latitude bands between the polar caps: every index lies
    /// within the sphere's vertex grid, and the triangle count is exact.
    pub fn uv_sphere_indices(h_div: u32, v_div: u32) -> (r: Vec<u32>)
        requires
            3 <= h_div <= 1000,
            1 <= v_div <= 1000,
        ensures
            r@ == sphere_grid_seq(v_div as int + 1, v_div as int + 1, h_div as int),
            r.len() == sphere_index_count(h_div as int, v_div as int),
            forall|k: int| 0 <= k < r.len() ==> r[k]
                < sphere_vertex_count(h_div as int, v_div as int),
    {
        let rows: u32 = v_div + 1;
        let h: u32 = h_div;
        let ghost bound = sphere_vertex_count(h_div as int, v_div as int);
        proof {
            assert(bound == (rows as int + 1) * (h as int + 1));
            vstd::arithmetic::mul::lemma_mul_inequality(rows as int + 1, 1002, h as int + 1);
            vstd::arithmetic::mul::lemma_mul_left_inequality(1002, h as int + 1, 1001);
            vstd::arithmetic::mul::lemma_mul_nonnegative(rows as int + 1, h as int + 1);
        }
        let mut out: Vec<u32> = Vec::new();
        let mut i: u32 = 0;
        while i < rows
            invariant
                3 <= h <= 1000,
                2 <= rows <= 1001,
                rows == v_div + 1,
                0 <= i <= rows,
                out.len() == sphere_rows_len(i as int, rows as int, h as int),
                out@ == sphere_grid_seq(i as int, rows as int, h as int),
                forall|k: int| 0 <= k < out.len() ==> out[k] < bound,
                bound == sphere_vertex_count(h as int, v_div as int),
                bound == (rows as int + 1) * (h as int + 1),
                bound <= 1_003_002,
            decreases rows - i,
        {
            proof {
                vstd::arithmetic::mul::lemma_mul_inequality(i as int, 1000, h as int + 1);
                vstd::arithmetic::mul::lemma_mul_left_inequality(1000, h as int + 1, 1001);
                vstd::arithmetic::mul::lemma_mul_inequality(
                    i as int, rows as int - 1, h as int + 1);
                vstd::arithmetic::mul::lemma_mul_nonnegative(i as int, h as int + 1);
                vstd::arithmetic::mul::lemma_mul_is_distributive_add_other_way(
                    h as int + 1, i as int, 1);
                assert((rows as int + 1) * (h as int + 1)
                    == (rows as int - 1) * (h as int + 1) + 2 * (h as int + 1))
                    by (nonlinear_arith);
            }
            let k1: u32 = i * (h + 1);
            let k2: u32 = k1 + h + 1;
            let mut j: u32 = 0;
            while j < h
                invariant
                    3 <= h <= 1000,
                    2 <= rows <= 1001,
                    0 <= i < rows,
                    0 <= j <= h,
                    k1 == i * (h + 1),
                    k2 == k1 + h + 1,
                    k2 == (i as int + 1) * (h as int + 1),
                    k2 + h < bound,
                    bound <= 1_003_002,
                    out.len() == sphere_rows_len(i as int, rows as int, h as int)
                        + ((if i == 0 { 0int } else { 3int })
                            + (if i == rows - 1 { 0int } else { 3int })) * j,
                    out@ == sphere_grid_seq(i as int, rows as int, h as int)
                        + sphere_row_seq(i as int, rows as int, h as int, j as int),
                    forall|k: int| 0 <= k < out.len() ==> out[k] < bound,
                decreases h - j,
            {
                if i != 0 {
                    out.push(k1 + j);
                    out.push(k2 + j);
                    out.push(k1 + j + 1);
                }
                if i != rows - 1 {
                    out.push(k1 + j + 1);
                    out.push(k2 + j);
                    out.push(k2 + j + 1);
                }
                proof {
                    let per = (if i == 0 { 0int } else { 3int })
                        + (if i == rows - 1 { 0int } else { 3int });
                    vstd::arithmetic::mul::lemma_mul_is_distributive_add(
                        per, j as int, 1);
                    assert(out@ =~= sphere_grid_seq(i as int, rows as int, h as int)
                        + sphere_row_seq(i as int, rows as int, h as int, j as int + 1));
                }
                j = j + 1;
            }
            proof {
                assert(out@ =~= sphere_grid_seq(i as int + 1, rows as int, h as int));
            }
            i = i + 1;
        }
        proof {
            lemma_sphere_rows_total(rows as int, rows as int, h as int);
            assert(6 * (h as int) * (rows as int - 1)
                == 6 * (h_div as int) * (v_div as int)) by (nonlinear_arith)
                requires
                    rows as int == v_div as int + 1,
                    h == h_div,
            ;
        }
        out
    }

    /// The triangle indices of the unit cube's eight-vertex mesh, as a
    /// fixed list whose entries all reference the eight corners.
    pub fn cube_indices() -> (r: Vec<u32>)
        ensures
            r@ == seq![
                0u32, 1, 3, 3, 1, 2, 1, 5, 2, 2, 5, 6, 5, 4, 6, 6, 4, 7,
                4, 0, 7, 7, 0, 3, 3, 2, 7, 7, 2, 6, 4, 5, 0, 0, 5, 1,
            ],
            forall|k: int| 0 <= k < r.len() ==> r[k] < 8,
    {
        let r: Vec<u32> = vec![
            0, 1, 3, 3, 1, 2, 1, 5, 2, 2, 5, 6, 5, 4, 6, 6, 4, 7,
            4, 0, 7, 7, 0, 3, 3, 2, 7, 7, 2, 6, 4, 5, 0, 0, 5, 1,
        ];
        r
    }
}

} // verus!
