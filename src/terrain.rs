//! Procedural mountain mesh on an integer grid.
//!
//! A footprint of `n × n` cells is sampled at grid indices `0..=n` along
//! each axis. Index `i` stands for the planar coordinate
//! `i * extent / n - extent / 2`, so the centre of the footprint is at
//! `i == n / 2` and the borders at `0` and `n`. Every height is a *level*
//! measured in units of `peak / (2 * n)`: level `0` is the ground and level
//! `2 * n` the peak. Working on levels keeps the whole generator in exact
//! integer arithmetic; a renderer scales the indices and levels by the real
//! extents afterwards.
use vstd::prelude::*;

verus! {

/// How the two per-axis elevations of a point are combined into one height.
#[derive(Clone, Copy, Debug, PartialEq, Eq, Structural)]
pub enum HeightPolicy {
    /// The lower of the two elevations: a pyramid silhouette.
    Min,
    /// Zero when either elevation is zero, else their mean: a mound with
    /// a hard border.
    ZeroSnapAverage,
}

/// How a triangle's mean height fraction becomes a colour.
#[derive(Clone, Copy, Debug, PartialEq, Eq, Structural)]
pub enum ColorPolicy {
    /// Brightness proportional to the height fraction.
    Grayscale,
    /// Three fixed colours by height band.
    Banded,
}

/// The pair of policies a mountain is generated with.
#[derive(Clone, Copy, Debug, PartialEq, Eq, Structural)]
pub struct TerrainStyle {
    pub height: HeightPolicy,
    pub color: ColorPolicy,
}

impl TerrainStyle {
    /// The developed style: a zero-snapped mound with a banded palette.
    pub fn standard() -> (r: TerrainStyle)
        ensures
            r.height == HeightPolicy::ZeroSnapAverage,
            r.color == ColorPolicy::Banded,
    {
        TerrainStyle { height: HeightPolicy::ZeroSnapAverage, color: ColorPolicy::Banded }
    }
}

/// Elevation fraction of one axis, in units of `1 / n`: `n` at the centre,
/// `0` at either border.
pub open spec fn axis_rise(n: int, i: int) -> int {
    if 2 * i >= n {
        n - (2 * i - n)
    } else {
        n - (n - 2 * i)
    }
}

/// Height level of grid point `(i, k)`, in units of `1 / (2 * n)` of the peak.
pub open spec fn level_spec(n: int, i: int, k: int, policy: HeightPolicy) -> int {
    let a = axis_rise(n, i);
    let b = axis_rise(n, k);
    match policy {
        HeightPolicy::Min => if a <= b { 2 * a } else { 2 * b },
        HeightPolicy::ZeroSnapAverage => if a == 0 || b == 0 { 0 } else { a + b },
    }
}

/// Height level of grid point `(x, z)` on a grid of `point_count` cells per
/// axis, out of `2 * point_count`.
pub fn height_level(point_count: u32, x: u32, z: u32, policy: HeightPolicy) -> (r: u64)
    requires
        x <= point_count,
        z <= point_count,
    ensures
        r == level_spec(point_count as int, x as int, z as int, policy),
{
    let n = point_count as u64;
    let a: u64 = if 2 * (x as u64) >= n {
        n - (2 * (x as u64) - n)
    } else {
        n - (n - 2 * (x as u64))
    };
    let b: u64 = if 2 * (z as u64) >= n {
        n - (2 * (z as u64) - n)
    } else {
        n - (n - 2 * (z as u64))
    };
    match policy {
        HeightPolicy::Min => if a <= b { 2 * a } else { 2 * b },
        HeightPolicy::ZeroSnapAverage => if a == 0 || b == 0 { 0 } else { a + b },
    }
}


/// The three colours of the banded palette, lowest band first.
#[derive(Clone, Copy, Debug, PartialEq, Eq, Structural)]
pub enum Band {
    /// Height fraction in `[0, 0.4)`.
    Grass,
    /// Height fraction in `[0.4, 0.7)`.
    Rock,
    /// Height fraction of `0.7` and above.
    Snow,
}

/// The band of the height fraction `num / den`, with half-open intervals.
pub open spec fn band_spec(num: int, den: int) -> Band {
    if 10 * num < 4 * den {
        Band::Grass
    } else if 10 * num < 7 * den {
        Band::Rock
    } else {
        Band::Snow
    }
}

/// The 8-bit colour of each band.
pub open spec fn band_rgb(b: Band) -> (u8, u8, u8) {
    match b {
        Band::Grass => (52u8, 175u8, 45u8),
        Band::Rock => (41u8, 52u8, 61u8),
        Band::Snow => (227u8, 239u8, 249u8),
    }
}

impl Band {
    /// The band's colour as 8-bit red, green and blue.
    pub fn rgb(&self) -> (r: (u8, u8, u8))
        ensures
            r == band_rgb(*self),
    {
        match self {
            Band::Grass => (52, 175, 45),
            Band::Rock => (41, 52, 61),
            Band::Snow => (227, 239, 249),
        }
    }
}

/// The band of the height fraction `num / den`.
pub fn band_of(num: u64, den: u64) -> (r: Band)
    ensures
        r == band_spec(num as int, den as int),
{
    let scaled = 10 * (num as u128);
    if scaled < 4 * (den as u128) {
        Band::Grass
    } else if scaled < 7 * (den as u128) {
        Band::Rock
    } else {
        Band::Snow
    }
}

/// The colour of one triangle.
#[derive(Clone, Copy, Debug, PartialEq, Eq, Structural)]
pub enum Shade {
    /// A gray whose brightness is the fraction `num / den` of full white.
    Gray { num: u64, den: u64 },
    /// A colour given as 8-bit channels.
    Rgb { red: u8, green: u8, blue: u8 },
}

/// The shade of a triangle whose three vertex levels add up to `level_sum`,
/// on a grid of `n` cells per axis. The triangle's mean height fraction is
/// `level_sum / (6 * n)`.
pub open spec fn shade_spec(n: int, level_sum: int, policy: ColorPolicy) -> Shade {
    match policy {
        ColorPolicy::Grayscale => Shade::Gray { num: level_sum as u64, den: (6 * n) as u64 },
        ColorPolicy::Banded => {
            let c = band_rgb(band_spec(level_sum, 6 * n));
            Shade::Rgb { red: c.0, green: c.1, blue: c.2 }
        },
    }
}

/// The shade of a triangle whose three vertex levels add up to `level_sum`
/// on a grid of `point_count` cells per axis.
pub fn shade_for(level_sum: u64, point_count: u32, policy: ColorPolicy) -> (r: Shade)
    ensures
        r == shade_spec(point_count as int, level_sum as int, policy),
{
    let den = 6 * (point_count as u64);
    match policy {
        ColorPolicy::Grayscale => Shade::Gray { num: level_sum, den },
        ColorPolicy::Banded => {
            let c = band_of(level_sum, den).rgb();
            Shade::Rgb { red: c.0, green: c.1, blue: c.2 }
        },
    }
}

/// One mesh vertex: grid indices along the two planar axes and the level.
#[derive(Clone, Copy, Debug, PartialEq, Eq, Structural)]
pub struct GridVertex {
    pub x: u32,
    pub z: u32,
    pub level: u64,
}

/// Whether corner `c` (`0..6`) of a cell lies one step along the x axis.
/// Corners `0, 1, 2` form the first triangle and `3, 4, 5` the second.
pub open spec fn corner_dx(c: int) -> int {
    if c == 1 || c == 2 || c == 3 { 1 } else { 0 }
}

/// Whether corner `c` (`0..6`) of a cell lies one step along the z axis.
pub open spec fn corner_dz(c: int) -> int {
    if c == 2 || c == 3 || c == 4 { 1 } else { 0 }
}

/// Grid x index of mesh vertex `j`: cells are emitted row by row along x,
/// six vertices each.
pub open spec fn vertex_x(n: int, j: int) -> int {
    (j / 6) / n + corner_dx(j % 6)
}

/// Grid z index of mesh vertex `j`.
pub open spec fn vertex_z(n: int, j: int) -> int {
    (j / 6) % n + corner_dz(j % 6)
}

/// Height level of mesh vertex `j`.
pub open spec fn vertex_level(n: int, j: int, policy: HeightPolicy) -> int {
    level_spec(n, vertex_x(n, j), vertex_z(n, j), policy)
}

/// Sum of the levels of the three vertices of triangle `t`.
pub open spec fn triangle_level_sum(n: int, t: int, policy: HeightPolicy) -> int {
    vertex_level(n, 3 * t, policy) + vertex_level(n, 3 * t + 1, policy) + vertex_level(
        n,
        3 * t + 2,
        policy,
    )
}

/// `v` is mesh vertex `j` of the grid of `n` cells per axis.
pub open spec fn is_mesh_vertex(v: GridVertex, n: int, j: int, policy: HeightPolicy) -> bool {
    &&& v.x == vertex_x(n, j)
    &&& v.z == vertex_z(n, j)
    &&& v.level == vertex_level(n, j, policy)
}

/// A generated mountain: two parallel streams, one vertex and one shade per
/// corner of each triangle, three vertices per triangle, two triangles per
/// cell.
pub struct Mountain {
    pub point_count: u32,
    pub style: TerrainStyle,
    pub vertices: Vec<GridVertex>,
    pub shades: Vec<Shade>,
}

impl Mountain {
    /// The streams hold exactly the mesh of `point_count` cells per axis.
    pub open spec fn wf(&self) -> bool {
        let n = self.point_count as int;
        &&& self.vertices@.len() == 6 * n * n
        &&& self.shades@.len() == 6 * n * n
        &&& forall|j: int|
            0 <= j < 6 * n * n ==> is_mesh_vertex(
                #[trigger] self.vertices@[j],
                n,
                j,
                self.style.height,
            )
        &&& forall|j: int|
            0 <= j < 6 * n * n ==> #[trigger] self.shades@[j] == shade_spec(
                n,
                triangle_level_sum(n, j / 3, self.style.height),
                self.style.color,
            )
    }
}

proof fn lemma_cell_index(cell: int, r: int)
    requires
        0 <= cell,
        0 <= r < 6,
    ensures
        (6 * cell + r) / 6 == cell,
        (6 * cell + r) % 6 == r,
        (6 * cell + r) / 3 == 2 * cell + r / 3,
{
}

fn corner_vertex(n: u32, cell: u64, corner: u32, policy: HeightPolicy) -> (v: GridVertex)
    requires
        n > 0,
        cell < (n as int) * (n as int),
        corner < 6,
    ensures
        is_mesh_vertex(v, n as int, 6 * cell + corner, policy),
{
    proof {
        lemma_cell_index(cell as int, corner as int);
        lemma_cell_coordinates(n as int, cell as int);
    }
    let cx = (cell / (n as u64)) as u32;
    let cz = (cell % (n as u64)) as u32;
    let dx: u32 = if corner == 1 || corner == 2 || corner == 3 { 1 } else { 0 };
    let dz: u32 = if corner == 2 || corner == 3 || corner == 4 { 1 } else { 0 };
    let x = cx + dx;
    let z = cz + dz;
    GridVertex { x, z, level: height_level(n, x, z, policy) }
}

proof fn lemma_cell_coordinates(n: int, cell: int)
    requires
        n > 0,
        0 <= cell < n * n,
    ensures
        0 <= cell / n < n,
        0 <= cell % n < n,
{
    assert(cell / n < n) by (nonlinear_arith)
        requires
            n > 0,
            0 <= cell < n * n,
    ;
    assert(0 <= cell / n) by (nonlinear_arith)
        requires
            n > 0,
            0 <= cell,
    ;
}


/// Every height level lies between the ground (`0`) and the peak (`2 * n`).
pub proof fn lemma_level_within_peak(n: int, i: int, k: int, policy: HeightPolicy)
    requires
        0 <= i <= n,
        0 <= k <= n,
    ensures
        0 <= level_spec(n, i, k, policy) <= 2 * n,
{
}

fn push_triangle(
    n: u32,
    cell: u64,
    first: u32,
    style: TerrainStyle,
    vertices: &mut Vec<GridVertex>,
    shades: &mut Vec<Shade>,
)
    requires
        n > 0,
        cell < (n as int) * (n as int),
        first == 0 || first == 3,
        old(vertices)@.len() == 6 * cell + first,
        old(shades)@.len() == 6 * cell + first,
    ensures
        final(vertices)@.len() == old(vertices)@.len() + 3,
        final(shades)@.len() == old(shades)@.len() + 3,
        forall|j: int|
            0 <= j < old(vertices)@.len() ==> #[trigger] final(vertices)@[j] == old(vertices)@[j],
        forall|j: int| 0 <= j < old(shades)@.len() ==> #[trigger] final(shades)@[j] == old(shades)@[j],
        forall|j: int|
            old(vertices)@.len() <= j < final(vertices)@.len() ==> is_mesh_vertex(
                #[trigger] final(vertices)@[j],
                n as int,
                j,
                style.height,
            ),
        forall|j: int|
            old(shades)@.len() <= j < final(shades)@.len() ==> #[trigger] final(shades)@[j]
                == shade_spec(n as int, triangle_level_sum(n as int, j / 3, style.height), style.color),
{
    let v0 = corner_vertex(n, cell, first, style.height);
    let v1 = corner_vertex(n, cell, first + 1, style.height);
    let v2 = corner_vertex(n, cell, first + 2, style.height);
    let ghost base = 6 * cell + first;
    proof {
        lemma_cell_coordinates(n as int, cell as int);
        lemma_level_within_peak(n as int, v0.x as int, v0.z as int, style.height);
        lemma_level_within_peak(n as int, v1.x as int, v1.z as int, style.height);
        lemma_level_within_peak(n as int, v2.x as int, v2.z as int, style.height);
        lemma_cell_index(cell as int, first as int);
        lemma_cell_index(cell as int, first as int + 1);
        lemma_cell_index(cell as int, first as int + 2);
    }
    let level_sum = v0.level + v1.level + v2.level;
    proof {
        let t = 2 * cell + first / 3;
        assert(3 * t == base);
        assert(base / 3 == t && (base + 1) / 3 == t && (base + 2) / 3 == t);
        assert(triangle_level_sum(n as int, t, style.height) == level_sum);
    }
    let shade = shade_for(level_sum, n, style.color);
    vertices.push(v0);
    vertices.push(v1);
    vertices.push(v2);
    shades.push(shade);
    shades.push(shade);
    shades.push(shade);
}

/// Generates the mountain mesh of `point_count × point_count` cells.
///
/// Cells are visited along x, and along z within each x; each cell gives two
/// triangles, whose three vertices share the shade of the triangle's mean
/// height. A grid of no cells gives empty streams.
pub fn make_mountain(point_count: u32, style: TerrainStyle) -> (m: Mountain)
    ensures
        m.point_count == point_count,
        m.style == style,
        m.wf(),
{
    let mut vertices: Vec<GridVertex> = Vec::new();
    let mut shades: Vec<Shade> = Vec::new();
    let n = point_count;
    if n == 0 {
        return Mountain { point_count, style, vertices, shades };
    }
    assert((n as int) * (n as int) <= u64::MAX) by (nonlinear_arith)
        requires
            n <= u32::MAX,
    ;
    let total: u64 = (n as u64) * (n as u64);
    let mut cell: u64 = 0;
    while cell < total
        invariant
            n > 0,
            total == (n as int) * (n as int),
            cell <= total,
            vertices@.len() == 6 * cell,
            shades@.len() == 6 * cell,
            forall|j: int|
                0 <= j < 6 * cell ==> is_mesh_vertex(
                    #[trigger] vertices@[j],
                    n as int,
                    j,
                    style.height,
                ),
            forall|j: int|
                0 <= j < 6 * cell ==> #[trigger] shades@[j] == shade_spec(
                    n as int,
                    triangle_level_sum(n as int, j / 3, style.height),
                    style.color,
                ),
        decreases total - cell,
    {
        push_triangle(n, cell, 0, style, &mut vertices, &mut shades);
        push_triangle(n, cell, 3, style, &mut vertices, &mut shades);
        cell = cell + 1;
    }
    assert(6 * (n as int) * (n as int) == 6 * ((n as int) * (n as int))) by (nonlinear_arith);
    Mountain { point_count, style, vertices, shades }
}


/// Every vertex of a generated mesh lies on the grid and between the ground
/// and the peak.
pub proof fn lemma_mesh_within_bounds(n: int, j: int, policy: HeightPolicy)
    requires
        n > 0,
        0 <= j < 6 * n * n,
    ensures
        0 <= vertex_x(n, j) <= n,
        0 <= vertex_z(n, j) <= n,
        0 <= vertex_level(n, j, policy) <= 2 * n,
{
    assert(j / 6 < n * n) by (nonlinear_arith)
        requires
            0 <= j < 6 * n * n,
    ;
    lemma_cell_coordinates(n, j / 6);
    lemma_level_within_peak(n, vertex_x(n, j), vertex_z(n, j), policy);
}

/// The four corners of the footprint are at ground level.
pub proof fn lemma_corners_at_ground(n: int, policy: HeightPolicy)
    requires
        n > 0,
    ensures
        level_spec(n, 0, 0, policy) == 0,
        level_spec(n, 0, n, policy) == 0,
        level_spec(n, n, 0, policy) == 0,
        level_spec(n, n, n, policy) == 0,
{
}

/// Mirroring a point across either axis through the centre keeps its height.
pub proof fn lemma_height_symmetric(n: int, i: int, k: int, policy: HeightPolicy)
    requires
        0 <= i <= n,
        0 <= k <= n,
    ensures
        level_spec(n, i, k, policy) == level_spec(n, n - i, k, policy),
        level_spec(n, i, k, policy) == level_spec(n, i, n - k, policy),
        level_spec(n, i, k, policy) == level_spec(n, n - i, n - k, policy),
{
    assert(axis_rise(n, i) == axis_rise(n, n - i));
    assert(axis_rise(n, k) == axis_rise(n, n - k));
}

/// The bands split the fractions `[0, 1]` into `[0, 0.4)`, `[0.4, 0.7)` and
/// `[0.7, 1]`, and each band has a colour of its own.
pub proof fn lemma_bands_partition(num: int, den: int)
    requires
        den > 0,
        0 <= num <= den,
    ensures
        (band_spec(num, den) == Band::Grass) <==> 10 * num < 4 * den,
        (band_spec(num, den) == Band::Rock) <==> (4 * den <= 10 * num && 10 * num < 7 * den),
        (band_spec(num, den) == Band::Snow) <==> 7 * den <= 10 * num,
        band_rgb(Band::Grass) != band_rgb(Band::Rock),
        band_rgb(Band::Grass) != band_rgb(Band::Snow),
        band_rgb(Band::Rock) != band_rgb(Band::Snow),
{
}


/// Every vertex of a generated mountain lies on its grid, between the ground
/// and the peak, and the streams pair one shade with each vertex.
pub proof fn lemma_mountain_within_bounds(m: Mountain, j: int)
    requires
        m.wf(),
        0 <= j < m.vertices@.len(),
    ensures
        m.vertices@.len() == m.shades@.len(),
        m.vertices@[j].x <= m.point_count,
        m.vertices@[j].z <= m.point_count,
        m.vertices@[j].level <= 2 * m.point_count,
{
    lemma_mesh_within_bounds(m.point_count as int, j, m.style.height);
}

/// Under the banded palette a triangle whose mean height fraction
/// `level_sum / (6 * n)` lies in `[0, 0.4)`, `[0.4, 0.7)` or `[0.7, 1]` gets
/// the grass, rock or snow colour respectively, and no other.
pub proof fn lemma_banded_shades(n: int, level_sum: int)
    requires
        n > 0,
        0 <= level_sum <= 6 * n,
    ensures
        10 * level_sum < 24 * n ==> shade_spec(n, level_sum, ColorPolicy::Banded)
            == (Shade::Rgb { red: 52, green: 175, blue: 45 }),
        24 * n <= 10 * level_sum < 42 * n ==> shade_spec(n, level_sum, ColorPolicy::Banded)
            == (Shade::Rgb { red: 41, green: 52, blue: 61 }),
        42 * n <= 10 * level_sum ==> shade_spec(n, level_sum, ColorPolicy::Banded)
            == (Shade::Rgb { red: 227, green: 239, blue: 249 }),
{
    lemma_bands_partition(level_sum, 6 * n);
}

} // verus!
