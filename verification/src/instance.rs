use vstd::prelude::*;
use crate::model::{VertexAttribute, VertexBufferLayout, VertexFormat, VertexStepMode, bytes_before};

verus! {

/// How an instance is turned.
#[derive(Clone, Copy, Debug, PartialEq, Eq, Structural)]
pub enum Rotation {
    /// No turn at all: an angle of zero about the z axis. It goes to the
    /// instance at the centre of the grid, the one place where the
    /// position may be the origin and give no axis.
    ZeroAboutZ,
    /// 45 degrees about the axis that points from the origin to the
    /// instance's own position.
    TiltAboutPosition,
}

/// A point with whole-numbered coordinates.
#[derive(Clone, Copy, Debug, PartialEq, Eq, Structural)]
pub struct GridPoint {
    pub x: i64,
    pub y: i64,
    pub z: i64,
}

impl GridPoint {
    /// The point stands at the centre of its grid: neither to the side
    /// of the origin nor before or behind it, at whatever height.
    pub open spec fn is_centre_spec(self) -> bool {
        self.x == 0 && self.z == 0
    }

    pub fn is_centre(&self) -> (r: bool)
        ensures
            r == self.is_centre_spec(),
    {
        self.x == 0 && self.z == 0
    }
}

/// One copy of a mesh: where it stands and how it is turned.
#[derive(Clone, Copy, Debug, PartialEq, Eq, Structural)]
pub struct Instance {
    pub position: GridPoint,
    pub rotation: Rotation,
}

/// A grid of instances in the plane `y = height`: `per_row` instances to a
/// row along x, rows along z, neighbours `step` apart, the whole grid
/// moved back by `displacement` along x and z.
#[derive(Clone, Copy, Debug, PartialEq, Eq, Structural)]
pub struct GridLayout {
    pub per_row: u32,
    pub step: u16,
    pub height: i32,
    pub displacement: u32,
}

impl GridLayout {
    /// The rotation that goes with a position: none at the centre of the
    /// grid, the tilt everywhere else.
    pub open spec fn rotation_for(p: GridPoint) -> Rotation {
        if p.is_centre_spec() {
            Rotation::ZeroAboutZ
        } else {
            Rotation::TiltAboutPosition
        }
    }

    /// Position of the instance in column `col` of row `row`.
    pub open spec fn position_at(self, row: int, col: int) -> GridPoint {
        GridPoint {
            x: (col * self.step - self.displacement) as i64,
            y: self.height as i64,
            z: (row * self.step - self.displacement) as i64,
        }
    }

    /// The instance in column `col` of row `row`.
    pub open spec fn instance_at(self, row: int, col: int) -> Instance {
        Instance {
            position: self.position_at(row, col),
            rotation: Self::rotation_for(self.position_at(row, col)),
        }
    }

    /// The whole grid, row after row.
    pub open spec fn instances(self, rows: int) -> Seq<Instance> {
        Seq::new(
            (rows * self.per_row) as nat,
            |i: int| self.instance_at(i / (self.per_row as int), i % (self.per_row as int)),
        )
    }

    /// Column `col` of row `row` is the centre of the grid: the
    /// displacement takes it back to x = 0 and z = 0.
    pub open spec fn is_centre(self, rows: int, row: int, col: int) -> bool {
        &&& 0 <= row < rows
        &&& 0 <= col < self.per_row
        &&& col * self.step == self.displacement
        &&& row * self.step == self.displacement
    }

    /// A grid of `rows` rows can be built: its instances can be counted
    /// in a `usize`, and the z of its last row fits a coordinate.
    pub open spec fn fits(self, rows: int) -> bool {
        &&& rows * self.per_row <= usize::MAX
        &&& rows * self.step <= i64::MAX
    }

    /// Builds the instance in column `col` of row `row`.
    pub fn place(&self, row: usize, col: u32) -> (inst: Instance)
        requires
            row * self.step <= i64::MAX,
        ensures
            inst == self.instance_at(row as int, col as int),
    {
        assert(0 <= (col as int) * (self.step as int) <= 0xffff_ffff * 0xffff)
            by (nonlinear_arith)
            requires
                0 <= col <= 0xffff_ffff,
                0 <= self.step <= 0xffff,
        ;
        assert(0 <= (row as int) * (self.step as int)) by (nonlinear_arith)
            requires
                0 <= row,
                0 <= self.step,
        ;
        let x: i64 = (col as i64) * (self.step as i64) - (self.displacement as i64);
        let along: i64 = if self.step == 0 {
            0
        } else {
            assert(row <= row * self.step) by (nonlinear_arith)
                requires
                    0 <= row,
                    1 <= self.step,
            ;
            (row as i64) * (self.step as i64)
        };
        let z: i64 = along - (self.displacement as i64);
        let position = GridPoint { x, y: self.height as i64, z };
        let rotation = if position.is_centre() {
            Rotation::ZeroAboutZ
        } else {
            Rotation::TiltAboutPosition
        };
        Instance { position, rotation }
    }

    /// Builds the grid with `rows` rows, row after row.
    pub fn create_instances(&self, rows: usize) -> (out: Vec<Instance>)
        requires
            self.fits(rows as int),
        ensures
            out@ == self.instances(rows as int),
            out@.len() == rows * self.per_row,
    {
        let mut out: Vec<Instance> = Vec::new();
        let mut row: usize = 0;
        while row < rows
            invariant
                0 <= row <= rows,
                self.fits(rows as int),
                out@ == self.instances(row as int),
            decreases rows - row,
        {
            let mut col: u32 = 0;
            while col < self.per_row
                invariant
                    0 <= row < rows,
                    self.fits(rows as int),
                    0 <= col <= self.per_row,
                    out@.len() == row * self.per_row + col,
                    forall|i: int|
                        0 <= i < out@.len() ==> out@[i] == self.instance_at(
                            i / (self.per_row as int),
                            i % (self.per_row as int),
                        ),
                decreases self.per_row - col,
            {
                proof {
                    assert(row * self.step <= rows * self.step) by (nonlinear_arith)
                        requires
                            0 <= row < rows,
                            0 <= self.step,
                    ;
                }
                let inst = self.place(row, col);
                proof {
                    lemma_row_col(row as int, col as int, self.per_row as int);
                }
                out.push(inst);
                col += 1;
            }
            proof {
                assert((row + 1) * self.per_row == row * self.per_row + self.per_row)
                    by (nonlinear_arith);
                assert(out@ =~= self.instances(row as int + 1));
            }
            row += 1;
        }
        out
    }
}

/// Bytes of one instance in the instance buffer: a 4x4 matrix.
pub const INSTANCE_BYTES: u64 = 64;

/// Layout of the instance buffer: the four columns of the instance's
/// matrix at locations 5 to 8, sixty-four bytes an instance.
pub fn instance_layout() -> (layout: VertexBufferLayout)
    ensures
        layout.array_stride == INSTANCE_BYTES,
        layout.step_mode == VertexStepMode::Instance,
        layout.attributes@ == seq![
            VertexAttribute { format: VertexFormat::Float32x4, offset: 0, shader_location: 5 },
            VertexAttribute { format: VertexFormat::Float32x4, offset: 16, shader_location: 6 },
            VertexAttribute { format: VertexFormat::Float32x4, offset: 32, shader_location: 7 },
            VertexAttribute { format: VertexFormat::Float32x4, offset: 48, shader_location: 8 },
        ],
{
    let mut formats: Vec<VertexFormat> = Vec::new();
    formats.push(VertexFormat::Float32x4);
    formats.push(VertexFormat::Float32x4);
    formats.push(VertexFormat::Float32x4);
    formats.push(VertexFormat::Float32x4);
    let layout = VertexBufferLayout::packed(VertexStepMode::Instance, 5, &formats);
    proof {
        reveal_with_fuel(bytes_before, 5);
        assert(layout.attributes@ =~= seq![
            VertexAttribute { format: VertexFormat::Float32x4, offset: 0, shader_location: 5 },
            VertexAttribute { format: VertexFormat::Float32x4, offset: 16, shader_location: 6 },
            VertexAttribute { format: VertexFormat::Float32x4, offset: 32, shader_location: 7 },
            VertexAttribute { format: VertexFormat::Float32x4, offset: 48, shader_location: 8 },
        ]);
    }
    layout
}

/// Row and column of the grid index `row * n + col`.
pub proof fn lemma_row_col(row: int, col: int, n: int)
    requires
        0 <= row,
        0 <= col < n,
    ensures
        (row * n + col) / n == row,
        (row * n + col) % n == col,
{
    vstd::arithmetic::div_mod::lemma_fundamental_div_mod_converse(row * n + col, n, row, col);
}

/// The grid has `rows * per_row` instances; the one in column `col` of
/// row `row` has index `row * per_row + col`, and its neighbour in the
/// next column stands `step` further along x, its neighbour in the next
/// row `step` further along z, all at the same height.
pub proof fn lemma_evenly_spaced(layout: GridLayout, rows: int, row: int, col: int)
    requires
        0 <= row < rows,
        0 <= col < layout.per_row,
        layout.fits(rows),
    ensures
        layout.instances(rows).len() == rows * layout.per_row,
        0 <= row * layout.per_row + col < rows * layout.per_row,
        layout.instances(rows)[row * layout.per_row + col] == layout.instance_at(row, col),
        layout.instance_at(row, col).position.x == col * layout.step - layout.displacement,
        layout.instance_at(row, col).position.y == layout.height,
        layout.instance_at(row, col).position.z == row * layout.step - layout.displacement,
        col + 1 < layout.per_row ==> layout.instance_at(row, col + 1).position.x
            - layout.instance_at(row, col).position.x == layout.step,
        row + 1 < rows ==> layout.instance_at(row + 1, col).position.z - layout.instance_at(
            row,
            col,
        ).position.z == layout.step,
{
    let n = layout.per_row as int;
    let step = layout.step as int;
    lemma_row_col(row, col, n);
    assert(0 <= rows * n) by (nonlinear_arith)
        requires
            0 <= rows,
            0 <= n,
    ;
    assert(row * n + col < rows * n) by (nonlinear_arith)
        requires
            0 <= row < rows,
            0 <= col < n,
    ;
    assert(0 <= row * n) by (nonlinear_arith)
        requires
            0 <= row,
            0 <= n,
    ;
    assert(0 <= col * step <= 0xffff_ffff * 0xffff && (col + 1) * step == col * step + step)
        by (nonlinear_arith)
        requires
            0 <= col < 0xffff_ffff,
            0 <= step <= 0xffff,
    ;
    assert(0 <= row * step && (row + 1) * step == row * step + step && (row + 1) * step <= rows
        * step) by (nonlinear_arith)
        requires
            0 <= row < rows,
            0 <= step,
    ;
}

/// An instance has the zero rotation if it stands at the centre of the
/// grid, and the tilt about its own position if it stands anywhere else;
/// so the axis of a tilt is never the zero vector.
pub proof fn lemma_zero_rotation_only_at_centre(layout: GridLayout, rows: int, i: int)
    requires
        0 <= rows,
        0 <= i < rows * layout.per_row,
    ensures
        layout.instances(rows)[i].rotation == Rotation::ZeroAboutZ <==> layout.instances(
            rows,
        )[i].position.is_centre_spec(),
        layout.instances(rows)[i].rotation == Rotation::TiltAboutPosition <==> !layout.instances(
            rows,
        )[i].position.is_centre_spec(),
        layout.instances(rows)[i].rotation == Rotation::TiltAboutPosition ==> layout.instances(
            rows,
        )[i].position != (GridPoint { x: 0, y: 0, z: 0 }),
{
}

/// The instance at the centre of the grid has the zero rotation, at
/// whatever height the grid lies.
pub proof fn lemma_centre_gets_zero_rotation(layout: GridLayout, rows: int, row: int, col: int)
    requires
        layout.is_centre(rows, row, col),
    ensures
        0 <= row * layout.per_row + col < layout.instances(rows).len(),
        layout.instances(rows)[row * layout.per_row + col].position == (GridPoint {
            x: 0,
            y: layout.height as i64,
            z: 0,
        }),
        layout.instances(rows)[row * layout.per_row + col].rotation == Rotation::ZeroAboutZ,
{
    let n = layout.per_row as int;
    lemma_row_col(row, col, n);
    assert(0 <= rows * n) by (nonlinear_arith)
        requires
            0 <= rows,
            0 <= n,
    ;
    assert(0 <= row * n + col < rows * n) by (nonlinear_arith)
        requires
            0 <= row < rows,
            0 <= col < n,
    ;
}

} // verus!
