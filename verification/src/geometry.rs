//! The fixed scene geometry: one triangle of three colored vertices.

use vstd::prelude::*;

verus! {

/// Raw bit pattern of the single-precision value 0.0.
pub const F32_ZERO_BITS: u32 = 0x0000_0000;

/// Raw bit pattern of the single-precision value 1.0.
pub const F32_ONE_BITS: u32 = 0x3F80_0000;

/// Raw bit pattern of the single-precision value 0.5.
pub const F32_HALF_BITS: u32 = 0x3F00_0000;

/// Raw bit pattern of the single-precision value -0.25.
pub const F32_NEG_QUARTER_BITS: u32 = 0xBE80_0000;

/// Raw bit pattern of the single-precision value nearest to sqrt(3)/4.
pub const F32_SQRT3_OVER_4_BITS: u32 = 0x3EDD_B3D7;

/// Raw bit pattern of the single-precision value nearest to -sqrt(3)/4.
pub const F32_NEG_SQRT3_OVER_4_BITS: u32 = 0xBEDD_B3D7;

/// Three packed single-precision components, each held as its raw bit
/// pattern. The model never does arithmetic on these bits; it only stores
/// them and compares them exactly, so the geometry it promises is exact
/// down to the last bit.
#[derive(Copy, Clone, Debug, PartialEq, Eq, Structural)]
pub struct Vec3Bits {
    pub x: u32,
    pub y: u32,
    pub z: u32,
}

/// One vertex of the scene: a position and a color, both packed
/// three-component vectors.
#[derive(Copy, Clone, Debug, PartialEq, Eq, Structural)]
pub struct Vertex {
    pub position: Vec3Bits,
    pub color: Vec3Bits,
}

/// Pure red: components (1, 0, 0).
pub open spec fn color_red() -> Vec3Bits {
    Vec3Bits { x: F32_ONE_BITS, y: F32_ZERO_BITS, z: F32_ZERO_BITS }
}

/// Pure green: components (0, 1, 0).
pub open spec fn color_green() -> Vec3Bits {
    Vec3Bits { x: F32_ZERO_BITS, y: F32_ONE_BITS, z: F32_ZERO_BITS }
}

/// Pure blue: components (0, 0, 1).
pub open spec fn color_blue() -> Vec3Bits {
    Vec3Bits { x: F32_ZERO_BITS, y: F32_ZERO_BITS, z: F32_ONE_BITS }
}

/// The fixed vertex array: an equilateral triangle centered near the
/// origin, with a red lower-left vertex, a green lower-right vertex and a
/// blue top vertex, in that winding order.
pub open spec fn triangle_vertices_spec() -> Seq<Vertex> {
    seq![
        Vertex {
            position: Vec3Bits {
                x: F32_NEG_SQRT3_OVER_4_BITS,
                y: F32_NEG_QUARTER_BITS,
                z: F32_ZERO_BITS,
            },
            color: color_red(),
        },
        Vertex {
            position: Vec3Bits {
                x: F32_SQRT3_OVER_4_BITS,
                y: F32_NEG_QUARTER_BITS,
                z: F32_ZERO_BITS,
            },
            color: color_green(),
        },
        Vertex {
            position: Vec3Bits {
                x: F32_ZERO_BITS,
                y: F32_HALF_BITS,
                z: F32_ZERO_BITS,
            },
            color: color_blue(),
        },
    ]
}

/// Builds the vertex array that every frame encodes. The result is always
/// exactly the three fixed vertices, independent of any host state.
pub fn triangle_vertices() -> (r: Vec<Vertex>)
    ensures
        r@ == triangle_vertices_spec(),
{
    let mut r: Vec<Vertex> = Vec::new();
    r.push(Vertex {
        position: Vec3Bits {
            x: F32_NEG_SQRT3_OVER_4_BITS,
            y: F32_NEG_QUARTER_BITS,
            z: F32_ZERO_BITS,
        },
        color: Vec3Bits { x: F32_ONE_BITS, y: F32_ZERO_BITS, z: F32_ZERO_BITS },
    });
    r.push(Vertex {
        position: Vec3Bits {
            x: F32_SQRT3_OVER_4_BITS,
            y: F32_NEG_QUARTER_BITS,
            z: F32_ZERO_BITS,
        },
        color: Vec3Bits { x: F32_ZERO_BITS, y: F32_ONE_BITS, z: F32_ZERO_BITS },
    });
    r.push(Vertex {
        position: Vec3Bits {
            x: F32_ZERO_BITS,
            y: F32_HALF_BITS,
            z: F32_ZERO_BITS,
        },
        color: Vec3Bits { x: F32_ZERO_BITS, y: F32_ZERO_BITS, z: F32_ONE_BITS },
    });
    proof {
        assert(r@ =~= triangle_vertices_spec());
    }
    r
}

/// The geometry is fixed: the encoded vertex array always holds exactly
/// three vertices, colored pure red, pure green and pure blue in order,
/// whatever the frame count or elapsed time.
pub proof fn lemma_fixed_geometry()
    ensures
        triangle_vertices_spec().len() == 3,
        triangle_vertices_spec()[0].color == color_red(),
        triangle_vertices_spec()[1].color == color_green(),
        triangle_vertices_spec()[2].color == color_blue(),
{
}

} // verus!
