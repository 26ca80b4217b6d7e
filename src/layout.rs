//! Byte layout of the interleaved vertex stream uploaded to the GPU.
//!
//! A vertex is a position followed by a colour, each three 4-byte
//! components, packed without padding.
use vstd::prelude::*;

verus! {

/// Bytes in one vertex component.
pub const COMPONENT_BYTES: usize = 4;

/// Components in one attribute (x, y, z or red, green, blue).
pub const ATTRIBUTE_COMPONENTS: usize = 3;

/// Bytes in one attribute.
pub const ATTRIBUTE_BYTES: usize = 12;

/// Bytes from the start of one vertex to the start of the next.
pub const VERTEX_STRIDE: usize = 24;

/// Where one vertex attribute is found in the stream.
#[derive(Clone, Copy, Debug, PartialEq, Eq, Structural)]
pub struct AttributeLayout {
    /// The shader's `layout (location = ..)` slot.
    pub location: u32,
    /// Components per vertex.
    pub components: i32,
    /// Bytes between consecutive vertices.
    pub stride: i32,
    /// Byte offset of the attribute inside a vertex.
    pub offset: usize,
}

/// The position attribute: slot 0, at the start of each vertex.
pub open spec fn position_attribute() -> AttributeLayout {
    AttributeLayout { location: 0, components: 3, stride: 24, offset: 0 }
}

/// The colour attribute: slot 1, right after the position.
pub open spec fn color_attribute() -> AttributeLayout {
    AttributeLayout { location: 1, components: 3, stride: 24, offset: 12 }
}

/// The attributes of a vertex, in slot order.
pub fn vertex_attributes() -> (r: Vec<AttributeLayout>)
    ensures
        r@ == seq![position_attribute(), color_attribute()],
{
    let stride = VERTEX_STRIDE as i32;
    let components = ATTRIBUTE_COMPONENTS as i32;
    let mut r: Vec<AttributeLayout> = Vec::new();
    r.push(AttributeLayout { location: 0, components, stride, offset: 0 });
    r.push(AttributeLayout { location: 1, components, stride, offset: ATTRIBUTE_BYTES });
    assert(r@ =~= seq![position_attribute(), color_attribute()]);
    r
}

/// Size in bytes of the buffer holding `vertex_count` vertices, or `None`
/// where it exceeds what a buffer size (`isize`) can hold.
pub fn vertex_buffer_bytes(vertex_count: usize) -> (r: Option<isize>)
    ensures
        r == (if vertex_count * VERTEX_STRIDE <= isize::MAX {
            Some((vertex_count * VERTEX_STRIDE) as isize)
        } else {
            None
        }),
{
    if vertex_count <= (isize::MAX as usize) / VERTEX_STRIDE {
        Some((vertex_count * VERTEX_STRIDE) as isize)
    } else {
        None
    }
}

/// The vertex count of a draw call over `vertex_count` vertices, or `None`
/// where it exceeds what a draw call (`i32`) can take.
pub fn draw_count(vertex_count: usize) -> (r: Option<i32>)
    ensures
        r == (if vertex_count <= i32::MAX {
            Some(vertex_count as i32)
        } else {
            None
        }),
{
    if vertex_count <= i32::MAX as usize {
        Some(vertex_count as i32)
    } else {
        None
    }
}

/// Pairs each position with the colour at the same index. Streams of
/// different lengths do not describe a mesh and give `None`.
pub fn pair_streams<T: Copy>(positions: &Vec<T>, colors: &Vec<T>) -> (r: Option<Vec<(T, T)>>)
    ensures
        positions@.len() != colors@.len() ==> r is None,
        positions@.len() == colors@.len() ==> (r matches Some(v) && v@.len() == positions@.len()
            && forall|i: int| 0 <= i < v@.len() ==> #[trigger] v@[i] == (positions@[i], colors@[i])),
{
    if positions.len() != colors.len() {
        return None;
    }
    let mut v: Vec<(T, T)> = Vec::new();
    let mut i: usize = 0;
    while i < positions.len()
        invariant
            positions@.len() == colors@.len(),
            i <= positions@.len(),
            v@.len() == i,
            forall|j: int| 0 <= j < i ==> #[trigger] v@[j] == (positions@[j], colors@[j]),
        decreases positions@.len() - i,
    {
        v.push((positions[i], colors[i]));
        i = i + 1;
    }
    Some(v)
}

} // verus!
