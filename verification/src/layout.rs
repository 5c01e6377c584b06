use vstd::prelude::*;

verus! {

/// Bytes taken by one 32-bit float component.
pub const F32_BYTES: u32 = 4;

/// One attribute of an interleaved vertex: its shader location, how many
/// float components it has, and where it starts within a vertex.
#[derive(Debug, PartialEq, Eq, Clone, Copy, Structural)]
pub struct VertexAttribute {
    pub location: u32,
    pub components: i32,
    pub offset_bytes: u32,
}

/// The layout of a buffer whose vertices hold their attributes one after the
/// other: the bytes from one vertex to the next, and each attribute.
#[derive(Debug)]
pub struct VertexLayout {
    pub stride_bytes: i32,
    pub attributes: Vec<VertexAttribute>,
}

/// The number of float components that come before attribute `i`.
pub open spec fn floats_before(components: Seq<u32>, i: int) -> int
    decreases i,
{
    if i <= 0 {
        0
    } else {
        floats_before(components, i - 1) + components[i - 1]
    }
}

/// The number of float components in one vertex.
pub open spec fn floats_per_vertex(components: Seq<u32>) -> int {
    floats_before(components, components.len() as int)
}

/// Attribute `i` of the layout of `components`: location `i`, its components,
/// and the bytes of all components before it as its offset.
pub open spec fn attribute_of(components: Seq<u32>, i: int) -> VertexAttribute {
    VertexAttribute {
        location: i as u32,
        components: components[i] as i32,
        offset_bytes: (4 * floats_before(components, i)) as u32,
    }
}

/// Counting more attributes never counts fewer components.
proof fn lemma_floats_before_monotonic(components: Seq<u32>, i: int, j: int)
    requires
        0 <= i <= j <= components.len(),
    ensures
        0 <= floats_before(components, i) <= floats_before(components, j),
    decreases j - i,
{
    if i < j {
        lemma_floats_before_monotonic(components, i, j - 1);
        assert(floats_before(components, j) == floats_before(components, j - 1) + components[j
            - 1]);
    } else {
        lemma_floats_before_nonnegative(components, i);
    }
}

proof fn lemma_floats_before_nonnegative(components: Seq<u32>, i: int)
    ensures
        floats_before(components, i) >= 0,
    decreases i,
{
    if i > 0 {
        lemma_floats_before_nonnegative(components, i - 1);
    }
}

/// The layout of interleaved float attributes with the given component
/// counts, attribute `i` at location `i`: each attribute starts where the one
/// before it ends, and the stride is the size of a whole vertex.
pub fn interleaved_f32_layout(components: &[u32]) -> (layout: VertexLayout)
    requires
        components@.len() <= u32::MAX,
        4 * floats_per_vertex(components@) <= i32::MAX,
    ensures
        layout.stride_bytes == 4 * floats_per_vertex(components@),
        layout.attributes@.len() == components@.len(),
        forall|i: int|
            0 <= i < components@.len() ==> #[trigger] layout.attributes@[i].location == i
                && layout.attributes@[i].components == components@[i],
        forall|i: int|
            0 <= i < components@.len() ==> #[trigger] layout.attributes@[i] == attribute_of(
                components@,
                i,
            ),
{
    let n = components.len();
    let mut attributes: Vec<VertexAttribute> = Vec::new();
    let mut floats: u32 = 0;
    let mut i: usize = 0;
    while i < n
        invariant
            n == components@.len(),
            n <= u32::MAX,
            4 * floats_per_vertex(components@) <= i32::MAX,
            i <= n,
            floats == floats_before(components@, i as int),
            attributes@.len() == i,
            forall|k: int|
                0 <= k < i ==> #[trigger] attributes@[k] == attribute_of(components@, k),
        decreases n - i,
    {
        proof {
            lemma_floats_before_monotonic(components@, i + 1, n as int);
            assert(floats_before(components@, i + 1) == floats_before(components@, i as int)
                + components@[i as int]);
        }
        let c = components[i];
        attributes.push(
            VertexAttribute {
                location: i as u32,
                components: c as i32,
                offset_bytes: floats * F32_BYTES,
            },
        );
        floats = floats + c;
        i = i + 1;
    }
    proof {
        assert forall|i: int| 0 <= i < components@.len() implies #[trigger] attributes@[i].location
            == i && attributes@[i].components == components@[i] by {
            lemma_attribute_locations(components@, i);
        }
    }
    VertexLayout { stride_bytes: (floats * F32_BYTES) as i32, attributes }
}

/// Attribute `i` of a layout is read from shader location `i` and has the
/// `i`-th component count, for every list of component counts.
pub proof fn lemma_attribute_locations(components: Seq<u32>, i: int)
    requires
        components.len() <= u32::MAX,
        4 * floats_per_vertex(components) <= i32::MAX,
        0 <= i < components.len(),
    ensures
        attribute_of(components, i).location == i,
        attribute_of(components, i).components == components[i],
{
    lemma_floats_before_monotonic(components, i + 1, components.len() as int);
    lemma_floats_before_monotonic(components, 0, i);
    assert(floats_before(components, i + 1) == floats_before(components, i) + components[i]);
}

/// Consecutive attributes abut: each starts where the one before it ends, the
/// first at the start of the vertex, and the last ends at the stride.
pub proof fn lemma_attributes_abut(components: Seq<u32>, i: int)
    requires
        4 * floats_per_vertex(components) <= i32::MAX,
        0 <= i < components.len(),
    ensures
        attribute_of(components, 0).offset_bytes == 0,
        i + 1 < components.len() ==> attribute_of(components, i + 1).offset_bytes == attribute_of(
            components,
            i,
        ).offset_bytes + 4 * components[i],
        i + 1 == components.len() ==> attribute_of(components, i).offset_bytes + 4 * components[i]
            == 4 * floats_per_vertex(components),
{
    lemma_floats_before_monotonic(components, i + 1, components.len() as int);
    lemma_floats_before_monotonic(components, i, i + 1);
    if i + 1 < components.len() {
        lemma_floats_before_monotonic(components, i + 2, components.len() as int);
        lemma_floats_before_monotonic(components, i + 1, i + 2);
    }
}

} // verus!
