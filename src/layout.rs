//! Vertex buffer layouts: how the shader reads the per-vertex and the
//! per-instance records.
//!
//! Attributes are packed one after another in the order given, so each
//! offset is the total size of the attributes before it and the stride is
//! the size of all of them.

use vstd::prelude::*;

verus! {

/// The type of one vertex attribute.
#[derive(Clone, Copy, Debug, PartialEq, Eq, Structural)]
pub enum VertexFormat {
    /// Three 32-bit floats.
    Float32x3,
    /// Four 32-bit floats.
    Float32x4,
}

/// Whether a buffer advances once per vertex or once per instance.
#[derive(Clone, Copy, Debug, PartialEq, Eq, Structural)]
pub enum VertexStepMode {
    Vertex,
    Instance,
}

/// Where one attribute sits in a record and which shader input it feeds.
#[derive(Clone, Copy, Debug, PartialEq, Eq, Structural)]
pub struct VertexAttribute {
    pub offset: u64,
    pub shader_location: u32,
    pub format: VertexFormat,
}

/// The layout of one vertex buffer.
#[derive(Debug)]
pub struct VertexBufferLayout {
    pub array_stride: u64,
    pub step_mode: VertexStepMode,
    pub attributes: Vec<VertexAttribute>,
}

/// The size in bytes of an attribute of the given format.
pub open spec fn format_size_spec(f: VertexFormat) -> nat {
    match f {
        VertexFormat::Float32x3 => 12,
        VertexFormat::Float32x4 => 16,
    }
}

/// The size in bytes of an attribute of the given format: four bytes for
/// each float.
pub fn format_size(f: VertexFormat) -> (r: u64)
    ensures
        r == format_size_spec(f),
{
    match f {
        VertexFormat::Float32x3 => 12,
        VertexFormat::Float32x4 => 16,
    }
}

/// The total size of the first `n` fields.
pub open spec fn packed_offset(fields: Seq<(u32, VertexFormat)>, n: int) -> nat
    decreases n,
{
    if n <= 0 {
        0
    } else {
        packed_offset(fields, n - 1) + format_size_spec(fields[n - 1].1)
    }
}

/// The attributes of a layout follow one another with no gap and no
/// overlap, the first at offset zero, and the stride ends with the last.
pub open spec fn is_packed(l: VertexBufferLayout) -> bool {
    let a = l.attributes@;
    &&& a.len() > 0 ==> a[0].offset == 0
    &&& forall|i: int|
        0 <= i < a.len() - 1 ==> #[trigger] a[i].offset + format_size_spec(a[i].format) == a[i
            + 1].offset
    &&& a.len() > 0 ==> a[a.len() - 1].offset + format_size_spec(a[a.len() - 1].format)
        == l.array_stride
    &&& a.len() == 0 ==> l.array_stride == 0
}

proof fn packed_offset_bound(fields: Seq<(u32, VertexFormat)>, n: int)
    requires
        0 <= n,
    ensures
        packed_offset(fields, n) <= 16 * n,
    decreases n,
{
    if n > 0 {
        packed_offset_bound(fields, n - 1);
    }
}

/// The layout that reads the given (shader location, format) fields packed
/// in that order.
pub fn packed_layout(step_mode: VertexStepMode, fields: &[(u32, VertexFormat)]) -> (r:
    VertexBufferLayout)
    requires
        16 * fields@.len() <= u64::MAX,
    ensures
        r.step_mode == step_mode,
        r.array_stride == packed_offset(fields@, fields@.len() as int),
        r.attributes@.len() == fields@.len(),
        forall|i: int|
            0 <= i < fields@.len() ==> #[trigger] r.attributes@[i] == (VertexAttribute {
                offset: packed_offset(fields@, i) as u64,
                shader_location: fields@[i].0,
                format: fields@[i].1,
            }),
        is_packed(r),
{
    let mut attributes: Vec<VertexAttribute> = Vec::new();
    let mut offset: u64 = 0;
    for i in 0..fields.len()
        invariant
            16 * fields@.len() <= u64::MAX,
            offset == packed_offset(fields@, i as int),
            attributes@.len() == i,
            forall|j: int|
                0 <= j < i ==> #[trigger] attributes@[j] == (VertexAttribute {
                    offset: packed_offset(fields@, j) as u64,
                    shader_location: fields@[j].0,
                    format: fields@[j].1,
                }),
    {
        proof {
            packed_offset_bound(fields@, i as int);
        }
        let (shader_location, format) = fields[i];
        attributes.push(VertexAttribute { offset, shader_location, format });
        offset = offset + format_size(format);
    }
    let r = VertexBufferLayout { array_stride: offset, step_mode, attributes };
    proof {
        let a = r.attributes@;
        let n = fields@.len() as int;
        assert forall|i: int| 0 <= i < a.len() - 1 implies #[trigger] a[i].offset
            + format_size_spec(a[i].format) == a[i + 1].offset by {
            packed_offset_bound(fields@, i + 1);
        }
        if n > 0 {
            packed_offset_bound(fields@, n);
        }
    }
    r
}

/// The layout of the cube's vertex buffer: one position of three floats per
/// vertex, at shader location 0.
pub fn vertex_layout() -> (r: VertexBufferLayout)
    ensures
        r.step_mode == VertexStepMode::Vertex,
        r.array_stride == 12,
        r.attributes@ == seq![
            VertexAttribute { offset: 0, shader_location: 0, format: VertexFormat::Float32x3 },
        ],
        is_packed(r),
{
    let fields: [(u32, VertexFormat); 1] = [(0, VertexFormat::Float32x3)];
    let r = packed_layout(VertexStepMode::Vertex, &fields);
    assert(r.attributes@ =~= seq![
        VertexAttribute { offset: 0, shader_location: 0, format: VertexFormat::Float32x3 },
    ]);
    r
}

/// The layout of the instance buffer: per instance, a color of four floats
/// at shader location 1, then a position of three floats at location 2.
pub fn instance_layout() -> (r: VertexBufferLayout)
    ensures
        r.step_mode == VertexStepMode::Instance,
        r.array_stride == 28,
        r.attributes@ == seq![
            VertexAttribute { offset: 0, shader_location: 1, format: VertexFormat::Float32x4 },
            VertexAttribute { offset: 16, shader_location: 2, format: VertexFormat::Float32x3 },
        ],
        is_packed(r),
{
    let fields: [(u32, VertexFormat); 2] = [
        (1, VertexFormat::Float32x4),
        (2, VertexFormat::Float32x3),
    ];
    let r = packed_layout(VertexStepMode::Instance, &fields);
    assert(packed_offset(fields@, 1) == 16);
    assert(packed_offset(fields@, 2) == 28);
    assert(r.attributes@ =~= seq![
        VertexAttribute { offset: 0, shader_location: 1, format: VertexFormat::Float32x4 },
        VertexAttribute { offset: 16, shader_location: 2, format: VertexFormat::Float32x3 },
    ]);
    r
}

} // verus!
