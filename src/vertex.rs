use vstd::prelude::*;

verus! {

/// The format of one vertex attribute.
#[derive(Copy, Clone, PartialEq, Eq, Debug, Structural)]
pub enum VertexFormat {
    Float,
    Float2,
    Float3,
    Float4,
    UByte4,
}

impl VertexFormat {
    pub open spec fn spec_bytesize(self) -> nat {
        match self {
            VertexFormat::Float => 4,
            VertexFormat::Float2 => 8,
            VertexFormat::Float3 => 12,
            VertexFormat::Float4 => 16,
            VertexFormat::UByte4 => 4,
        }
    }

    /// The size of an attribute of this format, in bytes.
    pub fn bytesize(self) -> (n: usize)
        ensures
            n == self.spec_bytesize(),
    {
        match self {
            VertexFormat::Float => 4,
            VertexFormat::Float2 => 8,
            VertexFormat::Float3 => 12,
            VertexFormat::Float4 => 16,
            VertexFormat::UByte4 => 4,
        }
    }
}

/// The total size of attributes of the given formats, laid out back to back.
pub open spec fn stride(formats: Seq<VertexFormat>) -> nat
    decreases formats.len(),
{
    if formats.len() == 0 {
        0
    } else {
        stride(formats.drop_last()) + formats.last().spec_bytesize()
    }
}

/// One attribute of a vertex: where the shader finds it and where it lies in
/// the vertex.
#[derive(Copy, Clone, PartialEq, Eq, Debug, Structural)]
pub struct VertexAttribute {
    pub shader_location: u32,
    pub offset: u64,
    pub format: VertexFormat,
}

/// The layout of one vertex in a vertex buffer.
#[derive(Clone, Debug)]
pub struct VertexLayout {
    /// The attributes, in order.
    pub attributes: Vec<VertexAttribute>,
    /// The stride: bytes from one vertex to the next.
    pub size: u64,
}

/// `layout` is the packed layout of attributes of `formats`: attribute `i`
/// is read at shader location `i`, right after attribute `i - 1`.
pub open spec fn lays_out(layout: VertexLayout, formats: Seq<VertexFormat>) -> bool {
    &&& layout.attributes@.len() == formats.len()
    &&& layout.size == stride(formats)
    &&& forall|i: int|
        0 <= i < formats.len() ==> #[trigger] layout.attributes@[i] == (VertexAttribute {
            shader_location: i as u32,
            offset: stride(formats.subrange(0, i)) as u64,
            format: formats[i],
        })
}

proof fn lemma_stride_step(formats: Seq<VertexFormat>, i: int)
    requires
        0 <= i < formats.len(),
    ensures
        stride(formats.subrange(0, i + 1)) == stride(formats.subrange(0, i))
            + formats[i].spec_bytesize(),
{
    assert(formats.subrange(0, i + 1).drop_last() =~= formats.subrange(0, i));
}

impl VertexLayout {
    /// Lays out attributes of `formats` back to back, numbering their shader
    /// locations from zero.
    pub fn from(formats: &[VertexFormat]) -> (vl: VertexLayout)
        requires
            formats@.len() <= u32::MAX,
        ensures
            lays_out(vl, formats@),
    {
        let mut attributes: Vec<VertexAttribute> = Vec::new();
        let mut size: u64 = 0;
        let mut i: usize = 0;
        while i < formats.len()
            invariant
                formats@.len() <= u32::MAX,
                0 <= i <= formats@.len(),
                attributes@.len() == i,
                size == stride(formats@.subrange(0, i as int)),
                size <= 16 * i,
                forall|j: int|
                    0 <= j < i ==> #[trigger] attributes@[j] == (VertexAttribute {
                        shader_location: j as u32,
                        offset: stride(formats@.subrange(0, j)) as u64,
                        format: formats@[j],
                    }),
            decreases formats@.len() - i,
        {
            let vf = formats[i];
            attributes.push(VertexAttribute { shader_location: i as u32, offset: size, format: vf });
            proof {
                lemma_stride_step(formats@, i as int);
            }
            size = size + vf.bytesize() as u64;
            i = i + 1;
        }
        assert(formats@.subrange(0, formats@.len() as int) =~= formats@);
        VertexLayout { attributes, size }
    }
}

} // verus!
