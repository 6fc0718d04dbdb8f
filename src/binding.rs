use vstd::prelude::*;

use crate::buffer::UniformBuffer;
use crate::error::Error;
use crate::texture::{Framebuffer, Texture};

verus! {

/// The shader stage that sees a binding.
#[derive(Copy, Clone, PartialEq, Eq, Debug, Structural)]
pub enum ShaderStage {
    Vertex,
    Fragment,
    Compute,
}

/// What kind of resource a slot holds.
#[derive(Copy, Clone, PartialEq, Eq, Debug, Structural)]
pub enum BindingType {
    UniformBuffer,
    UniformBufferDynamic,
    Sampler,
    SampledTexture,
}

/// One slot of a layout, as declared by its user.
#[derive(Copy, Clone, PartialEq, Eq, Debug, Structural)]
pub struct Binding {
    pub binding: BindingType,
    pub stage: ShaderStage,
}

/// One slot of a layout, numbered.
#[derive(Copy, Clone, PartialEq, Eq, Debug, Structural)]
pub struct LayoutEntry {
    pub binding: u32,
    pub visibility: ShaderStage,
    pub ty: BindingType,
}

/// The layout of a `BindingGroup`: its slots in order, and the pipeline set
/// that it fills.
#[derive(Debug)]
pub struct BindingGroupLayout {
    entries: Vec<LayoutEntry>,
    set_index: u32,
}

/// `layout` declares `slots` in order for set `set_index`.
pub open spec fn declares(layout: BindingGroupLayout, set_index: u32, slots: Seq<Binding>) -> bool {
    &&& layout.spec_set_index() == set_index
    &&& layout.spec_size() == slots.len()
    &&& forall|i: int|
        0 <= i < slots.len() ==> #[trigger] layout.spec_entries()[i] == (LayoutEntry {
            binding: i as u32,
            visibility: slots[i].stage,
            ty: slots[i].binding,
        })
}

impl BindingGroupLayout {
    /// Slots are numbered by `u32`.
    #[verifier::type_invariant]
    closed spec fn inv(self) -> bool {
        self.entries@.len() <= u32::MAX
    }

    /// The slots, in order.
    pub closed spec fn spec_entries(&self) -> Seq<LayoutEntry> {
        self.entries@
    }

    /// The pipeline set that groups of this layout fill.
    pub closed spec fn spec_set_index(&self) -> u32 {
        self.set_index
    }

    /// The number of slots.
    pub open spec fn spec_size(&self) -> nat {
        self.spec_entries().len()
    }

    /// The slots, in order.
    pub fn entries(&self) -> (e: &[LayoutEntry])
        ensures
            e@ == self.spec_entries(),
    {
        self.entries.as_slice()
    }

    /// The number of slots.
    pub fn size(&self) -> (n: usize)
        ensures
            n == self.spec_size(),
    {
        self.entries.len()
    }

    /// The pipeline set that groups of this layout fill.
    pub fn set_index(&self) -> (i: u32)
        ensures
            i == self.spec_set_index(),
    {
        self.set_index
    }

    /// Declares a layout with `slots`, numbered from zero in order, for the
    /// set at `set_index`.
    pub fn new(set_index: u32, slots: &[Binding]) -> (l: BindingGroupLayout)
        requires
            slots@.len() <= u32::MAX,
        ensures
            declares(l, set_index, slots@),
    {
        let mut entries: Vec<LayoutEntry> = Vec::new();
        let mut i: usize = 0;
        while i < slots.len()
            invariant
                slots@.len() <= u32::MAX,
                0 <= i <= slots@.len(),
                entries@.len() == i,
                forall|j: int|
                    0 <= j < i ==> #[trigger] entries@[j] == (LayoutEntry {
                        binding: j as u32,
                        visibility: slots@[j].stage,
                        ty: slots@[j].binding,
                    }),
            decreases slots@.len() - i,
        {
            let s = slots[i];
            entries.push(LayoutEntry { binding: i as u32, visibility: s.stage, ty: s.binding });
            i = i + 1;
        }
        BindingGroupLayout { entries, set_index }
    }
}

impl Clone for BindingGroupLayout {
    fn clone(&self) -> (c: BindingGroupLayout)
        ensures
            c.spec_set_index() == self.spec_set_index(),
            c.spec_size() == self.spec_size(),
    {
        proof {
            use_type_invariant(self);
        }
        BindingGroupLayout { entries: self.entries.clone(), set_index: self.set_index }
    }
}

/// The resource behind one slot of a group.
#[derive(Copy, Clone, PartialEq, Eq, Debug, Structural)]
pub enum BindingResource {
    /// A uniform buffer, bound over its first `size` bytes.
    Buffer { size: u64 },
    /// The full view of a texture.
    TextureView,
    /// A sampler.
    Sampler,
}

/// A resource bound at a numbered slot.
#[derive(Copy, Clone, PartialEq, Eq, Debug, Structural)]
pub struct BindingEntry {
    pub binding: u32,
    pub resource: BindingResource,
}

/// Filtering of a sampler.
#[derive(Copy, Clone, PartialEq, Eq, Debug, Structural)]
pub enum Filter {
    Nearest,
    Linear,
}

/// Addressing of a sampler outside the unit square.
#[derive(Copy, Clone, PartialEq, Eq, Debug, Structural)]
pub enum AddressMode {
    Repeat,
}

/// A sampler: filters for minification and magnification; addressing always
/// repeats and mipmaps are filtered by the nearest level.
#[derive(Copy, Clone, PartialEq, Eq, Debug, Structural)]
pub struct Sampler {
    pub min_filter: Filter,
    pub mag_filter: Filter,
}

impl Sampler {
    pub fn new(min_filter: Filter, mag_filter: Filter) -> (s: Sampler)
        ensures
            s == (Sampler { min_filter, mag_filter }),
    {
        Sampler { min_filter, mag_filter }
    }

    /// How coordinates outside the unit square are addressed.
    pub fn address_mode(&self) -> (m: AddressMode)
        ensures
            m == AddressMode::Repeat,
    {
        AddressMode::Repeat
    }

    /// How mipmap levels are filtered.
    pub fn mipmap_filter(&self) -> (f: Filter)
        ensures
            f == Filter::Nearest,
    {
        Filter::Nearest
    }
}

/// A resource that can be bound in a group.
#[derive(Copy, Clone)]
pub enum Bind<'a> {
    Uniform(&'a UniformBuffer),
    Texture(&'a Texture),
    Framebuffer(&'a Framebuffer),
    Sampler(&'a Sampler),
}

impl<'a> Bind<'a> {
    /// The entry that binds this resource at slot `index`.
    pub open spec fn spec_binding(self, index: u32) -> BindingEntry {
        BindingEntry {
            binding: index,
            resource: match self {
                Bind::Uniform(u) => BindingResource::Buffer { size: u.size as u64 },
                Bind::Texture(_) => BindingResource::TextureView,
                Bind::Framebuffer(_) => BindingResource::TextureView,
                Bind::Sampler(_) => BindingResource::Sampler,
            },
        }
    }

    /// Describes the binding of this resource at slot `index`.
    pub fn binding(&self, index: u32) -> (e: BindingEntry)
        ensures
            e == self.spec_binding(index),
    {
        let resource = match self {
            Bind::Uniform(u) => BindingResource::Buffer { size: u.size as u64 },
            Bind::Texture(_) => BindingResource::TextureView,
            Bind::Framebuffer(_) => BindingResource::TextureView,
            Bind::Sampler(_) => BindingResource::Sampler,
        };
        BindingEntry { binding: index, resource }
    }
}

/// Resources bound to the slots of a layout.
#[derive(Clone, Debug)]
pub struct BindingGroup {
    pub set_index: u32,
    pub entries: Vec<BindingEntry>,
}

impl BindingGroup {
    /// Binds `binds` to the slots of `layout`, in slot order. There must be
    /// exactly one resource per slot.
    pub fn new(layout: &BindingGroupLayout, binds: &[Bind]) -> (res: Result<BindingGroup, Error>)
        ensures
            res is Err <==> binds@.len() != layout.spec_size(),
            binds@.len() != layout.spec_size() ==> res is Err && res->Err_0 == Error::BindingCount,
            binds@.len() == layout.spec_size() ==> res is Ok,
            res is Ok ==> {
                let g = res->Ok_0;
                &&& g.set_index == layout.spec_set_index()
                &&& g.entries@.len() == binds@.len()
                &&& forall|i: int|
                    0 <= i < binds@.len() ==> #[trigger] g.entries@[i] == binds@[i].spec_binding(
                        i as u32,
                    )
            },
    {
        if binds.len() != layout.size() {
            return Err(Error::BindingCount);
        }
        proof {
            use_type_invariant(layout);
        }
        let mut entries: Vec<BindingEntry> = Vec::new();
        let mut i: usize = 0;
        while i < binds.len()
            invariant
                binds@.len() == layout.spec_size(),
                layout.spec_size() <= u32::MAX,
                0 <= i <= binds@.len(),
                entries@.len() == i,
                forall|j: int|
                    0 <= j < i ==> #[trigger] entries@[j] == binds@[j].spec_binding(j as u32),
            decreases binds@.len() - i,
        {
            entries.push(binds[i].binding(i as u32));
            i = i + 1;
        }
        Ok(BindingGroup { set_index: layout.set_index(), entries })
    }
}

} // verus!
