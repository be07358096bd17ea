//! What the shaders are given and how triangles become pixels: the bind group
//! that exposes the texture and its sampler, and the render pipeline.

use crate::buffer::Vertex;
use crate::buffer::VertexBufferLayout;
use crate::buffer::VertexStepMode;
use crate::buffer::VERTEX_STRIDE;
use vstd::prelude::*;

verus! {

/// Name of the vertex stage's entry point in the shader source.
pub const VERTEX_ENTRY_POINT: &'static str = "vs_main";

/// Name of the fragment stage's entry point in the shader source.
pub const FRAGMENT_ENTRY_POINT: &'static str = "fs_main";

/// The shader stages that can see a binding.
#[derive(Clone, Copy, Debug, PartialEq, Eq, Structural)]
pub struct ShaderStages {
    pub vertex: bool,
    pub fragment: bool,
    pub compute: bool,
}

/// How a shader addresses a bound texture.
#[derive(Clone, Copy, Debug, PartialEq, Eq, Structural)]
pub enum TextureViewDimension {
    D1,
    D2,
    D2Array,
    Cube,
    CubeArray,
    D3,
}

/// What a shader reads from a bound texture.
#[derive(Clone, Copy, Debug, PartialEq, Eq, Structural)]
pub enum TextureSampleType {
    /// Floats. Only a filterable texture can be read through a sampler that
    /// blends texels.
    Float { filterable: bool },
    Depth,
    Sint,
    Uint,
}

/// What a bound sampler does.
#[derive(Clone, Copy, Debug, PartialEq, Eq, Structural)]
pub enum SamplerBindingType {
    /// It may blend texels.
    Filtering,
    /// It returns single texels.
    NonFiltering,
    /// It compares depths.
    Comparison,
}

/// The kind of resource at a binding.
#[derive(Clone, Copy, Debug, PartialEq, Eq, Structural)]
pub enum BindingType {
    Texture { sample_type: TextureSampleType, view_dimension: TextureViewDimension, multisampled: bool },
    Sampler(SamplerBindingType),
}

/// One slot of a bind group: its number, who sees it and what it holds.
#[derive(Clone, Copy, Debug, PartialEq, Eq, Structural)]
pub struct BindGroupLayoutEntry {
    pub binding: u32,
    pub visibility: ShaderStages,
    pub ty: BindingType,
}

/// Which resource of the renderer fills a slot.
#[derive(Clone, Copy, Debug, PartialEq, Eq, Structural)]
pub enum BindingResource {
    /// A view over the whole of the mesh's texture.
    TextureView,
    /// The sampler of the mesh's texture.
    Sampler,
}

/// One filled slot of a bind group.
#[derive(Clone, Copy, Debug, PartialEq, Eq, Structural)]
pub struct BindGroupEntry {
    pub binding: u32,
    pub resource: BindingResource,
}

/// A bind group: its slots and what fills them.
#[derive(Clone, Debug, PartialEq, Eq)]
pub struct BindGroupDescriptor {
    pub layout: Vec<BindGroupLayoutEntry>,
    pub entries: Vec<BindGroupEntry>,
}

/// How vertices are joined into primitives.
#[derive(Clone, Copy, Debug, PartialEq, Eq, Structural)]
pub enum PrimitiveTopology {
    PointList,
    LineList,
    LineStrip,
    TriangleList,
    TriangleStrip,
}

/// The winding of a triangle that faces the viewer.
#[derive(Clone, Copy, Debug, PartialEq, Eq, Structural)]
pub enum FrontFace {
    Ccw,
    Cw,
}

/// A side of a triangle.
#[derive(Clone, Copy, Debug, PartialEq, Eq, Structural)]
pub enum Face {
    Front,
    Back,
}

/// How the inside of a triangle is drawn.
#[derive(Clone, Copy, Debug, PartialEq, Eq, Structural)]
pub enum PolygonMode {
    Fill,
    Line,
    Point,
}

/// The width of the indices in an index buffer.
#[derive(Clone, Copy, Debug, PartialEq, Eq, Structural)]
pub enum IndexFormat {
    Uint16,
    Uint32,
}

/// How primitives are assembled and which of them are dropped.
#[derive(Clone, Copy, Debug, PartialEq, Eq, Structural)]
pub struct PrimitiveState {
    pub topology: PrimitiveTopology,
    pub strip_index_format: Option<IndexFormat>,
    pub front_face: FrontFace,
    pub cull_mode: Option<Face>,
    pub polygon_mode: PolygonMode,
    pub unclipped_depth: bool,
    pub conservative: bool,
}

/// How many samples a pixel has and which of them are written.
#[derive(Clone, Copy, Debug, PartialEq, Eq, Structural)]
pub struct MultisampleState {
    pub count: u32,
    pub mask: u64,
    pub alpha_to_coverage_enabled: bool,
}

/// How a new colour is combined with the one already in the target.
#[derive(Clone, Copy, Debug, PartialEq, Eq, Structural)]
pub enum BlendState {
    /// The new colour takes the place of the old one.
    Replace,
    /// The colours are mixed by the new colour's alpha.
    AlphaBlending,
    /// As `AlphaBlending`, for colours already multiplied by their alpha.
    PremultipliedAlphaBlending,
}

/// The channels of a target that are written.
#[derive(Clone, Copy, Debug, PartialEq, Eq, Structural)]
pub struct ColorWrites {
    pub red: bool,
    pub green: bool,
    pub blue: bool,
    pub alpha: bool,
}

/// One colour output of the fragment stage.
#[derive(Clone, Copy, Debug, PartialEq, Eq)]
pub struct ColorTargetState {
    pub format: wgpu::TextureFormat,
    pub blend: Option<BlendState>,
    pub write_mask: ColorWrites,
}

/// The vertex stage: its entry point and the buffers it reads.
#[derive(Clone, Debug, PartialEq, Eq)]
pub struct VertexState {
    pub entry_point: &'static str,
    pub buffers: Vec<VertexBufferLayout>,
}

/// The fragment stage: its entry point and the targets it writes.
#[derive(Clone, Debug, PartialEq, Eq)]
pub struct FragmentState {
    pub entry_point: &'static str,
    pub targets: Vec<Option<ColorTargetState>>,
}

/// The render pipeline to create. Its layout holds one bind group, the one
/// of [`BindGroupDescriptor`].
#[derive(Clone, Debug, PartialEq, Eq)]
pub struct RenderPipelineDescriptor {
    pub vertex: VertexState,
    pub fragment: Option<FragmentState>,
    pub primitive: PrimitiveState,
    /// Whether the pipeline tests and writes a depth/stencil attachment.
    pub depth_stencil: bool,
    pub multisample: MultisampleState,
}

impl IndexFormat {
    /// Number of bytes in one index.
    pub open spec fn spec_size(self) -> nat {
        match self {
            IndexFormat::Uint16 => 2,
            IndexFormat::Uint32 => 4,
        }
    }

    /// Number of bytes in one index.
    pub fn size(&self) -> (bytes: u64)
        ensures
            bytes == self.spec_size(),
    {
        match self {
            IndexFormat::Uint16 => 2,
            IndexFormat::Uint32 => 4,
        }
    }
}

impl ShaderStages {
    /// Visible to the fragment stage alone.
    pub open spec fn spec_fragment() -> ShaderStages {
        ShaderStages { vertex: false, fragment: true, compute: false }
    }
}

impl ColorWrites {
    /// All four channels.
    pub open spec fn spec_all() -> ColorWrites {
        ColorWrites { red: true, green: true, blue: true, alpha: true }
    }
}

impl BindGroupLayoutEntry {
    /// The slot takes the resource.
    pub open spec fn accepts(self, resource: BindingResource) -> bool {
        match self.ty {
            BindingType::Texture { .. } => resource == BindingResource::TextureView,
            BindingType::Sampler(_) => resource == BindingResource::Sampler,
        }
    }

    /// The slot holds a texture that a blending sampler may read.
    pub open spec fn is_filterable_texture(self) -> bool {
        self.ty matches BindingType::Texture { sample_type, .. } && sample_type
            == (TextureSampleType::Float { filterable: true })
    }

    /// The slot holds a texture.
    pub open spec fn is_texture(self) -> bool {
        self.ty is Texture
    }

    /// The slot holds a sampler that may blend texels.
    pub open spec fn is_filtering_sampler(self) -> bool {
        self.ty == BindingType::Sampler(SamplerBindingType::Filtering)
    }
}

impl BindGroupDescriptor {
    /// The slots of the mesh's bind group: the texture at binding 0 and its
    /// sampler at binding 1, both for the fragment stage.
    pub open spec fn diffuse_layout() -> Seq<BindGroupLayoutEntry> {
        seq![
            BindGroupLayoutEntry {
                binding: 0,
                visibility: ShaderStages::spec_fragment(),
                ty: BindingType::Texture {
                    sample_type: TextureSampleType::Float { filterable: true },
                    view_dimension: TextureViewDimension::D2,
                    multisampled: false,
                },
            },
            BindGroupLayoutEntry {
                binding: 1,
                visibility: ShaderStages::spec_fragment(),
                ty: BindingType::Sampler(SamplerBindingType::Filtering),
            },
        ]
    }

    /// What fills the slots of the mesh's bind group.
    pub open spec fn diffuse_entries() -> Seq<BindGroupEntry> {
        seq![
            BindGroupEntry { binding: 0, resource: BindingResource::TextureView },
            BindGroupEntry { binding: 1, resource: BindingResource::Sampler },
        ]
    }

    /// No two slots share a number; every slot is filled, in order, by a
    /// resource of its kind; and where a sampler may blend texels, every
    /// texture of the group may be blended.
    pub open spec fn wf(&self) -> bool {
        &&& forall|i: int, j: int|
            0 <= i < j < self.layout@.len() ==> (#[trigger] self.layout@[i]).binding != (
            #[trigger] self.layout@[j]).binding
        &&& self.entries@.len() == self.layout@.len()
        &&& forall|i: int|
            0 <= i < self.entries@.len() ==> {
                &&& (#[trigger] self.entries@[i]).binding == self.layout@[i].binding
                &&& self.layout@[i].accepts(self.entries@[i].resource)
            }
        &&& forall|i: int, j: int|
            0 <= i < self.layout@.len() && 0 <= j < self.layout@.len() && (
            #[trigger] self.layout@[i]).is_filtering_sampler() && (
            #[trigger] self.layout@[j]).is_texture() ==> self.layout@[j].is_filterable_texture()
    }

    /// The bind group of the mesh's texture.
    pub fn diffuse() -> (group: BindGroupDescriptor)
        ensures
            group.layout@ == BindGroupDescriptor::diffuse_layout(),
            group.entries@ == BindGroupDescriptor::diffuse_entries(),
            group.wf(),
    {
        let fragment = ShaderStages { vertex: false, fragment: true, compute: false };
        let layout: Vec<BindGroupLayoutEntry> = vec![
            BindGroupLayoutEntry {
                binding: 0,
                visibility: fragment,
                ty: BindingType::Texture {
                    sample_type: TextureSampleType::Float { filterable: true },
                    view_dimension: TextureViewDimension::D2,
                    multisampled: false,
                },
            },
            BindGroupLayoutEntry {
                binding: 1,
                visibility: fragment,
                ty: BindingType::Sampler(SamplerBindingType::Filtering),
            },
        ];
        let entries: Vec<BindGroupEntry> = vec![
            BindGroupEntry { binding: 0, resource: BindingResource::TextureView },
            BindGroupEntry { binding: 1, resource: BindingResource::Sampler },
        ];
        assert(layout@ =~= BindGroupDescriptor::diffuse_layout());
        assert(entries@ =~= BindGroupDescriptor::diffuse_entries());
        BindGroupDescriptor { layout, entries }
    }
}

impl PrimitiveState {
    /// Every three vertices are a triangle; triangles wound counter-clockwise
    /// face the viewer, the others are dropped; triangles are filled.
    pub open spec fn spec_triangles() -> PrimitiveState {
        PrimitiveState {
            topology: PrimitiveTopology::TriangleList,
            strip_index_format: None,
            front_face: FrontFace::Ccw,
            cull_mode: Some(Face::Back),
            polygon_mode: PolygonMode::Fill,
            unclipped_depth: false,
            conservative: false,
        }
    }
}

impl MultisampleState {
    /// One sample for each pixel, always written.
    pub open spec fn spec_single() -> MultisampleState {
        MultisampleState { count: 1, mask: u64::MAX, alpha_to_coverage_enabled: false }
    }
}

impl ColorTargetState {
    /// A target of the given format in which every drawn pixel replaces the
    /// old one in all channels.
    pub open spec fn replacing(format: wgpu::TextureFormat) -> ColorTargetState {
        ColorTargetState {
            format,
            blend: Some(BlendState::Replace),
            write_mask: ColorWrites::spec_all(),
        }
    }
}

impl RenderPipelineDescriptor {
    /// The pipeline that draws the textured mesh into a target of the given
    /// format.
    pub open spec fn draws_textured(&self, format: wgpu::TextureFormat) -> bool {
        &&& self.vertex.entry_point@ == VERTEX_ENTRY_POINT@
        &&& self.vertex.buffers@.len() == 1
        &&& self.vertex.buffers@[0].array_stride == VERTEX_STRIDE
        &&& self.vertex.buffers@[0].step_mode == VertexStepMode::Vertex
        &&& self.vertex.buffers@[0].attributes@ == Vertex::attributes()
        &&& self.fragment matches Some(fragment)
        &&& fragment.entry_point@ == FRAGMENT_ENTRY_POINT@
        &&& fragment.targets@ == seq![Some(ColorTargetState::replacing(format))]
        &&& self.primitive == PrimitiveState::spec_triangles()
        &&& !self.depth_stencil
        &&& self.multisample == MultisampleState::spec_single()
    }

    /// The colour format of the pipeline's only target, if it has exactly
    /// one.
    pub open spec fn target_format(&self) -> Option<wgpu::TextureFormat> {
        match self.fragment {
            Some(fragment) => if fragment.targets@.len() == 1 {
                match fragment.targets@[0] {
                    Some(target) => Some(target.format),
                    None => None,
                }
            } else {
                None
            },
            None => None,
        }
    }

    /// The pipeline that draws the textured mesh into a target of the given
    /// format.
    pub fn textured(format: wgpu::TextureFormat) -> (pipeline: RenderPipelineDescriptor)
        ensures
            pipeline.draws_textured(format),
            pipeline.target_format() == Some(format),
            pipeline.vertex.buffers@[0].wf(),
            pipeline.vertex.buffers@[0].is_packed(),
    {
        let layout = Vertex::desc();
        let mut buffers: Vec<VertexBufferLayout> = Vec::new();
        buffers.push(layout);
        assert(buffers@[0] == layout);
        let target = ColorTargetState {
            format,
            blend: Some(BlendState::Replace),
            write_mask: ColorWrites { red: true, green: true, blue: true, alpha: true },
        };
        let mut targets: Vec<Option<ColorTargetState>> = Vec::new();
        targets.push(Some(target));
        assert(targets@ =~= seq![Some(ColorTargetState::replacing(format))]);
        RenderPipelineDescriptor {
            vertex: VertexState { entry_point: VERTEX_ENTRY_POINT, buffers },
            fragment: Some(FragmentState { entry_point: FRAGMENT_ENTRY_POINT, targets }),
            primitive: PrimitiveState {
                topology: PrimitiveTopology::TriangleList,
                strip_index_format: None,
                front_face: FrontFace::Ccw,
                cull_mode: Some(Face::Back),
                polygon_mode: PolygonMode::Fill,
                unclipped_depth: false,
                conservative: false,
            },
            depth_stencil: false,
            multisample: MultisampleState {
                count: 1,
                mask: u64::MAX,
                alpha_to_coverage_enabled: false,
            },
        }
    }
}

} // verus!
