//! The renderer's state: how the surface is configured and which resources
//! are drawn with.
//!
//! The state holds descriptions, not GPU objects. A host creates one object
//! for each description when the state is made, configures the surface anew
//! whenever [`State::resize`] has run, and records the commands of
//! [`State::render`] for each frame.

use crate::buffer::BufferInitDescriptor;
use crate::buffer::BufferUsage;
use crate::buffer::INDEX_STRIDE;
use crate::buffer::VERTEX_STRIDE;
use crate::event::WindowEvent;
use crate::frame::mesh_frame;
use crate::frame::Frame;
use crate::frame::RenderCommand;
use crate::mesh::index_data;
use crate::mesh::pentagon_indices;
use crate::mesh::pentagon_vertices;
use crate::mesh::vertex_data;
use crate::mesh::Mesh;
use crate::pipeline::BindGroupDescriptor;
use crate::pipeline::IndexFormat;
use crate::pipeline::RenderPipelineDescriptor;
use crate::texture::spec_may_decode;
use crate::texture::RgbaImage;
use crate::texture::SamplerDescriptor;
use crate::texture::Texture;
use crate::texture::TextureError;
use crate::texture::TextureUsages;
use vstd::endian::endianness;
use vstd::prelude::*;

verus! {

/// `wgpu::TextureFormat`, the pixel format of a surface or a render target.
/// The library never looks inside a format: it takes the one that the surface
/// prefers and hands it on.
#[verifier::external_type_specification]
#[verifier::external_body]
pub struct ExTextureFormat(wgpu::TextureFormat);

/// Width and height of a window's drawable area in physical pixels.
#[derive(Clone, Copy, Debug, PartialEq, Eq, Structural)]
pub struct PhysicalSize {
    pub width: u32,
    pub height: u32,
}

/// Why the surface gave no texture for the next frame.
#[derive(Clone, Copy, Debug, PartialEq, Eq, Structural)]
pub enum SurfaceError {
    /// No texture became free in time.
    Timeout,
    /// The surface has changed under its configuration.
    Outdated,
    /// The surface is lost and has to be configured anew.
    Lost,
    /// There is no memory left for a texture.
    OutOfMemory,
}

/// What a surface error calls for.
#[derive(Clone, Copy, Debug, PartialEq, Eq, Structural)]
pub enum ErrorClass {
    /// The surface works again once it is configured anew.
    Recoverable,
    /// The program cannot go on.
    Fatal,
    /// The frame is lost; the next one may succeed.
    Transient,
}

/// How finished frames are handed to the display.
#[derive(Clone, Copy, Debug, PartialEq, Eq, Structural)]
pub enum PresentMode {
    AutoVsync,
    AutoNoVsync,
    /// Frames wait in a queue for the display's refresh.
    Fifo,
    FifoRelaxed,
    Immediate,
    Mailbox,
}

/// How the window system treats the alpha channel of a frame.
#[derive(Clone, Copy, Debug, PartialEq, Eq, Structural)]
pub enum CompositeAlphaMode {
    Auto,
    Opaque,
    PreMultiplied,
    PostMultiplied,
    Inherit,
}

/// What a surface supports with the adapter in use, in order of preference.
#[derive(Clone, Debug, PartialEq, Eq)]
pub struct SurfaceCapabilities {
    pub formats: Vec<wgpu::TextureFormat>,
    pub alpha_modes: Vec<CompositeAlphaMode>,
}

/// How a surface hands out the textures that frames are drawn to.
#[derive(Debug, PartialEq, Eq)]
pub struct SurfaceConfiguration {
    pub usage: TextureUsages,
    pub format: wgpu::TextureFormat,
    pub width: u32,
    pub height: u32,
    pub present_mode: PresentMode,
    pub alpha_mode: CompositeAlphaMode,
    pub view_formats: Vec<wgpu::TextureFormat>,
}

/// Why no renderer could be set up.
#[derive(Clone, Copy, Debug, PartialEq, Eq, Structural)]
pub enum InitError {
    /// The surface offers no format or no alpha mode with the adapter.
    IncompatibleSurface,
    /// The window is zero pixels wide or high.
    ZeroSizedSurface,
    /// The image is of no use as a texture.
    Texture(TextureError),
}

/// Everything that frames are drawn with.
#[derive(Debug, PartialEq, Eq)]
pub struct State {
    pub config: SurfaceConfiguration,
    pub size: PhysicalSize,
    pub render_pipeline: RenderPipelineDescriptor,
    pub mesh: Mesh,
    pub vertex_buffer: BufferInitDescriptor,
    pub num_vertices: u32,
    pub index_buffer: BufferInitDescriptor,
    pub num_indices: u32,
    pub diffuse_texture: Texture,
    pub diffuse_sampler: SamplerDescriptor,
    pub diffuse_bind_group: BindGroupDescriptor,
}

impl SurfaceError {
    /// A lost surface is recoverable, a lack of memory is fatal, and a
    /// timeout or an outdated surface passes.
    pub open spec fn spec_class(self) -> ErrorClass {
        match self {
            SurfaceError::Lost => ErrorClass::Recoverable,
            SurfaceError::OutOfMemory => ErrorClass::Fatal,
            SurfaceError::Timeout => ErrorClass::Transient,
            SurfaceError::Outdated => ErrorClass::Transient,
        }
    }

    /// What the error calls for.
    #[verifier::when_used_as_spec(spec_class)]
    pub fn class(self) -> (class: ErrorClass)
        ensures
            class == self.spec_class(),
    {
        match self {
            SurfaceError::Lost => ErrorClass::Recoverable,
            SurfaceError::OutOfMemory => ErrorClass::Fatal,
            SurfaceError::Timeout => ErrorClass::Transient,
            SurfaceError::Outdated => ErrorClass::Transient,
        }
    }
}

impl PhysicalSize {
    /// A surface can be configured to the size: neither side is zero.
    pub open spec fn spec_is_drawable(self) -> bool {
        self.width > 0 && self.height > 0
    }

    /// Whether a surface can be configured to the size.
    #[verifier::when_used_as_spec(spec_is_drawable)]
    pub fn is_drawable(self) -> (drawable: bool)
        ensures
            drawable == self.spec_is_drawable(),
    {
        self.width > 0 && self.height > 0
    }
}

impl SurfaceConfiguration {
    /// The same configuration for another size.
    pub open spec fn with_size(self, size: PhysicalSize) -> SurfaceConfiguration {
        SurfaceConfiguration { width: size.width, height: size.height, ..self }
    }

    /// The configuration of a new renderer: frames are drawn to, in the
    /// surface's preferred format and alpha mode, at the window's size, and
    /// wait for the display's refresh.
    pub open spec fn is_initial(&self, size: PhysicalSize, caps: SurfaceCapabilities) -> bool {
        &&& self.usage == TextureUsages::spec_render_attachment()
        &&& self.format == caps.formats@[0]
        &&& self.width == size.width
        &&& self.height == size.height
        &&& self.present_mode == PresentMode::Fifo
        &&& self.alpha_mode == caps.alpha_modes@[0]
        &&& self.view_formats@ == Seq::<wgpu::TextureFormat>::empty()
    }
}

impl State {
    /// The reason why no renderer can draw to a window of the given size
    /// through a surface of the given capabilities, if there is one.
    pub open spec fn surface_rejection(size: PhysicalSize, caps: SurfaceCapabilities) -> Option<
        InitError,
    > {
        if caps.formats@.len() == 0 || caps.alpha_modes@.len() == 0 {
            Some(InitError::IncompatibleSurface)
        } else if !size.is_drawable() {
            Some(InitError::ZeroSizedSurface)
        } else {
            None
        }
    }

    /// The reason why no renderer can be set up with the given window size,
    /// surface capabilities and image, if there is one. The surface is judged
    /// before the image.
    pub open spec fn rejection(
        size: PhysicalSize,
        caps: SurfaceCapabilities,
        image: RgbaImage,
    ) -> Option<InitError> {
        match State::surface_rejection(size, caps) {
            Some(error) => Some(error),
            None => match image.rejection() {
                Some(error) => Some(InitError::Texture(error)),
                None => None,
            },
        }
    }

    /// The surface has a size that it can be configured to, and it is
    /// configured to that size.
    pub open spec fn surface_wf(&self) -> bool {
        &&& self.size.is_drawable()
        &&& self.config.width == self.size.width
        &&& self.config.height == self.size.height
    }

    /// The buffers hold the mesh: every index names a vertex, the counts are
    /// those of the mesh, and each buffer holds the bytes of its list and is
    /// bound as what it holds.
    pub open spec fn geometry_wf(&self) -> bool {
        &&& self.mesh.wf()
        &&& self.num_vertices == self.mesh.vertices@.len()
        &&& self.num_indices == self.mesh.indices@.len()
        &&& self.vertex_buffer.usage == BufferUsage::Vertex
        &&& self.vertex_buffer.contents@ == vertex_data(self.mesh.vertices@, endianness())
        &&& self.index_buffer.usage == BufferUsage::Index
        &&& self.index_buffer.contents@ == index_data(self.mesh.indices@, endianness())
    }

    /// The pipeline draws the textured mesh into the surface's format, the
    /// texture is well formed, the bind group is well formed, and the
    /// sampler, which blends texels, sits in a slot for blending samplers.
    pub open spec fn material_wf(&self) -> bool {
        &&& self.render_pipeline.draws_textured(self.config.format)
        &&& self.render_pipeline.vertex.buffers@[0].wf()
        &&& self.diffuse_texture.wf()
        &&& self.diffuse_bind_group.wf()
        &&& self.diffuse_sampler.is_filtering() ==> forall|i: int|
            0 <= i < self.diffuse_bind_group.layout@.len() && (
            #[trigger] self.diffuse_bind_group.layout@[i]).ty is Sampler
                ==> self.diffuse_bind_group.layout@[i].is_filtering_sampler()
    }

    /// The state is one that frames can be drawn from.
    pub open spec fn wf(&self) -> bool {
        &&& self.surface_wf()
        &&& self.geometry_wf()
        &&& self.material_wf()
    }

    /// The state of a new renderer for a window of the given size and a
    /// surface of the given capabilities, whatever its texture: it draws the
    /// pentagon.
    pub open spec fn is_initial(&self, size: PhysicalSize, caps: SurfaceCapabilities) -> bool {
        &&& self.config.is_initial(size, caps)
        &&& self.size == size
        &&& self.render_pipeline.draws_textured(caps.formats@[0])
        &&& self.mesh.vertices@ == pentagon_vertices()
        &&& self.mesh.indices@ == pentagon_indices()
        &&& self.num_vertices == 5
        &&& self.num_indices == 9
        &&& self.vertex_buffer.usage == BufferUsage::Vertex
        &&& self.vertex_buffer.contents@ == vertex_data(pentagon_vertices(), endianness())
        &&& self.index_buffer.usage == BufferUsage::Index
        &&& self.index_buffer.contents@ == index_data(pentagon_indices(), endianness())
        &&& self.diffuse_sampler == SamplerDescriptor::spec_diffuse()
        &&& self.diffuse_bind_group.layout@ == BindGroupDescriptor::diffuse_layout()
        &&& self.diffuse_bind_group.entries@ == BindGroupDescriptor::diffuse_entries()
    }

    /// The state after the window took the size `new_size`: the stored size
    /// and the configuration's width and height are new, all else is as it
    /// was.
    pub open spec fn resized(self, new_size: PhysicalSize) -> State {
        State { size: new_size, config: self.config.with_size(new_size), ..self }
    }

    /// Puts the state together from parts that have been judged.
    fn assemble(size: PhysicalSize, caps: &SurfaceCapabilities, texture: Texture) -> (state: State)
        requires
            State::surface_rejection(size, *caps) is None,
            texture.wf(),
        ensures
            state.is_initial(size, *caps),
            state.diffuse_texture == texture,
            state.wf(),
    {
        let format: wgpu::TextureFormat = caps.formats[0];
        let config = SurfaceConfiguration {
            usage: TextureUsages::render_attachment(),
            format,
            width: size.width,
            height: size.height,
            present_mode: PresentMode::Fifo,
            alpha_mode: caps.alpha_modes[0],
            view_formats: Vec::new(),
        };
        let mesh = Mesh::pentagon();
        let vertex_buffer = BufferInitDescriptor {
            contents: mesh.vertex_bytes(),
            usage: BufferUsage::Vertex,
        };
        let index_buffer = BufferInitDescriptor {
            contents: mesh.index_bytes(),
            usage: BufferUsage::Index,
        };
        let num_vertices: u32 = mesh.num_vertices() as u32;
        let num_indices: u32 = mesh.num_indices() as u32;
        State {
            config,
            size,
            render_pipeline: RenderPipelineDescriptor::textured(format),
            mesh,
            vertex_buffer,
            num_vertices,
            index_buffer,
            num_indices,
            diffuse_texture: texture,
            diffuse_sampler: SamplerDescriptor::diffuse(),
            diffuse_bind_group: BindGroupDescriptor::diffuse(),
        }
    }

    /// Whether a renderer can draw to a window of the given size through a
    /// surface of the given capabilities.
    fn judge_surface(size: PhysicalSize, caps: &SurfaceCapabilities) -> (result: Result<
        (),
        InitError,
    >)
        ensures
            match result {
                Ok(_) => State::surface_rejection(size, *caps) is None,
                Err(error) => State::surface_rejection(size, *caps) == Some(error),
            },
    {
        if caps.formats.len() == 0 || caps.alpha_modes.len() == 0 {
            Err(InitError::IncompatibleSurface)
        } else if !size.is_drawable() {
            Err(InitError::ZeroSizedSurface)
        } else {
            Ok(())
        }
    }

    /// Sets up the renderer of the pentagon for a window of the given size,
    /// a surface of the given capabilities and a decoded image.
    ///
    /// The surface is judged first: without a format or an alpha mode it is
    /// incompatible, and a window without pixels cannot be drawn to. Then
    /// the image has to make a texture.
    pub fn with_image(size: PhysicalSize, caps: &SurfaceCapabilities, image: RgbaImage) -> (result:
        Result<State, InitError>)
        ensures
            match result {
                Ok(state) => {
                    &&& State::rejection(size, *caps, image) is None
                    &&& state.is_initial(size, *caps)
                    &&& state.diffuse_texture.descriptor == Texture::descriptor_for(
                        image.width,
                        image.height,
                    )
                    &&& state.diffuse_texture.layout == Texture::layout_for(
                        image.width,
                        image.height,
                    )
                    &&& state.diffuse_texture.data == image.pixels
                    &&& state.wf()
                },
                Err(error) => State::rejection(size, *caps, image) == Some(error),
            },
    {
        match State::judge_surface(size, caps) {
            Ok(_) => {},
            Err(error) => {
                return Err(error);
            },
        }
        match Texture::from_image(image) {
            Ok(texture) => Ok(State::assemble(size, caps, texture)),
            Err(error) => Err(InitError::Texture(error)),
        }
    }

    /// Sets up the renderer of the pentagon for a window of the given size
    /// and a surface of the given capabilities, with the image file in
    /// `texture_bytes` as its texture.
    ///
    /// The surface is judged first, as in [`State::with_image`]. Bytes that
    /// [`Texture::may_decode`] turns away are then undecodable. Whether
    /// other bytes decode is the decoder's matter; a state that comes back
    /// is well formed.
    pub fn new(size: PhysicalSize, caps: &SurfaceCapabilities, texture_bytes: &[u8]) -> (result:
        Result<State, InitError>)
        ensures
            match result {
                Ok(state) => {
                    &&& State::surface_rejection(size, *caps) is None
                    &&& spec_may_decode(texture_bytes@)
                    &&& state.is_initial(size, *caps)
                    &&& state.wf()
                },
                Err(InitError::Texture(error)) => {
                    &&& State::surface_rejection(size, *caps) is None
                    &&& error != TextureError::SizeMismatch
                    &&& !spec_may_decode(texture_bytes@) ==> error == TextureError::Undecodable
                },
                Err(error) => State::surface_rejection(size, *caps) == Some(error),
            },
    {
        match State::judge_surface(size, caps) {
            Ok(_) => {},
            Err(error) => {
                return Err(error);
            },
        }
        match Texture::decode(texture_bytes) {
            Ok(texture) => Ok(State::assemble(size, caps, texture)),
            Err(error) => Err(InitError::Texture(error)),
        }
    }

    /// Takes over the window's new size. The surface is then to be
    /// configured anew.
    pub fn resize(&mut self, new_size: PhysicalSize)
        requires
            new_size.is_drawable(),
        ensures
            *final(self) == old(self).resized(new_size),
            final(self).size == new_size,
            final(self).config.width == new_size.width,
            final(self).config.height == new_size.height,
            final(self).config.format == old(self).config.format,
            final(self).config.present_mode == old(self).config.present_mode,
            final(self).config.alpha_mode == old(self).config.alpha_mode,
            final(self).config.usage == old(self).config.usage,
            final(self).config.view_formats == old(self).config.view_formats,
            old(self).wf() ==> final(self).wf(),
    {
        self.size = new_size;
        self.config.width = new_size.width;
        self.config.height = new_size.height;
    }

    /// Offers a window event to the renderer. It takes none: the answer is
    /// `false` and nothing changes.
    pub fn input(&mut self, event: &WindowEvent) -> (handled: bool)
        ensures
            !handled,
            *final(self) == *old(self),
    {
        false
    }

    /// Advances what is drawn by one frame. Nothing moves: nothing changes.
    pub fn update(&mut self)
        ensures
            *final(self) == *old(self),
    {
    }

    /// Plans one frame, given the surface's answer to the request for the
    /// frame's texture: without a texture the surface's error is handed on,
    /// with one the frame clears it and draws the whole mesh once.
    pub fn render(&self, acquired: Result<(), SurfaceError>) -> (result: Result<Frame, SurfaceError>)
        ensures
            match acquired {
                Ok(_) => result matches Ok(frame) && frame@ == mesh_frame(self.num_indices),
                Err(error) => result == Err::<Frame, SurfaceError>(error),
            },
    {
        match acquired {
            Ok(_) => Ok(Frame::mesh(self.num_indices)),
            Err(error) => Err(error),
        }
    }
}

/// In a well-formed state the vertex buffer holds twenty bytes for each of
/// the vertices that are counted, and the index buffer two bytes for each of
/// the indices that are counted. These are the stride that the pipeline
/// reads vertices with and the size of the indices that a frame binds.
pub proof fn lemma_buffer_sizes(state: State)
    requires
        state.wf(),
    ensures
        state.vertex_buffer.contents@.len() == VERTEX_STRIDE * state.num_vertices,
        state.index_buffer.contents@.len() == INDEX_STRIDE * state.num_indices,
        state.render_pipeline.vertex.buffers@[0].array_stride == VERTEX_STRIDE,
        IndexFormat::Uint16.spec_size() == INDEX_STRIDE,
{
}

/// In a well-formed state the draw of a frame stays inside the buffers: each
/// index that it reads lies in the index buffer and names a vertex, and that
/// vertex lies in the vertex buffer.
pub proof fn lemma_draw_in_bounds(state: State, i: int)
    requires
        state.wf(),
        0 <= i < state.num_indices,
    ensures
        mesh_frame(state.num_indices).commands.last() == (RenderCommand::DrawIndexed {
            first_index: 0,
            end_index: state.num_indices,
            base_vertex: 0,
            first_instance: 0,
            end_instance: 1,
        }),
        INDEX_STRIDE * (i + 1) <= state.index_buffer.contents@.len(),
        state.mesh.indices@[i] < state.num_vertices,
        VERTEX_STRIDE * (state.mesh.indices@[i] + 1) <= state.vertex_buffer.contents@.len(),
{
}

} // verus!
