use wgpu_01::buffer::BufferUsage;
use wgpu_01::buffer::Vertex;
use wgpu_01::event::WindowEvent;
use wgpu_01::frame::Color;
use wgpu_01::frame::Frame;
use wgpu_01::frame::LoadOp;
use wgpu_01::frame::Operations;
use wgpu_01::frame::RenderCommand;
use wgpu_01::mesh::Mesh;
use wgpu_01::pipeline::BindGroupDescriptor;
use wgpu_01::pipeline::IndexFormat;
use wgpu_01::pipeline::RenderPipelineDescriptor;
use wgpu_01::surface::CompositeAlphaMode;
use wgpu_01::surface::ErrorClass;
use wgpu_01::surface::InitError;
use wgpu_01::surface::PhysicalSize;
use wgpu_01::surface::PresentMode;
use wgpu_01::surface::State;
use wgpu_01::surface::SurfaceCapabilities;
use wgpu_01::surface::SurfaceError;
use wgpu_01::texture::RgbaImage;
use wgpu_01::texture::SamplerDescriptor;
use wgpu_01::texture::Texture;
use wgpu_01::texture::TextureError;
use wgpu_01::texture::TextureUsages;

const TEXTURE_PNG: [u8; 80] = [
    0x89, 0x50, 0x4e, 0x47, 0x0d, 0x0a, 0x1a, 0x0a, 0x00, 0x00, 0x00, 0x0d,
    0x49, 0x48, 0x44, 0x52, 0x00, 0x00, 0x00, 0x02, 0x00, 0x00, 0x00, 0x03,
    0x08, 0x02, 0x00, 0x00, 0x00, 0x36, 0x88, 0x49, 0xd6, 0x00, 0x00, 0x00,
    0x17, 0x49, 0x44, 0x41, 0x54, 0x78, 0xda, 0x63, 0xf8, 0xcf, 0xc0, 0xc0,
    0x00, 0xc2, 0x0c, 0xff, 0x81, 0x00, 0x44, 0x73, 0x89, 0xc8, 0x01, 0x00,
    0x4a, 0x2f, 0x06, 0x37, 0xe0, 0x21, 0x04, 0xb0, 0x00, 0x00, 0x00, 0x00,
    0x49, 0x45, 0x4e, 0x44, 0xae, 0x42, 0x60, 0x82,
];

fn caps() -> SurfaceCapabilities {
    SurfaceCapabilities {
        formats: vec![wgpu::TextureFormat::Bgra8UnormSrgb, wgpu::TextureFormat::Rgba8Unorm],
        alpha_modes: vec![CompositeAlphaMode::Opaque, CompositeAlphaMode::Inherit],
    }
}

fn size(width: u32, height: u32) -> PhysicalSize {
    PhysicalSize { width, height }
}

fn image() -> RgbaImage {
    RgbaImage { width: 1, height: 2, pixels: vec![1, 2, 3, 4, 5, 6, 7, 8] }
}

fn state() -> State {
    State::with_image(size(800, 600), &caps(), image()).unwrap()
}

#[test]
fn a_size_is_drawable_when_no_side_is_zero() {
    assert!(size(1, 1).is_drawable());
    assert!(size(u32::MAX, u32::MAX).is_drawable());
    assert!(!size(0, 1).is_drawable());
    assert!(!size(1, 0).is_drawable());
    assert!(!size(0, 0).is_drawable());
}

#[test]
fn new_configures_the_surface_for_the_window() {
    let state = State::new(size(800, 600), &caps(), &TEXTURE_PNG).unwrap();
    assert_eq!(state.size, size(800, 600));
    assert_eq!(state.config.usage, TextureUsages::render_attachment());
    assert_eq!(state.config.format, wgpu::TextureFormat::Bgra8UnormSrgb);
    assert_eq!(state.config.width, 800);
    assert_eq!(state.config.height, 600);
    assert_eq!(state.config.present_mode, PresentMode::Fifo);
    assert_eq!(state.config.alpha_mode, CompositeAlphaMode::Opaque);
    assert_eq!(state.config.view_formats, Vec::<wgpu::TextureFormat>::new());
}

#[test]
fn new_decodes_the_texture() {
    let state = State::new(size(800, 600), &caps(), &TEXTURE_PNG).unwrap();
    assert_eq!(state.diffuse_texture.descriptor.size.width, 2);
    assert_eq!(state.diffuse_texture.descriptor.size.height, 3);
    assert_eq!(state.diffuse_texture.layout.bytes_per_row, Some(8));
    assert_eq!(state.diffuse_texture.data.len(), 24);
    assert_eq!(&state.diffuse_texture.data[..8], [255, 0, 0, 255, 0, 255, 0, 255]);
}

#[test]
fn new_uploads_the_pentagon() {
    let state = State::new(size(800, 600), &caps(), &TEXTURE_PNG).unwrap();
    assert_eq!(state.mesh, Mesh::pentagon());
    assert_eq!(state.num_vertices, 5);
    assert_eq!(state.num_indices, 9);
    assert_eq!(state.vertex_buffer.usage, BufferUsage::Vertex);
    assert_eq!(state.vertex_buffer.contents, Mesh::pentagon().vertex_bytes());
    assert_eq!(state.vertex_buffer.contents.len(), 100);
    assert_eq!(state.index_buffer.usage, BufferUsage::Index);
    assert_eq!(state.index_buffer.contents, Mesh::pentagon().index_bytes());
    assert_eq!(state.index_buffer.contents.len(), 18);
}

#[test]
fn new_buffers_hold_count_times_stride_bytes() {
    let state = State::new(size(800, 600), &caps(), &TEXTURE_PNG).unwrap();
    assert_eq!(state.vertex_buffer.contents.len() as u64, 20 * state.num_vertices as u64);
    assert_eq!(state.index_buffer.contents.len() as u64, 2 * state.num_indices as u64);
    assert_eq!(
        state.render_pipeline.vertex.buffers[0].array_stride * state.num_vertices as u64,
        state.vertex_buffer.contents.len() as u64
    );
}

#[test]
fn new_indices_all_name_a_vertex() {
    let state = State::new(size(800, 600), &caps(), &TEXTURE_PNG).unwrap();
    for index in &state.mesh.indices {
        assert!((*index as u32) < state.num_vertices);
    }
}

#[test]
fn new_builds_the_pipeline_for_the_surface_format() {
    let state = State::new(size(800, 600), &caps(), &TEXTURE_PNG).unwrap();
    assert_eq!(
        state.render_pipeline,
        RenderPipelineDescriptor::textured(wgpu::TextureFormat::Bgra8UnormSrgb)
    );
    assert_eq!(state.render_pipeline.vertex.buffers, vec![Vertex::desc()]);
    let fragment = state.render_pipeline.fragment.as_ref().unwrap();
    assert_eq!(fragment.targets.len(), 1);
    assert_eq!(fragment.targets[0].unwrap().format, state.config.format);
    assert_eq!(state.diffuse_sampler, SamplerDescriptor::diffuse());
    assert_eq!(state.diffuse_bind_group, BindGroupDescriptor::diffuse());
}

#[test]
fn new_takes_the_first_format_and_alpha_mode() {
    let caps = SurfaceCapabilities {
        formats: vec![wgpu::TextureFormat::Rgba16Float, wgpu::TextureFormat::Bgra8UnormSrgb],
        alpha_modes: vec![CompositeAlphaMode::PreMultiplied, CompositeAlphaMode::Opaque],
    };
    let state = State::new(size(1, 1), &caps, &TEXTURE_PNG).unwrap();
    assert_eq!(state.config.format, wgpu::TextureFormat::Rgba16Float);
    assert_eq!(state.config.alpha_mode, CompositeAlphaMode::PreMultiplied);
    assert_eq!(state.size, size(1, 1));
}

#[test]
fn new_fails_on_a_surface_without_formats() {
    let caps = SurfaceCapabilities { formats: vec![], alpha_modes: vec![CompositeAlphaMode::Opaque] };
    assert_eq!(State::new(size(800, 600), &caps, &TEXTURE_PNG), Err(InitError::IncompatibleSurface));
}

#[test]
fn new_fails_on_a_surface_without_alpha_modes() {
    let caps =
        SurfaceCapabilities { formats: vec![wgpu::TextureFormat::Bgra8UnormSrgb], alpha_modes: vec![] };
    assert_eq!(State::new(size(800, 600), &caps, &TEXTURE_PNG), Err(InitError::IncompatibleSurface));
}

#[test]
fn new_fails_on_a_window_without_pixels() {
    assert_eq!(State::new(size(0, 600), &caps(), &TEXTURE_PNG), Err(InitError::ZeroSizedSurface));
    assert_eq!(State::new(size(800, 0), &caps(), &TEXTURE_PNG), Err(InitError::ZeroSizedSurface));
    assert_eq!(State::new(size(0, 0), &caps(), &TEXTURE_PNG), Err(InitError::ZeroSizedSurface));
}

#[test]
fn new_fails_on_a_texture_that_does_not_decode() {
    assert_eq!(
        State::new(size(800, 600), &caps(), b"no image"),
        Err(InitError::Texture(TextureError::Undecodable))
    );
}

#[test]
fn new_judges_the_surface_before_the_window_and_the_texture() {
    let none = SurfaceCapabilities { formats: vec![], alpha_modes: vec![] };
    assert_eq!(State::new(size(0, 0), &none, b"no image"), Err(InitError::IncompatibleSurface));
    assert_eq!(State::new(size(0, 0), &caps(), b"no image"), Err(InitError::ZeroSizedSurface));
}

#[test]
fn with_image_makes_the_texture_of_the_image() {
    let state = State::with_image(size(640, 480), &caps(), image()).unwrap();
    assert_eq!(state.diffuse_texture, Texture::from_image(image()).unwrap());
    assert_eq!(state.diffuse_texture.data, vec![1, 2, 3, 4, 5, 6, 7, 8]);
    assert_eq!(state.diffuse_texture.layout.bytes_per_row, Some(4));
    assert_eq!(state.diffuse_texture.layout.rows_per_image, Some(2));
    assert_eq!(state.size, size(640, 480));
    assert_eq!(state.num_indices, 9);
}

#[test]
fn with_image_is_what_new_makes_of_the_decoded_file() {
    let decoded = RgbaImage {
        width: 2,
        height: 3,
        pixels: vec![
            255, 0, 0, 255, 0, 255, 0, 255,
            0, 0, 255, 255, 255, 255, 255, 255,
            0, 0, 0, 255, 10, 20, 30, 255,
        ],
    };
    assert_eq!(
        State::with_image(size(800, 600), &caps(), decoded),
        State::new(size(800, 600), &caps(), &TEXTURE_PNG)
    );
}

#[test]
fn with_image_fails_as_new_does_on_the_surface() {
    let none = SurfaceCapabilities { formats: vec![], alpha_modes: vec![] };
    assert_eq!(State::with_image(size(1, 1), &none, image()), Err(InitError::IncompatibleSurface));
    assert_eq!(State::with_image(size(0, 1), &caps(), image()), Err(InitError::ZeroSizedSurface));
}

#[test]
fn with_image_fails_on_an_image_that_makes_no_texture() {
    let empty = RgbaImage { width: 0, height: 2, pixels: vec![] };
    assert_eq!(
        State::with_image(size(1, 1), &caps(), empty),
        Err(InitError::Texture(TextureError::Empty))
    );
    let wide = RgbaImage { width: 0x4000_0000, height: 1, pixels: vec![] };
    assert_eq!(
        State::with_image(size(1, 1), &caps(), wide),
        Err(InitError::Texture(TextureError::TooWide))
    );
    let short = RgbaImage { width: 1, height: 2, pixels: vec![1, 2, 3, 4] };
    assert_eq!(
        State::with_image(size(1, 1), &caps(), short),
        Err(InitError::Texture(TextureError::SizeMismatch))
    );
}

#[test]
fn with_image_judges_the_surface_before_the_image() {
    let empty = RgbaImage { width: 0, height: 0, pixels: vec![] };
    assert_eq!(
        State::with_image(size(0, 1), &caps(), empty),
        Err(InitError::ZeroSizedSurface)
    );
}

#[test]
fn surface_errors_fall_into_three_classes() {
    assert_eq!(SurfaceError::Lost.class(), ErrorClass::Recoverable);
    assert_eq!(SurfaceError::OutOfMemory.class(), ErrorClass::Fatal);
    assert_eq!(SurfaceError::Timeout.class(), ErrorClass::Transient);
    assert_eq!(SurfaceError::Outdated.class(), ErrorClass::Transient);
}

#[test]
fn resize_updates_only_the_size_and_the_configured_width_and_height() {
    let mut resized = state();
    resized.resize(size(1024, 768));
    assert_eq!(resized.size, size(1024, 768));
    assert_eq!(resized.config.width, 1024);
    assert_eq!(resized.config.height, 768);
    let before = state();
    assert_eq!(resized.config.format, before.config.format);
    assert_eq!(resized.config.present_mode, before.config.present_mode);
    assert_eq!(resized.config.alpha_mode, before.config.alpha_mode);
    assert_eq!(resized.config.usage, before.config.usage);
    assert_eq!(resized.config.view_formats, before.config.view_formats);
    assert_eq!(resized.render_pipeline, before.render_pipeline);
    assert_eq!(resized.mesh, before.mesh);
    assert_eq!(resized.vertex_buffer, before.vertex_buffer);
    assert_eq!(resized.index_buffer, before.index_buffer);
    assert_eq!(resized.num_vertices, before.num_vertices);
    assert_eq!(resized.num_indices, before.num_indices);
    assert_eq!(resized.diffuse_texture, before.diffuse_texture);
    assert_eq!(resized.diffuse_sampler, before.diffuse_sampler);
    assert_eq!(resized.diffuse_bind_group, before.diffuse_bind_group);
}

#[test]
fn resize_to_the_same_size_changes_nothing() {
    let mut resized = state();
    resized.resize(size(800, 600));
    assert_eq!(resized, state());
}

#[test]
fn resize_to_another_size_and_back_restores_the_state() {
    let mut resized = state();
    resized.resize(size(1, u32::MAX));
    assert_eq!(resized.config.width, 1);
    assert_eq!(resized.config.height, u32::MAX);
    resized.resize(size(800, 600));
    assert_eq!(resized, state());
}

#[test]
fn input_takes_no_event() {
    let events = [
        WindowEvent::CursorMoved,
        WindowEvent::CloseRequested,
        WindowEvent::Resized(size(3, 4)),
        WindowEvent::Other,
    ];
    for event in &events {
        let mut current = state();
        assert!(!current.input(event));
        assert_eq!(current, state());
    }
}

#[test]
fn update_changes_nothing() {
    let mut current = state();
    current.update();
    assert_eq!(current, state());
}

#[test]
fn render_draws_all_nine_indices_once() {
    let frame = state().render(Ok(())).unwrap();
    assert_eq!(
        frame,
        Frame {
            ops: Operations {
                load: LoadOp::Clear(Color { r: 0, g: 255, b: 0, a: 255 }),
                store: true,
            },
            commands: vec![
                RenderCommand::SetPipeline,
                RenderCommand::SetBindGroup { index: 0 },
                RenderCommand::SetVertexBuffer { slot: 0 },
                RenderCommand::SetIndexBuffer { format: IndexFormat::Uint16 },
                RenderCommand::DrawIndexed {
                    first_index: 0,
                    end_index: 9,
                    base_vertex: 0,
                    first_instance: 0,
                    end_instance: 1,
                },
            ],
        }
    );
}

#[test]
fn render_is_the_same_frame_every_time() {
    let current = state();
    assert_eq!(current.render(Ok(())), current.render(Ok(())));
    assert_eq!(current.render(Ok(())), Ok(Frame::mesh(9)));
}

#[test]
fn render_hands_on_the_error_of_the_surface() {
    let current = state();
    assert_eq!(current.render(Err(SurfaceError::Timeout)), Err(SurfaceError::Timeout));
    assert_eq!(current.render(Err(SurfaceError::Outdated)), Err(SurfaceError::Outdated));
    assert_eq!(current.render(Err(SurfaceError::Lost)), Err(SurfaceError::Lost));
    assert_eq!(current.render(Err(SurfaceError::OutOfMemory)), Err(SurfaceError::OutOfMemory));
}

#[test]
fn frame_of_a_mesh_draws_as_many_indices_as_it_is_given() {
    let frame = Frame::mesh(0);
    assert_eq!(frame.commands.len(), 5);
    assert_eq!(
        frame.commands[4],
        RenderCommand::DrawIndexed {
            first_index: 0,
            end_index: 0,
            base_vertex: 0,
            first_instance: 0,
            end_instance: 1,
        }
    );
    let frame = Frame::mesh(u32::MAX);
    assert_eq!(
        frame.commands[4],
        RenderCommand::DrawIndexed {
            first_index: 0,
            end_index: u32::MAX,
            base_vertex: 0,
            first_instance: 0,
            end_instance: 1,
        }
    );
}

#[test]
fn new_fails_on_a_texture_that_may_not_be_decoded() {
    let lossless = [
        0xff, 0xd8, 0xff, 0xc4, 0x00, 0x14, 0x00, 0x01, 0x00, 0x00, 0x00, 0x00, 0x00, 0x00, 0x00,
        0x00, 0x00, 0x00, 0x00, 0x00, 0x00, 0x00, 0x00, 0x00, 0xff, 0xc3, 0x00, 0x0b, 0x07, 0x00,
        0x01, 0x00, 0x01, 0x01, 0x01, 0x11, 0x00, 0xff, 0xda, 0x00, 0x08, 0x01, 0x01, 0x00, 0x01,
        0x00, 0x00, 0x7f, 0xff, 0xd9,
    ];
    assert!(!Texture::may_decode(&lossless));
    assert_eq!(
        State::new(size(800, 600), &caps(), &lossless),
        Err(InitError::Texture(TextureError::Undecodable))
    );
    assert_eq!(
        State::new(size(0, 600), &caps(), &lossless),
        Err(InitError::ZeroSizedSurface)
    );
}
