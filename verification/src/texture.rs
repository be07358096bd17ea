//! The texture that is laid over the mesh: a decoded image, the GPU texture
//! that receives it and the sampler through which the fragment stage reads it.

use vstd::prelude::*;

verus! {

/// Number of bytes in one pixel of an [`RgbaImage`].
pub const BYTES_PER_PIXEL: u32 = 4;

/// A decoded image: rows of pixels from top to bottom, each pixel four bytes
/// in the order red, green, blue, alpha.
#[derive(Clone, Debug, PartialEq, Eq)]
pub struct RgbaImage {
    pub width: u32,
    pub height: u32,
    pub pixels: Vec<u8>,
}

/// Why an image cannot become a texture.
#[derive(Clone, Copy, Debug, PartialEq, Eq, Structural)]
pub enum TextureError {
    /// The bytes are no image in a format that is understood.
    Undecodable,
    /// The image has no pixels.
    Empty,
    /// A row of the image has more bytes than 32 bits can count.
    TooWide,
    /// The image does not hold four bytes for each of its pixels.
    SizeMismatch,
}

/// Width, height and depth of a texture in texels.
#[derive(Clone, Copy, Debug, PartialEq, Eq, Structural)]
pub struct Extent3d {
    pub width: u32,
    pub height: u32,
    pub depth_or_array_layers: u32,
}

/// The number of dimensions in which a texture is addressed.
#[derive(Clone, Copy, Debug, PartialEq, Eq, Structural)]
pub enum TextureDimension {
    D1,
    D2,
    D3,
}

/// How the four bytes of a texel are read: as they are, or as sRGB values
/// that are made linear on the way into the shader.
#[derive(Clone, Copy, Debug, PartialEq, Eq, Structural)]
pub enum TexelFormat {
    Rgba8Unorm,
    Rgba8UnormSrgb,
}

/// What a texture may be used for.
#[derive(Clone, Copy, Debug, PartialEq, Eq, Structural)]
pub struct TextureUsages {
    pub copy_src: bool,
    pub copy_dst: bool,
    pub texture_binding: bool,
    pub storage_binding: bool,
    pub render_attachment: bool,
}

/// The GPU texture to create.
#[derive(Clone, Copy, Debug, PartialEq, Eq, Structural)]
pub struct TextureDescriptor {
    pub size: Extent3d,
    pub mip_level_count: u32,
    pub sample_count: u32,
    pub dimension: TextureDimension,
    pub format: TexelFormat,
    pub usage: TextureUsages,
}

/// Where the rows of an image lie in the bytes that are copied to a texture.
#[derive(Clone, Copy, Debug, PartialEq, Eq, Structural)]
pub struct ImageDataLayout {
    /// First byte of the first row.
    pub offset: u64,
    /// Distance in bytes from one row to the next.
    pub bytes_per_row: Option<u32>,
    /// Number of rows in one image of the copy.
    pub rows_per_image: Option<u32>,
}

/// A texture to create and the pixels to copy into it.
#[derive(Clone, Debug, PartialEq, Eq)]
pub struct Texture {
    pub descriptor: TextureDescriptor,
    pub layout: ImageDataLayout,
    pub data: Vec<u8>,
}

/// What a sampler returns for a coordinate outside the texture.
#[derive(Clone, Copy, Debug, PartialEq, Eq, Structural)]
pub enum AddressMode {
    ClampToEdge,
    Repeat,
    MirrorRepeat,
    ClampToBorder,
}

/// How a sampler chooses among the texels around a coordinate.
#[derive(Clone, Copy, Debug, PartialEq, Eq, Structural)]
pub enum FilterMode {
    Nearest,
    Linear,
}

/// The sampler to create.
#[derive(Clone, Copy, Debug, PartialEq, Eq, Structural)]
pub struct SamplerDescriptor {
    pub address_mode_u: AddressMode,
    pub address_mode_v: AddressMode,
    pub address_mode_w: AddressMode,
    /// Used where one texel covers more than one pixel.
    pub mag_filter: FilterMode,
    /// Used where one pixel covers more than one texel.
    pub min_filter: FilterMode,
    pub mipmap_filter: FilterMode,
}

/// `image::ImageError`, the decoder's reason for giving no image. The
/// library never looks inside it.
#[verifier::external_type_specification]
#[verifier::external_body]
pub struct ExImageError(image::ImageError);

/// `image::DynamicImage`, a decoded image in whatever pixel format its file
/// had. The library never looks inside it.
#[verifier::external_type_specification]
#[verifier::external_body]
pub struct ExDynamicImage(image::DynamicImage);

/// A decoded image of any pixel format, with its size. Only
/// [`load_from_memory`] makes one, so the size is the image's own.
struct LoadedImage {
    image: image::DynamicImage,
    width: u32,
    height: u32,
}

/// The eight bytes that every PNG file starts with.
pub open spec fn png_signature() -> Seq<u8> {
    seq![0x89u8, 0x50u8, 0x4eu8, 0x47u8, 0x0du8, 0x0au8, 0x1au8, 0x0au8]
}

/// The three bytes that every JPEG file starts with: the start-of-image
/// marker and the first byte of the marker after it.
pub open spec fn jpeg_signature() -> Seq<u8> {
    seq![0xffu8, 0xd8u8, 0xffu8]
}

/// The data starts with the given bytes.
pub open spec fn starts_with(bytes: Seq<u8>, prefix: Seq<u8>) -> bool {
    prefix.len() <= bytes.len() && bytes.subrange(0, prefix.len() as int) == prefix
}

/// The marker code opens a JPEG frame of a process that is not decoded:
/// lossless, differential, or with arithmetic coding. The codes 0xC0, 0xC1
/// and 0xC2 open the frames that are decoded, and 0xC4, 0xC8 and 0xCC open
/// no frame.
pub open spec fn is_refused_frame_code(code: u8) -> bool {
    0xc3 <= code <= 0xcf && code != 0xc4 && code != 0xc8 && code != 0xcc
}

/// At position `i` the data holds 0xFF and directly behind it the code of a
/// refused frame.
pub open spec fn refused_frame_at(bytes: Seq<u8>, i: int) -> bool {
    0 <= i && i + 1 < bytes.len() && bytes[i] == 0xff && is_refused_frame_code(bytes[i + 1])
}

/// Somewhere the data holds 0xFF and directly behind it the code of a
/// refused frame.
pub open spec fn names_refused_frame(bytes: Seq<u8>) -> bool {
    exists|i: int| #[trigger] refused_frame_at(bytes, i)
}

/// The data may be handed to the decoder: it starts as a PNG file, or it
/// starts as a JPEG file and nowhere names a refused frame.
///
/// A JPEG decoder learns of a marker only from the byte that directly
/// follows a 0xFF, so in such data it never meets a refused frame, wherever
/// it looks. Data that holds the two bytes for another reason, in a comment
/// or a thumbnail, is turned away with the rest.
pub open spec fn spec_may_decode(bytes: Seq<u8>) -> bool {
    starts_with(bytes, png_signature()) || (starts_with(bytes, jpeg_signature())
        && !names_refused_frame(bytes))
}

/// Calls `image::load_from_memory`, which guesses the format of the bytes by
/// their first bytes and decodes them, and takes the image's width and
/// height.
///
/// Trusted: on the bytes that [`spec_may_decode`] admits the call returns.
/// Such bytes go to the PNG or to the JPEG decoder. The JPEG decoder copies
/// what it decoded into a buffer that it sized from the frame header, and
/// panics where the two differ in length; they differ only for frames of
/// the lossless process, which it enters only on a frame marker that the
/// admitted bytes do not hold. Nothing is claimed about which bytes decode,
/// nor about the image.
#[verifier::external_body]
fn load_from_memory(bytes: &[u8]) -> (result: Result<LoadedImage, image::ImageError>)
    requires
        spec_may_decode(bytes@),
{
    let image = image::load_from_memory(bytes)?;
    let (width, height) = (image.width(), image.height());
    Ok(LoadedImage { image, width, height })
}

/// Calls `DynamicImage::to_rgba8`, which copies the image into a new buffer
/// with four 8-bit channels for each pixel, and takes that buffer's bytes.
///
/// Trusted: the new buffer is made with exactly four bytes for each pixel of
/// the image's width times its height, so the image that comes back is well
/// formed and of the same size. Making the buffer panics where that many
/// bytes are more than a buffer can hold, which the precondition leaves out.
/// Nothing is claimed about the pixels: the decoder chooses its arithmetic
/// by the machine it runs on.
#[verifier::external_body]
fn to_rgba8(loaded: &LoadedImage) -> (image: RgbaImage)
    requires
        loaded.spec_fits_in_memory(),
    ensures
        image.width == loaded.width,
        image.height == loaded.height,
        image.wf(),
{
    RgbaImage {
        width: loaded.width,
        height: loaded.height,
        pixels: loaded.image.to_rgba8().into_raw(),
    }
}

impl LoadedImage {
    /// Four bytes for each pixel of the image are no more than a buffer can
    /// hold.
    spec fn spec_fits_in_memory(&self) -> bool {
        4 * self.width * self.height <= isize::MAX
    }

    /// Whether four bytes for each pixel of the image are no more than a
    /// buffer can hold.
    fn fits_in_memory(&self) -> (fits: bool)
        ensures
            fits == self.spec_fits_in_memory(),
    {
        assert(self.width as int * self.height as int <= 0xffff_ffff * 0xffff_ffff)
            by (nonlinear_arith)
            requires
                0 <= self.width <= 0xffff_ffff,
                0 <= self.height <= 0xffff_ffff,
        ;
        let pixels: u64 = self.width as u64 * self.height as u64;
        let most: u64 = (isize::MAX as u64) / 4;
        assert(4 * pixels <= isize::MAX <==> pixels <= most);
        assert(4 * self.width * self.height == 4 * pixels) by (nonlinear_arith)
            requires
                pixels == self.width * self.height,
        ;
        pixels <= most
    }
}

/// Whether the data starts with the eight bytes of a PNG file.
fn has_png_signature(bytes: &[u8]) -> (found: bool)
    ensures
        found == starts_with(bytes@, png_signature()),
{
    if bytes.len() < 8 {
        return false;
    }
    let found = bytes[0] == 0x89 && bytes[1] == 0x50 && bytes[2] == 0x4e && bytes[3] == 0x47
        && bytes[4] == 0x0d && bytes[5] == 0x0a && bytes[6] == 0x1a && bytes[7] == 0x0a;
    proof {
        let head = bytes@.subrange(0, 8);
        if found {
            assert(head =~= png_signature());
        } else {
            assert(head[0] == bytes@[0] && head[1] == bytes@[1] && head[2] == bytes@[2]
                && head[3] == bytes@[3] && head[4] == bytes@[4] && head[5] == bytes@[5]
                && head[6] == bytes@[6] && head[7] == bytes@[7]);
        }
    }
    found
}

/// Whether the data starts with the three bytes of a JPEG file.
fn has_jpeg_signature(bytes: &[u8]) -> (found: bool)
    ensures
        found == starts_with(bytes@, jpeg_signature()),
{
    if bytes.len() < 3 {
        return false;
    }
    let found = bytes[0] == 0xff && bytes[1] == 0xd8 && bytes[2] == 0xff;
    proof {
        let head = bytes@.subrange(0, 3);
        if found {
            assert(head =~= jpeg_signature());
        } else {
            assert(head[0] == bytes@[0] && head[1] == bytes@[1] && head[2] == bytes@[2]);
        }
    }
    found
}

/// Whether the code opens a JPEG frame of a process that is not decoded.
fn refuses_frame_code(code: u8) -> (refused: bool)
    ensures
        refused == is_refused_frame_code(code),
{
    0xc3 <= code && code <= 0xcf && code != 0xc4 && code != 0xc8 && code != 0xcc
}

/// Whether the data somewhere holds 0xFF and directly behind it the code of
/// a refused frame.
fn finds_refused_frame(bytes: &[u8]) -> (found: bool)
    ensures
        found == names_refused_frame(bytes@),
{
    let last: usize = if bytes.len() == 0 {
        0
    } else {
        bytes.len() - 1
    };
    let mut i: usize = 0;
    while i < last
        invariant
            i <= last,
            last + 1 == bytes@.len() || (last == 0 && bytes@.len() == 0),
            forall|j: int| 0 <= j < i ==> !#[trigger] refused_frame_at(bytes@, j),
        decreases last - i,
    {
        if bytes[i] == 0xff && refuses_frame_code(bytes[i + 1]) {
            assert(refused_frame_at(bytes@, i as int));
            return true;
        }
        i = i + 1;
    }
    assert forall|j: int| !#[trigger] refused_frame_at(bytes@, j) by {
        if 0 <= j && j + 1 < bytes@.len() {
            assert(j < i);
        }
    }
    false
}

impl TexelFormat {
    /// Number of bytes in one texel.
    pub open spec fn spec_bytes_per_texel(self) -> nat {
        4
    }

    /// Number of bytes in one texel.
    pub fn bytes_per_texel(&self) -> (bytes: u32)
        ensures
            bytes == self.spec_bytes_per_texel(),
    {
        match self {
            TexelFormat::Rgba8Unorm => 4,
            TexelFormat::Rgba8UnormSrgb => 4,
        }
    }
}

impl TextureUsages {
    /// The usages of a texture that is filled by a copy and read by a shader.
    pub open spec fn spec_sampled() -> TextureUsages {
        TextureUsages {
            copy_src: false,
            copy_dst: true,
            texture_binding: true,
            storage_binding: false,
            render_attachment: false,
        }
    }

    /// The usage of a texture that is drawn to.
    pub open spec fn spec_render_attachment() -> TextureUsages {
        TextureUsages {
            copy_src: false,
            copy_dst: false,
            texture_binding: false,
            storage_binding: false,
            render_attachment: true,
        }
    }

    /// The usages of a texture that is filled by a copy and read by a shader.
    pub fn sampled() -> (usage: TextureUsages)
        ensures
            usage == TextureUsages::spec_sampled(),
    {
        TextureUsages {
            copy_src: false,
            copy_dst: true,
            texture_binding: true,
            storage_binding: false,
            render_attachment: false,
        }
    }

    /// The usage of a texture that is drawn to.
    pub fn render_attachment() -> (usage: TextureUsages)
        ensures
            usage == TextureUsages::spec_render_attachment(),
    {
        TextureUsages {
            copy_src: false,
            copy_dst: false,
            texture_binding: false,
            storage_binding: false,
            render_attachment: true,
        }
    }
}

impl RgbaImage {
    /// The image holds four bytes for each of its pixels.
    pub open spec fn wf(&self) -> bool {
        self.pixels@.len() == BYTES_PER_PIXEL * self.width * self.height
    }

    /// The reason why the image cannot become a texture, if there is one.
    pub open spec fn rejection(&self) -> Option<TextureError> {
        if self.width == 0 || self.height == 0 {
            Some(TextureError::Empty)
        } else if 4 * self.width > u32::MAX {
            Some(TextureError::TooWide)
        } else if !self.wf() {
            Some(TextureError::SizeMismatch)
        } else {
            None
        }
    }
}

impl Texture {
    /// The two-dimensional sRGB texture with one texel for each pixel of an
    /// image of the given size, without mip levels or multisampling.
    pub open spec fn descriptor_for(width: u32, height: u32) -> TextureDescriptor {
        TextureDescriptor {
            size: Extent3d { width, height, depth_or_array_layers: 1 },
            mip_level_count: 1,
            sample_count: 1,
            dimension: TextureDimension::D2,
            format: TexelFormat::Rgba8UnormSrgb,
            usage: TextureUsages::spec_sampled(),
        }
    }

    /// The layout of rows that follow one another without a gap.
    pub open spec fn layout_for(width: u32, height: u32) -> ImageDataLayout {
        ImageDataLayout {
            offset: 0,
            bytes_per_row: Some((4 * width) as u32),
            rows_per_image: Some(height),
        }
    }

    /// The texture has texels, its rows are four bytes for each texel of its
    /// width, there are as many rows as the texture is high, and the data
    /// holds exactly these rows.
    pub open spec fn wf(&self) -> bool {
        let size = self.descriptor.size;
        &&& size.width > 0 && size.height > 0 && size.depth_or_array_layers == 1
        &&& self.descriptor == Texture::descriptor_for(size.width, size.height)
        &&& self.layout == Texture::layout_for(size.width, size.height)
        &&& 4 * size.width <= u32::MAX
        &&& self.data@.len() == 4 * size.width * size.height
    }

    /// Plans the texture for an image and the copy that fills it.
    pub fn from_image(image: RgbaImage) -> (result: Result<Texture, TextureError>)
        ensures
            match result {
                Ok(texture) => {
                    &&& image.rejection() is None
                    &&& texture.descriptor == Texture::descriptor_for(image.width, image.height)
                    &&& texture.layout == Texture::layout_for(image.width, image.height)
                    &&& texture.data == image.pixels
                    &&& texture.wf()
                },
                Err(error) => image.rejection() == Some(error),
            },
    {
        if image.width == 0 || image.height == 0 {
            return Err(TextureError::Empty);
        }
        let format = TexelFormat::Rgba8UnormSrgb;
        let bytes_per_row: u32 = match format.bytes_per_texel().checked_mul(image.width) {
            Some(bytes) => bytes,
            None => {
                return Err(TextureError::TooWide);
            },
        };
        assert(bytes_per_row as int * image.height as int <= 0xffff_ffff * 0xffff_ffff)
            by (nonlinear_arith)
            requires
                0 <= bytes_per_row <= 0xffff_ffff,
                0 <= image.height <= 0xffff_ffff,
        ;
        let expected: u64 = bytes_per_row as u64 * image.height as u64;
        assert(expected == 4 * image.width * image.height) by (nonlinear_arith)
            requires
                expected == bytes_per_row * image.height,
                bytes_per_row == 4 * image.width,
        ;
        if image.pixels.len() as u64 != expected {
            return Err(TextureError::SizeMismatch);
        }
        Ok(
            Texture {
                descriptor: TextureDescriptor {
                    size: Extent3d {
                        width: image.width,
                        height: image.height,
                        depth_or_array_layers: 1,
                    },
                    mip_level_count: 1,
                    sample_count: 1,
                    dimension: TextureDimension::D2,
                    format,
                    usage: TextureUsages::sampled(),
                },
                layout: ImageDataLayout {
                    offset: 0,
                    bytes_per_row: Some(bytes_per_row),
                    rows_per_image: Some(image.height),
                },
                data: image.pixels,
            },
        )
    }

    /// Whether the data may be handed to the decoder: whether it starts as a
    /// PNG file, or starts as a JPEG file and nowhere names a frame of a
    /// process that is not decoded.
    pub fn may_decode(bytes: &[u8]) -> (admitted: bool)
        ensures
            admitted == spec_may_decode(bytes@),
    {
        if has_png_signature(bytes) {
            true
        } else if has_jpeg_signature(bytes) {
            !finds_refused_frame(bytes)
        } else {
            false
        }
    }

    /// Decodes an image file held in memory and plans the texture for it.
    ///
    /// Data that [`Texture::may_decode`] turns away is undecodable. Whether
    /// other data decodes, and to which pixels, is the decoder's matter: a
    /// texture that comes back is well formed, and a refusal is never
    /// [`TextureError::SizeMismatch`].
    pub fn decode(bytes: &[u8]) -> (result: Result<Texture, TextureError>)
        ensures
            !spec_may_decode(bytes@) ==> result == Err::<Texture, TextureError>(
                TextureError::Undecodable,
            ),
            match result {
                Ok(texture) => texture.wf(),
                Err(error) => error != TextureError::SizeMismatch,
            },
    {
        if !Texture::may_decode(bytes) {
            return Err(TextureError::Undecodable);
        }
        match load_from_memory(bytes) {
            Ok(loaded) => {
                if loaded.fits_in_memory() {
                    Texture::from_image(to_rgba8(&loaded))
                } else {
                    Err(TextureError::Undecodable)
                }
            },
            Err(_) => Err(TextureError::Undecodable),
        }
    }
}

impl SamplerDescriptor {
    /// The sampler of the mesh's texture: coordinates outside the texture
    /// take the nearest edge texel, magnified texels are blended and
    /// minified ones are not.
    pub open spec fn spec_diffuse() -> SamplerDescriptor {
        SamplerDescriptor {
            address_mode_u: AddressMode::ClampToEdge,
            address_mode_v: AddressMode::ClampToEdge,
            address_mode_w: AddressMode::ClampToEdge,
            mag_filter: FilterMode::Linear,
            min_filter: FilterMode::Nearest,
            mipmap_filter: FilterMode::Nearest,
        }
    }

    /// The sampler blends texels somewhere, so it can only read textures
    /// whose format allows blending.
    pub open spec fn is_filtering(self) -> bool {
        ||| self.mag_filter == FilterMode::Linear
        ||| self.min_filter == FilterMode::Linear
        ||| self.mipmap_filter == FilterMode::Linear
    }

    /// The sampler of the mesh's texture.
    pub fn diffuse() -> (sampler: SamplerDescriptor)
        ensures
            sampler == SamplerDescriptor::spec_diffuse(),
    {
        SamplerDescriptor {
            address_mode_u: AddressMode::ClampToEdge,
            address_mode_v: AddressMode::ClampToEdge,
            address_mode_w: AddressMode::ClampToEdge,
            mag_filter: FilterMode::Linear,
            min_filter: FilterMode::Nearest,
            mipmap_filter: FilterMode::Nearest,
        }
    }
}

} // verus!
