use vstd::prelude::*;
use crate::gpu_data::INDEX_BYTES;

verus! {

/// Width of the simulation grid, in cells.
pub const GRID_WIDTH: u32 = 100;
/// Height of the simulation grid, in cells.
pub const GRID_HEIGHT: u32 = 200;
/// Bytes of GPU storage per grid cell.
pub const CELL_BYTES: u64 = 4;

/// Size of the buffer that holds one value per grid cell.
pub open spec fn spec_cube_data_bytes() -> nat {
    (GRID_WIDTH * GRID_HEIGHT * CELL_BYTES) as nat
}

/// Byte size of the cell buffer: one `CELL_BYTES` value for each of the
/// `GRID_WIDTH * GRID_HEIGHT` cells (80000 bytes).
pub fn cube_data_bytes() -> (n: u64)
    ensures
        n == spec_cube_data_bytes(),
        n == 80000,
{
    let w: u64 = GRID_WIDTH as u64;
    let h: u64 = GRID_HEIGHT as u64;
    assert(w == 100 && h == 200);
    w * h * CELL_BYTES
}

/// A GPU buffer to create: its debug label, its size in bytes, whether shaders may
/// use it as storage, whether it may be copied into, and whether it starts mapped.
pub struct BufferSpec {
    pub label: &'static str,
    pub size: u64,
    pub storage: bool,
    pub copy_dst: bool,
    pub mapped_at_creation: bool,
}

/// The cell buffer: one value per grid cell, a storage buffer that can be copied
/// into, created unmapped.
pub fn cube_data_buffer() -> (b: BufferSpec)
    ensures
        b.label@ == "cube_date"@,
        b.size == spec_cube_data_bytes(),
        b.storage && b.copy_dst && !b.mapped_at_creation,
{
    BufferSpec {
        label: "cube_date",
        size: cube_data_bytes(),
        storage: true,
        copy_dst: true,
        mapped_at_creation: false,
    }
}

/// How a shader reaches a buffer.
pub enum BufferKind {
    Storage { read_only: bool },
    Uniform,
}

/// One buffer binding of a bind group layout, visible to compute shaders.
pub struct BufferLayoutEntry {
    pub binding: u32,
    pub kind: BufferKind,
    pub has_dynamic_offset: bool,
    pub min_size: Option<u64>,
}

/// A read-write storage buffer at `binding` that must hold at least `min` bytes.
pub open spec fn storage_entry(binding: u32, min: u64) -> BufferLayoutEntry {
    BufferLayoutEntry {
        binding,
        kind: BufferKind::Storage { read_only: false },
        has_dynamic_offset: false,
        min_size: Some(min),
    }
}

fn make_storage_entry(binding: u32, min: u64) -> (e: BufferLayoutEntry)
    ensures
        e == storage_entry(binding, min),
{
    BufferLayoutEntry {
        binding,
        kind: BufferKind::Storage { read_only: false },
        has_dynamic_offset: false,
        min_size: Some(min),
    }
}

/// Layout of the cube data group: the cell buffer, the timer, the touch parameters
/// and the falling block, in bindings 0 to 3.
pub open spec fn spec_cube_data_layout(timer_min: u64, touch_min: u64, block_min: u64) -> Seq<
    BufferLayoutEntry,
> {
    seq![
        storage_entry(0, spec_cube_data_bytes() as u64),
        storage_entry(1, timer_min),
        storage_entry(2, touch_min),
        storage_entry(3, block_min),
    ]
}

/// Builds the cube data layout; the minimum sizes of the timer, touch and block
/// bindings are the shader sizes of those structures.
pub fn cube_data_layout(timer_min: u64, touch_min: u64, block_min: u64) -> (l: Vec<
    BufferLayoutEntry,
>)
    ensures
        l@ == spec_cube_data_layout(timer_min, touch_min, block_min),
        l.len() == 4,
        forall|i: int|
            0 <= i < 4 ==> (#[trigger] l@[i]).binding == i && l@[i].kind == (BufferKind::Storage {
                read_only: false,
            }) && !l@[i].has_dynamic_offset,
        l@[0].min_size == Some(80000u64),
        l@[1].min_size == Some(timer_min),
        l@[2].min_size == Some(touch_min),
        l@[3].min_size == Some(block_min),
{
    let mut l = Vec::new();
    let cells = cube_data_bytes();
    l.push(make_storage_entry(0, cells));
    l.push(make_storage_entry(1, timer_min));
    l.push(make_storage_entry(2, touch_min));
    l.push(make_storage_entry(3, block_min));
    assert(l@ =~= spec_cube_data_layout(timer_min, touch_min, block_min));
    l
}

/// Layout of the simulation parameter group: one uniform buffer at binding 0.
pub open spec fn spec_sim_params_layout(params_min: u64) -> Seq<BufferLayoutEntry> {
    seq![
        BufferLayoutEntry {
            binding: 0,
            kind: BufferKind::Uniform,
            has_dynamic_offset: false,
            min_size: Some(params_min),
        },
    ]
}

/// Builds the simulation parameter layout for parameters of `params_min` bytes.
pub fn sim_params_layout(params_min: u64) -> (l: Vec<BufferLayoutEntry>)
    ensures
        l@ == spec_sim_params_layout(params_min),
        l.len() == 1,
        l@[0].binding == 0,
        l@[0].kind == BufferKind::Uniform,
        !l@[0].has_dynamic_offset,
        l@[0].min_size == Some(params_min),
{
    let mut l = Vec::new();
    l.push(
        BufferLayoutEntry {
            binding: 0,
            kind: BufferKind::Uniform,
            has_dynamic_offset: false,
            min_size: Some(params_min),
        },
    );
    assert(l@ =~= spec_sim_params_layout(params_min));
    l
}

/// Layout of the index group: two storage buffers of one `Index` each.
pub open spec fn spec_index_layout() -> Seq<BufferLayoutEntry> {
    seq![storage_entry(0, INDEX_BYTES), storage_entry(1, INDEX_BYTES)]
}

/// Builds the index layout.
pub fn index_layout() -> (l: Vec<BufferLayoutEntry>)
    ensures
        l@ == spec_index_layout(),
        l.len() == 2,
        forall|i: int|
            0 <= i < 2 ==> (#[trigger] l@[i]).binding == i && l@[i].kind == (BufferKind::Storage {
                read_only: false,
            }) && !l@[i].has_dynamic_offset && l@[i].min_size == Some(4u64),
{
    let mut l = Vec::new();
    l.push(make_storage_entry(0, INDEX_BYTES));
    l.push(make_storage_entry(1, INDEX_BYTES));
    assert(l@ =~= spec_index_layout());
    l
}

/// Pixel formats of the textures the simulation creates.
pub enum TexelFormat {
    R32Float,
    Rgba32Float,
}

impl TexelFormat {
    pub open spec fn spec_pixel_bytes(self) -> nat {
        match self {
            TexelFormat::R32Float => 4,
            TexelFormat::Rgba32Float => 16,
        }
    }

    /// Bytes per pixel: four per 32-bit channel.
    pub fn pixel_bytes(&self) -> (n: u64)
        ensures
            n == self.spec_pixel_bytes(),
            *self is R32Float ==> n == 4,
            *self is Rgba32Float ==> n == 16,
    {
        match self {
            TexelFormat::R32Float => 4,
            TexelFormat::Rgba32Float => 16,
        }
    }
}

/// A two-dimensional storage texture binding of a layout.
pub struct StorageTextureEntry {
    pub binding: u32,
    pub format: TexelFormat,
    pub read: bool,
    pub write: bool,
}

pub open spec fn spec_texture_layout() -> StorageTextureEntry {
    StorageTextureEntry { binding: 0, format: TexelFormat::Rgba32Float, read: true, write: true }
}

/// The texture group's layout: the grid image, read and written at binding 0.
pub fn texture_layout() -> (e: StorageTextureEntry)
    ensures
        e == spec_texture_layout(),
        e.binding == 0,
        e.format is Rgba32Float,
        e.read && e.write,
{
    StorageTextureEntry { binding: 0, format: TexelFormat::Rgba32Float, read: true, write: true }
}

/// The buffers that bind groups hand to the shaders.
pub enum BufferRole {
    CubeCells,
    Timer,
    Touch,
    Block,
    SimParams,
    Index,
    IndexPong,
}

/// One entry of a bind group: the whole of `buffer`, from offset 0, at `binding`.
pub struct GroupEntry {
    pub binding: u32,
    pub buffer: BufferRole,
}

pub open spec fn spec_cube_data_group() -> Seq<GroupEntry> {
    seq![
        GroupEntry { binding: 0, buffer: BufferRole::CubeCells },
        GroupEntry { binding: 1, buffer: BufferRole::Timer },
        GroupEntry { binding: 2, buffer: BufferRole::Touch },
        GroupEntry { binding: 3, buffer: BufferRole::Block },
    ]
}

/// Entries of the cube data group.
pub fn cube_data_group() -> (g: Vec<GroupEntry>)
    ensures
        g@ == spec_cube_data_group(),
        g.len() == 4,
        forall|i: int| 0 <= i < 4 ==> (#[trigger] g@[i]).binding == i,
        g@[0].buffer is CubeCells,
        g@[1].buffer is Timer,
        g@[2].buffer is Touch,
        g@[3].buffer is Block,
{
    let mut g = Vec::new();
    g.push(GroupEntry { binding: 0, buffer: BufferRole::CubeCells });
    g.push(GroupEntry { binding: 1, buffer: BufferRole::Timer });
    g.push(GroupEntry { binding: 2, buffer: BufferRole::Touch });
    g.push(GroupEntry { binding: 3, buffer: BufferRole::Block });
    assert(g@ =~= spec_cube_data_group());
    g
}

pub open spec fn spec_sim_params_group() -> Seq<GroupEntry> {
    seq![GroupEntry { binding: 0, buffer: BufferRole::SimParams }]
}

/// Entries of the simulation parameter group.
pub fn sim_params_group() -> (g: Vec<GroupEntry>)
    ensures
        g@ == spec_sim_params_group(),
        g.len() == 1,
        g@[0].binding == 0,
        g@[0].buffer is SimParams,
{
    let mut g = Vec::new();
    g.push(GroupEntry { binding: 0, buffer: BufferRole::SimParams });
    assert(g@ =~= spec_sim_params_group());
    g
}

/// The index group binds the second index buffer first and the first one second.
pub open spec fn spec_index_group() -> Seq<GroupEntry> {
    seq![
        GroupEntry { binding: 0, buffer: BufferRole::IndexPong },
        GroupEntry { binding: 1, buffer: BufferRole::Index },
    ]
}

/// Entries of the index group.
pub fn index_group() -> (g: Vec<GroupEntry>)
    ensures
        g@ == spec_index_group(),
        g.len() == 2,
        g@[0].binding == 0,
        g@[0].buffer is IndexPong,
        g@[1].binding == 1,
        g@[1].buffer is Index,
{
    let mut g = Vec::new();
    g.push(GroupEntry { binding: 0, buffer: BufferRole::IndexPong });
    g.push(GroupEntry { binding: 1, buffer: BufferRole::Index });
    assert(g@ =~= spec_index_group());
    g
}

/// A two-dimensional image to create on the GPU, filled with a repeated pixel.
/// `main_world` and `render_world` say where the image data is kept.
pub struct ImageSpec {
    pub width: u32,
    pub height: u32,
    pub depth: u32,
    pub format: TexelFormat,
    pub fill: Vec<u8>,
    pub copy_dst: bool,
    pub storage_binding: bool,
    pub texture_binding: bool,
    pub main_world: bool,
    pub render_world: bool,
}

/// The grid image's fill pattern: the bytes 255, 0, 0, 255 four times, one
/// `Rgba32Float` pixel.
pub open spec fn spec_grid_fill() -> Seq<u8> {
    seq![255u8, 0, 0, 255, 255, 0, 0, 255, 255, 0, 0, 255, 255, 0, 0, 255]
}

/// Bytes of the single-channel pixel that fills the scratch image.
pub open spec fn spec_scratch_fill() -> Seq<u8> {
    seq![0u8, 0, 0, 255]
}

/// An image of the grid's size, kept on the render side only, that shaders may
/// copy into, write as storage and sample.
pub open spec fn image_of(img: ImageSpec, format: TexelFormat, fill: Seq<u8>) -> bool {
    &&& img.width == GRID_WIDTH
    &&& img.height == GRID_HEIGHT
    &&& img.depth == 1
    &&& img.format == format
    &&& img.fill@ == fill
    &&& img.copy_dst && img.storage_binding && img.texture_binding
    &&& !img.main_world && img.render_world
}

fn grid_image(format: TexelFormat, fill: Vec<u8>) -> (img: ImageSpec)
    ensures
        image_of(img, format, fill@),
{
    ImageSpec {
        width: GRID_WIDTH,
        height: GRID_HEIGHT,
        depth: 1,
        format,
        fill,
        copy_dst: true,
        storage_binding: true,
        texture_binding: true,
        main_world: false,
        render_world: true,
    }
}

/// The image the compute shaders draw the grid into and that is displayed.
pub fn grid_image_spec() -> (img: ImageSpec)
    ensures
        image_of(img, TexelFormat::Rgba32Float, spec_grid_fill()),
        img.width == 100 && img.height == 200 && img.depth == 1,
        img.format is Rgba32Float,
        img.fill@ == seq![255u8, 0, 0, 255, 255, 0, 0, 255, 255, 0, 0, 255, 255, 0, 0, 255],
        img.copy_dst && img.storage_binding && img.texture_binding,
        !img.main_world && img.render_world,
{
    let mut fill: Vec<u8> = Vec::new();
    let mut i: usize = 0;
    while i < 4
        invariant
            i <= 4,
            fill@ =~= spec_grid_fill().take(4 * i as int),
        decreases 4 - i,
    {
        fill.push(255);
        fill.push(0);
        fill.push(0);
        fill.push(255);
        assert(spec_grid_fill().take(4 * (i + 1) as int) =~= spec_grid_fill().take(4 * i as int)
            + seq![255u8, 0, 0, 255]);
        i = i + 1;
    }
    assert(spec_grid_fill().take(16) =~= spec_grid_fill());
    grid_image(TexelFormat::Rgba32Float, fill)
}

/// The single-channel image that resource setup also builds; it is not bound anywhere.
pub fn scratch_image_spec() -> (img: ImageSpec)
    ensures
        image_of(img, TexelFormat::R32Float, spec_scratch_fill()),
        img.width == 100 && img.height == 200 && img.depth == 1,
        img.format is R32Float,
        img.fill@ == seq![0u8, 0, 0, 255],
        img.copy_dst && img.storage_binding && img.texture_binding,
        !img.main_world && img.render_world,
{
    let mut fill: Vec<u8> = Vec::new();
    fill.push(0);
    fill.push(0);
    fill.push(0);
    fill.push(255);
    assert(fill@ =~= spec_scratch_fill());
    grid_image(TexelFormat::R32Float, fill)
}

} // verus!
