//! Memory-buffer pools and the buffers and frames taken from them.

use crate::call::MpiCall;
use crate::{
    ColorGamut, CompressMode, DynamicRange, Error, PixelFormat, RockitSys, VideoField, VideoFormat,
};
use vstd::prelude::*;

verus! {

/// How a pool's buffers are allocated.
#[derive(Clone, Copy, Debug, PartialEq, Eq, Structural)]
pub enum MbAllocType {
    /// By DMA.
    Dma,
}

/// How a pool's buffers are mapped for the process.
#[derive(Clone, Copy, Debug, PartialEq, Eq, Structural)]
pub enum MbRemapMode {
    /// Not remapped: the platform's own mapping.
    NoRemap,
}

/// Which DMA heap a pool's buffers come from.
#[derive(Clone, Copy, Debug, PartialEq, Eq, Structural)]
pub enum MbDmaType {
    /// The platform's default.
    Default,
}

/// The configuration a pool is created with (see `spec_pool_config`).
#[derive(Clone, Copy, Debug, PartialEq, Eq, Structural)]
pub struct MbPoolConfig {
    pub not_delete: bool,
    pub pre_alloc: bool,
    pub alloc_type: MbAllocType,
    pub remap_mode: MbRemapMode,
    pub dma_type: MbDmaType,
    pub mb_count: u32,
    pub mb_size: u64,
}

/// The pool number the platform answers when it could not create a pool.
pub const MB_INVALID_POOLID: u32 = 0xFFFF_FFFFu32;

/// The configuration of a pool of one preallocated buffer of `buf_size`
/// bytes, allocated by DMA from the default heap, not remapped, and deleted
/// with the pool.
pub open spec fn spec_pool_config(buf_size: u32) -> MbPoolConfig {
    MbPoolConfig {
        not_delete: false,
        pre_alloc: true,
        alloc_type: MbAllocType::Dma,
        remap_mode: MbRemapMode::NoRemap,
        dma_type: MbDmaType::Default,
        mb_count: 1,
        mb_size: buf_size as u64,
    }
}

/// The configuration of a pool of one buffer of `buf_size` bytes (see
/// `spec_pool_config`).
pub fn pool_config(buf_size: u32) -> (r: MbPoolConfig)
    ensures
        r == spec_pool_config(buf_size),
{
    MbPoolConfig {
        not_delete: false,
        pre_alloc: true,
        alloc_type: MbAllocType::Dma,
        remap_mode: MbRemapMode::NoRemap,
        dma_type: MbDmaType::Default,
        mb_count: 1,
        mb_size: buf_size as u64,
    }
}

/// A description of a frame held in a memory buffer; the buffer is named
/// by its platform handle (`block`), and `vir_addr` is the frame's own
/// virtual address (0: none, the platform finds the buffer's).
#[derive(Clone, Copy, Debug, PartialEq, Eq, Structural)]
pub struct VideoFrameDesc {
    pub block: u64,
    pub width: u32,
    pub height: u32,
    pub vir_width: u32,
    pub vir_height: u32,
    pub field: VideoField,
    pub pixel_format: PixelFormat,
    pub video_format: VideoFormat,
    pub compress_mode: CompressMode,
    pub dynamic_range: DynamicRange,
    pub color_gamut: ColorGamut,
    pub vir_addr: u64,
    pub time_ref: u32,
    pub pts: u64,
    pub private_data: u64,
    pub frame_flag: u32,
}

/// The description of a frame of `width` by `height` pixels in
/// `pixel_format` held in buffer `block`: its stride and row count are its
/// width and height; progressive, linear, uncompressed, 8-bit standard
/// range, BT.601 colours; no virtual address of its own, no time stamp or
/// time reference, no private data or flags.
pub open spec fn spec_frame_desc(block: u64, pixel_format: PixelFormat, width: u16, height: u16) -> VideoFrameDesc {
    VideoFrameDesc {
        block,
        width: width as u32,
        height: height as u32,
        vir_width: width as u32,
        vir_height: height as u32,
        field: VideoField::Frame,
        pixel_format,
        video_format: VideoFormat::Linear,
        compress_mode: CompressMode::Uncompressed,
        dynamic_range: DynamicRange::Sdr8,
        color_gamut: ColorGamut::Bt601,
        vir_addr: 0,
        time_ref: 0,
        pts: 0,
        private_data: 0,
        frame_flag: 0,
    }
}

/// The description of a frame held in buffer `block` (see
/// `spec_frame_desc`).
pub fn frame_desc(block: u64, pixel_format: PixelFormat, width: u16, height: u16) -> (r: VideoFrameDesc)
    ensures
        r == spec_frame_desc(block, pixel_format, width, height),
{
    VideoFrameDesc {
        block,
        width: width as u32,
        height: height as u32,
        vir_width: width as u32,
        vir_height: height as u32,
        field: VideoField::Frame,
        pixel_format,
        video_format: VideoFormat::Linear,
        compress_mode: CompressMode::Uncompressed,
        dynamic_range: DynamicRange::Sdr8,
        color_gamut: ColorGamut::Bt601,
        vir_addr: 0,
        time_ref: 0,
        pts: 0,
        private_data: 0,
        frame_flag: 0,
    }
}

/// Writes `src` into `dst`, byte for byte.
pub fn copy_bytes(dst: &mut [u8], src: &[u8])
    requires
        old(dst)@.len() == src@.len(),
    ensures
        final(dst)@ == src@,
{
    let n = src.len();
    let mut i: usize = 0;
    while i < n
        invariant
            n == src@.len(),
            dst@.len() == n,
            i <= n,
            forall|j: int| 0 <= j < i ==> dst@[j] == src@[j],
        decreases n - i,
    {
        dst[i] = src[i];
        i = i + 1;
    }
    assert(dst@ =~= src@);
}

/// A pool is created with exactly one buffer, of the asked size,
/// allocated up front by DMA and deleted with the pool.
pub proof fn lemma_pool_config_one_buffer(buf_size: u32)
    ensures
        spec_pool_config(buf_size).mb_count == 1,
        spec_pool_config(buf_size).mb_size == buf_size,
        spec_pool_config(buf_size).pre_alloc,
        !spec_pool_config(buf_size).not_delete,
        spec_pool_config(buf_size).alloc_type == MbAllocType::Dma,
{
}

/// A frame described in a buffer is in that buffer, with the asked size as
/// both its size and its stride and row count, in the asked pixel format,
/// progressive and uncompressed, with no address, time stamp or time
/// reference of its own.
pub proof fn lemma_frame_desc_in_buffer(block: u64, pixel_format: PixelFormat, width: u16, height: u16)
    ensures
        spec_frame_desc(block, pixel_format, width, height).block == block,
        spec_frame_desc(block, pixel_format, width, height).width == width,
        spec_frame_desc(block, pixel_format, width, height).height == height,
        spec_frame_desc(block, pixel_format, width, height).vir_width == width,
        spec_frame_desc(block, pixel_format, width, height).vir_height == height,
        spec_frame_desc(block, pixel_format, width, height).pixel_format == pixel_format,
        spec_frame_desc(block, pixel_format, width, height).field == VideoField::Frame,
        spec_frame_desc(block, pixel_format, width, height).compress_mode
            == CompressMode::Uncompressed,
        spec_frame_desc(block, pixel_format, width, height).vir_addr == 0,
        spec_frame_desc(block, pixel_format, width, height).pts == 0,
        spec_frame_desc(block, pixel_format, width, height).time_ref == 0,
{
}

/// What a pool is: its number.
#[derive(Clone, Copy)]
pub(crate) struct MemBufferPoolInner {
    pub(crate) id: u32,
}

impl MemBufferPoolInner {
    fn get_buffer_call(&self, size: u32) -> (r: MpiCall)
        ensures
            r == (MpiCall::MbGetMb { pool: self.id, size: size as u64, cached: true }),
    {
        MpiCall::MbGetMb { pool: self.id, size: size as u64, cached: true }
    }

    fn get_buffer(&self, size: u32, handle: u64) -> (r: Result<MemBufferInner, Error>)
        ensures
            handle == 0 ==> r == Err::<MemBufferInner, Error>(Error::GetBuffer),
            handle != 0 ==> (r matches Ok(b) && b.size == size && b.pool_id == self.id
                && b.handle == handle),
    {
        if handle == 0 {
            return Err(Error::GetBuffer);
        }
        Ok(MemBufferInner { size: size as usize, pool_id: self.id, handle })
    }

    fn destroy_call(&self) -> (r: MpiCall)
        ensures
            r == (MpiCall::MbDestroyPool { pool: self.id }),
    {
        MpiCall::MbDestroyPool { pool: self.id }
    }
}

/// A pool of memory buffers.
pub struct MemBufferPool<'a> {
    inner: MemBufferPoolInner,
    mpi: &'a RockitSys,
}

impl<'a> MemBufferPool<'a> {
    /// The pool number.
    pub closed spec fn spec_id(&self) -> u32 {
        self.inner.id
    }

    /// The call that creates a pool of one buffer of `buf_size` bytes.
    pub fn create_call(buf_size: u32) -> (r: MpiCall)
        ensures
            r == (MpiCall::MbCreatePool { config: spec_pool_config(buf_size) }),
    {
        MpiCall::MbCreatePool {
            config: pool_config(buf_size),
        }
    }

    /// The pool once the platform answered `pool_id`; the invalid pool
    /// number means that no pool was created.
    pub fn new(mpi: &'a RockitSys, pool_id: u32) -> (r: Result<MemBufferPool<'a>, Error>)
        ensures
            pool_id == MB_INVALID_POOLID ==> r == Err::<MemBufferPool<'a>, Error>(Error::CreatePool),
            pool_id != MB_INVALID_POOLID ==> (r matches Ok(p) && p.spec_id() == pool_id),
    {
        if pool_id == MB_INVALID_POOLID {
            return Err(Error::CreatePool);
        }
        Ok(MemBufferPool { mpi, inner: MemBufferPoolInner { id: pool_id } })
    }

    /// The pool number.
    pub fn id(&self) -> (r: u32)
        ensures
            r == self.spec_id(),
    {
        self.inner.id
    }

    /// The call that takes a cached buffer of `size` bytes from the pool.
    pub fn get_buffer_call(&self, size: u32) -> (r: MpiCall)
        ensures
            r == (MpiCall::MbGetMb { pool: self.spec_id(), size: size as u64, cached: true }),
    {
        self.inner.get_buffer_call(size)
    }

    /// The buffer of `size` bytes once the platform answered with its
    /// handle; no buffer (handle 0) is an error.
    pub fn get_buffer(&self, size: u32, handle: u64) -> (r: Result<MemBuffer<'_>, Error>)
        ensures
            handle == 0 ==> r == Err::<MemBuffer<'_>, Error>(Error::GetBuffer),
            handle != 0 ==> (r matches Ok(b) && b.spec_size() == size && b.spec_pool_id()
                == self.spec_id() && b.spec_handle() == handle),
    {
        match self.inner.get_buffer(size, handle) {
            Ok(inner) => Ok(MemBuffer { pool: self, inner }),
            Err(e) => Err(e),
        }
    }

    /// The pool, no longer borrowing the system handle.
    pub fn into_owned(self) -> (r: MemBufferPoolOwned)
        ensures
            r.spec_id() == self.spec_id(),
    {
        MemBufferPoolOwned { mpi: *self.mpi, inner: self.inner }
    }

    /// The call that destroys the pool when it is let go.
    pub fn destroy_call(&self) -> (r: MpiCall)
        ensures
            r == (MpiCall::MbDestroyPool { pool: self.spec_id() }),
    {
        self.inner.destroy_call()
    }
}

/// A pool of memory buffers that owns its share of the system.
pub struct MemBufferPoolOwned {
    inner: MemBufferPoolInner,
    mpi: RockitSys,
}

impl MemBufferPoolOwned {
    /// The pool number.
    pub closed spec fn spec_id(&self) -> u32 {
        self.inner.id
    }

    /// The pool number.
    pub fn id(&self) -> (r: u32)
        ensures
            r == self.spec_id(),
    {
        self.inner.id
    }

    /// The call that takes a cached buffer of `size` bytes from the pool.
    pub fn get_buffer_call(&self, size: u32) -> (r: MpiCall)
        ensures
            r == (MpiCall::MbGetMb { pool: self.spec_id(), size: size as u64, cached: true }),
    {
        self.inner.get_buffer_call(size)
    }

    /// The buffer of `size` bytes once the platform answered with its
    /// handle; no buffer (handle 0) is an error.
    pub fn get_buffer(&self, size: u32, handle: u64) -> (r: Result<MemBufferOwned, Error>)
        ensures
            handle == 0 ==> r == Err::<MemBufferOwned, Error>(Error::GetBuffer),
            handle != 0 ==> (r matches Ok(b) && b.spec_size() == size && b.spec_pool_id()
                == self.spec_id() && b.spec_handle() == handle),
    {
        match self.inner.get_buffer(size, handle) {
            Ok(inner) => Ok(MemBufferOwned { inner, pool: self.inner, mpi: self.mpi }),
            Err(e) => Err(e),
        }
    }

    /// The call that destroys the pool when it is let go.
    pub fn destroy_call(&self) -> (r: MpiCall)
        ensures
            r == (MpiCall::MbDestroyPool { pool: self.spec_id() }),
    {
        self.inner.destroy_call()
    }
}

/// What a buffer is: its size, its pool and its platform handle.
#[derive(Clone, Copy)]
pub(crate) struct MemBufferInner {
    pub(crate) size: usize,
    pub(crate) pool_id: u32,
    pub(crate) handle: u64,
}

/// A buffer's bytes, given their mapping, or the error when the platform
/// gave no address.
fn buffer_data<'b>(mapped: Option<&'b [u8]>) -> (r: Result<&'b [u8], Error>)
    ensures
        mapped.is_none() ==> r == Err::<&'b [u8], Error>(Error::InvalidFramePointer),
        mapped matches Some(s) ==> r == Ok::<&'b [u8], Error>(s),
{
    crate::mapped_data(mapped)
}

/// A buffer's bytes for writing, given their mapping, or the error when the
/// platform gave no address.
fn buffer_data_mut<'b>(mapped: Option<&'b mut [u8]>) -> (r: Result<&'b mut [u8], Error>)
    ensures
        mapped.is_none() ==> r.is_err() && r->Err_0 == Error::InvalidFramePointer,
        mapped.is_some() ==> r.is_ok() && r->Ok_0@ == mapped->Some_0@,
{
    match mapped {
        Some(s) => Ok(s),
        None => Err(Error::InvalidFramePointer),
    }
}

/// A buffer taken from a pool.
pub struct MemBuffer<'a> {
    inner: MemBufferInner,
    pool: &'a MemBufferPool<'a>,
}

impl<'a> MemBuffer<'a> {
    /// The buffer's size in bytes.
    pub closed spec fn spec_size(&self) -> usize {
        self.inner.size
    }

    /// The buffer's size in bytes.
    pub fn size(&self) -> (r: usize)
        ensures
            r == self.spec_size(),
    {
        self.inner.size
    }

    /// The number of the buffer's pool.
    pub closed spec fn spec_pool_id(&self) -> u32 {
        self.inner.pool_id
    }

    /// The buffer's platform handle.
    pub closed spec fn spec_handle(&self) -> u64 {
        self.inner.handle
    }

    /// The buffer's platform handle.
    pub fn handle(&self) -> (r: u64)
        ensures
            r == self.spec_handle(),
    {
        self.inner.handle
    }

    /// The buffer's bytes, given their mapping of `size` bytes, or the
    /// error when the platform gave no address.
    pub fn data<'b>(&self, mapped: Option<&'b [u8]>) -> (r: Result<&'b [u8], Error>)
        requires
            mapped matches Some(s) ==> s@.len() == self.spec_size(),
        ensures
            mapped.is_none() ==> r == Err::<&'b [u8], Error>(Error::InvalidFramePointer),
            mapped matches Some(s) ==> r == Ok::<&'b [u8], Error>(s),
    {
        buffer_data(mapped)
    }

    /// The buffer's bytes for writing, given their mapping of `size` bytes,
    /// or the error when the platform gave no address.
    pub fn data_mut<'b>(&mut self, mapped: Option<&'b mut [u8]>) -> (r: Result<&'b mut [u8], Error>)
        requires
            mapped.is_some() ==> mapped->Some_0@.len() == old(self).spec_size(),
        ensures
            mapped.is_none() ==> r.is_err() && r->Err_0 == Error::InvalidFramePointer,
            mapped.is_some() ==> r.is_ok() && r->Ok_0@ == mapped->Some_0@,
            final(self).spec_size() == old(self).spec_size(),
    {
        buffer_data_mut(mapped)
    }

    /// A frame of `width` by `height` pixels in `pixel_format` held in the
    /// buffer (and named by its handle).
    pub fn new_frame(&self, pixel_format: PixelFormat, width: u16, height: u16) -> (r: MbFrame<'_>)
        ensures
            r.spec_desc() == spec_frame_desc(self.spec_handle(), pixel_format, width, height),
    {
        MbFrame { buf: self, inner: MbFrameInner::new(&self.inner, pixel_format, width, height) }
    }

    /// The call that hands the buffer back when it is let go.
    pub fn release_call(&self) -> (r: MpiCall)
        ensures
            r == (MpiCall::MbReleaseMb { buffer: self.spec_handle() }),
    {
        MpiCall::MbReleaseMb { buffer: self.inner.handle }
    }
}

/// A buffer taken from a pool that owns its share of the pool and system.
pub struct MemBufferOwned {
    inner: MemBufferInner,
    pool: MemBufferPoolInner,
    mpi: RockitSys,
}

impl MemBufferOwned {
    /// The buffer's size in bytes.
    pub closed spec fn spec_size(&self) -> usize {
        self.inner.size
    }

    /// The buffer's size in bytes.
    pub fn size(&self) -> (r: usize)
        ensures
            r == self.spec_size(),
    {
        self.inner.size
    }

    /// The number of the buffer's pool.
    pub closed spec fn spec_pool_id(&self) -> u32 {
        self.inner.pool_id
    }

    /// The buffer's platform handle.
    pub closed spec fn spec_handle(&self) -> u64 {
        self.inner.handle
    }

    /// The buffer's platform handle.
    pub fn handle(&self) -> (r: u64)
        ensures
            r == self.spec_handle(),
    {
        self.inner.handle
    }

    /// The buffer's bytes, given their mapping of `size` bytes, or the
    /// error when the platform gave no address.
    pub fn data<'b>(&self, mapped: Option<&'b [u8]>) -> (r: Result<&'b [u8], Error>)
        requires
            mapped matches Some(s) ==> s@.len() == self.spec_size(),
        ensures
            mapped.is_none() ==> r == Err::<&'b [u8], Error>(Error::InvalidFramePointer),
            mapped matches Some(s) ==> r == Ok::<&'b [u8], Error>(s),
    {
        buffer_data(mapped)
    }

    /// The buffer's bytes for writing, given their mapping of `size` bytes,
    /// or the error when the platform gave no address.
    pub fn data_mut<'b>(&mut self, mapped: Option<&'b mut [u8]>) -> (r: Result<&'b mut [u8], Error>)
        requires
            mapped.is_some() ==> mapped->Some_0@.len() == old(self).spec_size(),
        ensures
            mapped.is_none() ==> r.is_err() && r->Err_0 == Error::InvalidFramePointer,
            mapped.is_some() ==> r.is_ok() && r->Ok_0@ == mapped->Some_0@,
            final(self).spec_size() == old(self).spec_size(),
    {
        buffer_data_mut(mapped)
    }

    /// A frame of `width` by `height` pixels in `pixel_format` held in the
    /// buffer (and named by its handle).
    pub fn new_frame(&self, pixel_format: PixelFormat, width: u16, height: u16) -> (r: MbFrameOwned<'_>)
        ensures
            r.spec_desc() == spec_frame_desc(self.spec_handle(), pixel_format, width, height),
    {
        MbFrameOwned {
            mpi: self.mpi,
            pool: self.pool,
            buf: &self.inner,
            inner: MbFrameInner::new(&self.inner, pixel_format, width, height),
        }
    }

    /// The call that hands the buffer back when it is let go.
    pub fn release_call(&self) -> (r: MpiCall)
        ensures
            r == (MpiCall::MbReleaseMb { buffer: self.spec_handle() }),
    {
        MpiCall::MbReleaseMb { buffer: self.inner.handle }
    }
}

/// What a frame in a buffer is: its description.
pub(crate) struct MbFrameInner {
    pub(crate) frame: VideoFrameDesc,
}

impl MbFrameInner {
    fn new(buf: &MemBufferInner, pixel_format: PixelFormat, width: u16, height: u16) -> (r:
        MbFrameInner)
        ensures
            r.frame == spec_frame_desc(buf.handle, pixel_format, width, height),
    {
        Self { frame: frame_desc(buf.handle, pixel_format, width, height) }
    }

    /// The frame's description.
    pub(crate) fn frame(&self) -> (r: &VideoFrameDesc)
        ensures
            *r == self.frame,
    {
        &self.frame
    }
}

/// A frame held in a buffer.
pub struct MbFrame<'a> {
    pub(crate) inner: MbFrameInner,
    buf: &'a MemBuffer<'a>,
}

impl<'a> MbFrame<'a> {
    /// The frame's description.
    pub closed spec fn spec_desc(&self) -> VideoFrameDesc {
        self.inner.frame
    }

    pub(crate) fn inner(&self) -> (r: &MbFrameInner)
        ensures
            r.frame == self.spec_desc(),
    {
        &self.inner
    }

    /// The frame's description.
    pub fn desc(&self) -> (r: VideoFrameDesc)
        ensures
            r == self.spec_desc(),
    {
        *self.inner.frame()
    }
}

/// A frame held in a buffer, owning its share of the pool and system.
pub struct MbFrameOwned<'a> {
    pub(crate) inner: MbFrameInner,
    buf: &'a MemBufferInner,
    pool: MemBufferPoolInner,
    mpi: RockitSys,
}

impl<'a> MbFrameOwned<'a> {
    /// The frame's description.
    pub closed spec fn spec_desc(&self) -> VideoFrameDesc {
        self.inner.frame
    }

    pub(crate) fn inner(&self) -> (r: &MbFrameInner)
        ensures
            r.frame == self.spec_desc(),
    {
        &self.inner
    }

    /// The frame's description.
    pub fn desc(&self) -> (r: VideoFrameDesc)
        ensures
            r == self.spec_desc(),
    {
        *self.inner.frame()
    }
}

} // verus!
