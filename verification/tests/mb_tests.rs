use rusty_rockit::call::MpiCall;
use rusty_rockit::mb::{
    copy_bytes, MbAllocType, MbDmaType, MbPoolConfig, MbRemapMode, MemBufferPool, VideoFrameDesc,
    MB_INVALID_POOLID,
};
use rusty_rockit::{
    ColorGamut, CompressMode, DynamicRange, Error, MpiState, PixelFormat, RockitSys, VideoField,
    VideoFormat, ViLimits, RK_SUCCESS,
};

fn sys() -> RockitSys {
    let mut state = MpiState::new();
    RockitSys::init(&mut state, RK_SUCCESS, ViLimits { max_dev: 2, max_pipe: 4, max_chn: 5 })
        .ok()
        .unwrap()
}

#[test]
fn pool_of_one_preallocated_buffer() {
    assert_eq!(
        MemBufferPool::create_call(3_110_400),
        MpiCall::MbCreatePool {
            config: MbPoolConfig {
                not_delete: false,
                pre_alloc: true,
                alloc_type: MbAllocType::Dma,
                remap_mode: MbRemapMode::NoRemap,
                dma_type: MbDmaType::Default,
                mb_count: 1,
                mb_size: 3_110_400,
            }
        }
    );
}

#[test]
fn invalid_pool_number_is_an_error() {
    let mpi = sys();
    assert!(matches!(MemBufferPool::new(&mpi, MB_INVALID_POOLID), Err(Error::CreatePool)));
    let pool = MemBufferPool::new(&mpi, 3).ok().unwrap();
    assert_eq!(pool.id(), 3);
    assert_eq!(pool.destroy_call(), MpiCall::MbDestroyPool { pool: 3 });
}

#[test]
fn buffers_from_pool() {
    let mpi = sys();
    let pool = MemBufferPool::new(&mpi, 4).ok().unwrap();
    assert_eq!(pool.get_buffer_call(100), MpiCall::MbGetMb { pool: 4, size: 100, cached: true });
    assert!(matches!(pool.get_buffer(100, 0), Err(Error::GetBuffer)));
    let mut buf = pool.get_buffer(4, 0xabc0).ok().unwrap();
    let bytes = [1u8, 2, 3, 4];
    assert_eq!(buf.data(Some(&bytes[..])), Ok(&bytes[..]));
    assert_eq!(buf.data(None), Err(Error::InvalidFramePointer));
    let mut store = [0u8; 4];
    {
        let data = buf.data_mut(Some(&mut store[..])).ok().unwrap();
        data.fill(128);
    }
    assert_eq!(store, [128u8; 4]);
    assert_eq!(buf.data_mut(None), Err(Error::InvalidFramePointer));
    assert_eq!(buf.handle(), 0xabc0);
    assert_eq!(buf.release_call(), MpiCall::MbReleaseMb { buffer: 0xabc0 });
    let frame = buf.new_frame(PixelFormat::Nv12, 2, 2);
    assert_eq!(
        frame.desc(),
        VideoFrameDesc {
            block: 0xabc0,
            width: 2,
            height: 2,
            vir_width: 2,
            vir_height: 2,
            field: VideoField::Frame,
            pixel_format: PixelFormat::Nv12,
            video_format: VideoFormat::Linear,
            compress_mode: CompressMode::Uncompressed,
            dynamic_range: DynamicRange::Sdr8,
            color_gamut: ColorGamut::Bt601,
            vir_addr: 0,
            time_ref: 0,
            pts: 0,
            private_data: 0,
            frame_flag: 0,
        }
    );
}

#[test]
fn owned_pool_and_buffers() {
    let mpi = sys();
    let pool = MemBufferPool::new(&mpi, 7).ok().unwrap().into_owned();
    assert_eq!(pool.id(), 7);
    assert_eq!(pool.destroy_call(), MpiCall::MbDestroyPool { pool: 7 });
    assert_eq!(pool.get_buffer_call(6), MpiCall::MbGetMb { pool: 7, size: 6, cached: true });
    assert!(matches!(pool.get_buffer(6, 0), Err(Error::GetBuffer)));
    let mut buf = pool.get_buffer(6, 77).ok().unwrap();
    let bytes = [0u8; 6];
    assert_eq!(buf.data(Some(&bytes[..])), Ok(&bytes[..]));
    let mut store = [0u8; 6];
    assert!(buf.data_mut(Some(&mut store[..])).is_ok());
    assert_eq!(buf.release_call(), MpiCall::MbReleaseMb { buffer: 77 });
    let frame = buf.new_frame(PixelFormat::Rgb24, 1920, 1080);
    let desc = frame.desc();
    assert_eq!((desc.width, desc.height, desc.vir_width, desc.vir_height), (1920, 1080, 1920, 1080));
    assert_eq!(desc.pixel_format, PixelFormat::Rgb24);
    assert_eq!(desc.block, 77);
}

#[test]
fn bytes_are_copied_exactly() {
    let src = [5u8, 6, 7, 8, 9];
    let mut dst = [0u8; 5];
    copy_bytes(&mut dst[..], &src[..]);
    assert_eq!(dst, src);
    let mut empty: [u8; 0] = [];
    copy_bytes(&mut empty[..], &[]);
}
