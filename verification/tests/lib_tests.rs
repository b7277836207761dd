use rusty_rockit::call::MpiCall;
use rusty_rockit::{
    frame_data_len, mapped_data, rk_check_err, rk_def_err, timeout_arg, Error, FrameSize, Holders,
    ModId,
    MpiState, RockitSys, ViLimits, RK_ERR_LEVEL_ERROR, RK_ERR_NOT_CONFIG, RK_ERR_VI_NOT_CONFIG,
    RK_ID_VI, RK_SUCCESS,
};

fn limits() -> ViLimits {
    ViLimits { max_dev: 2, max_pipe: 4, max_chn: 5 }
}

#[test]
fn error_code_layout() {
    assert_eq!(rk_def_err(RK_ID_VI, RK_ERR_LEVEL_ERROR, RK_ERR_NOT_CONFIG), RK_ERR_VI_NOT_CONFIG);
    assert_eq!(RK_ERR_VI_NOT_CONFIG as u32, 0xA008_8007);
    assert_eq!(rk_def_err(0, 0, 0) as u32, 0xA000_0000);
    let code = rk_def_err(4, 3, 18);
    assert_eq!((code >> 16) & 0xff, 4);
    assert_eq!((code >> 13) & 7, 3);
    assert_eq!(code & 0x1fff, 18);
    assert!(code < 0);
}

#[test]
fn return_codes_are_judged() {
    assert_eq!(rk_check_err(RK_SUCCESS), Ok(()));
    assert_eq!(rk_check_err(-5), Err(Error::Rockit { code: -5 }));
    assert_eq!(
        rk_check_err(RK_ERR_VI_NOT_CONFIG),
        Err(Error::Rockit { code: RK_ERR_VI_NOT_CONFIG })
    );
}

#[test]
fn timeouts_are_truncated_to_32_bits() {
    assert_eq!(timeout_arg(100), 100);
    assert_eq!(timeout_arg(0), 0);
    assert_eq!(timeout_arg((1u128 << 32) + 5), 5);
    assert_eq!(timeout_arg(0x8000_0000), i32::MIN);
}

#[test]
fn frame_picture_length() {
    assert_eq!(frame_data_len(FrameSize { width: 1920, height: 1080 }), 3_110_400);
    assert_eq!(frame_data_len(FrameSize { width: 3, height: 3 }), 13);
    assert_eq!(frame_data_len(FrameSize { width: 0, height: 1080 }), 0);
}

#[test]
fn mapped_data_needs_an_address() {
    let bytes = [1u8, 2, 3];
    assert_eq!(mapped_data(Some(&bytes[..])), Ok(&bytes[..]));
    assert_eq!(mapped_data(None), Err(Error::InvalidFramePointer));
}

#[test]
fn module_numbers() {
    assert_eq!(ModId::Cmpi.id(), 0);
    assert_eq!(ModId::Venc.id(), 4);
    assert_eq!(ModId::Vpss.id(), 6);
    assert_eq!(ModId::Vi.id(), 8);
}

#[test]
fn system_is_initialized_once_at_a_time() {
    let mut state = MpiState::new();
    assert!(!state.initialized());
    assert_eq!(RockitSys::init_call(&state), Ok(MpiCall::SysInit));
    let sys = RockitSys::init(&mut state, RK_SUCCESS, limits()).ok().unwrap();
    assert!(state.initialized());
    assert_eq!(sys.limits(), limits());
    assert_eq!(RockitSys::init_call(&state), Err(Error::MpiAlreadyInitialized));
    assert_eq!(sys.exit_call(), MpiCall::SysExit);
    assert_eq!(state.let_go(), Some(MpiCall::SysExit));
    assert!(!state.initialized());
    assert_eq!(RockitSys::init_call(&state), Ok(MpiCall::SysInit));
}

#[test]
fn failed_initialization_leaves_system_uninitialized() {
    let mut state = MpiState::new();
    let r = RockitSys::init(&mut state, -1, limits());
    assert!(matches!(r, Err(Error::Rockit { code: -1 })));
    assert!(!state.initialized());
    assert_eq!(RockitSys::init_call(&state), Ok(MpiCall::SysInit));
}

#[test]
fn system_stays_initialized_until_last_handle_lets_go() {
    let mut state = MpiState::new();
    let _sys = RockitSys::init(&mut state, RK_SUCCESS, limits()).ok().unwrap();
    state.share();
    state.share();
    assert_eq!(state.let_go(), None);
    assert!(state.initialized());
    assert_eq!(RockitSys::init_call(&state), Err(Error::MpiAlreadyInitialized));
    assert_eq!(state.let_go(), None);
    assert!(state.initialized());
    assert_eq!(state.let_go(), Some(MpiCall::SysExit));
    assert!(!state.initialized());
    assert_eq!(RockitSys::init_call(&state), Ok(MpiCall::SysInit));
}

#[test]
fn holders_let_a_resource_go_only_at_the_last() {
    let mut holders = Holders::new();
    holders.share();
    holders.share();
    assert_eq!(holders.holders(), 3);
    let release = vec![MpiCall::VpssStopGrp { grp: 1 }, MpiCall::VpssDestroyGrp { grp: 1 }];
    assert!(holders.let_go(release.clone()).is_empty());
    assert!(holders.let_go(release.clone()).is_empty());
    assert_eq!(holders.let_go(release.clone()), release);
    assert_eq!(holders.holders(), 0);
}
