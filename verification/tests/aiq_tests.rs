use rusty_rockit::aiq::state::Initialized;
use rusty_rockit::aiq::{
    iq_files_path, AiqCall, AiqContext, AiqOpen, AiqOpenStep, AiqStartStep, Error, WorkingMode,
};
use rusty_rockit::vi::CameraId;

#[test]
fn static_description_of_camera() {
    assert_eq!(
        AiqContext::<Initialized>::static_metas_call(CameraId::Two),
        AiqCall::EnumStaticMetas { cam: 2 }
    );
}

fn ready_context() -> AiqContext<Initialized> {
    let mut open = AiqOpen::new(CameraId::Zero, None);
    open.record_metas(0);
    open.record_init(false);
    AiqContext::init(open).ok().unwrap()
}

#[test]
fn init_reads_metas_then_sets_up_with_default_path() {
    let mut open = AiqOpen::new(CameraId::One, None);
    assert_eq!(open.next_call(), Some(AiqCall::EnumStaticMetas { cam: 1 }));
    assert_eq!(open.iq_files(), "/etc/iqfiles");
    open.record_metas(0);
    assert!(matches!(open.step(), AiqOpenStep::InitContext));
    assert_eq!(open.next_call(), Some(AiqCall::Init));
    open.record_init(false);
    assert!(matches!(open.step(), AiqOpenStep::Ready));
    assert_eq!(open.next_call(), None);
    let ctx = AiqContext::init(open).ok().unwrap();
    assert_eq!(ctx.drop_calls(), vec![AiqCall::Deinit]);
}

#[test]
fn init_uses_the_given_path() {
    let mut open = AiqOpen::new(CameraId::Zero, Some(Ok("/data/iq")));
    assert_eq!(open.iq_files(), "/data/iq");
    open.record_metas(0);
    assert_eq!(open.next_call(), Some(AiqCall::Init));
}

#[test]
fn init_reports_failed_read_before_anything_else() {
    let mut open = AiqOpen::new(CameraId::Zero, None);
    open.record_metas(-1);
    assert_eq!(open.next_call(), None);
    assert!(matches!(AiqContext::init(open), Err(Error::Aiq { code: -1 })));
    let mut open = AiqOpen::new(CameraId::Zero, Some(Ok("/bad\0path")));
    open.record_metas(-2);
    assert!(matches!(AiqContext::init(open), Err(Error::Aiq { code: -2 })));
}

#[test]
fn init_refuses_path_after_read_and_never_sets_up() {
    let mut open = AiqOpen::new(CameraId::Zero, Some(Ok("/bad\0path")));
    open.record_metas(0);
    assert_eq!(open.next_call(), None);
    match AiqContext::init(open) {
        Err(Error::InvalidIqFilesPath { path }) => assert_eq!(path, "/bad\0path"),
        _ => panic!("a path with a zero byte is refused"),
    }
    let mut open = AiqOpen::new(CameraId::Zero, Some(Err("/not-text".to_string())));
    open.record_metas(0);
    assert_eq!(open.next_call(), None);
    match AiqContext::init(open) {
        Err(Error::InvalidIqFilesPath { path }) => assert_eq!(path, "/not-text"),
        _ => panic!("a path that is not text is refused"),
    }
}

#[test]
fn init_reports_missing_context() {
    let mut open = AiqOpen::new(CameraId::Zero, None);
    open.record_metas(0);
    open.record_init(true);
    assert!(matches!(AiqContext::init(open), Err(Error::AiqSystemContext)));
}

#[test]
fn start_prepares_then_starts() {
    let ctx = ready_context();
    let mut run = ctx.start_steps();
    assert_eq!(
        run.next_call(),
        Some(AiqCall::Prepare { width: 0, height: 0, mode: WorkingMode::Normal })
    );
    run.record(3);
    assert_eq!(run.step(), AiqStartStep::Failed { code: 3 });
    assert_eq!(run.next_call(), None);
    assert!(matches!(ctx.start(&run), Err(Error::Aiq { code: 3 })));

    let ctx = ready_context();
    let mut run = ctx.start_steps();
    run.record(0);
    assert_eq!(run.next_call(), Some(AiqCall::Start));
    run.record(4);
    assert!(matches!(ctx.start(&run), Err(Error::Aiq { code: 4 })));

    let ctx = ready_context();
    let mut run = ctx.start_steps();
    run.record(0);
    run.record(0);
    assert_eq!(run.step(), AiqStartStep::Started);
    let started = ctx.start(&run).ok().unwrap();
    assert_eq!(
        started.drop_calls(),
        vec![AiqCall::Stop { keep_ext_hw_st: false }, AiqCall::Deinit]
    );
    assert_eq!(started.stop_call(), Some(AiqCall::Stop { keep_ext_hw_st: false }));
    let stopped = started.stop(0).ok().unwrap();
    assert_eq!(stopped.drop_calls(), vec![AiqCall::Deinit]);
    let mut run = stopped.start_steps();
    run.record(0);
    run.record(0);
    let started = stopped.start(&run).ok().unwrap();
    assert!(matches!(started.stop(-8), Err(Error::Aiq { code: -8 })));
}

#[test]
fn tuning_files_path() {
    assert_eq!(iq_files_path(None).ok().unwrap(), "/etc/iqfiles");
    assert_eq!(iq_files_path(Some("/data/iq")).ok().unwrap(), "/data/iq");
    match iq_files_path(Some("/bad\0path")) {
        Err(Error::InvalidIqFilesPath { path }) => assert_eq!(path, "/bad\0path"),
        _ => panic!("a path with a zero byte is refused"),
    }
}
