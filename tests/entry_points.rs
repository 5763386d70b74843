use ukagaka_dll_macro::dll_util::{read_loadu_result, DllContext};
use ukagaka_dll_macro::entry::{
    finish_loadu, load, loadu, negotiate_load, negotiate_loadu, take_buffer, unload_result,
    LoadStep,
};
use ukagaka_dll_macro::host_memory::{
    global_free, hglobal_to_vec_u8, slice_i8_to_hglobal, HostMemory, ReleaseError,
};
use ukagaka_dll_macro::read_dll_path_string;

/// Runs `loadu` as a host would, counting the runs of the load callback.
fn run_loadu(ctx: &mut DllContext, mem: &mut HostMemory, bytes: &[u8], calls: &mut u32) -> bool {
    let h = mem.allocate(bytes);
    match loadu(ctx, mem, h, bytes.len()) {
        LoadStep::Finished(x) => x,
        LoadStep::Invoke(_path) => {
            *calls += 1;
            finish_loadu(ctx, true)
        }
    }
}

/// Runs legacy `load` as a host would, counting the runs of the load callback.
fn run_load(
    ctx: &mut DllContext,
    mem: &mut HostMemory,
    bytes: &[u8],
    codepage: u32,
    calls: &mut u32,
) -> bool {
    let h = mem.allocate(bytes);
    match load(ctx, mem, h, bytes.len(), codepage) {
        LoadStep::Finished(x) => x,
        LoadStep::Invoke(_path) => {
            *calls += 1;
            true
        }
    }
}

#[test]
fn loadu_then_load_runs_callback_once() {
    let mut ctx = DllContext::new();
    let mut mem = HostMemory::new();
    let mut calls: u32 = 0;

    let path = "C:\\plug\\mod.dll";
    assert_eq!(path.len(), 15);
    let h = mem.allocate(path.as_bytes());
    let step = loadu(&mut ctx, &mut mem, h, 15);
    let outcome = match step {
        LoadStep::Invoke(p) => {
            assert_eq!(p, "C:\\plug\\mod.dll");
            calls += 1;
            finish_loadu(&mut ctx, true)
        }
        LoadStep::Finished(_) => panic!("the load callback was not run"),
    };
    assert!(outcome);
    assert_eq!(calls, 1);
    assert_eq!(read_dll_path_string(&ctx), Some("C:\\plug\\mod.dll".to_string()));
    assert_eq!(read_loadu_result(&ctx), Some(true));
    assert_eq!(global_free(&mut mem, h), Err(ReleaseError::AlreadyReleased));

    // The legacy entry point then returns the recorded outcome.
    let other = mem.allocate(b"D:\\other.dll");
    match load(&mut ctx, &mut mem, other, 12, 1252) {
        LoadStep::Finished(x) => assert!(x),
        LoadStep::Invoke(_) => panic!("the load callback ran twice"),
    }
    assert_eq!(calls, 1);
    assert_eq!(read_dll_path_string(&ctx), Some("C:\\plug\\mod.dll".to_string()));
    assert_eq!(global_free(&mut mem, other), Err(ReleaseError::AlreadyReleased));
}

#[test]
fn failed_loadu_outcome_is_authoritative() {
    let mut ctx = DllContext::new();
    let mut mem = HostMemory::new();
    let h = mem.allocate(b"C:\\a.dll");
    match loadu(&mut ctx, &mut mem, h, 8) {
        LoadStep::Invoke(_) => assert!(!finish_loadu(&mut ctx, false)),
        LoadStep::Finished(_) => panic!("the load callback was not run"),
    }
    let mut calls: u32 = 0;
    assert!(!run_load(&mut ctx, &mut mem, b"C:\\a.dll", 1252, &mut calls));
    assert_eq!(calls, 0);
    assert_eq!(read_loadu_result(&ctx), Some(false));
}

#[test]
fn request_round_trip() {
    let mut mem = HostMemory::new();
    let h = mem.allocate(&[0x41, 0x42]);
    let mut len: usize = 2;
    let request = take_buffer(&mut mem, h, len);
    assert_eq!(request, vec![0x41, 0x42, 0x00]);

    let response: Vec<i8> = vec![0x58, 0x59, 0x00];
    let out = slice_i8_to_hglobal(&mut mem, &mut len, &response);
    assert_eq!(len, 3);
    assert_eq!(&hglobal_to_vec_u8(&mem, out, len)[..3], &[0x58, 0x59, 0x00]);
    assert_eq!(global_free(&mut mem, h), Err(ReleaseError::AlreadyReleased));
}

#[test]
fn legacy_load_first_then_loadu_conflicts() {
    let mut ctx = DllContext::new();
    let mut mem = HostMemory::new();
    let mut calls: u32 = 0;
    assert!(run_load(&mut ctx, &mut mem, &[0x43, 0x3a, 0xe9], 1252, &mut calls));
    assert_eq!(calls, 1);
    assert_eq!(read_dll_path_string(&ctx), Some("C:é".to_string()));
    assert_eq!(read_loadu_result(&ctx), None);

    assert!(!run_loadu(&mut ctx, &mut mem, b"C:\\x.dll", &mut calls));
    assert_eq!(calls, 1);
    assert_eq!(read_loadu_result(&ctx), None);
}

#[test]
fn loadu_with_invalid_utf8_skips_callback() {
    let mut ctx = DllContext::new();
    let mut mem = HostMemory::new();
    let mut calls: u32 = 0;
    assert!(!run_loadu(&mut ctx, &mut mem, &[0x43, 0xff], &mut calls));
    assert_eq!(calls, 0);
    assert_eq!(read_dll_path_string(&ctx), None);
    assert_eq!(read_loadu_result(&ctx), None);
}

#[test]
fn load_with_unknown_codepage_skips_callback() {
    let mut ctx = DllContext::new();
    let mut calls: u32 = 0;
    let mut mem = HostMemory::new();
    assert!(!run_load(&mut ctx, &mut mem, b"C:\\a.dll", 1, &mut calls));
    assert_eq!(calls, 0);
    assert_eq!(read_dll_path_string(&ctx), None);
}

#[test]
fn second_loadu_is_refused() {
    let mut ctx = DllContext::new();
    let mut mem = HostMemory::new();
    let mut calls: u32 = 0;
    assert!(run_loadu(&mut ctx, &mut mem, b"C:\\a.dll", &mut calls));
    assert!(!run_loadu(&mut ctx, &mut mem, b"C:\\a.dll", &mut calls));
    assert_eq!(calls, 1);
}

#[test]
fn negotiation_on_bytes() {
    let mut ctx = DllContext::new();
    match negotiate_loadu(&mut ctx, b"C:\\m.dll") {
        LoadStep::Invoke(p) => assert_eq!(p, "C:\\m.dll"),
        LoadStep::Finished(_) => panic!("the load callback was not run"),
    }
    assert!(finish_loadu(&mut ctx, true));
    assert!(!finish_loadu(&mut ctx, true));
    match negotiate_load(&mut ctx, b"ignored", 12345) {
        LoadStep::Finished(x) => assert!(x),
        LoadStep::Invoke(_) => panic!("the load callback ran twice"),
    }
}

#[test]
fn unload_outcomes() {
    assert!(unload_result(None));
    assert!(unload_result(Some(true)));
    assert!(!unload_result(Some(false)));
}
