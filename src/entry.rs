//! The entry points' logic: taking host buffers, and the negotiation between the
//! legacy `load` and the modern `loadu`, so that the user's load callback runs at
//! most once and the first outcome stays authoritative.
//!
//! The user callbacks are run by the caller: a load function hands back either a
//! final outcome or the path with which the callback is to be invoked.
use vstd::prelude::*;
use vstd::utf8::{decode_utf8 as utf8_chars, valid_utf8};

use crate::dll_util::{
    codepage_decoding, codepage_supported, decode_from_oem_codepage, decode_utf8,
    read_loadu_result, register_dll_path, register_loadu_result, register_loadu_spec,
    register_path_spec, ContextView, DllContext,
};
use crate::host_memory::{
    contents, global_free, hglobal_to_vec_u8, is_live, release_spec, to_owned_spec, Handle,
    HostMemory,
};

verus! {

/// What a load entry point decided.
#[derive(Debug)]
pub enum LoadStep {
    /// The call is over, with this outcome; the load callback is not to be run.
    Finished(bool),
    /// The path was registered; the load callback is to be run with it.
    Invoke(String),
}

/// Whether `r` is the step described by `outcome` (`None` for running the callback)
/// in the context `c` that follows it.
pub open spec fn step_matches(r: LoadStep, outcome: Option<bool>, c: ContextView) -> bool {
    match r {
        LoadStep::Finished(x) => outcome == Some(x),
        LoadStep::Invoke(p) => outcome is None && c.path == Some(p@),
    }
}

/// Registering a decoded path: the callback runs only if the registry accepted it.
pub open spec fn register_then_invoke(c: ContextView, path: Seq<char>) -> (
    Option<bool>,
    ContextView,
) {
    if register_path_spec(c, path).0 {
        (None, register_path_spec(c, path).1)
    } else {
        (Some(false), c)
    }
}

/// `loadu` on the path bytes `b`: strict UTF-8, then registration of the path.
pub open spec fn loadu_spec(c: ContextView, b: Seq<u8>) -> (Option<bool>, ContextView) {
    if !valid_utf8(b) {
        (Some(false), c)
    } else {
        register_then_invoke(c, utf8_chars(b))
    }
}

/// The end of `loadu`, once the callback returned `ok`: the outcome is recorded,
/// and a refused record makes the call fail.
pub open spec fn finish_loadu_spec(c: ContextView, ok: bool) -> (bool, ContextView) {
    (register_loadu_spec(c, ok).0 && ok, register_loadu_spec(c, ok).1)
}

/// Legacy `load` on the path bytes `b` under codepage `cp`: a recorded `loadu`
/// outcome is returned as it is; otherwise the path is decoded and registered.
pub open spec fn load_spec(c: ContextView, b: Seq<u8>, cp: u32) -> (Option<bool>, ContextView) {
    match c.loadu_result {
        Some(x) => (Some(x), c),
        None => if codepage_supported(cp as usize) && codepage_decoding(cp as usize, b) is Some {
            register_then_invoke(c, codepage_decoding(cp as usize, b)->Some_0)
        } else {
            (Some(false), c)
        },
    }
}

/// Once a first `loadu` has run the load callback and finished with outcome `x`, a
/// later legacy `load`, whatever its bytes and codepage, returns `x` without running
/// the callback again, and leaves the context unchanged.
pub proof fn lemma_load_after_loadu(c: ContextView, b1: Seq<u8>, ok: bool, b2: Seq<u8>, cp: u32)
    requires
        c.loadu_result is None,
        loadu_spec(c, b1).0 is None,
    ensures
        ({
            let after = finish_loadu_spec(loadu_spec(c, b1).1, ok);
            after.0 == ok && load_spec(after.1, b2, cp) == (Some(after.0), after.1)
        }),
{
}

/// Copies `len` bytes out of the block of `h`, with a terminating zero byte, and
/// then releases the block, before anything else is done with the bytes.
pub fn take_buffer(mem: &mut HostMemory, h: Handle, len: usize) -> (r: Vec<u8>)
    requires
        old(mem).wf(),
        is_live(old(mem)@, h),
        len <= contents(old(mem)@, h).len(),
    ensures
        final(mem).wf(),
        r@ == to_owned_spec(old(mem)@, h, len as nat),
        final(mem)@ == release_spec(old(mem)@, h),
{
    let r = hglobal_to_vec_u8(mem, h, len);
    let released = global_free(mem, h);
    assert(released is Ok);
    r
}

/// The part of `loadu` that follows the copy of the path bytes `path`.
pub fn negotiate_loadu(ctx: &mut DllContext, path: &[u8]) -> (r: LoadStep)
    ensures
        final(ctx)@ == loadu_spec(old(ctx)@, path@).1,
        step_matches(r, loadu_spec(old(ctx)@, path@).0, final(ctx)@),
{
    let decoded = match decode_utf8(path) {
        Ok(s) => s,
        Err(_) => return LoadStep::Finished(false),
    };
    let copy = decoded.clone();
    match register_dll_path(ctx, copy) {
        Ok(()) => LoadStep::Invoke(decoded),
        Err(_) => LoadStep::Finished(false),
    }
}

/// The modern load entry point, up to the callback: takes and releases the block of
/// `h`, decodes its `len` bytes strictly as UTF-8 and registers the path.
pub fn loadu(ctx: &mut DllContext, mem: &mut HostMemory, h: Handle, len: usize) -> (r: LoadStep)
    requires
        old(mem).wf(),
        is_live(old(mem)@, h),
        len <= contents(old(mem)@, h).len(),
    ensures
        final(mem).wf(),
        final(mem)@ == release_spec(old(mem)@, h),
        final(ctx)@ == loadu_spec(old(ctx)@, contents(old(mem)@, h).subrange(0, len as int)).1,
        step_matches(
            r,
            loadu_spec(old(ctx)@, contents(old(mem)@, h).subrange(0, len as int)).0,
            final(ctx)@,
        ),
{
    let mut raw = take_buffer(mem, h, len);
    // The path is the bytes themselves, without the terminating zero.
    raw.pop();
    assert(raw@ =~= contents(old(mem)@, h).subrange(0, len as int));
    negotiate_loadu(ctx, raw.as_slice())
}

/// The end of `loadu`, once the load callback returned `callback_ok`: records that
/// outcome and returns it, or fails if an outcome was already recorded.
pub fn finish_loadu(ctx: &mut DllContext, callback_ok: bool) -> (r: bool)
    ensures
        (r, final(ctx)@) == finish_loadu_spec(old(ctx)@, callback_ok),
{
    match register_loadu_result(ctx, callback_ok) {
        Ok(()) => callback_ok,
        Err(_) => false,
    }
}

/// The part of legacy `load` that follows the copy of the path bytes `path`.
pub fn negotiate_load(ctx: &mut DllContext, path: &[u8], codepage: u32) -> (r: LoadStep)
    ensures
        final(ctx)@ == load_spec(old(ctx)@, path@, codepage).1,
        step_matches(r, load_spec(old(ctx)@, path@, codepage).0, final(ctx)@),
{
    if let Some(x) = read_loadu_result(ctx) {
        return LoadStep::Finished(x);
    }
    let decoded = match decode_from_oem_codepage(codepage, path) {
        Ok(s) => s,
        Err(_) => return LoadStep::Finished(false),
    };
    let copy = decoded.clone();
    match register_dll_path(ctx, copy) {
        Ok(()) => LoadStep::Invoke(decoded),
        Err(_) => LoadStep::Finished(false),
    }
}

/// The legacy load entry point, up to the callback: takes and releases the block of
/// `h`; returns a recorded `loadu` outcome if there is one; otherwise decodes the
/// `len` bytes under the legacy codepage `codepage` and registers the path. The
/// outcome of the callback that follows is not recorded.
pub fn load(
    ctx: &mut DllContext,
    mem: &mut HostMemory,
    h: Handle,
    len: usize,
    codepage: u32,
) -> (r: LoadStep)
    requires
        old(mem).wf(),
        is_live(old(mem)@, h),
        len <= contents(old(mem)@, h).len(),
    ensures
        final(mem).wf(),
        final(mem)@ == release_spec(old(mem)@, h),
        final(ctx)@ == load_spec(
            old(ctx)@,
            contents(old(mem)@, h).subrange(0, len as int),
            codepage,
        ).1,
        step_matches(
            r,
            load_spec(old(ctx)@, contents(old(mem)@, h).subrange(0, len as int), codepage).0,
            final(ctx)@,
        ),
{
    let mut raw = take_buffer(mem, h, len);
    raw.pop();
    assert(raw@ =~= contents(old(mem)@, h).subrange(0, len as int));
    negotiate_load(ctx, raw.as_slice(), codepage)
}

/// The outcome of `unload`: the callback's result, or success where there is no
/// callback.
pub fn unload_result(callback: Option<bool>) -> (r: bool)
    ensures
        r == match callback {
            Some(ok) => ok,
            None => true,
        },
{
    match callback {
        Some(ok) => ok,
        None => true,
    }
}

} // verus!
