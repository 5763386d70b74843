//! Process-lifetime registries and text decoding used by the entry points.
use vstd::prelude::*;
use vstd::utf8::{decode_utf8 as utf8_chars, valid_utf8};

use encoding::label::encoding_from_windows_code_page;
use encoding::DecoderTrap;

verus! {

/// What the process-lifetime context holds: the module path, and the outcome of
/// the first completed `loadu`.
pub struct ContextView {
    pub path: Option<Seq<char>>,
    pub loadu_result: Option<bool>,
}

/// Process-lifetime context shared by the entry points.
///
/// Both of its cells are write-once: a second attempt to set one is reported as a
/// conflict and leaves the stored value as it was.
pub struct DllContext {
    dll_path: Option<String>,
    loadu_result: Option<bool>,
}

impl View for DllContext {
    type V = ContextView;

    closed spec fn view(&self) -> ContextView {
        ContextView {
            path: match self.dll_path {
                Some(s) => Some(s@),
                None => None,
            },
            loadu_result: self.loadu_result,
        }
    }
}

impl DllContext {
    /// A context in which nothing has been registered yet.
    pub fn new() -> (r: DllContext)
        ensures
            r@ == (ContextView { path: None, loadu_result: None }),
    {
        DllContext { dll_path: None, loadu_result: None }
    }
}

/// The result of registering `path` in a context `c`: whether it was accepted, and
/// the context afterwards.
pub open spec fn register_path_spec(c: ContextView, path: Seq<char>) -> (bool, ContextView) {
    match c.path {
        None => (true, ContextView { path: Some(path), ..c }),
        Some(_) => (false, c),
    }
}

/// The result of recording a `loadu` outcome in a context `c`: whether it was
/// accepted, and the context afterwards.
pub open spec fn register_loadu_spec(c: ContextView, result: bool) -> (bool, ContextView) {
    match c.loadu_result {
        None => (true, ContextView { loadu_result: Some(result), ..c }),
        Some(_) => (false, c),
    }
}

/// Both registries are write-once: from a context where neither is set, a first
/// registration is accepted and a second one is refused, and the value stored after
/// both is the first one.
pub proof fn lemma_registries_write_once(
    c: ContextView,
    p1: Seq<char>,
    p2: Seq<char>,
    x1: bool,
    x2: bool,
)
    requires
        c.path is None,
        c.loadu_result is None,
    ensures
        register_path_spec(c, p1).0,
        !register_path_spec(register_path_spec(c, p1).1, p2).0,
        register_path_spec(register_path_spec(c, p1).1, p2).1.path == Some(p1),
        register_loadu_spec(c, x1).0,
        !register_loadu_spec(register_loadu_spec(c, x1).1, x2).0,
        register_loadu_spec(register_loadu_spec(c, x1).1, x2).1.loadu_result == Some(x1),
{
}

/// The module path registered so far, if any.
pub fn read_dll_path_string(ctx: &DllContext) -> (r: Option<String>)
    ensures
        match r {
            Some(s) => ctx@.path == Some(s@),
            None => ctx@.path is None,
        },
{
    match &ctx.dll_path {
        Some(s) => Some(s.clone()),
        None => None,
    }
}

/// Registers the module path. Only the first registration is kept: a later one
/// hands its path back as the error and leaves the context unchanged.
pub fn register_dll_path(ctx: &mut DllContext, path: String) -> (r: Result<(), String>)
    ensures
        (r is Ok, final(ctx)@) == register_path_spec(old(ctx)@, path@),
        r matches Err(p) ==> p@ == path@,
{
    if ctx.dll_path.is_some() {
        Err(path)
    } else {
        ctx.dll_path = Some(path);
        Ok(())
    }
}

/// The outcome of the first completed `loadu`, if any.
pub fn read_loadu_result(ctx: &DllContext) -> (r: Option<bool>)
    ensures
        r == ctx@.loadu_result,
{
    ctx.loadu_result
}

/// Records the outcome of `loadu`. Only the first outcome is kept: a later one is
/// handed back as the error and leaves the context unchanged.
pub fn register_loadu_result(ctx: &mut DllContext, result: bool) -> (r: Result<(), bool>)
    ensures
        (r is Ok, final(ctx)@) == register_loadu_spec(old(ctx)@, result),
        r matches Err(x) ==> x == result,
{
    if ctx.loadu_result.is_some() {
        Err(result)
    } else {
        ctx.loadu_result = Some(result);
        Ok(())
    }
}

/// The failure of a decoding: the text is not valid under the encoding, or the
/// encoding is not one the decoder knows.
#[derive(Clone, Copy, Debug, PartialEq, Eq, Structural)]
pub struct DecodeError;

/// The characters that the codepage `cp` gives for `bytes` under strict decoding, or
/// `None` where some byte sequence is invalid under it.
pub uninterp spec fn codepage_decoding(cp: usize, bytes: Seq<u8>) -> Option<Seq<char>>;

/// The Windows codepage identifiers that the decoder recognizes.
pub open spec fn codepage_supported(cp: usize) -> bool {
    cp == 65001 || cp == 866 || cp == 28591 || cp == 28592 || cp == 28593 || cp == 28594
        || cp == 28595 || cp == 28596 || cp == 28597 || cp == 28598 || cp == 38598
        || cp == 28603 || cp == 28605 || cp == 20866 || cp == 21866 || cp == 10000
        || cp == 874 || (1250 <= cp && cp <= 1259) || cp == 936 || cp == 54936
        || cp == 52936 || cp == 950 || cp == 20932 || cp == 50220 || cp == 932
        || cp == 949 || cp == 1201 || cp == 1200
}

/// Relies on `String::from_utf8`: it succeeds exactly on valid UTF-8, and the
/// string then holds the characters that the bytes encode.
#[verifier::external_body]
fn string_from_utf8(bytes: Vec<u8>) -> (r: Option<String>)
    ensures
        r is Some <==> valid_utf8(bytes@),
        r matches Some(s) ==> s@ == utf8_chars(bytes@),
{
    String::from_utf8(bytes).ok()
}

/// Relies on `encoding::label::encoding_from_windows_code_page`, which knows the
/// codepages of `codepage_supported` and no other, and on `Encoding::decode` with
/// `DecoderTrap::Strict`, which fails on the first invalid sequence.
#[verifier::external_body]
fn decode_with_codepage(cp: usize, bytes: &[u8]) -> (r: Option<String>)
    ensures
        r is Some <==> (codepage_supported(cp) && codepage_decoding(cp, bytes@) is Some),
        r matches Some(s) ==> codepage_decoding(cp, bytes@) == Some(s@),
{
    match encoding_from_windows_code_page(cp) {
        Some(e) => e.decode(bytes, DecoderTrap::Strict).ok(),
        None => None,
    }
}

/// Decodes `bytes` strictly as UTF-8: any invalid sequence fails the whole decoding.
pub fn decode_utf8(bytes: &[u8]) -> (r: Result<String, DecodeError>)
    ensures
        r is Ok <==> valid_utf8(bytes@),
        r matches Ok(s) ==> s@ == utf8_chars(bytes@),
{
    let mut owned: Vec<u8> = Vec::new();
    let mut i: usize = 0;
    while i < bytes.len()
        invariant
            i <= bytes@.len(),
            owned@ == bytes@.subrange(0, i as int),
        decreases bytes@.len() - i,
    {
        owned.push(bytes[i]);
        i = i + 1;
    }
    assert(owned@ =~= bytes@);
    match string_from_utf8(owned) {
        Some(s) => Ok(s),
        None => Err(DecodeError),
    }
}

/// Decodes `bytes` under the host's legacy codepage `codepage`, strictly: an
/// unknown codepage and an invalid byte sequence both fail, and no partial text is
/// ever returned.
pub fn decode_from_oem_codepage(codepage: u32, bytes: &[u8]) -> (r: Result<String, DecodeError>)
    ensures
        r is Ok <==> codepage_supported(codepage as usize) && codepage_decoding(
            codepage as usize,
            bytes@,
        ) is Some,
        r matches Ok(s) ==> codepage_decoding(codepage as usize, bytes@) == Some(s@),
{
    match decode_with_codepage(codepage as usize, bytes) {
        Some(s) => Ok(s),
        None => Err(DecodeError),
    }
}

} // verus!
