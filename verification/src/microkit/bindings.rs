//! Debug-console output through the Microkit bindings: the bytes a print writes.
use vstd::prelude::*;
use vstd::string::StringSliceAdditionalSpecFns;

verus! {

/// The bytes of `s`, one by one.
fn bytes_of(s: &str, out: &mut Vec<u8>)
    ensures
        final(out)@ == old(out)@ + s.spec_bytes(),
{
    let b = s.as_bytes();
    let mut i: usize = 0;
    while i < b.len()
        invariant
            0 <= i <= b@.len(),
            b@ == s.spec_bytes(),
            out@ == old(out)@ + b@.take(i as int),
        decreases b@.len() - i,
    {
        out.push(b[i]);
        assert(out@ =~= old(out)@ + b@.take(i + 1));
        i = i + 1;
    }
    assert(b@.take(i as int) =~= b@);
}

/// The bytes `debug_println` writes: the text, then a newline.
pub fn debug_println(s: &str) -> (r: Vec<u8>)
    ensures
        r@ == s.spec_bytes().push(10u8),
{
    let mut out: Vec<u8> = Vec::new();
    bytes_of(s, &mut out);
    out.push(10);
    assert(out@ =~= s.spec_bytes().push(10u8));
    out
}

/// The bytes `debug_print` writes: the text.
pub fn debug_print(s: &str) -> (r: Vec<u8>)
    ensures
        r@ == s.spec_bytes(),
{
    let mut out: Vec<u8> = Vec::new();
    bytes_of(s, &mut out);
    assert(out@ =~= s.spec_bytes());
    out
}

} // verus!
