//! Fitting a boot program of any length to the 256 bytes that the bus takes.

use vstd::prelude::*;

verus! {

/// How the length of a boot program compares with the 256 bytes expected.
#[derive(Copy, Clone, Debug, PartialEq, Eq, Structural)]
pub enum BootRomFit {
    /// Exactly 256 bytes.
    Exact,
    /// Too short by this many bytes, which were filled with zeros.
    Short(usize),
    /// Too long by this many bytes, which were discarded.
    Long(usize),
}

/// The first 256 bytes of `data`, with zeros where `data` has none.
pub open spec fn fitted(data: Seq<u8>) -> Seq<u8> {
    Seq::new(
        256,
        |i: int|
            if i < data.len() {
                data[i]
            } else {
                0u8
            },
    )
}

/// How a boot program of `len` bytes compares with the 256 expected.
pub open spec fn fit_of(len: nat) -> BootRomFit {
    if len < 256 {
        BootRomFit::Short((256 - len) as usize)
    } else if len > 256 {
        BootRomFit::Long((len - 256) as usize)
    } else {
        BootRomFit::Exact
    }
}

/// Fits a boot program to 256 bytes: a shorter one is padded with zeros, a
/// longer one is cut. The second component says which happened and by how
/// many bytes, so that the caller can warn.
pub fn fit_boot_rom(data: &[u8]) -> (r: ([u8; 256], BootRomFit))
    ensures
        r.0@ == fitted(data@),
        r.1 == fit_of(data@.len()),
{
    let len: usize = data.len();
    let mut image: [u8; 256] = [0; 256];
    let mut i: usize = 0;
    while i < 256 && i < len
        invariant
            len == data@.len(),
            i <= 256,
            i <= len,
            forall|k: int| 0 <= k < i ==> image@[k] == data@[k],
            forall|k: int| i <= k < 256 ==> image@[k] == 0,
        decreases 256 - i,
    {
        image[i] = data[i];
        i += 1;
    }
    assert(image@ =~= fitted(data@));
    let fit = if len < 256 {
        BootRomFit::Short(256 - len)
    } else if len > 256 {
        BootRomFit::Long(len - 256)
    } else {
        BootRomFit::Exact
    };
    (image, fit)
}

} // verus!
