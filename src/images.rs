//! Which files of the source directory are images.
use vstd::prelude::*;

verus! {

/// Whether `name` ends in `.` followed by `ext`, with something before the dot
/// (a name that starts with its only dot has no extension).
pub open spec fn has_extension(name: Seq<u8>, ext: Seq<u8>) -> bool {
    &&& name.len() >= ext.len() + 2
    &&& name[name.len() - ext.len() - 1] == 46u8
    &&& name.subrange(name.len() - ext.len(), name.len() as int) == ext
}

/// `jpg`
pub open spec fn ext_jpg() -> Seq<u8> {
    seq![106u8, 112u8, 103u8]
}

/// `jpeg`
pub open spec fn ext_jpeg() -> Seq<u8> {
    seq![106u8, 112u8, 101u8, 103u8]
}

/// `png`
pub open spec fn ext_png() -> Seq<u8> {
    seq![112u8, 110u8, 103u8]
}

/// Image files are recognised by their extension, case-sensitively.
pub open spec fn is_image_name(name: Seq<u8>) -> bool {
    has_extension(name, ext_jpg()) || has_extension(name, ext_jpeg()) || has_extension(
        name,
        ext_png(),
    )
}

fn ends_with_extension(name: &[u8], ext: &[u8]) -> (r: bool)
    ensures
        r == has_extension(name@, ext@),
{
    let n: usize = name.len();
    let e: usize = ext.len();
    if n < 2 || n - 2 < e {
        return false;
    }
    let start: usize = n - e;
    if name[start - 1] != 46u8 {
        return false;
    }
    let mut i: usize = 0;
    while i < e
        invariant
            n == name@.len(),
            e == ext@.len(),
            start == n - e,
            i <= e,
            forall|j: int| 0 <= j < i ==> name@[start + j] == ext@[j],
        decreases e - i,
    {
        if name[start + i] != ext[i] {
            assert(name@.subrange(start as int, n as int)[i as int] != ext@[i as int]);
            return false;
        }
        i += 1;
    }
    assert(name@.subrange(start as int, n as int) =~= ext@);
    true
}

/// Whether a file of this name (its bytes) is taken as an image.
pub fn is_image_file_name(name: &[u8]) -> (r: bool)
    ensures
        r == is_image_name(name@),
{
    let jpg: Vec<u8> = vec![106u8, 112u8, 103u8];
    let jpeg: Vec<u8> = vec![106u8, 112u8, 101u8, 103u8];
    let png: Vec<u8> = vec![112u8, 110u8, 103u8];
    assert(jpg@ =~= ext_jpg());
    assert(jpeg@ =~= ext_jpeg());
    assert(png@ =~= ext_png());
    ends_with_extension(name, jpg.as_slice()) || ends_with_extension(name, jpeg.as_slice())
        || ends_with_extension(name, png.as_slice())
}

} // verus!
