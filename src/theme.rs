use vstd::prelude::*;
use vstd::string::StringSliceAdditionalSpecFns;
use vstd::utf8::is_char_boundary;

verus! {

/// The theme-name endings that mark a dark variant, in the order they are
/// tried: `-dark`, `-Dark`, `-Darker`.
pub open spec fn dark_suffix(i: int) -> Seq<u8> {
    if i == 0 {
        seq![45u8, 100u8, 97u8, 114u8, 107u8]
    } else if i == 1 {
        seq![45u8, 68u8, 97u8, 114u8, 107u8]
    } else {
        seq![45u8, 68u8, 97u8, 114u8, 107u8, 101u8, 114u8]
    }
}

pub open spec fn ends_with(b: Seq<u8>, suffix: Seq<u8>) -> bool {
    suffix.len() <= b.len() && b.subrange(b.len() - suffix.len(), b.len() as int) == suffix
}

/// The first dark ending that `b` has, by its position in the list.
pub open spec fn first_dark_suffix(b: Seq<u8>) -> Option<int> {
    if ends_with(b, dark_suffix(0)) {
        Some(0)
    } else if ends_with(b, dark_suffix(1)) {
        Some(1)
    } else if ends_with(b, dark_suffix(2)) {
        Some(2)
    } else {
        None
    }
}

fn dark_suffix_bytes(i: usize) -> (r: Vec<u8>)
    requires
        i < 3,
    ensures
        r@ == dark_suffix(i as int),
{
    if i == 0 {
        vec![45u8, 100u8, 97u8, 114u8, 107u8]
    } else if i == 1 {
        vec![45u8, 68u8, 97u8, 114u8, 107u8]
    } else {
        vec![45u8, 68u8, 97u8, 114u8, 107u8, 101u8, 114u8]
    }
}

fn ends_with_bytes(b: &[u8], suffix: &Vec<u8>) -> (r: bool)
    ensures
        r == ends_with(b@, suffix@),
{
    if suffix.len() > b.len() {
        return false;
    }
    let offset = b.len() - suffix.len();
    let mut i: usize = 0;
    while i < suffix.len()
        invariant
            offset + suffix@.len() == b@.len(),
            b@.len() <= usize::MAX,
            i <= suffix@.len(),
            forall|k: int| 0 <= k < i ==> b@[offset + k] == suffix@[k],
        decreases suffix@.len() - i,
    {
        if b[offset + i] != suffix[i] {
            proof {
                assert(b@.subrange(offset as int, b@.len() as int)[i as int] != suffix@[i as int]);
            }
            return false;
        }
        i = i + 1;
    }
    proof {
        assert(b@.subrange(offset as int, b@.len() as int) =~= suffix@);
    }
    true
}

/// The name of the light variant of a theme: when `name` ends with one of
/// the dark endings, the name without the first such ending; otherwise
/// nothing.
pub fn light_theme_name(name: &str) -> (r: Option<&str>)
    ensures
        match first_dark_suffix(name.spec_bytes()) {
            None => r is None,
            Some(i) => {
                let mid = name.spec_bytes().len() - dark_suffix(i).len();
                if is_char_boundary(name.spec_bytes(), mid) {
                    r matches Some(base) && base.spec_bytes() == name.spec_bytes().subrange(0, mid)
                } else {
                    r is None
                }
            },
        },
{
    let bytes = name.as_bytes();
    let mut i: usize = 0;
    while i < 3
        invariant
            bytes@ == name.spec_bytes(),
            0 <= i <= 3,
            forall|k: int| 0 <= k < i ==> !ends_with(bytes@, dark_suffix(k)),
        decreases 3 - i,
    {
        let suffix = dark_suffix_bytes(i);
        if ends_with_bytes(bytes, &suffix) {
            let mid = bytes.len() - suffix.len();
            if name.is_char_boundary(mid) {
                let (base, _) = name.split_at(mid);
                return Some(base);
            }
            return None;
        }
        i = i + 1;
    }
    None
}

} // verus!
