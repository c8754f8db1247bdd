//! File-path synthesis: the conventional location of a Java compilation
//! unit under a source root, and the normalization of file names.

use vstd::prelude::*;
use vstd::string::StringSliceAdditionalSpecFns;
use vstd::utf8::encode_utf8;

use crate::catalog::JavaSourceDirectoryType;
use crate::text::push_bytes;
use crate::text::push_str_bytes;

verus! {

/// Every dot byte replaced by a slash: a package name as a directory path.
pub open spec fn spec_dots_to_slashes(s: Seq<u8>) -> Seq<u8> {
    s.map_values(
        |b: u8|
            if b == 46 {
                47u8
            } else {
                b
            },
    )
}

/// Replaces every dot byte by a slash.
pub fn dots_to_slashes(s: &Vec<u8>) -> (r: Vec<u8>)
    ensures
        r@ == spec_dots_to_slashes(s@),
{
    let n = s.len();
    let mut out: Vec<u8> = Vec::new();
    let mut i: usize = 0;
    while i < n
        invariant
            i <= n,
            n == s@.len(),
            out@ =~= spec_dots_to_slashes(s@.take(i as int)),
        decreases n - i,
    {
        let b = s[i];
        if b == 46 {
            out.push(47);
        } else {
            out.push(b);
        }
        proof {
            assert(out@ =~= spec_dots_to_slashes(s@.take(i + 1)));
        }
        i = i + 1;
    }
    proof {
        assert(s@.take(n as int) =~= s@);
    }
    out
}

/// The path of a Java compilation unit: the source root, the package as
/// directories, and the simple name with the `.java` suffix.
pub open spec fn spec_java_file_path(
    root: Seq<char>,
    package_name: Seq<u8>,
    simple_name: Seq<u8>,
) -> Seq<u8> {
    encode_utf8(root) + "/".spec_bytes() + spec_dots_to_slashes(package_name) + "/".spec_bytes()
        + simple_name + ".java".spec_bytes()
}

/// Builds the path of a Java compilation unit under the given source set.
pub fn java_file_path(
    source_directory: &JavaSourceDirectoryType,
    package_name: &Vec<u8>,
    simple_name: &Vec<u8>,
) -> (r: Vec<u8>)
    ensures
        r@ == spec_java_file_path(
            source_directory.spec_root_path(),
            package_name@,
            simple_name@,
        ),
{
    let mut out: Vec<u8> = Vec::new();
    push_str_bytes(&mut out, source_directory.root_path());
    push_str_bytes(&mut out, "/");
    let dirs = dots_to_slashes(package_name);
    push_bytes(&mut out, &dirs);
    push_str_bytes(&mut out, "/");
    push_bytes(&mut out, simple_name);
    push_str_bytes(&mut out, ".java");
    proof {
        assert(out@ =~= spec_java_file_path(
            source_directory.spec_root_path(),
            package_name@,
            simple_name@,
        ));
    }
    out
}

/// Whether a byte separates words in a file name: underscore, dash, space.
pub open spec fn spec_is_separator(b: u8) -> bool {
    b == 95 || b == 45 || b == 32
}

/// A lowercase ASCII letter raised to its uppercase form; any other byte
/// unchanged.
pub open spec fn spec_upper(b: u8) -> u8 {
    if 97 <= b <= 122 {
        (b - 32) as u8
    } else {
        b
    }
}

/// The pascal-case form of a name, from position `i` on: separators are
/// dropped, the letter that follows a separator — or starts the name — is
/// raised to uppercase, everything else is kept.
pub open spec fn spec_pascal_from(s: Seq<u8>, i: int, at_word_start: bool) -> Seq<u8>
    decreases s.len() - i,
{
    if i < 0 || i >= s.len() {
        Seq::empty()
    } else if spec_is_separator(s[i]) {
        spec_pascal_from(s, i + 1, true)
    } else if at_word_start {
        seq![spec_upper(s[i])] + spec_pascal_from(s, i + 1, false)
    } else {
        seq![s[i]] + spec_pascal_from(s, i + 1, false)
    }
}

/// The pascal-case form of a name.
pub open spec fn spec_pascal(s: Seq<u8>) -> Seq<u8> {
    spec_pascal_from(s, 0, true)
}

/// Normalizes a file name to pascal case.
pub fn to_pascal_case(s: &Vec<u8>) -> (r: Vec<u8>)
    ensures
        r@ == spec_pascal(s@),
{
    let n = s.len();
    let mut out: Vec<u8> = Vec::new();
    let mut i: usize = 0;
    let mut at_word_start: bool = true;
    proof {
        assert(Seq::<u8>::empty() + spec_pascal_from(s@, 0, true) =~= spec_pascal_from(
            s@,
            0,
            true,
        ));
    }
    while i < n
        invariant
            i <= n,
            n == s@.len(),
            spec_pascal(s@) == out@ + spec_pascal_from(s@, i as int, at_word_start),
        decreases n - i,
    {
        let ghost prev_out = out@;
        let ghost prev_ws = at_word_start;
        let b = s[i];
        if b == 95 || b == 45 || b == 32 {
            at_word_start = true;
            proof {
                assert(spec_pascal_from(s@, i as int, prev_ws) == spec_pascal_from(
                    s@,
                    i + 1,
                    true,
                ));
            }
        } else if at_word_start {
            let u: u8 = if 97 <= b && b <= 122 {
                b - 32
            } else {
                b
            };
            out.push(u);
            at_word_start = false;
            proof {
                assert(u == spec_upper(s@[i as int]));
                assert(spec_pascal_from(s@, i as int, true) == seq![spec_upper(s@[i as int])]
                    + spec_pascal_from(s@, i + 1, false));
                assert(prev_out + (seq![spec_upper(s@[i as int])] + spec_pascal_from(
                    s@,
                    i + 1,
                    false,
                )) =~= out@ + spec_pascal_from(s@, i + 1, false));
            }
        } else {
            out.push(b);
            proof {
                assert(spec_pascal_from(s@, i as int, false) == seq![s@[i as int]]
                    + spec_pascal_from(s@, i + 1, false));
                assert(prev_out + (seq![s@[i as int]] + spec_pascal_from(s@, i + 1, false)) =~= out@
                    + spec_pascal_from(s@, i + 1, false));
            }
        }
        i = i + 1;
    }
    proof {
        assert(spec_pascal_from(s@, n as int, at_word_start) == Seq::<u8>::empty());
        assert(out@ + Seq::<u8>::empty() =~= out@);
    }
    out
}

} // verus!
