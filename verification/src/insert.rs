//! Insertion-point resolution.
//!
//! Given an anchor found by the query layer, the resolver computes the exact
//! byte offset for a new fragment and the indentation and newline convention
//! to wrap it in, derived from the surrounding bytes: a new member goes
//! before the closing brace of the type body, indented like the last
//! existing member; a new import goes after the last import, after the
//! package clause, or at the start of the file.

use vstd::prelude::*;
use vstd::string::StringSliceAdditionalSpecFns;
use vstd::utf8::encode_utf8;

use crate::edit::TextEdit;
use crate::synth::push_string_bytes;
use crate::synth::views_of;
use crate::text::push_bytes;
use crate::text::push_str_bytes;
use crate::text::subrange_vec;

verus! {

/// The start of the maximal run of spaces and tabs that ends at `pos`.
pub open spec fn spec_ws_start(src: Seq<u8>, pos: int) -> int
    decreases pos,
{
    if pos <= 0 {
        0
    } else if src[pos - 1] == 32 || src[pos - 1] == 9 {
        spec_ws_start(src, pos - 1)
    } else {
        pos
    }
}

/// The blank-run start never exceeds its argument.
pub proof fn lemma_ws_start_le(src: Seq<u8>, pos: int)
    requires
        0 <= pos,
    ensures
        0 <= spec_ws_start(src, pos) <= pos,
    decreases pos,
{
    if pos > 0 && (src[pos - 1] == 32 || src[pos - 1] == 9) {
        lemma_ws_start_le(src, pos - 1);
    }
}

/// A byte that is neither a space nor a tab bounds the blank run from
/// below: the run's start lies strictly past it.
pub proof fn lemma_ws_start_above(src: Seq<u8>, q: int, pos: int)
    requires
        0 <= q < pos <= src.len(),
        src[q] != 32,
        src[q] != 9,
    ensures
        spec_ws_start(src, pos) > q,
    decreases pos,
{
    if src[pos - 1] == 32 || src[pos - 1] == 9 {
        if q == pos - 1 {
            assert(false);
        } else {
            lemma_ws_start_above(src, q, pos - 1);
        }
    }
}

/// The start of the maximal run of spaces and tabs that ends at `pos`.
pub fn ws_start(src: &Vec<u8>, pos: usize) -> (r: usize)
    requires
        pos <= src@.len(),
    ensures
        r == spec_ws_start(src@, pos as int),
        r <= pos,
{
    let mut p: usize = pos;
    while p > 0 && (src[p - 1] == 32 || src[p - 1] == 9)
        invariant
            p <= pos <= src@.len(),
            spec_ws_start(src@, pos as int) == spec_ws_start(src@, p as int),
        decreases p,
    {
        p = p - 1;
    }
    p
}

/// The spaces and tabs immediately before `pos`: the indentation to reuse
/// for a fragment aligned with the text that starts at `pos`.
pub fn indent_before(src: &Vec<u8>, pos: usize) -> (r: Vec<u8>)
    requires
        pos <= src@.len(),
    ensures
        r@ == src@.subrange(spec_ws_start(src@, pos as int), pos as int),
{
    let from = ws_start(src, pos);
    subrange_vec(src, from, pos)
}

/// A block of lines, each indented and ended by a newline.
pub open spec fn spec_lines_block(lines: Seq<Seq<u8>>, indent: Seq<u8>) -> Seq<u8>
    decreases lines.len(),
{
    if lines.len() == 0 {
        Seq::empty()
    } else {
        indent + lines[0] + seq![10u8] + spec_lines_block(lines.drop_first(), indent)
    }
}

proof fn lemma_lines_block_push(lines: Seq<Seq<u8>>, indent: Seq<u8>, p: Seq<u8>)
    ensures
        spec_lines_block(lines.push(p), indent) == spec_lines_block(lines, indent) + indent + p
            + seq![10u8],
    decreases lines.len(),
{
    let pushed = lines.push(p);
    if lines.len() == 0 {
        assert(pushed[0] == p);
        assert(pushed.drop_first() =~= Seq::<Seq<u8>>::empty());
        assert(spec_lines_block(Seq::<Seq<u8>>::empty(), indent) == Seq::<u8>::empty());
        assert(spec_lines_block(pushed, indent) =~= Seq::<u8>::empty() + indent + p + seq![10u8]);
    } else {
        assert(pushed[0] == lines[0]);
        assert(pushed.drop_first() =~= lines.drop_first().push(p));
        lemma_lines_block_push(lines.drop_first(), indent, p);
        assert(indent + lines[0] + seq![10u8] + (spec_lines_block(lines.drop_first(), indent)
            + indent + p + seq![10u8]) =~= (indent + lines[0] + seq![10u8] + spec_lines_block(
            lines.drop_first(),
            indent,
        )) + indent + p + seq![10u8]);
    }
}

/// Renders a block of lines, each indented and ended by a newline.
pub fn lines_block(lines: &Vec<Vec<u8>>, indent: &Vec<u8>) -> (r: Vec<u8>)
    ensures
        r@ == spec_lines_block(views_of(lines@), indent@),
{
    let mut out: Vec<u8> = Vec::new();
    let n = lines.len();
    let mut i: usize = 0;
    while i < n
        invariant
            i <= n,
            n == lines@.len(),
            out@ == spec_lines_block(views_of(lines@.take(i as int)), indent@),
        decreases n - i,
    {
        let ghost before = views_of(lines@.take(i as int));
        push_bytes(&mut out, indent);
        push_bytes(&mut out, &lines[i]);
        out.push(10u8);
        proof {
            assert(views_of(lines@.take(i + 1)) =~= before.push(lines@[i as int]@));
            lemma_lines_block_push(before, indent@, lines@[i as int]@);
            assert(out@ =~= spec_lines_block(before, indent@) + indent@ + lines@[i as int]@
                + seq![10u8]);
        }
        i = i + 1;
    }
    proof {
        assert(lines@.take(n as int) =~= lines@);
    }
    out
}

/// The bytes inserted for a new member block at offset `at`: a newline when
/// the insertion point does not start a line, a blank line when the body
/// already has members, then the indented lines.
pub open spec fn spec_insertion_replacement(
    src: Seq<u8>,
    at: int,
    blank: bool,
    indent: Seq<u8>,
    lines: Seq<Seq<u8>>,
) -> Seq<u8> {
    (if at > 0 && src[at - 1] != 10 {
        seq![10u8]
    } else {
        Seq::<u8>::empty()
    }) + (if blank {
        seq![10u8]
    } else {
        Seq::<u8>::empty()
    }) + spec_lines_block(lines, indent)
}

/// Builds the pure insertion edit for a member block at offset `at`.
pub fn insertion_edit_at(
    src: &Vec<u8>,
    at: usize,
    blank: bool,
    indent: &Vec<u8>,
    lines: &Vec<Vec<u8>>,
) -> (r: TextEdit)
    requires
        at <= src@.len(),
    ensures
        r.start == at,
        r.end == at,
        r.replacement@ == spec_insertion_replacement(
            src@,
            at as int,
            blank,
            indent@,
            views_of(lines@),
        ),
{
    let mut repl: Vec<u8> = Vec::new();
    if at > 0 && src[at - 1] != 10 {
        repl.push(10u8);
    }
    if blank {
        repl.push(10u8);
    }
    let block = lines_block(lines, indent);
    push_bytes(&mut repl, &block);
    proof {
        assert(repl@ =~= spec_insertion_replacement(
            src@,
            at as int,
            blank,
            indent@,
            views_of(lines@),
        ));
    }
    TextEdit { start: at, end: at, replacement: repl }
}

/// Number of consecutive newline bytes at offset `at`, counted up to two.
pub open spec fn spec_nl_run2(src: Seq<u8>, at: int) -> int {
    if at >= src.len() || src[at] != 10 {
        0
    } else if at + 1 >= src.len() || src[at + 1] != 10 {
        1
    } else {
        2
    }
}

/// The newlines appended after a package-anchored or file-start import so
/// that exactly one blank line separates it from the text that follows.
pub open spec fn spec_import_pad(src: Seq<u8>, at: int) -> Seq<u8> {
    if spec_nl_run2(src, at) == 0 {
        seq![10u8, 10u8]
    } else if spec_nl_run2(src, at) == 1 {
        seq![10u8]
    } else {
        Seq::<u8>::empty()
    }
}

/// The import statement inserted after the last existing import.
pub open spec fn spec_import_after_imports(fqn: Seq<char>) -> Seq<u8> {
    seq![10u8] + "import ".spec_bytes() + encode_utf8(fqn) + ";".spec_bytes()
}

/// The import statement inserted directly after the package clause,
/// padded so that a single blank line separates it from what follows.
pub open spec fn spec_import_after_package(src: Seq<u8>, at: int, fqn: Seq<char>) -> Seq<u8> {
    seq![10u8] + seq![10u8] + "import ".spec_bytes() + encode_utf8(fqn) + ";".spec_bytes()
        + spec_import_pad(src, at)
}

/// The import statement inserted at the start of a file without a package
/// clause, padded so that a single blank line separates it from what
/// follows.
pub open spec fn spec_import_at_start(src: Seq<u8>, fqn: Seq<char>) -> Seq<u8> {
    "import ".spec_bytes() + encode_utf8(fqn) + ";".spec_bytes() + spec_import_pad(src, 0)
}

/// The three placements of a new import statement.
pub enum ImportAnchor {
    /// After the import node at this offset (the end of the last import).
    AfterImports(usize),
    /// After the package clause ending at this offset.
    AfterPackage(usize),
    /// At the start of the file.
    AtStart,
}

fn push_import_pad(repl: &mut Vec<u8>, src: &Vec<u8>, at: usize)
    requires
        at <= src@.len(),
    ensures
        final(repl)@ == old(repl)@ + spec_import_pad(src@, at as int),
{
    let run: usize = if at >= src.len() || src[at] != 10 {
        0
    } else if at + 1 >= src.len() || src[at + 1] != 10 {
        1
    } else {
        2
    };
    proof {
        assert(run == spec_nl_run2(src@, at as int));
    }
    if run == 0 {
        repl.push(10u8);
        repl.push(10u8);
        proof {
            assert(old(repl)@ + spec_import_pad(src@, at as int) =~= old(repl)@.push(10u8).push(
                10u8,
            ));
        }
    } else if run == 1 {
        repl.push(10u8);
        proof {
            assert(old(repl)@ + spec_import_pad(src@, at as int) =~= old(repl)@.push(10u8));
        }
    } else {
        proof {
            assert(old(repl)@ + spec_import_pad(src@, at as int) =~= old(repl)@);
        }
    }
}

/// Builds the import-insertion edit for the resolved anchor.
pub fn import_edit(src: &Vec<u8>, anchor: &ImportAnchor, fqn: &String) -> (r: TextEdit)
    requires
        match anchor {
            ImportAnchor::AfterImports(at) => at <= src@.len(),
            ImportAnchor::AfterPackage(at) => at <= src@.len(),
            ImportAnchor::AtStart => true,
        },
    ensures
        r.start == r.end,
        match anchor {
            ImportAnchor::AfterImports(at) => r.start == at && r.replacement@
                == spec_import_after_imports(fqn@),
            ImportAnchor::AfterPackage(at) => r.start == at && r.replacement@
                == spec_import_after_package(src@, at as int, fqn@),
            ImportAnchor::AtStart => r.start == 0 && r.replacement@ == spec_import_at_start(
                src@,
                fqn@,
            ),
        },
{
    let mut repl: Vec<u8> = Vec::new();
    let at: usize = match anchor {
        ImportAnchor::AfterImports(at) => {
            repl.push(10u8);
            push_str_bytes(&mut repl, "import ");
            push_string_bytes(&mut repl, fqn);
            push_str_bytes(&mut repl, ";");
            proof {
                assert(repl@ =~= spec_import_after_imports(fqn@));
            }
            *at
        },
        ImportAnchor::AfterPackage(at) => {
            repl.push(10u8);
            repl.push(10u8);
            push_str_bytes(&mut repl, "import ");
            push_string_bytes(&mut repl, fqn);
            push_str_bytes(&mut repl, ";");
            push_import_pad(&mut repl, src, *at);
            proof {
                assert(repl@ =~= spec_import_after_package(src@, *at as int, fqn@));
            }
            *at
        },
        ImportAnchor::AtStart => {
            push_str_bytes(&mut repl, "import ");
            push_string_bytes(&mut repl, fqn);
            push_str_bytes(&mut repl, ";");
            push_import_pad(&mut repl, src, 0);
            proof {
                assert(repl@ =~= spec_import_at_start(src@, fqn@));
            }
            0
        },
    };
    TextEdit { start: at, end: at, replacement: repl }
}

} // verus!
