//! The generated build script.
//!
//! The script is a fixed template with one substitution: the list of
//! chapter files, each quoted as a raw string literal, comma-separated,
//! in traversal order.  The downstream snippet-extraction tool reads
//! that list during the generated crate's own build to know which files
//! to scan.

use vstd::prelude::*;
use vstd::string::StringExecFns;
use crate::chapters::{Book, chapters_of, source_path_of};

verus! {

broadcast use vstd::std_specs::vec::group_vec_axioms, vstd::seq::group_seq_axioms, vstd::string::group_string_axioms;

/// The text of the template before the substituted list.
pub open spec fn template_head() -> Seq<char> {
    "fn main() {\n    skeptic::generate_doc_tests(&[\n        "@
}

/// The text of the template after the substituted list.
pub open spec fn template_tail() -> Seq<char> {
    "\n    ]);\n}\n"@
}

/// A path quoted as a raw string literal.
pub open spec fn quoted(p: Seq<char>) -> Seq<char> {
    "r\""@ + p + "\""@
}

/// The quoted paths, comma-separated, in order.
pub open spec fn joined_paths(paths: Seq<Seq<char>>) -> Seq<char>
    decreases paths.len(),
{
    if paths.len() == 0 {
        Seq::empty()
    } else if paths.len() == 1 {
        quoted(paths[0])
    } else {
        quoted(paths[0]) + ", "@ + joined_paths(paths.drop_first())
    }
}

/// The source paths of the book's chapters, in traversal order.
pub open spec fn chapter_source_paths(items: Seq<crate::chapters::BookItem>) -> Seq<Seq<char>> {
    chapters_of(items).map_values(|ch: crate::chapters::Chapter| source_path_of(ch.path@))
}

/// The whole generated script: the template around the joined list.
pub open spec fn spec_build_rs(paths: Seq<Seq<char>>) -> Seq<char> {
    template_head() + joined_paths(paths) + template_tail()
}

/// Joining one more path appends a separator (before all but the first
/// path) and the quoted path.
proof fn lemma_joined_paths_push(paths: Seq<Seq<char>>, p: Seq<char>)
    ensures
        joined_paths(paths.push(p)) == if paths.len() == 0 {
            quoted(p)
        } else {
            joined_paths(paths) + ", "@ + quoted(p)
        },
    decreases paths.len(),
{
    let longer = paths.push(p);
    if paths.len() == 0 {
        assert(longer.len() == 1);
        assert(longer[0] == p);
    } else {
        assert(longer[0] == paths[0]);
        assert(longer.drop_first() =~= paths.drop_first().push(p));
        lemma_joined_paths_push(paths.drop_first(), p);
        if paths.len() == 1 {
            assert(paths.drop_first().len() == 0);
            assert(joined_paths(longer) =~= joined_paths(paths) + ", "@ + quoted(p));
        } else {
            assert(joined_paths(longer) =~= joined_paths(paths) + ", "@ + quoted(p));
        }
    }
}

/// Renders the build script for the book: the fixed template around the
/// comma-separated list of the chapters' quoted source paths, in
/// traversal order.
pub fn build_rs(book: &Book) -> (r: String)
    ensures
        r@ == spec_build_rs(chapter_source_paths(book.sections@)),
{
    let plans = crate::chapters::copy_across_book_chapters(book);
    let ghost paths = chapter_source_paths(book.sections@);
    proof {
        assert(paths.len() == plans@.len());
        assert(forall|i: int| 0 <= i < plans@.len() ==> (#[trigger] plans@[i]).path@ == paths[i]);
    }
    let mut list = String::new();
    let n = plans.len();
    let mut i: usize = 0;
    while i < n
        invariant
            i <= n,
            n == plans@.len(),
            n == paths.len(),
            forall|j: int| 0 <= j < n ==> (#[trigger] plans@[j]).path@ == paths[j],
            list@ == joined_paths(paths.take(i as int)),
        decreases n - i,
    {
        if i > 0 {
            list.append(", ");
        }
        list.append("r\"");
        list.append(plans[i].path.as_str());
        list.append("\"");
        proof {
            assert(paths.take(i + 1) =~= paths.take(i as int).push(paths[i as int]));
            lemma_joined_paths_push(paths.take(i as int), paths[i as int]);
            assert(list@ =~= joined_paths(paths.take(i + 1)));
        }
        i += 1;
    }
    proof {
        assert(paths.take(n as int) =~= paths);
    }
    let mut out: String = "fn main() {\n    skeptic::generate_doc_tests(&[\n        ".to_owned();
    out.append(list.as_str());
    out.append("\n    ]);\n}\n");
    proof {
        assert(out@ =~= spec_build_rs(paths));
    }
    out
}

/// Where the quoted form of each path begins inside the joined list.
pub open spec fn joined_offset(paths: Seq<Seq<char>>, k: int) -> int
    decreases k,
{
    if k <= 0 {
        0
    } else {
        joined_offset(paths.drop_first(), k - 1) + quoted(paths[0]).len() + 2
    }
}

/// The generated script holds every chapter path, quoted, at its
/// computed position: positions grow strictly with the chapter's place
/// in the traversal, so the paths stand in traversal order, each
/// delimited as a raw string literal.
pub proof fn lemma_joined_paths_in_order(paths: Seq<Seq<char>>, k: int)
    requires
        0 <= k < paths.len(),
    ensures
        0 <= joined_offset(paths, k),
        joined_offset(paths, k) + quoted(paths[k]).len() <= joined_paths(paths).len(),
        joined_paths(paths).subrange(
            joined_offset(paths, k),
            joined_offset(paths, k) + quoted(paths[k]).len(),
        ) == quoted(paths[k]),
        k + 1 < paths.len() ==> joined_offset(paths, k) + quoted(paths[k]).len() < joined_offset(
            paths,
            k + 1,
        ),
    decreases k,
{
    reveal_strlit("r\"");
    reveal_strlit("\"");
    reveal_strlit(", ");
    let whole = joined_paths(paths);
    if k == 0 {
        if paths.len() == 1 {
            assert(whole.subrange(0, quoted(paths[0]).len() as int) =~= quoted(paths[0]));
        } else {
            assert(whole.subrange(0, quoted(paths[0]).len() as int) =~= quoted(paths[0]));
            assert(joined_offset(paths.drop_first(), 0) == 0);
            assert(joined_offset(paths, 1) == quoted(paths[0]).len() + 2);
        }
    } else {
        let rest = paths.drop_first();
        let shift = quoted(paths[0]).len() + 2;
        lemma_joined_paths_in_order(rest, k - 1);
        assert(rest[k - 1] == paths[k]);
        assert(joined_offset(paths, k) == joined_offset(rest, k - 1) + shift);
        assert(paths.len() >= 2);
        assert(whole == quoted(paths[0]) + ", "@ + joined_paths(rest));
        let off = joined_offset(rest, k - 1);
        let qlen = quoted(paths[k]).len() as int;
        assert(whole.subrange(shift + off, shift + off + qlen) =~= joined_paths(rest).subrange(
            off,
            off + qlen,
        ));
        if k + 1 < paths.len() {
            assert(rest[k] == paths[k + 1]);
            assert(joined_offset(paths, k + 1) == joined_offset(rest, k) + shift);
        }
    }
}

} // verus!
