//! Deriving the generated crate's name from the book's title.

use vstd::prelude::*;
use vstd::string::StrSliceExecFns;

verus! {

/// The characters of a string after Unicode lower-casing, named after
/// the standard library's conversion.
pub uninterp spec fn lower_of(s: Seq<char>) -> Seq<char>;

/// Relies on `str::to_lowercase`: the result is the Unicode lowercase
/// conversion of the input and depends on its characters alone.
#[verifier::external_body]
fn lowercase(s: &str) -> (r: String)
    ensures
        r@ == lower_of(s@),
{
    s.to_lowercase()
}

/// A separator normalized for a crate name: spaces and hyphens become
/// underscores, every other character stays.
pub open spec fn sep_normalized(c: char) -> char {
    if c == ' ' || c == '-' {
        '_'
    } else {
        c
    }
}

/// The crate name derived from a title: the title lower-cased, with
/// spaces and hyphens replaced by underscores.
pub open spec fn spec_sanitize(title: Seq<char>) -> Seq<char> {
    lower_of(title).map_values(|c: char| sep_normalized(c))
}

/// The fallback title used when the book declares none.
pub open spec fn fallback_name() -> Seq<char> {
    "test_crate"@
}

/// Derives the generated crate's name from the book's title: the title
/// lower-cased, with spaces and hyphens replaced by underscores.
pub fn sanitize_crate_name(title: &str) -> (r: String)
    ensures
        r@ == spec_sanitize(title@),
{
    let lowered = lowercase(title);
    let n = lowered.as_str().unicode_len();
    let mut out = String::new();
    let mut i: usize = 0;
    while i < n
        invariant
            i <= n,
            n == lowered@.len(),
            lowered@ == lower_of(title@),
            out@ == lowered@.subrange(0, i as int).map_values(|c: char| sep_normalized(c)),
        decreases n - i,
    {
        let c = lowered.as_str().get_char(i);
        let mapped: char = if c == ' ' || c == '-' {
            '_'
        } else {
            c
        };
        out.push(mapped);
        proof {
            assert(out@ =~= lowered@.subrange(0, i + 1).map_values(
                |c: char| sep_normalized(c),
            ));
        }
        i += 1;
    }
    proof {
        assert(lowered@.subrange(0, n as int) =~= lowered@);
        assert(out@ =~= spec_sanitize(title@));
    }
    out
}

/// The crate name for a book: derived from its title where one is
/// declared, from the fixed fallback otherwise.
pub fn crate_name(title: Option<&str>) -> (r: String)
    ensures
        r@ == match title {
            Some(t) => spec_sanitize(t@),
            None => spec_sanitize(fallback_name()),
        },
{
    match title {
        Some(t) => sanitize_crate_name(t),
        None => sanitize_crate_name("test_crate"),
    }
}

} // verus!
