//! The book model the pipeline consumes, and the plan that materializes
//! its chapters as files of the generated crate.
//!
//! The book arrives as a flattened, in-order traversal of its tree;
//! grouping nodes are kept as separators and never become files.

use vstd::prelude::*;
use vstd::string::StringExecFns;

verus! {

broadcast use vstd::std_specs::vec::group_vec_axioms, vstd::seq::group_seq_axioms, vstd::string::group_string_axioms;

/// One chapter of the book: its display name, its raw text, and its
/// path relative to the book's source root.
#[derive(Debug, Clone, PartialEq)]
pub struct Chapter {
    pub name: String,
    pub content: String,
    pub path: String,
}

/// One node of the flattened book: a chapter, or a grouping separator
/// that never becomes a file.
#[derive(Debug, Clone, PartialEq)]
pub enum BookItem {
    Chapter(Chapter),
    Separator,
}

/// The book as the pipeline sees it: its items in traversal order.
#[derive(Debug, Clone, PartialEq)]
pub struct Book {
    pub sections: Vec<BookItem>,
}

/// The chapters among the items, in traversal order.
pub open spec fn chapters_of(items: Seq<BookItem>) -> Seq<Chapter>
    decreases items.len(),
{
    if items.len() == 0 {
        Seq::empty()
    } else {
        let rest = chapters_of(items.drop_first());
        match items[0] {
            BookItem::Chapter(ch) => seq![ch] + rest,
            BookItem::Separator => rest,
        }
    }
}

/// Appending one item appends its chapter, if it is one.
pub proof fn lemma_chapters_of_push(items: Seq<BookItem>, it: BookItem)
    ensures
        chapters_of(items.push(it)) == chapters_of(items) + (match it {
            BookItem::Chapter(ch) => seq![ch],
            BookItem::Separator => Seq::<Chapter>::empty(),
        }),
    decreases items.len(),
{
    let tail = match it {
        BookItem::Chapter(ch) => seq![ch],
        BookItem::Separator => Seq::<Chapter>::empty(),
    };
    if items.len() == 0 {
        assert((items.push(it))[0] == it);
        assert(items.push(it).drop_first() =~= Seq::<BookItem>::empty());
        assert(chapters_of(Seq::<BookItem>::empty()) =~= Seq::<Chapter>::empty());
        assert(chapters_of(items) =~= Seq::<Chapter>::empty());
        assert(chapters_of(items.push(it)) =~= chapters_of(items) + tail);
    } else {
        assert(items.push(it).drop_first() =~= items.drop_first().push(it));
        lemma_chapters_of_push(items.drop_first(), it);
        assert(chapters_of(items.push(it)) =~= chapters_of(items) + tail);
    }
}

/// The destination of a chapter file, relative to the generated crate:
/// the chapter's relative path under the crate's source directory.
pub open spec fn source_path_of(p: Seq<char>) -> Seq<char> {
    "src/"@ + p
}

/// One planned file of the generated crate: where it goes and what it
/// holds.
#[derive(Debug, Clone, PartialEq)]
pub struct FilePlan {
    pub path: String,
    pub content: String,
}

/// Whether the plans materialize exactly the chapters of the items:
/// one file per chapter, in traversal order, at the chapter's relative
/// path under the crate's source directory, holding exactly the
/// chapter's text.
pub open spec fn plans_match(plans: Seq<FilePlan>, items: Seq<BookItem>) -> bool {
    &&& plans.len() == chapters_of(items).len()
    &&& forall|i: int|
        0 <= i < plans.len() ==> (#[trigger] plans[i]).path@ == source_path_of(
            chapters_of(items)[i].path@,
        ) && plans[i].content@ == chapters_of(items)[i].content@
}

/// Plans the chapter files: one file per chapter, in traversal order,
/// at the chapter's relative path under the crate's source directory,
/// holding exactly the chapter's text.
pub fn copy_across_book_chapters(book: &Book) -> (r: Vec<FilePlan>)
    ensures
        plans_match(r@, book.sections@),
{
    let n = book.sections.len();
    let mut r: Vec<FilePlan> = Vec::new();
    let mut i: usize = 0;
    while i < n
        invariant
            i <= n,
            n == book.sections@.len(),
            r@.len() == chapters_of(book.sections@.take(i as int)).len(),
            forall|j: int|
                0 <= j < r@.len() ==> (#[trigger] r@[j]).path@ == source_path_of(
                    chapters_of(book.sections@.take(i as int))[j].path@,
                ) && r@[j].content@ == chapters_of(book.sections@.take(i as int))[j].content@,
        decreases n - i,
    {
        proof {
            assert(book.sections@.take(i + 1) =~= book.sections@.take(i as int).push(
                book.sections@[i as int],
            ));
            lemma_chapters_of_push(book.sections@.take(i as int), book.sections@[i as int]);
        }
        match &book.sections[i] {
            BookItem::Chapter(ch) => {
                let mut path: String = "src/".to_owned();
                path.append(ch.path.as_str());
                r.push(FilePlan { path, content: ch.content.clone() });
            },
            BookItem::Separator => {},
        }
        i += 1;
    }
    proof {
        assert(book.sections@.take(n as int) =~= book.sections@);
    }
    r
}

} // verus!
