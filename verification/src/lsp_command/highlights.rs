//! What in a document belongs with what is at the cursor.
use std::ops::Range;
use vstd::prelude::*;

use crate::lsp_command::command::GetDocumentHighlights;
use crate::lsp_command::protocol::{PlacedRange, PointAnchor, PointUtf16};

verus! {

/// How something is used where it is highlighted. Servers may use numbers other than these.
pub const HIGHLIGHT_TEXT: i32 = 1;

pub const HIGHLIGHT_READ: i32 = 2;

pub const HIGHLIGHT_WRITE: i32 = 3;

/// A part of a document that a server names, with its ends as the server gives them and as they
/// are in the text.
#[derive(Clone, Copy, Debug, PartialEq, Eq, Structural)]
pub struct LspDocumentHighlight {
    pub place: PlacedRange,
    pub kind: Option<i32>,
}

/// A part of a document that is to be highlighted.
#[derive(Debug)]
pub struct DocumentHighlight {
    pub range: Range<PointAnchor>,
    pub kind: i32,
}

/// Whether one place is before another.
pub open spec fn precedes(a: PointUtf16, b: PointUtf16) -> bool {
    a.row < b.row || a.row == b.row && a.column < b.column
}

/// Whether one highlight may come before another: the one that starts first does, and of two
/// that start together the one that ends last.
pub open spec fn goes_first(a: LspDocumentHighlight, b: LspDocumentHighlight) -> bool {
    ||| precedes(a.place.start, b.place.start)
    ||| a.place.start == b.place.start && !precedes(a.place.end, b.place.end)
}

/// Whether highlights are in order.
pub open spec fn ordered(highlights: Seq<LspDocumentHighlight>) -> bool {
    forall|i: int, j: int|
        0 <= i < j < highlights.len() ==> goes_first(
            #[trigger] highlights[i],
            #[trigger] highlights[j],
        )
}

/// What is highlighted. Where the server does not say how something is used, it is read.
pub open spec fn highlight(highlight: LspDocumentHighlight) -> DocumentHighlight {
    DocumentHighlight {
        range: highlight.place.inner(),
        kind: match highlight.kind {
            Some(kind) => kind,
            None => HIGHLIGHT_READ,
        },
    }
}

/// Whether these are the parts to highlight, given what a server names.
pub open spec fn is_shown_for(
    shown: Seq<DocumentHighlight>,
    named: Seq<LspDocumentHighlight>,
) -> bool {
    &&& shown.len() == named.len()
    &&& forall|i: int| 0 <= i < named.len() ==> #[trigger] shown[i] == highlight(named[i])
}

fn is_before(a: PointUtf16, b: PointUtf16) -> (r: bool)
    ensures
        r == precedes(a, b),
{
    a.row < b.row || a.row == b.row && a.column < b.column
}

fn may_go_first(a: &LspDocumentHighlight, b: &LspDocumentHighlight) -> (r: bool)
    ensures
        r == goes_first(*a, *b),
{
    is_before(a.place.start, b.place.start) || a.place.start == b.place.start && !is_before(
        a.place.end,
        b.place.end,
    )
}

/// Puts highlights in order.
fn sort(highlights: &mut Vec<LspDocumentHighlight>)
    ensures
        ordered(final(highlights)@),
        final(highlights)@.to_multiset() == old(highlights)@.to_multiset(),
{
    let mut i: usize = 0;
    while i < highlights.len()
        invariant
            i <= highlights.len(),
            ordered(highlights@.take(i as int)),
            highlights@.to_multiset() == old(highlights)@.to_multiset(),
        decreases highlights.len() - i,
    {
        // The first `i` are in order; the next is moved down among them.
        let mut j: usize = i;
        let moved = highlights[i];
        let ghost before = highlights@;
        while j > 0 && !may_go_first(&highlights[j - 1], &moved)
            invariant
                j <= i < highlights.len(),
                highlights@.len() == before.len(),
                before[i as int] == moved,
                ordered(before.take(i as int)),
                before.to_multiset() == old(highlights)@.to_multiset(),
                highlights@ == before.remove(i as int).insert(j as int, moved),
                forall|k: int|
                    j <= k < i ==> goes_first(moved, #[trigger] before[k]),
            decreases j,
        {
            let other = highlights[j - 1];
            assert(other == before[j - 1]);
            highlights.set(j - 1, moved);
            highlights.set(j, other);
            j = j - 1;
            assert(highlights@ =~= before.remove(i as int).insert(j as int, moved));
        }
        proof {
            before.to_multiset_ensures();
            let rest = before.remove(i as int);
            assert(rest.to_multiset().insert(moved) =~= before.to_multiset());
            vstd::seq_lib::to_multiset_insert(rest, j as int, moved);
        }
        i = i + 1;
    }
    assert(highlights@.take(highlights.len() as int) =~= highlights@);
}

impl GetDocumentHighlights {
    /// The parts of the document to highlight: those that the server names, in order.
    pub fn response_from_lsp(self, message: Option<Vec<LspDocumentHighlight>>) -> (r: Vec<
        DocumentHighlight,
    >)
        ensures
            exists|named: Seq<LspDocumentHighlight>|
                {
                    &&& #[trigger] is_shown_for(r@, named)
                    &&& ordered(named)
                    &&& match message {
                        Some(highlights) => named.to_multiset() == highlights@.to_multiset(),
                        None => named.len() == 0,
                    }
                },
    {
        let mut lsp_highlights = match message {
            Some(highlights) => highlights,
            None => Vec::new(),
        };
        sort(&mut lsp_highlights);
        let ghost named = lsp_highlights@;
        let mut highlights: Vec<DocumentHighlight> = Vec::new();
        for lsp_highlight in it: lsp_highlights
            invariant
                it.seq() == named,
                is_shown_for(highlights@, named.take(it.index())),
        {
            let kind = match lsp_highlight.kind {
                Some(kind) => kind,
                None => HIGHLIGHT_READ,
            };
            highlights.push(DocumentHighlight { range: lsp_highlight.place.anchors_inside(), kind });
        }
        proof {
            assert(named.take(named.len() as int) =~= named);
            if message is None {
                Seq::<LspDocumentHighlight>::empty().to_multiset_ensures();
                named.to_multiset_ensures();
            }
        }
        highlights
    }
}

}
