//! What is shown over a symbol, and what a rename would rename.
use std::ops::Range;
use vstd::prelude::*;

use crate::lsp_command::command::{GetHover, PrepareRename};
use crate::lsp_command::protocol::{PlacedRange, PointAnchor};

verus! {

/// How a text is written.
#[derive(Clone, Copy, Debug, PartialEq, Eq, Structural)]
pub enum MarkupKind {
    PlainText,
    Markdown,
}

/// A text, as a server writes it.
#[derive(Debug)]
pub struct LspMarkupContent {
    pub kind: MarkupKind,
    pub value: String,
}

/// A text in Markdown, or code in some language.
#[derive(Debug)]
pub enum MarkedString {
    String(String),
    LanguageString { language: String, value: String },
}

/// What a server says of a symbol.
#[derive(Debug)]
pub enum HoverContents {
    Scalar(MarkedString),
    Array(Vec<MarkedString>),
    Markup(LspMarkupContent),
}

/// What a server says of a symbol, with where the symbol is.
#[derive(Debug)]
pub struct LspHover {
    pub contents: HoverContents,
    pub range: Option<PlacedRange>,
}

/// How a block is to be shown.
#[derive(Debug)]
pub enum HoverBlockKind {
    PlainText,
    Markdown,
    Code { language: String },
}

/// A block of what is shown over a symbol.
#[derive(Debug)]
pub struct HoverBlock {
    pub text: String,
    pub kind: HoverBlockKind,
}

/// What is shown over a symbol, in the language of the buffer that it is in.
#[derive(Debug)]
pub struct Hover<L> {
    pub contents: Vec<HoverBlock>,
    pub range: Option<Range<PointAnchor>>,
    pub language: Option<L>,
}

/// The block that a marked string makes.
pub open spec fn marked_block(marked_string: MarkedString) -> HoverBlock {
    match marked_string {
        MarkedString::String(content) => HoverBlock {
            text: content,
            kind: HoverBlockKind::Markdown,
        },
        MarkedString::LanguageString { language, value } => HoverBlock {
            text: value,
            kind: HoverBlockKind::Code { language },
        },
    }
}

/// The blocks that marked strings make, without those that are empty.
pub open spec fn marked_blocks(marked_strings: Seq<MarkedString>) -> Seq<HoverBlock>
    decreases marked_strings.len(),
{
    if marked_strings.len() == 0 {
        Seq::empty()
    } else {
        let rest = marked_blocks(marked_strings.drop_last());
        let block = marked_block(marked_strings.last());
        if block.text@.len() == 0 {
            rest
        } else {
            rest.push(block)
        }
    }
}

/// The blocks that are shown. A text that is marked up as a whole is shown even if it is empty.
pub open spec fn hover_blocks(contents: HoverContents) -> Seq<HoverBlock> {
    match contents {
        HoverContents::Scalar(marked_string) => marked_blocks(seq![marked_string]),
        HoverContents::Array(marked_strings) => marked_blocks(marked_strings@),
        HoverContents::Markup(markup) => seq![
            HoverBlock {
                text: markup.value,
                kind: match markup.kind {
                    MarkupKind::PlainText => HoverBlockKind::PlainText,
                    MarkupKind::Markdown => HoverBlockKind::Markdown,
                },
            },
        ],
    }
}

/// The block that a marked string makes, unless it is empty.
pub fn hover_blocks_from_marked_string(marked_string: MarkedString) -> (r: Option<HoverBlock>)
    ensures
        r == if marked_block(marked_string).text@.len() == 0 {
            None
        } else {
            Some(marked_block(marked_string))
        },
{
    let block = match marked_string {
        MarkedString::String(content) => HoverBlock {
            text: content,
            kind: HoverBlockKind::Markdown,
        },
        MarkedString::LanguageString { language, value } => HoverBlock {
            text: value,
            kind: HoverBlockKind::Code { language },
        },
    };
    if block.text.as_str().unicode_len() == 0 {
        None
    } else {
        Some(block)
    }
}

impl GetHover {
    /// What is shown over a symbol, if the server says anything of it.
    pub fn response_from_lsp<L>(self, message: Option<LspHover>, language: Option<L>) -> (r: Option<
        Hover<L>,
    >)
        ensures
            match message {
                Some(hover) => {
                    &&& r is Some
                    &&& r->0.contents@ == hover_blocks(hover.contents)
                    &&& r->0.range == match hover.range {
                        Some(range) => Some(range.inner()),
                        None => None,
                    }
                    &&& r->0.language == language
                },
                None => r is None,
            },
    {
        let hover = match message {
            Some(hover) => hover,
            None => {
                return None;
            },
        };
        let range = match hover.range {
            Some(range) => Some(range.anchors_inside()),
            None => None,
        };
        let ghost shown = hover_blocks(hover.contents);
        let mut contents: Vec<HoverBlock> = Vec::new();
        match hover.contents {
            HoverContents::Scalar(marked_string) => {
                let ghost all = seq![marked_string];
                match hover_blocks_from_marked_string(marked_string) {
                    Some(block) => contents.push(block),
                    None => {},
                }
                proof {
                    assert(all.drop_last() =~= Seq::empty());
                    assert(marked_blocks(all.drop_last()) =~= Seq::empty());
                    assert(contents@ =~= shown);
                }
            },
            HoverContents::Array(marked_strings) => {
                let ghost all = marked_strings@;
                for marked_string in it: marked_strings
                    invariant
                        it.seq() == all,
                        contents@ == marked_blocks(all.take(it.index())),
                {
                    proof {
                        let next = all.take(it.index() + 1);
                        assert(next.drop_last() =~= all.take(it.index()));
                        assert(next.last() == marked_string);
                    }
                    match hover_blocks_from_marked_string(marked_string) {
                        Some(block) => contents.push(block),
                        None => {},
                    }
                }
                assert(all.take(all.len() as int) =~= all);
            },
            HoverContents::Markup(markup) => {
                let kind = match markup.kind {
                    MarkupKind::PlainText => HoverBlockKind::PlainText,
                    MarkupKind::Markdown => HoverBlockKind::Markdown,
                };
                contents.push(HoverBlock { text: markup.value, kind });
                assert(contents@ =~= shown);
            },
        }
        Some(Hover { contents, range, language })
    }
}

/// No empty block is shown among marked strings, and nothing else is left out.
pub proof fn law_only_empty_blocks_are_left_out(marked_strings: Seq<MarkedString>, i: int)
    requires
        0 <= i < marked_strings.len(),
    ensures
        marked_block(marked_strings[i]).text@.len() > 0 ==> marked_blocks(marked_strings).contains(
            marked_block(marked_strings[i]),
        ),
        forall|j: int|
            0 <= j < marked_blocks(marked_strings).len() ==> (#[trigger] marked_blocks(
                marked_strings,
            )[j]).text@.len() > 0,
    decreases marked_strings.len(),
{
    let rest = marked_strings.drop_last();
    let last = marked_strings.len() - 1;
    let blocks = marked_blocks(marked_strings);
    let before = marked_blocks(rest);
    if last > 0 {
        law_only_empty_blocks_are_left_out(rest, if i < last { i } else { 0 });
    }
    if marked_block(marked_strings[i]).text@.len() > 0 {
        if i < last {
            let at = choose|at: int|
                0 <= at < before.len() && before[at] == marked_block(marked_strings[i]);
            assert(blocks[at] == marked_block(marked_strings[i]));
        } else {
            assert(blocks.last() == marked_block(marked_strings[i]));
        }
    }
}

/// What a server answers when asked what would be renamed.
#[derive(Debug)]
pub enum PrepareRenameResponse {
    Range(PlacedRange),
    RangeWithPlaceholder { range: PlacedRange, placeholder: String },
    DefaultBehavior { default_behavior: bool },
}

/// The range that a server names, if it names one.
pub open spec fn range_to_rename(message: Option<PrepareRenameResponse>) -> Option<PlacedRange> {
    match message {
        Some(PrepareRenameResponse::Range(range)) => Some(range),
        Some(PrepareRenameResponse::RangeWithPlaceholder { range, .. }) => Some(range),
        _ => None,
    }
}

impl PrepareRename {
    /// What would be renamed: what the server names, as long as it is in the text.
    pub fn response_from_lsp(self, message: Option<PrepareRenameResponse>) -> (r: Option<
        Range<PointAnchor>,
    >)
        ensures
            r == match range_to_rename(message) {
                Some(range) if range.is_in_text() => Some(range.inner()),
                _ => None,
            },
    {
        let range = match message {
            Some(PrepareRenameResponse::Range(range)) => range,
            Some(PrepareRenameResponse::RangeWithPlaceholder { range, .. }) => range,
            _ => {
                return None;
            },
        };
        if range.fits() {
            Some(range.anchors_inside())
        } else {
            None
        }
    }
}

}
