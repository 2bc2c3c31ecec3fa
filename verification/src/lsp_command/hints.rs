//! Hints within the text: the types of variables and the names of parameters.
use vstd::prelude::*;

use crate::editor::search::Bias;
use crate::lsp_command::command::InlayHints;
use crate::lsp_command::hover::{HoverBlockKind, LspMarkupContent, MarkupKind};
use crate::lsp_command::locations::LspLocation;
use crate::lsp_command::protocol::{
    language_server_for_buffer, point_to_lsp, LanguageServerId, LspError, PointAnchor,
    PointUtf16, Position, ServerCapabilities,
};
use crate::text::str_eq;

verus! {

/// What a hint is about, as servers number it. Servers may use numbers other than these.
pub const HINT_TYPE: i32 = 1;

pub const HINT_PARAMETER: i32 = 2;

/// What is shown over a hint, or over a part of one, as a server gives it.
#[derive(Debug)]
pub enum LspTooltip {
    String(String),
    MarkupContent(LspMarkupContent),
}

/// A part of a hint, as a server gives it.
#[derive(Debug)]
pub struct LspInlayHintLabelPart {
    pub value: String,
    pub tooltip: Option<LspTooltip>,
    pub location: Option<LspLocation>,
    /// What is to happen when the part is chosen, written out as it came.
    pub command: Option<String>,
}

/// What a hint shows, as a server gives it.
#[derive(Debug)]
pub enum LspInlayHintLabel {
    String(String),
    LabelParts(Vec<LspInlayHintLabelPart>),
}

/// A hint, as a server gives it.
#[derive(Debug)]
pub struct LspInlayHint {
    pub position: Position,
    pub label: LspInlayHintLabel,
    pub kind: Option<i32>,
    /// What the hint would change, written out as it came.
    pub text_edits: Option<String>,
    pub tooltip: Option<LspTooltip>,
    pub padding_left: Option<bool>,
    pub padding_right: Option<bool>,
    /// What the server needs to say more, written out as it came.
    pub data: Option<String>,
}

/// What a hint is about.
#[derive(Clone, Copy, Debug, PartialEq, Eq, Structural)]
pub enum InlayHintKind {
    Type,
    Parameter,
}

/// A text and how it is to be shown.
#[derive(Debug)]
pub struct MarkupContent {
    pub kind: HoverBlockKind,
    pub value: String,
}

/// What is shown over a hint, or over a part of one.
#[derive(Debug)]
pub enum Tooltip {
    String(String),
    MarkupContent(MarkupContent),
}

/// A part of a hint.
#[derive(Debug)]
pub struct InlayHintLabelPart {
    pub value: String,
    pub tooltip: Option<Tooltip>,
    /// What the part leads to, and the server that knows of it.
    pub location: Option<(LanguageServerId, LspLocation)>,
}

/// What a hint shows.
#[derive(Debug)]
pub enum InlayHintLabel {
    String(String),
    LabelParts(Vec<InlayHintLabelPart>),
}

/// Whether there is more to be said of a hint.
#[derive(Debug)]
pub enum ResolveState {
    Resolved,
    CanResolve(LanguageServerId, Option<String>),
    Resolving,
}

/// A hint.
#[derive(Debug)]
pub struct InlayHint {
    pub position: PointAnchor,
    pub label: InlayHintLabel,
    pub kind: Option<InlayHintKind>,
    pub padding_left: bool,
    pub padding_right: bool,
    pub tooltip: Option<Tooltip>,
    pub resolve_state: ResolveState,
}

/// What a hint is about. Other numbers than the two tell nothing.
pub open spec fn hint_kind(kind: Option<i32>) -> Option<InlayHintKind> {
    match kind {
        Some(kind) if kind == HINT_TYPE => Some(InlayHintKind::Type),
        Some(kind) if kind == HINT_PARAMETER => Some(InlayHintKind::Parameter),
        _ => None,
    }
}

/// The number of what a hint is about.
pub open spec fn hint_number(kind: Option<InlayHintKind>) -> Option<i32> {
    match kind {
        Some(InlayHintKind::Type) => Some(HINT_TYPE),
        Some(InlayHintKind::Parameter) => Some(HINT_PARAMETER),
        None => None,
    }
}

pub open spec fn tooltip_of(tooltip: LspTooltip) -> Tooltip {
    match tooltip {
        LspTooltip::String(text) => Tooltip::String(text),
        LspTooltip::MarkupContent(markup) => Tooltip::MarkupContent(
            MarkupContent {
                kind: match markup.kind {
                    MarkupKind::PlainText => HoverBlockKind::PlainText,
                    MarkupKind::Markdown => HoverBlockKind::Markdown,
                },
                value: markup.value,
            },
        ),
    }
}

/// The protocol has no tooltips that are code.
pub open spec fn lsp_tooltip_of(tooltip: Tooltip) -> Option<LspTooltip> {
    match tooltip {
        Tooltip::String(text) => Some(LspTooltip::String(text)),
        Tooltip::MarkupContent(markup) => match markup.kind {
            HoverBlockKind::PlainText => Some(
                LspTooltip::MarkupContent(
                    LspMarkupContent { kind: MarkupKind::PlainText, value: markup.value },
                ),
            ),
            HoverBlockKind::Markdown => Some(
                LspTooltip::MarkupContent(
                    LspMarkupContent { kind: MarkupKind::Markdown, value: markup.value },
                ),
            ),
            HoverBlockKind::Code { .. } => None,
        },
    }
}

pub open spec fn optional_tooltip_of(tooltip: Option<LspTooltip>) -> Option<Tooltip> {
    match tooltip {
        Some(tooltip) => Some(tooltip_of(tooltip)),
        None => None,
    }
}

pub open spec fn optional_lsp_tooltip_of(tooltip: Option<Tooltip>) -> Option<LspTooltip> {
    match tooltip {
        Some(tooltip) => lsp_tooltip_of(tooltip),
        None => None,
    }
}

/// A part of a hint, from what a server gives. What would happen when it is chosen is dropped.
pub open spec fn part_of(
    part: LspInlayHintLabelPart,
    server_id: LanguageServerId,
) -> InlayHintLabelPart {
    InlayHintLabelPart {
        value: part.value,
        tooltip: optional_tooltip_of(part.tooltip),
        location: match part.location {
            Some(location) => Some((server_id, location)),
            None => None,
        },
    }
}

pub open spec fn lsp_part_of(part: InlayHintLabelPart) -> LspInlayHintLabelPart {
    LspInlayHintLabelPart {
        value: part.value,
        tooltip: optional_lsp_tooltip_of(part.tooltip),
        location: match part.location {
            Some((_, location)) => Some(location),
            None => None,
        },
        command: None,
    }
}

/// Whether a label is what is made of one that a server gives.
pub open spec fn is_label_of(
    label: InlayHintLabel,
    lsp_label: LspInlayHintLabel,
    server_id: LanguageServerId,
) -> bool {
    match (label, lsp_label) {
        (InlayHintLabel::String(text), LspInlayHintLabel::String(lsp_text)) => text == lsp_text,
        (InlayHintLabel::LabelParts(parts), LspInlayHintLabel::LabelParts(lsp_parts)) => {
            &&& parts@.len() == lsp_parts@.len()
            &&& forall|i: int|
                0 <= i < parts@.len() ==> #[trigger] parts@[i] == part_of(lsp_parts@[i], server_id)
        },
        _ => false,
    }
}

/// Whether a label is what is sent of one.
pub open spec fn is_lsp_label_of(lsp_label: LspInlayHintLabel, label: InlayHintLabel) -> bool {
    match (lsp_label, label) {
        (LspInlayHintLabel::String(lsp_text), InlayHintLabel::String(text)) => lsp_text == text,
        (LspInlayHintLabel::LabelParts(lsp_parts), InlayHintLabel::LabelParts(parts)) => {
            &&& lsp_parts@.len() == parts@.len()
            &&& forall|i: int|
                0 <= i < parts@.len() ==> #[trigger] lsp_parts@[i] == lsp_part_of(parts@[i])
        },
        _ => false,
    }
}

/// Whether a hint is what is made of one that a server gives. The hint stays before what is typed
/// at its place where it names a parameter, and else after it.
pub open spec fn is_hint_of(
    hint: InlayHint,
    lsp_hint: LspInlayHint,
    clipped_position: PointUtf16,
    server_id: LanguageServerId,
    resolve_state: ResolveState,
    force_no_type_left_padding: bool,
) -> bool {
    let kind = hint_kind(lsp_hint.kind);
    &&& hint.kind == kind
    &&& hint.position == (PointAnchor {
        position: clipped_position,
        bias: if kind == Some(InlayHintKind::Parameter) {
            Bias::Left
        } else {
            Bias::Right
        },
    })
    &&& is_label_of(hint.label, lsp_hint.label, server_id)
    &&& hint.padding_left == (lsp_hint.padding_left == Some(true) && !(force_no_type_left_padding
        && kind == Some(InlayHintKind::Type)))
    &&& hint.padding_right == (lsp_hint.padding_right == Some(true))
    &&& hint.tooltip == optional_tooltip_of(lsp_hint.tooltip)
    &&& hint.resolve_state == resolve_state
}

/// Whether a hint is what is sent of one, given where it is by now.
pub open spec fn is_lsp_hint_of(
    lsp_hint: LspInlayHint,
    hint: InlayHint,
    position: PointUtf16,
) -> bool {
    &&& lsp_hint.position == crate::lsp_command::protocol::position_of(position)
    &&& lsp_hint.kind == hint_number(hint.kind)
    &&& lsp_hint.text_edits is None
    &&& lsp_hint.tooltip == optional_lsp_tooltip_of(hint.tooltip)
    &&& is_lsp_label_of(lsp_hint.label, hint.label)
    &&& lsp_hint.padding_left == Some(hint.padding_left)
    &&& lsp_hint.padding_right == Some(hint.padding_right)
    &&& lsp_hint.data == match hint.resolve_state {
        ResolveState::CanResolve(_, data) => data,
        ResolveState::Resolving | ResolveState::Resolved => None,
    }
}

fn tooltip_from_lsp(tooltip: Option<LspTooltip>) -> (r: Option<Tooltip>)
    ensures
        r == optional_tooltip_of(tooltip),
{
    match tooltip {
        Some(LspTooltip::String(text)) => Some(Tooltip::String(text)),
        Some(LspTooltip::MarkupContent(markup)) => {
            let kind = match markup.kind {
                MarkupKind::PlainText => HoverBlockKind::PlainText,
                MarkupKind::Markdown => HoverBlockKind::Markdown,
            };
            Some(Tooltip::MarkupContent(MarkupContent { kind, value: markup.value }))
        },
        None => None,
    }
}

fn tooltip_to_lsp(tooltip: Option<Tooltip>) -> (r: Option<LspTooltip>)
    ensures
        r == optional_lsp_tooltip_of(tooltip),
{
    match tooltip {
        Some(Tooltip::String(text)) => Some(LspTooltip::String(text)),
        Some(Tooltip::MarkupContent(markup)) => {
            let kind = match markup.kind {
                HoverBlockKind::PlainText => MarkupKind::PlainText,
                HoverBlockKind::Markdown => MarkupKind::Markdown,
                HoverBlockKind::Code { .. } => {
                    return None;
                },
            };
            Some(LspTooltip::MarkupContent(LspMarkupContent { kind, value: markup.value }))
        },
        None => None,
    }
}

fn copy_data(data: &Option<String>) -> (r: Option<String>)
    ensures
        r == *data,
{
    match data {
        Some(text) => Some(text.clone()),
        None => None,
    }
}

/// The server whose type hints come with a space before them that does not belong there.
pub const TYPESCRIPT_LANGUAGE_SERVER: &'static str = "typescript-language-server";

/// The server that is at work on a buffer.
#[derive(Debug)]
pub struct HintServer {
    pub adapter_name: String,
    pub server_id: LanguageServerId,
    pub capabilities: ServerCapabilities,
}

impl HintServer {
    /// Whether there is more to be said of a hint of the server.
    pub open spec fn resolve_state(self, lsp_hint: LspInlayHint) -> ResolveState {
        if InlayHints::resolves(self.capabilities) {
            ResolveState::CanResolve(self.server_id, lsp_hint.data)
        } else {
            ResolveState::Resolved
        }
    }
}

/// A hint that a server gave, with its place moved left to where the text has one.
#[derive(Debug)]
pub struct PlacedHint {
    pub lsp_hint: LspInlayHint,
    pub clipped_position: PointUtf16,
}

/// Whether hints are what is made of those that a server gives.
pub open spec fn are_hints_of(
    hints: Seq<InlayHint>,
    message: Seq<PlacedHint>,
    server_id: LanguageServerId,
    server: HintServer,
) -> bool {
    &&& hints.len() == message.len()
    &&& forall|i: int|
        0 <= i < hints.len() ==> is_hint_of(
            #[trigger] hints[i],
            message[i].lsp_hint,
            message[i].clipped_position,
            server_id,
            server.resolve_state(message[i].lsp_hint),
            server.adapter_name@ == TYPESCRIPT_LANGUAGE_SERVER@,
        )
}

impl InlayHints {
    /// A hint, from what a server gives.
    pub fn lsp_to_project_hint(
        lsp_hint: LspInlayHint,
        clipped_position: PointUtf16,
        server_id: LanguageServerId,
        resolve_state: ResolveState,
        force_no_type_left_padding: bool,
    ) -> (r: InlayHint)
        ensures
            is_hint_of(
                r,
                lsp_hint,
                clipped_position,
                server_id,
                resolve_state,
                force_no_type_left_padding,
            ),
    {
        let kind = match lsp_hint.kind {
            Some(kind) => if kind == HINT_TYPE {
                Some(InlayHintKind::Type)
            } else if kind == HINT_PARAMETER {
                Some(InlayHintKind::Parameter)
            } else {
                None
            },
            None => None,
        };
        let bias = match kind {
            Some(InlayHintKind::Parameter) => Bias::Left,
            _ => Bias::Right,
        };
        let position = PointAnchor { position: clipped_position, bias };
        let label = Self::lsp_inlay_label_to_project(lsp_hint.label, server_id);
        let is_type = match kind {
            Some(InlayHintKind::Type) => true,
            _ => false,
        };
        let padding_left = if force_no_type_left_padding && is_type {
            false
        } else {
            match lsp_hint.padding_left {
                Some(padding) => padding,
                None => false,
            }
        };
        let padding_right = match lsp_hint.padding_right {
            Some(padding) => padding,
            None => false,
        };
        InlayHint {
            position,
            padding_left,
            padding_right,
            label,
            kind,
            tooltip: tooltip_from_lsp(lsp_hint.tooltip),
            resolve_state,
        }
    }

    fn lsp_inlay_label_to_project(
        lsp_label: LspInlayHintLabel,
        server_id: LanguageServerId,
    ) -> (r: InlayHintLabel)
        ensures
            is_label_of(r, lsp_label, server_id),
    {
        match lsp_label {
            LspInlayHintLabel::String(text) => InlayHintLabel::String(text),
            LspInlayHintLabel::LabelParts(lsp_parts) => {
                let ghost all = lsp_parts@;
                let mut parts: Vec<InlayHintLabelPart> = Vec::new();
                for lsp_part in it: lsp_parts
                    invariant
                        it.seq() == all,
                        parts@.len() == it.index(),
                        forall|i: int|
                            0 <= i < parts@.len() ==> #[trigger] parts@[i] == part_of(
                                all[i],
                                server_id,
                            ),
                {
                    let location = match lsp_part.location {
                        Some(location) => Some((server_id, location)),
                        None => None,
                    };
                    parts.push(
                        InlayHintLabelPart {
                            value: lsp_part.value,
                            tooltip: tooltip_from_lsp(lsp_part.tooltip),
                            location,
                        },
                    );
                }
                InlayHintLabel::LabelParts(parts)
            },
        }
    }

    /// What is sent of a hint, given where it is by now.
    pub fn project_to_lsp_hint(hint: InlayHint, position: PointUtf16) -> (r: LspInlayHint)
        ensures
            is_lsp_hint_of(r, hint, position),
    {
        let kind = match hint.kind {
            Some(InlayHintKind::Type) => Some(HINT_TYPE),
            Some(InlayHintKind::Parameter) => Some(HINT_PARAMETER),
            None => None,
        };
        let label = match hint.label {
            InlayHintLabel::String(text) => LspInlayHintLabel::String(text),
            InlayHintLabel::LabelParts(parts) => {
                let ghost all = parts@;
                let mut lsp_parts: Vec<LspInlayHintLabelPart> = Vec::new();
                for part in it: parts
                    invariant
                        it.seq() == all,
                        lsp_parts@.len() == it.index(),
                        forall|i: int|
                            0 <= i < lsp_parts@.len() ==> #[trigger] lsp_parts@[i] == lsp_part_of(
                                all[i],
                            ),
                {
                    let location = match part.location {
                        Some((_, location)) => Some(location),
                        None => None,
                    };
                    lsp_parts.push(
                        LspInlayHintLabelPart {
                            value: part.value,
                            tooltip: tooltip_to_lsp(part.tooltip),
                            location,
                            command: None,
                        },
                    );
                }
                LspInlayHintLabel::LabelParts(lsp_parts)
            },
        };
        let data = match hint.resolve_state {
            ResolveState::CanResolve(_, data) => data,
            ResolveState::Resolving | ResolveState::Resolved => None,
        };
        LspInlayHint {
            position: point_to_lsp(position),
            kind,
            text_edits: None,
            tooltip: tooltip_to_lsp(hint.tooltip),
            label,
            padding_left: Some(hint.padding_left),
            padding_right: Some(hint.padding_right),
            data,
        }
    }

    /// The hints that a server gives, in order.
    pub fn response_from_lsp<E>(
        self,
        message: Option<Vec<PlacedHint>>,
        server: Result<Option<HintServer>, E>,
        server_id: LanguageServerId,
    ) -> (r: Result<Vec<InlayHint>, LspError<E>>)
        ensures
            match server {
                Ok(Some(server)) => r is Ok && are_hints_of(
                    r->Ok_0@,
                    match message {
                        Some(message) => message@,
                        None => Seq::empty(),
                    },
                    server_id,
                    server,
                ),
                Ok(None) => r == Err::<Vec<InlayHint>, LspError<E>>(
                    LspError::NoLanguageServerForBuffer,
                ),
                Err(error) => r == Err::<Vec<InlayHint>, LspError<E>>(LspError::Failed(error)),
            },
    {
        let server = match language_server_for_buffer(server) {
            Ok(server) => server,
            Err(error) => {
                return Err(error);
            },
        };
        // Some servers pad the types that they give, so that `foo: bool` becomes `foo : bool`,
        // and others do not. The padding is dropped for the one that is known to do so, rather
        // than from every text, since white space in a hint may be meant.
        let force_no_type_left_padding = str_eq(
            server.adapter_name.as_str(),
            TYPESCRIPT_LANGUAGE_SERVER,
        );
        let mut hints: Vec<InlayHint> = Vec::new();
        let message = match message {
            Some(message) => message,
            None => {
                return Ok(hints);
            },
        };
        let ghost all = message@;
        for placed in it: message
            invariant
                it.seq() == all,
                force_no_type_left_padding == (server.adapter_name@
                    == TYPESCRIPT_LANGUAGE_SERVER@),
                are_hints_of(hints@, all.take(it.index()), server_id, server),
        {
            let resolve_state = if InlayHints::can_resolve_inlays(&server.capabilities) {
                ResolveState::CanResolve(server.server_id, copy_data(&placed.lsp_hint.data))
            } else {
                ResolveState::Resolved
            };
            hints.push(
                Self::lsp_to_project_hint(
                    placed.lsp_hint,
                    placed.clipped_position,
                    server_id,
                    resolve_state,
                    force_no_type_left_padding,
                ),
            );
        }
        assert(all.take(all.len() as int) =~= all);
        Ok(hints)
    }
}

/// Whether a tooltip is one that the protocol has.
pub open spec fn can_be_sent(tooltip: Option<Tooltip>) -> bool {
    match tooltip {
        Some(Tooltip::MarkupContent(markup)) => !(markup.kind is Code),
        _ => true,
    }
}

/// Whether a part of a hint is one that the protocol has, with a place that the server knows of.
pub open spec fn part_can_be_sent(part: InlayHintLabelPart, server_id: LanguageServerId) -> bool {
    &&& can_be_sent(part.tooltip)
    &&& part.location matches Some((owner, _)) ==> owner == server_id
}

/// Whether two labels show the same.
pub open spec fn same_label(a: InlayHintLabel, b: InlayHintLabel) -> bool {
    match (a, b) {
        (InlayHintLabel::String(a), InlayHintLabel::String(b)) => a == b,
        (InlayHintLabel::LabelParts(a), InlayHintLabel::LabelParts(b)) => a@ == b@,
        _ => false,
    }
}

/// A hint that is sent to a server and comes back says what it said, if the protocol has all of
/// it.
pub proof fn law_hint_comes_back_from_the_server(
    hint: InlayHint,
    sent: LspInlayHint,
    position: PointUtf16,
    back: InlayHint,
    server_id: LanguageServerId,
    resolve_state: ResolveState,
)
    requires
        is_lsp_hint_of(sent, hint, position),
        is_hint_of(back, sent, position, server_id, resolve_state, false),
        can_be_sent(hint.tooltip),
        hint.label matches InlayHintLabel::LabelParts(parts) ==> forall|i: int|
            0 <= i < parts@.len() ==> part_can_be_sent(#[trigger] parts@[i], server_id),
    ensures
        same_label(back.label, hint.label),
        back.kind == hint.kind,
        back.padding_left == hint.padding_left,
        back.padding_right == hint.padding_right,
        back.tooltip == hint.tooltip,
        back.position.position == position,
{
    if let InlayHintLabel::LabelParts(parts) = hint.label {
        if let InlayHintLabel::LabelParts(back_parts) = back.label {
            assert forall|i: int| 0 <= i < parts@.len() implies #[trigger] back_parts@[i]
                == parts@[i] by {
                assert(part_can_be_sent(parts@[i], server_id));
            }
            assert(back_parts@ =~= parts@);
        }
    }
}

/// Whether the parts of two labels, as a server gives them, differ only in what happens when they
/// are chosen.
pub open spec fn same_lsp_label(a: LspInlayHintLabel, b: LspInlayHintLabel) -> bool {
    match (a, b) {
        (LspInlayHintLabel::String(a), LspInlayHintLabel::String(b)) => a == b,
        (LspInlayHintLabel::LabelParts(a), LspInlayHintLabel::LabelParts(b)) => {
            &&& a@.len() == b@.len()
            &&& forall|i: int|
                0 <= i < a@.len() ==> #[trigger] a@[i] == (LspInlayHintLabelPart {
                    command: None,
                    ..b@[i]
                })
        },
        _ => false,
    }
}

/// A hint of a server that can say more of it is sent back as it came, but for what it would
/// change, what happens when its parts are chosen and whether its padding was left open: the
/// server gets its own data back.
pub proof fn law_server_gets_its_hint_back(
    given: LspInlayHint,
    hint: InlayHint,
    clipped_position: PointUtf16,
    server: HintServer,
    server_id: LanguageServerId,
    sent: LspInlayHint,
    position: PointUtf16,
)
    requires
        InlayHints::resolves(server.capabilities),
        given.kind is None || given.kind == Some(HINT_TYPE) || given.kind == Some(HINT_PARAMETER),
        is_hint_of(hint, given, clipped_position, server_id, server.resolve_state(given), false),
        is_lsp_hint_of(sent, hint, position),
    ensures
        sent.data == given.data,
        sent.kind == given.kind,
        sent.tooltip == given.tooltip,
        same_lsp_label(sent.label, given.label),
        given.padding_left is Some ==> sent.padding_left == given.padding_left,
        given.padding_right is Some ==> sent.padding_right == given.padding_right,
{
    if let LspInlayHintLabel::LabelParts(parts) = given.label {
        if let InlayHintLabel::LabelParts(middle) = hint.label {
            if let LspInlayHintLabel::LabelParts(sent_parts) = sent.label {
                assert forall|i: int| 0 <= i < sent_parts@.len() implies #[trigger] sent_parts@[i]
                    == (LspInlayHintLabelPart { command: None, ..parts@[i] }) by {
                    assert(middle@[i] == part_of(parts@[i], server_id));
                }
            }
        }
    }
}

}
