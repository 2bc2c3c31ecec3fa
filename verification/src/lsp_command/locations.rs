//! Where things are: the answers that name places in other files, which have to be opened to
//! find the places in them.
use std::ops::Range;
use vstd::prelude::*;

use crate::editor::item::BufferId;
use crate::editor::search::Bias;
use crate::lsp_command::command::{
    GetDefinition, GetImplementation, GetReferences, GetTypeDefinition,
};
use crate::lsp_command::protocol::{
    language_server_for_buffer, LspError, PointAnchor, PointUtf16, Position,
};

verus! {

/// A place, as a server names it.
#[derive(Debug)]
pub struct LspLocation {
    pub uri: String,
    pub range: Range<Position>,
}

/// A place and what leads there, as a server names them.
#[derive(Debug)]
pub struct LspLocationLink {
    pub origin_selection_range: Option<Range<Position>>,
    pub target_uri: String,
    pub target_range: Range<Position>,
    pub target_selection_range: Range<Position>,
}

/// Where a server says that something is.
#[derive(Debug)]
pub enum GotoDefinitionResponse {
    Scalar(LspLocation),
    Array(Vec<LspLocation>),
    Link(Vec<LspLocationLink>),
}

/// A place in a file that is still to be opened.
#[derive(Debug)]
pub struct UnresolvedLink {
    pub origin_range: Option<Range<Position>>,
    pub target_uri: String,
    pub target_range: Range<Position>,
}

/// A place in a buffer.
#[derive(Debug)]
pub struct Location {
    pub buffer: BufferId,
    pub range: Range<PointAnchor>,
}

/// A place and what leads there.
#[derive(Debug)]
pub struct LocationLink {
    pub origin: Option<Location>,
    pub target: Location,
}

/// A file that was opened, with where in the texts the ranges of the link are: their ends, moved
/// left to where the texts have a place.
#[derive(Debug)]
pub struct OpenedBuffer {
    pub buffer: BufferId,
    pub origin: Option<Range<PointUtf16>>,
    pub target: Range<PointUtf16>,
}

/// A place alone leads to itself from nowhere.
pub open spec fn link_to(location: LspLocation) -> UnresolvedLink {
    UnresolvedLink {
        origin_range: None,
        target_uri: location.uri,
        target_range: location.range,
    }
}

/// Of a link, what leads there and what is selected there count.
pub open spec fn link_through(link: LspLocationLink) -> UnresolvedLink {
    UnresolvedLink {
        origin_range: link.origin_selection_range,
        target_uri: link.target_uri,
        target_range: link.target_selection_range,
    }
}

/// The places that an answer names, in order.
pub open spec fn links_in(message: GotoDefinitionResponse) -> Seq<UnresolvedLink> {
    match message {
        GotoDefinitionResponse::Scalar(location) => seq![link_to(location)],
        GotoDefinitionResponse::Array(locations) => locations@.map_values(
            |location: LspLocation| link_to(location),
        ),
        GotoDefinitionResponse::Link(links) => links@.map_values(
            |link: LspLocationLink| link_through(link),
        ),
    }
}

/// A range in a buffer that does not grow with what is typed at its ends.
pub open spec fn location_in(buffer: BufferId, range: Range<PointUtf16>) -> Location {
    Location {
        buffer,
        range: Range {
            start: PointAnchor { position: range.start, bias: Bias::Right },
            end: PointAnchor { position: range.end, bias: Bias::Left },
        },
    }
}

/// What a link is once its file was opened. It leads from the buffer that the request was about.
pub open spec fn resolved_link(buffer: BufferId, opened: OpenedBuffer) -> LocationLink {
    LocationLink {
        origin: match opened.origin {
            Some(range) => Some(location_in(buffer, range)),
            None => None,
        },
        target: location_in(opened.buffer, opened.target),
    }
}

fn location(buffer: BufferId, range: Range<PointUtf16>) -> (r: Location)
    ensures
        r == location_in(buffer, range),
{
    Location {
        buffer,
        range: Range {
            start: PointAnchor { position: range.start, bias: Bias::Right },
            end: PointAnchor { position: range.end, bias: Bias::Left },
        },
    }
}

fn links_to(locations: Vec<LspLocation>) -> (r: Vec<UnresolvedLink>)
    ensures
        r@ == locations@.map_values(|location: LspLocation| link_to(location)),
{
    let ghost all = locations@;
    let ghost link = |location: LspLocation| link_to(location);
    let mut links: Vec<UnresolvedLink> = Vec::new();
    for location in it: locations
        invariant
            it.seq() == all,
            link == (|location: LspLocation| link_to(location)),
            links@ == all.take(it.index()).map_values(link),
    {
        links.push(
            UnresolvedLink {
                origin_range: None,
                target_uri: location.uri,
                target_range: location.range,
            },
        );
        assert(links@ =~= all.take(it.index() + 1).map_values(link));
    }
    assert(all.take(all.len() as int) =~= all);
    links
}

fn links_through(locations: Vec<LspLocationLink>) -> (r: Vec<UnresolvedLink>)
    ensures
        r@ == locations@.map_values(|link: LspLocationLink| link_through(link)),
{
    let ghost all = locations@;
    let ghost through = |link: LspLocationLink| link_through(link);
    let mut links: Vec<UnresolvedLink> = Vec::new();
    for link in it: locations
        invariant
            it.seq() == all,
            through == (|link: LspLocationLink| link_through(link)),
            links@ == all.take(it.index()).map_values(through),
    {
        links.push(
            UnresolvedLink {
                origin_range: link.origin_selection_range,
                target_uri: link.target_uri,
                target_range: link.target_selection_range,
            },
        );
        assert(links@ =~= all.take(it.index() + 1).map_values(through));
    }
    assert(all.take(all.len() as int) =~= all);
    links
}

/// Places of which some are found and the others wait for their files to be opened, one after
/// the other.
#[derive(Debug)]
pub struct Resolution<S> {
    buffer: BufferId,
    server: Option<S>,
    links: Vec<UnresolvedLink>,
    resolved: Vec<LocationLink>,
}

/// What a resolution is about: all the places in order, and what was found of the first of them.
#[verifier::ext_equal]
pub ghost struct ResolutionView<S> {
    pub buffer: BufferId,
    pub server: Option<S>,
    pub links: Seq<UnresolvedLink>,
    pub resolved: Seq<LocationLink>,
}

impl<S> View for Resolution<S> {
    type V = ResolutionView<S>;

    closed spec fn view(&self) -> ResolutionView<S> {
        ResolutionView {
            buffer: self.buffer,
            server: self.server,
            links: self.links@,
            resolved: self.resolved@,
        }
    }
}

impl<S> ResolutionView<S> {
    /// No more is found than there is, and where there is something to open there is a server.
    pub open spec fn holds_together(self) -> bool {
        &&& self.resolved.len() <= self.links.len()
        &&& self.links.len() > 0 ==> self.server is Some
    }

    /// Whether some file is still to be opened.
    pub open spec fn is_waiting(self) -> bool {
        self.resolved.len() < self.links.len()
    }

    /// The link whose file is to be opened.
    pub open spec fn current(self) -> UnresolvedLink {
        self.links[self.resolved.len() as int]
    }

    /// Whether the file is one that the resolution waits for: one with a range for what leads
    /// there exactly where the link has one.
    pub open spec fn accepts(self, opened: OpenedBuffer) -> bool {
        &&& self.is_waiting()
        &&& (opened.origin is Some <==> self.current().origin_range is Some)
    }

    /// The same once the file that it waits for was opened.
    pub open spec fn after(self, opened: OpenedBuffer) -> ResolutionView<S> {
        ResolutionView {
            resolved: self.resolved.push(resolved_link(self.buffer, opened)),
            ..self
        }
    }

    /// The same once several files were opened.
    pub open spec fn after_all(self, opened: Seq<OpenedBuffer>) -> ResolutionView<S>
        decreases opened.len(),
    {
        if opened.len() == 0 {
            self
        } else {
            self.after_all(opened.drop_last()).after(opened.last())
        }
    }

    /// A resolution of these links that has just begun.
    pub open spec fn begun(
        buffer: BufferId,
        server: Option<S>,
        links: Seq<UnresolvedLink>,
    ) -> ResolutionView<S> {
        ResolutionView { buffer, server, links, resolved: Seq::empty() }
    }
}

impl<S> Resolution<S> {
    #[verifier::type_invariant]
    spec fn inv(self) -> bool {
        self@.holds_together()
    }

    /// The link whose file is to be opened next, and the server to open it for.
    pub fn next(&self) -> (r: Option<(&UnresolvedLink, &S)>)
        ensures
            match r {
                Some((link, server)) => {
                    &&& self@.is_waiting()
                    &&& *link == self@.current()
                    &&& self@.server == Some(*server)
                },
                None => !self@.is_waiting(),
            },
    {
        proof {
            use_type_invariant(self);
        }
        if self.resolved.len() < self.links.len() {
            match &self.server {
                Some(server) => Some((&self.links[self.resolved.len()], server)),
                None => None,
            }
        } else {
            None
        }
    }

    /// Goes on after a file was opened. If it could not be, none of the places is of use.
    pub fn opened<E>(&mut self, opened: Result<OpenedBuffer, E>) -> (r: Result<(), LspError<E>>)
        requires
            opened is Ok ==> old(self)@.accepts(opened->Ok_0),
        ensures
            match opened {
                Ok(opened) => r == Ok::<(), LspError<E>>(()) && final(self)@ == old(self)@.after(
                    opened,
                ),
                Err(error) => r == Err::<(), LspError<E>>(LspError::Failed(error)) && *final(self)
                    == *old(self),
            },
    {
        proof {
            use_type_invariant(&*self);
        }
        let opened = match opened {
            Ok(opened) => opened,
            Err(error) => {
                return Err(LspError::Failed(error));
            },
        };
        let origin = match opened.origin {
            Some(range) => Some(location(self.buffer, range)),
            None => None,
        };
        let target = location(opened.buffer, opened.target);
        let mut resolved: Vec<LocationLink> = Vec::new();
        std::mem::swap(&mut resolved, &mut self.resolved);
        resolved.push(LocationLink { origin, target });
        self.resolved = resolved;
        Ok(())
    }

    /// The places that were found, once all the files were opened.
    pub fn finish(self) -> (r: Vec<LocationLink>)
        requires
            !self@.is_waiting(),
        ensures
            r@ == self@.resolved,
            r@.len() == self@.links.len(),
    {
        proof {
            use_type_invariant(&self);
        }
        self.resolved
    }
}

/// Each place that an answer names is found in the file that was opened for it, and the places
/// keep their order.
pub proof fn law_places_keep_their_order<S>(
    begun: ResolutionView<S>,
    opened: Seq<OpenedBuffer>,
)
    requires
        begun.resolved.len() == 0,
    ensures
        begun.after_all(opened).links == begun.links,
        begun.after_all(opened).server == begun.server,
        begun.after_all(opened).buffer == begun.buffer,
        begun.after_all(opened).resolved.len() == opened.len(),
        forall|i: int|
            0 <= i < opened.len() ==> #[trigger] begun.after_all(opened).resolved[i]
                == resolved_link(begun.buffer, opened[i]),
    decreases opened.len(),
{
    if opened.len() > 0 {
        law_places_keep_their_order(begun, opened.drop_last());
        let before = begun.after_all(opened.drop_last());
        assert(begun.after_all(opened) == before.after(opened.last()));
        assert forall|i: int| 0 <= i < opened.len() implies #[trigger] begun.after_all(
            opened,
        ).resolved[i] == resolved_link(begun.buffer, opened[i]) by {
            if i < opened.len() - 1 {
                assert(before.resolved[i] == resolved_link(begun.buffer, opened.drop_last()[i]));
            }
        }
    }
}

/// What an answer makes of a request for places: nothing without an answer, whatever the
/// project says; else the project must have a server for the buffer.
pub open spec fn goto_outcome<S, E>(
    message: Option<GotoDefinitionResponse>,
    buffer: BufferId,
    server: Result<Option<S>, E>,
) -> Result<ResolutionView<S>, LspError<E>> {
    match (message, server) {
        (None, _) => Ok(ResolutionView::begun(buffer, None, Seq::empty())),
        (Some(message), Ok(Some(server))) => Ok(
            ResolutionView::begun(buffer, Some(server), links_in(message)),
        ),
        (Some(_), Ok(None)) => Err(LspError::NoLanguageServerForBuffer),
        (Some(_), Err(error)) => Err(LspError::Failed(error)),
    }
}

/// Whether the result is a resolution as stated, or the error.
pub open spec fn is_outcome<S, E>(
    r: Result<Resolution<S>, LspError<E>>,
    outcome: Result<ResolutionView<S>, LspError<E>>,
) -> bool {
    match (r, outcome) {
        (Ok(resolution), Ok(view)) => resolution@ == view,
        (Err(error), Err(expected)) => error == expected,
        _ => false,
    }
}

/// Takes the places that an answer names.
pub fn location_links_from_lsp<S, E>(
    message: Option<GotoDefinitionResponse>,
    buffer: BufferId,
    server: Result<Option<S>, E>,
) -> (r: Result<Resolution<S>, LspError<E>>)
    ensures
        is_outcome(r, goto_outcome(message, buffer, server)),
        (message, server) matches (Some(message), Ok(Some(server))) ==> {
            &&& r is Ok
            &&& r->Ok_0@.buffer == buffer
            &&& r->Ok_0@.server == Some(server)
            &&& r->Ok_0@.resolved.len() == 0
            &&& match message {
                GotoDefinitionResponse::Scalar(location) => {
                    &&& r->Ok_0@.links.len() == 1
                    &&& r->Ok_0@.links[0].origin_range is None
                    &&& r->Ok_0@.links[0].target_uri == location.uri
                    &&& r->Ok_0@.links[0].target_range == location.range
                },
                GotoDefinitionResponse::Array(locations) => {
                    r->Ok_0@.links.len() == locations@.len()
                },
                GotoDefinitionResponse::Link(links) => r->Ok_0@.links.len() == links@.len(),
            }
        },
{
    let message = match message {
        Some(message) => message,
        None => {
            let resolution = Resolution {
                buffer,
                server: None,
                links: Vec::new(),
                resolved: Vec::new(),
            };
            return Ok(resolution);
        },
    };
    let ghost named = links_in(message);
    let links = match message {
        GotoDefinitionResponse::Scalar(location) => {
            let mut links: Vec<UnresolvedLink> = Vec::new();
            links.push(
                UnresolvedLink {
                    origin_range: None,
                    target_uri: location.uri,
                    target_range: location.range,
                },
            );
            assert(links@ =~= named);
            links
        },
        GotoDefinitionResponse::Array(locations) => links_to(locations),
        GotoDefinitionResponse::Link(links) => links_through(links),
    };
    match language_server_for_buffer(server) {
        Ok(server) => Ok(
            Resolution { buffer, server: Some(server), links, resolved: Vec::new() },
        ),
        Err(error) => Err(error),
    }
}

impl GetDefinition {
    /// Takes the places where something is defined.
    pub fn response_from_lsp<S, E>(
        self,
        message: Option<GotoDefinitionResponse>,
        buffer: BufferId,
        server: Result<Option<S>, E>,
    ) -> (r: Result<Resolution<S>, LspError<E>>)
        ensures
            is_outcome(r, goto_outcome(message, buffer, server)),
    {
        location_links_from_lsp(message, buffer, server)
    }
}

impl GetImplementation {
    /// Takes the places where something is implemented.
    pub fn response_from_lsp<S, E>(
        self,
        message: Option<GotoDefinitionResponse>,
        buffer: BufferId,
        server: Result<Option<S>, E>,
    ) -> (r: Result<Resolution<S>, LspError<E>>)
        ensures
            is_outcome(r, goto_outcome(message, buffer, server)),
    {
        location_links_from_lsp(message, buffer, server)
    }
}

impl GetTypeDefinition {
    /// Takes the places where the type of something is defined.
    pub fn response_from_lsp<S, E>(
        self,
        message: Option<GotoDefinitionResponse>,
        buffer: BufferId,
        server: Result<Option<S>, E>,
    ) -> (r: Result<Resolution<S>, LspError<E>>)
        ensures
            is_outcome(r, goto_outcome(message, buffer, server)),
    {
        location_links_from_lsp(message, buffer, server)
    }
}

/// What an answer makes of a request for references: the project must have a server for the
/// buffer even where there is no answer.
pub open spec fn references_outcome<S, E>(
    locations: Option<Vec<LspLocation>>,
    buffer: BufferId,
    server: Result<Option<S>, E>,
) -> Result<ResolutionView<S>, LspError<E>> {
    match server {
        Ok(Some(server)) => {
            let links = match locations {
                Some(locations) => locations@.map_values(
                    |location: LspLocation| link_to(location),
                ),
                None => Seq::empty(),
            };
            Ok(ResolutionView::begun(buffer, Some(server), links))
        },
        Ok(None) => Err(LspError::NoLanguageServerForBuffer),
        Err(error) => Err(LspError::Failed(error)),
    }
}

impl GetReferences {
    /// Takes the places where something is referred to.
    pub fn response_from_lsp<S, E>(
        self,
        locations: Option<Vec<LspLocation>>,
        buffer: BufferId,
        server: Result<Option<S>, E>,
    ) -> (r: Result<Resolution<S>, LspError<E>>)
        ensures
            is_outcome(r, references_outcome(locations, buffer, server)),
    {
        let server = match language_server_for_buffer(server) {
            Ok(server) => server,
            Err(error) => {
                return Err(error);
            },
        };
        let links = match locations {
            Some(locations) => links_to(locations),
            None => Vec::new(),
        };
        Ok(Resolution { buffer, server: Some(server), links, resolved: Vec::new() })
    }

    /// The references, once all their files were opened: nothing in particular leads to them.
    pub fn references(links: Vec<LocationLink>) -> (r: Vec<Location>)
        ensures
            r@ == links@.map_values(|link: LocationLink| link.target),
    {
        let ghost all = links@;
        let ghost target = |link: LocationLink| link.target;
        let mut references: Vec<Location> = Vec::new();
        for link in it: links
            invariant
                it.seq() == all,
                target == (|link: LocationLink| link.target),
                references@ == all.take(it.index()).map_values(target),
        {
            references.push(link.target);
            assert(references@ =~= all.take(it.index() + 1).map_values(target));
        }
        assert(all.take(all.len() as int) =~= all);
        references
    }
}

}
