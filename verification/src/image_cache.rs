//! The images that are shown: each is fetched once, however often it is asked for.
use vstd::prelude::*;

use crate::paths::FilePath;
use crate::text::str_eq;

verus! {

/// The address of an image.
#[derive(Debug)]
pub struct SharedUri {
    pub text: String,
}

/// What an image is known by: an address, or the path of a file.
#[derive(Debug)]
pub enum UriOrPath {
    Uri(SharedUri),
    Path(FilePath),
}

/// What an image is known by, as text.
#[verifier::ext_equal]
pub ghost enum ImageKey {
    Uri { text: Seq<char> },
    Path { path: crate::paths::PathKey },
}

impl View for UriOrPath {
    type V = ImageKey;

    open spec fn view(&self) -> ImageKey {
        match self {
            UriOrPath::Uri(uri) => ImageKey::Uri { text: uri.text@ },
            UriOrPath::Path(path) => ImageKey::Path { path: path.key() },
        }
    }
}

impl vstd::std_specs::convert::FromSpecImpl<SharedUri> for UriOrPath {
    open spec fn obeys_from_spec() -> bool {
        true
    }

    open spec fn from_spec(value: SharedUri) -> Self {
        UriOrPath::Uri(value)
    }
}

impl From<SharedUri> for UriOrPath {
    fn from(value: SharedUri) -> (r: Self) {
        UriOrPath::Uri(value)
    }
}

impl vstd::std_specs::convert::FromSpecImpl<FilePath> for UriOrPath {
    open spec fn obeys_from_spec() -> bool {
        true
    }

    open spec fn from_spec(value: FilePath) -> Self {
        UriOrPath::Path(value)
    }
}

impl From<FilePath> for UriOrPath {
    fn from(value: FilePath) -> (r: Self) {
        UriOrPath::Path(value)
    }
}

impl UriOrPath {
    /// Whether this is the same image.
    pub fn same(&self, other: &UriOrPath) -> (r: bool)
        ensures
            r == (self@ == other@),
    {
        match (self, other) {
            (UriOrPath::Uri(a), UriOrPath::Uri(b)) => str_eq(a.text.as_str(), b.text.as_str()),
            (UriOrPath::Path(a), UriOrPath::Path(b)) => a.same(b),
            _ => false,
        }
    }
}

/// The images that were asked for. Each has a slot for what becomes of it.
#[derive(Debug)]
pub struct ImageCache {
    images: Vec<UriOrPath>,
}

/// What became of a request for an image.
#[derive(Clone, Copy, Debug, PartialEq, Eq, Structural)]
pub struct Lookup {
    /// The slot of the image.
    pub slot: usize,
    /// Whether the image is yet to be fetched.
    pub fetch: bool,
}

/// The images of a cache once another was asked for.
pub open spec fn asked(images: Seq<ImageKey>, image: ImageKey) -> Seq<ImageKey> {
    if images.contains(image) {
        images
    } else {
        images.push(image)
    }
}

/// The images of a cache once several others were asked for.
pub open spec fn asked_all(images: Seq<ImageKey>, requests: Seq<ImageKey>) -> Seq<ImageKey>
    decreases requests.len(),
{
    if requests.len() == 0 {
        images
    } else {
        asked(asked_all(images, requests.drop_last()), requests.last())
    }
}

impl View for ImageCache {
    type V = Seq<ImageKey>;

    closed spec fn view(&self) -> Seq<ImageKey> {
        self.images@.map_values(|image: UriOrPath| image@)
    }
}

impl ImageCache {
    /// No image has two slots.
    #[verifier::type_invariant]
    spec fn inv(self) -> bool {
        self@.no_duplicates()
    }

    /// A cache of no images.
    pub fn new() -> (r: Self)
        ensures
            r@ == Seq::<ImageKey>::empty(),
    {
        let r = ImageCache { images: Vec::new() };
        assert(r@ =~= Seq::<ImageKey>::empty());
        r
    }

    /// The slot of an image. It is to be fetched the first time that it is asked for.
    pub fn get(&mut self, uri_or_path: UriOrPath) -> (r: Lookup)
        ensures
            final(self)@ == asked(old(self)@, uri_or_path@),
            final(self)@.no_duplicates(),
            r.slot < final(self)@.len(),
            final(self)@[r.slot as int] == uri_or_path@,
            r.fetch == !old(self)@.contains(uri_or_path@),
    {
        proof {
            use_type_invariant(&*self);
        }
        let ghost before = self@;
        let mut slot: usize = 0;
        while slot < self.images.len()
            invariant
                self@ == before,
                old(self)@ == before,
                before.no_duplicates(),
                slot <= self.images.len(),
                forall|j: int| 0 <= j < slot ==> before[j] != uri_or_path@,
            decreases self.images.len() - slot,
        {
            if self.images[slot].same(&uri_or_path) {
                assert(before[slot as int] == uri_or_path@);
                return Lookup { slot, fetch: false };
            }
            slot = slot + 1;
        }
        let ghost after = before.push(uri_or_path@);
        let mut images: Vec<UriOrPath> = Vec::new();
        std::mem::swap(&mut images, &mut self.images);
        images.push(uri_or_path);
        proof {
            assert(!before.contains(uri_or_path@));
            assert(images@.map_values(|image: UriOrPath| image@) =~= after);
        }
        self.images = images;
        Lookup { slot, fetch: true }
    }
}

/// An image that was asked for keeps its slot, whatever else is asked for.
pub proof fn law_slots_stay(images: Seq<ImageKey>, requests: Seq<ImageKey>)
    ensures
        images.is_prefix_of(asked_all(images, requests)),
    decreases requests.len(),
{
    if requests.len() > 0 {
        law_slots_stay(images, requests.drop_last());
        let before = asked_all(images, requests.drop_last());
        assert(before.is_prefix_of(asked(before, requests.last())));
        assert(images =~= asked_all(images, requests).subrange(0, images.len() as int));
    } else {
        assert(images =~= images.subrange(0, images.len() as int));
    }
}

/// An image is fetched once: having been asked for, it is never new again.
pub proof fn law_images_are_fetched_once(
    images: Seq<ImageKey>,
    image: ImageKey,
    requests: Seq<ImageKey>,
)
    ensures
        asked_all(asked(images, image), requests).contains(image),
        asked(asked_all(asked(images, image), requests), image) == asked_all(
            asked(images, image),
            requests,
        ),
{
    let once = asked(images, image);
    let later = asked_all(once, requests);
    law_slots_stay(once, requests);
    if !images.contains(image) {
        assert(once.last() == image);
    }
    let at = once.index_of(image);
    assert(once.contains(image));
    assert(once[at] == image);
    assert(later[at] == image) by {
        assert(later.subrange(0, once.len() as int)[at] == later[at]);
    }
}

/// Two images are never in one slot, so that one is not shown for the other.
pub proof fn law_slots_are_distinct(images: Seq<ImageKey>, requests: Seq<ImageKey>)
    requires
        images.no_duplicates(),
    ensures
        asked_all(images, requests).no_duplicates(),
    decreases requests.len(),
{
    if requests.len() > 0 {
        law_slots_are_distinct(images, requests.drop_last());
    }
}

/// Asking for an image adds it, after all that were asked for before, exactly where it was not
/// asked for before.
pub proof fn law_new_images_are_added_at_the_end(images: Seq<ImageKey>, image: ImageKey)
    ensures
        ({
            let after = asked(images, image);
            &&& (exists|i: int| 0 <= i < images.len() && #[trigger] images[i] == image) ==> after
                == images
            &&& (forall|i: int| 0 <= i < images.len() ==> #[trigger] images[i] != image) ==> {
                &&& after.len() == images.len() + 1
                &&& after[images.len() as int] == image
                &&& after.subrange(0, images.len() as int) == images
            }
        }),
{
    if !images.contains(image) {
        assert(images.push(image).subrange(0, images.len() as int) =~= images);
    }
}

/// Two images are the same exactly where both are at one address, or both are at one path: the
/// address of an image is never the path of another.
pub proof fn law_what_images_are_known_by(a: UriOrPath, b: UriOrPath)
    ensures
        a@ == b@ <==> match (a, b) {
            (UriOrPath::Uri(a), UriOrPath::Uri(b)) => a.text@ == b.text@,
            (UriOrPath::Path(a), UriOrPath::Path(b)) => a.key() == b.key(),
            _ => false,
        },
{
}

/// Why an image cannot be shown.
#[derive(Debug)]
pub enum Error {
    Io(String),
    Image(String),
}

impl Error {
    /// What is wrong.
    pub open spec fn explanation(self) -> Seq<char> {
        match self {
            Error::Io(error) => "IO error: "@ + error@,
            Error::Image(error) => "image error: "@ + error@,
        }
    }

    /// What is wrong.
    pub fn message(&self) -> (r: String)
        ensures
            r@ == self.explanation(),
    {
        match self {
            Error::Io(error) => {
                let mut message = "IO error: ".to_string();
                message.append(error.as_str());
                message
            },
            Error::Image(error) => {
                let mut message = "image error: ".to_string();
                message.append(error.as_str());
                message
            },
        }
    }
}

/// What is wrong is told with where it went wrong before it.
pub proof fn law_image_errors_in_words(error: String)
    ensures
        Error::Io(error).explanation() == "IO error: "@ + error@,
        Error::Image(error).explanation() == "image error: "@ + error@,
{
}

/// What `image::guess_format` makes of bytes: the first of the extensions that files of the
/// format have, or what is wrong with the bytes.
pub uninterp spec fn guessed_format(bytes: Seq<u8>) -> Result<Seq<char>, Seq<char>>;

/// Calls `image::guess_format`, which tells the format of an image by how its bytes begin, and
/// writes the answer out as text. It is a function of the bytes. No format begins with nothing,
/// so that it fails on no bytes at all.
#[verifier::external_body]
fn guess_format(bytes: &Vec<u8>) -> (r: Result<String, String>)
    ensures
        match r {
            Ok(format) => guessed_format(bytes@) == Ok::<Seq<char>, Seq<char>>(format@),
            Err(error) => guessed_format(bytes@) == Err::<Seq<char>, Seq<char>>(error@),
        },
        bytes@.len() == 0 ==> r is Err,
{
    image::guess_format(bytes)
        .map(|format| format.extensions_str()[0].to_string())
        .map_err(|error| error.to_string())
}

/// The format of the image that the bytes are of.
pub fn image_format(bytes: &Vec<u8>) -> (r: Result<String, Error>)
    ensures
        match r {
            Ok(format) => guessed_format(bytes@) == Ok::<Seq<char>, Seq<char>>(format@),
            Err(Error::Image(error)) => guessed_format(bytes@) == Err::<Seq<char>, Seq<char>>(
                error@,
            ),
            Err(Error::Io(_)) => false,
        },
        bytes@.len() == 0 ==> r is Err,
{
    match guess_format(bytes) {
        Ok(format) => Ok(format),
        Err(error) => Err(Error::Image(error)),
    }
}

/// Where an image is to be had from.
#[derive(Debug)]
pub enum Fetch {
    /// The file at the path is to be read.
    Open(FilePath),
    /// The image cannot be had.
    Fail(Error),
}

/// How an image is fetched. Nothing is fetched from an address, so that there are no bytes to
/// make an image of.
pub fn fetch(uri_or_path: UriOrPath) -> (r: Fetch)
    ensures
        match uri_or_path {
            UriOrPath::Path(path) => r == Fetch::Open(path),
            UriOrPath::Uri(_) => {
                &&& r matches Fetch::Fail(Error::Image(error))
                &&& guessed_format(Seq::empty()) == Err::<Seq<char>, Seq<char>>(error@)
            },
        },
{
    match uri_or_path {
        UriOrPath::Path(path) => Fetch::Open(path),
        UriOrPath::Uri(_) => {
            let body: Vec<u8> = Vec::new();
            assert(body@ =~= Seq::empty());
            match image_format(&body) {
                Ok(_) => Fetch::Fail(Error::Image(String::new())),
                Err(error) => Fetch::Fail(error),
            }
        },
    }
}

}
