//! Finding the cover of an album, a disc or a track: a cached file first,
//! else a source image that is transformed and cached, else the cover of
//! the level above. The files are read and written by the caller, who is
//! told what to do next and hands back what came of it.

use crate::image::{
    has_pixels, spec_dimensions, spec_is_car_transform, spec_is_standard_transform,
    transform_image, transform_image_vw, Format, Image, LoadError, LoadWithCacheError,
};
use vstd::prelude::*;
use vstd::string::StringExecFns;

verus! {

/// Which cover is looked for.
#[derive(Clone, Copy, Debug, PartialEq, Eq, Structural)]
pub enum Variant {
    /// The cover that goes into the tags of the album's own files.
    Standard,
    /// The smaller cover for files exported for the car.
    Vw,
}

/// Where a file is looked for.
#[derive(Clone, Copy, Debug, PartialEq, Eq, Structural)]
pub enum Place {
    /// The folder of cached covers of the variant.
    Cache,
    /// The folder of source images.
    Images,
}

/// The number of file extensions that are tried.
pub const NUM_EXTENSIONS: usize = 3;

/// The file extensions that are tried, in this order.
pub open spec fn spec_extension(i: int) -> Seq<char> {
    if i == 0 {
        "png"@
    } else if i == 1 {
        "jpg"@
    } else {
        "jpeg"@
    }
}

/// The name of the file for a lookup name and an extension.
pub open spec fn spec_file_name(name: Seq<char>, extension: Seq<char>) -> Seq<char> {
    name + "."@ + extension
}

/// The extension that is tried in place `i`.
pub fn extension(i: usize) -> (r: &'static str)
    ensures
        r@ == spec_extension(i as int),
{
    if i == 0 {
        "png"
    } else if i == 1 {
        "jpg"
    } else {
        "jpeg"
    }
}

/// The name of the file for a lookup name and an extension.
pub fn file_name(name: &str, extension: &str) -> (r: String)
    ensures
        r@ == spec_file_name(name@, extension@),
{
    let mut file = String::from_str(name);
    file.append(".");
    file.append(extension);
    file
}

/// What the caller is asked to do.
#[derive(Debug, PartialEq, Eq)]
pub enum Request {
    /// Say whether the file exists in the place.
    Exists {
        /// The folder to look in.
        place: Place,
        /// The name of the file.
        file: String,
    },
    /// Read the file from the cache and load it with `Image::from_read`.
    Read {
        /// The name of the file.
        file: String,
    },
    /// Open the file from the source images and process it with
    /// `Variant::process`.
    Open {
        /// The name of the file.
        file: String,
    },
    /// Make sure that the cache folder exists.
    CreateCacheFolder,
    /// Write the data to the file in the cache.
    Write {
        /// The name of the file.
        file: String,
        /// What to write.
        data: Vec<u8>,
    },
}

/// The mathematical value of a [`Request`].
pub enum RequestView {
    /// Say whether the file exists in the place.
    Exists { place: Place, file: Seq<char> },
    /// Read the file from the cache.
    Read { file: Seq<char> },
    /// Open and process the file from the source images.
    Open { file: Seq<char> },
    /// Make sure that the cache folder exists.
    CreateCacheFolder,
    /// Write the data to the file in the cache.
    Write { file: Seq<char>, data: Seq<u8> },
}

impl View for Request {
    type V = RequestView;

    open spec fn view(&self) -> RequestView {
        match self {
            Request::Exists { place, file } => RequestView::Exists { place: *place, file: file@ },
            Request::Read { file } => RequestView::Read { file: file@ },
            Request::Open { file } => RequestView::Open { file: file@ },
            Request::CreateCacheFolder => RequestView::CreateCacheFolder,
            Request::Write { file, data } => RequestView::Write { file: file@, data: data@ },
        }
    }
}

/// What came of a request.
#[derive(Debug)]
pub enum Reply {
    /// Whether the file exists.
    Exists(bool),
    /// The cached image, or why it could not be loaded.
    Loaded(Result<Image, LoadError>),
    /// The transformed source image, or why there is none.
    Processed(Result<Image, LoadWithCacheError>),
    /// Whether the cache folder is there.
    Created(Result<(), std::io::Error>),
    /// Whether the file was written.
    Written(Result<(), std::io::Error>),
}

/// How far a lookup has come.
#[derive(Debug)]
pub enum Stage {
    /// Asking whether the cache holds a file with extension `i`.
    ProbingCache(usize),
    /// Reading the cached file with extension `i`.
    ReadingCache(usize),
    /// Asking whether the source images hold a file with extension `i`.
    ProbingImages(usize),
    /// Opening and processing the source image with extension `i`.
    Opening(usize),
    /// Creating the cache folder for the transformed image.
    Creating(Image),
    /// Writing the transformed image to the cache.
    Writing(Image),
}

/// The lookup of the cover of one album, disc or track, without regard to
/// the levels above it.
#[derive(Debug)]
pub struct Lookup {
    name: String,
    stage: Stage,
}

/// The mathematical value of a [`Lookup`].
pub struct LookupView {
    /// The name under which the cover is looked for.
    pub name: Seq<char>,
    /// How far the lookup has come.
    pub stage: Stage,
}

impl View for Lookup {
    type V = LookupView;

    closed spec fn view(&self) -> LookupView {
        LookupView { name: self.name@, stage: self.stage }
    }
}

/// How a lookup goes on.
#[derive(Debug)]
pub enum Outcome {
    /// The lookup waits for the reply to a request.
    Ask(Lookup, Request),
    /// The lookup is over: an image, no image, or an error.
    Done(Result<Option<Image>, LoadWithCacheError>),
}

/// The mathematical value of an [`Outcome`].
pub enum OutcomeView {
    /// The lookup waits for the reply to a request.
    Ask(LookupView, RequestView),
    /// The lookup is over.
    Done(Result<Option<Image>, LoadWithCacheError>),
}

impl View for Outcome {
    type V = OutcomeView;

    open spec fn view(&self) -> OutcomeView {
        match self {
            Outcome::Ask(lookup, request) => OutcomeView::Ask(lookup@, request@),
            Outcome::Done(result) => OutcomeView::Done(*result),
        }
    }
}

impl LookupView {
    /// A lookup that has just begun: it asks for the first file in the cache.
    pub open spec fn start(name: Seq<char>) -> LookupView {
        LookupView { name, stage: Stage::ProbingCache(0) }
    }

    /// The extensions that a lookup speaks of are among those that are tried.
    pub open spec fn wf(self) -> bool {
        match self.stage {
            Stage::ProbingCache(i) => i < NUM_EXTENSIONS,
            Stage::ReadingCache(i) => i < NUM_EXTENSIONS,
            Stage::ProbingImages(i) => i < NUM_EXTENSIONS,
            Stage::Opening(i) => i < NUM_EXTENSIONS,
            _ => true,
        }
    }

    /// The name of the file with extension `i`.
    pub open spec fn file(self, i: int) -> Seq<char> {
        spec_file_name(self.name, spec_extension(i))
    }

    /// The request that the lookup waits on. A transformed image is written
    /// under the lookup name with the extension of its own format.
    pub open spec fn pending(self) -> RequestView {
        match self.stage {
            Stage::ProbingCache(i) => RequestView::Exists {
                place: Place::Cache,
                file: self.file(i as int),
            },
            Stage::ReadingCache(i) => RequestView::Read { file: self.file(i as int) },
            Stage::ProbingImages(i) => RequestView::Exists {
                place: Place::Images,
                file: self.file(i as int),
            },
            Stage::Opening(i) => RequestView::Open { file: self.file(i as int) },
            Stage::Creating(_) => RequestView::CreateCacheFolder,
            Stage::Writing(image) => RequestView::Write {
                file: spec_file_name(self.name, image.format.spec_ext()),
                data: image.data@,
            },
        }
    }

    /// The lookup at another stage, asking what that stage waits on.
    pub open spec fn ask(self, stage: Stage) -> OutcomeView {
        let next = LookupView { name: self.name, stage };
        OutcomeView::Ask(next, next.pending())
    }

    /// How the lookup goes on after a reply. The cache is asked for each
    /// extension in turn, and the first file that it holds is read as it is.
    /// If it holds none, the source images are asked in the same way; the
    /// first that exists is processed, the cache folder is made, and the
    /// result is written to the cache and handed out. If neither holds a
    /// file, there is no image. Every failure ends the lookup. A reply that
    /// does not answer the pending request changes nothing.
    pub open spec fn advance(self, reply: Reply) -> OutcomeView {
        match (self.stage, reply) {
            (Stage::ProbingCache(i), Reply::Exists(found)) => if found {
                self.ask(Stage::ReadingCache(i))
            } else if i + 1 < NUM_EXTENSIONS {
                self.ask(Stage::ProbingCache((i + 1) as usize))
            } else {
                self.ask(Stage::ProbingImages(0))
            },
            (Stage::ReadingCache(_), Reply::Loaded(loaded)) => match loaded {
                Ok(image) => OutcomeView::Done(Ok(Some(image))),
                Err(e) => OutcomeView::Done(Err(LoadWithCacheError::CacheLoadError(e))),
            },
            (Stage::ProbingImages(i), Reply::Exists(found)) => if found {
                self.ask(Stage::Opening(i))
            } else if i + 1 < NUM_EXTENSIONS {
                self.ask(Stage::ProbingImages((i + 1) as usize))
            } else {
                OutcomeView::Done(Ok(None))
            },
            (Stage::Opening(_), Reply::Processed(processed)) => match processed {
                Ok(image) => self.ask(Stage::Creating(image)),
                Err(e) => OutcomeView::Done(Err(e)),
            },
            (Stage::Creating(image), Reply::Created(created)) => match created {
                Ok(_) => self.ask(Stage::Writing(image)),
                Err(e) => OutcomeView::Done(Err(LoadWithCacheError::CouldntCreateCacheFolder(e))),
            },
            (Stage::Writing(image), Reply::Written(written)) => match written {
                Ok(_) => OutcomeView::Done(Ok(Some(image))),
                Err(e) => OutcomeView::Done(Err(LoadWithCacheError::CouldntWriteCachedFile(e))),
            },
            _ => OutcomeView::Ask(self, self.pending()),
        }
    }
}

/// Whether `r` is what processing gives for an image of the given size:
/// the transformation of the variant, with a failure of it told as an error
/// of processing.
pub open spec fn spec_processed(
    variant: Variant,
    r: Result<Image, LoadWithCacheError>,
    transformed: Result<Image, ::image::ImageError>,
    source: (u32, u32),
    rgb: Seq<u8>,
) -> bool {
    &&& match transformed {
        Ok(image) => r == Ok::<Image, LoadWithCacheError>(image),
        Err(e) => r == Err::<Image, LoadWithCacheError>(LoadWithCacheError::ProcessError(e)),
    }
    &&& match variant {
        Variant::Standard => spec_is_standard_transform(transformed, source, rgb),
        Variant::Vw => spec_is_car_transform(transformed, source, rgb),
    }
}

impl Variant {
    /// Turns what opening a source image gave into the cover of this
    /// variant. An image that could not be opened or has no pixels gives the
    /// error that says so. Any other image is transformed as the variant
    /// asks, and a transformation that fails gives the error of processing.
    pub fn process(
        self,
        opened: Result<::image::DynamicImage, ::image::ImageError>,
    ) -> (r: Result<Image, LoadWithCacheError>)
        ensures
            match opened {
                Err(e) => r == Err::<Image, LoadWithCacheError>(
                    LoadWithCacheError::CouldntOpenUncachedImage(e),
                ),
                Ok(img) => if spec_dimensions(img).0 > 0 && spec_dimensions(img).1 > 0 {
                    exists|transformed: Result<Image, ::image::ImageError>, rgb: Seq<u8>|
                        #[trigger] spec_processed(self, r, transformed, spec_dimensions(img), rgb)
                } else {
                    r == Err::<Image, LoadWithCacheError>(LoadWithCacheError::EmptyImage)
                },
            },
    {
        match opened {
            Err(e) => Err(LoadWithCacheError::CouldntOpenUncachedImage(e)),
            Ok(img) => {
                if !has_pixels(&img) {
                    return Err(LoadWithCacheError::EmptyImage);
                }
                let ghost source = spec_dimensions(img);
                let transformed = match self {
                    Variant::Standard => transform_image(img),
                    Variant::Vw => transform_image_vw(img),
                };
                let ghost outcome = transformed;
                let r = match transformed {
                    Ok(image) => Ok(image),
                    Err(e) => Err(LoadWithCacheError::ProcessError(e)),
                };
                proof {
                    let rgb = match self {
                        Variant::Standard => choose|rgb: Seq<u8>|
                            spec_is_standard_transform(outcome, source, rgb),
                        Variant::Vw => choose|rgb: Seq<u8>|
                            spec_is_car_transform(outcome, source, rgb),
                    };
                    assert(spec_processed(self, r, outcome, source, rgb));
                }
                r
            },
        }
    }
}

impl Lookup {
    /// Every lookup speaks only of extensions that are tried.
    #[verifier::type_invariant]
    pub open spec fn inv(&self) -> bool {
        self@.wf()
    }

    /// Begins the lookup of the cover with the given name.
    pub fn start(name: &str) -> (r: Lookup)
        ensures
            r@ == LookupView::start(name@),
    {
        Lookup { name: String::from_str(name), stage: Stage::ProbingCache(0) }
    }

    /// The name of the file with extension `i`.
    fn file(&self, i: usize) -> (r: String)
        ensures
            r@ == self@.file(i as int),
    {
        file_name(self.name.as_str(), extension(i))
    }

    /// The request that the lookup waits on.
    pub fn pending(&self) -> (r: Request)
        ensures
            r@ == self@.pending(),
    {
        match &self.stage {
            Stage::ProbingCache(i) => Request::Exists { place: Place::Cache, file: self.file(*i) },
            Stage::ReadingCache(i) => Request::Read { file: self.file(*i) },
            Stage::ProbingImages(i) => Request::Exists {
                place: Place::Images,
                file: self.file(*i),
            },
            Stage::Opening(i) => Request::Open { file: self.file(*i) },
            Stage::Creating(_) => Request::CreateCacheFolder,
            Stage::Writing(image) => Request::Write {
                file: file_name(self.name.as_str(), image.format.ext()),
                data: image.data.clone(),
            },
        }
    }

    /// The lookup at another stage, asking what that stage waits on.
    fn ask(name: String, stage: Stage) -> (r: Outcome)
        requires
            (LookupView { name: name@, stage }).wf(),
        ensures
            r@ == (LookupView { name: name@, stage }).ask(stage),
    {
        let next = Lookup { name, stage };
        let request = next.pending();
        Outcome::Ask(next, request)
    }

    /// Goes on with the lookup after a reply.
    pub fn advance(self, reply: Reply) -> (r: Outcome)
        ensures
            r@ == self@.advance(reply),
    {
        proof {
            use_type_invariant(&self);
        }
        let Lookup { name, stage } = self;
        match (stage, reply) {
            (Stage::ProbingCache(i), Reply::Exists(found)) => {
                if found {
                    Lookup::ask(name, Stage::ReadingCache(i))
                } else if i + 1 < NUM_EXTENSIONS {
                    Lookup::ask(name, Stage::ProbingCache(i + 1))
                } else {
                    Lookup::ask(name, Stage::ProbingImages(0))
                }
            },
            (Stage::ReadingCache(_), Reply::Loaded(loaded)) => match loaded {
                Ok(image) => Outcome::Done(Ok(Some(image))),
                Err(e) => Outcome::Done(Err(LoadWithCacheError::CacheLoadError(e))),
            },
            (Stage::ProbingImages(i), Reply::Exists(found)) => {
                if found {
                    Lookup::ask(name, Stage::Opening(i))
                } else if i + 1 < NUM_EXTENSIONS {
                    Lookup::ask(name, Stage::ProbingImages(i + 1))
                } else {
                    Outcome::Done(Ok(None))
                }
            },
            (Stage::Opening(_), Reply::Processed(processed)) => match processed {
                Ok(image) => Lookup::ask(name, Stage::Creating(image)),
                Err(e) => Outcome::Done(Err(e)),
            },
            (Stage::Creating(image), Reply::Created(created)) => match created {
                Ok(_) => Lookup::ask(name, Stage::Writing(image)),
                Err(e) => Outcome::Done(Err(LoadWithCacheError::CouldntCreateCacheFolder(e))),
            },
            (Stage::Writing(image), Reply::Written(written)) => match written {
                Ok(_) => Outcome::Done(Ok(Some(image))),
                Err(e) => Outcome::Done(Err(LoadWithCacheError::CouldntWriteCachedFile(e))),
            },
            (stage, _) => Lookup::ask(name, stage),
        }
    }
}

/// The cover of one album, disc or track, found at most once: not looked
/// for yet, being looked for, or found to be an image or none.
#[derive(Debug)]
pub enum CoverCell {
    /// Nothing has been looked for.
    Unresolved,
    /// The lookup waits for a reply.
    Resolving(Lookup),
    /// The lookup is over; `None` says that there is no cover at this level.
    Resolved(Option<Image>),
}

/// The mathematical value of a [`CoverCell`].
pub enum CellView {
    /// Nothing has been looked for.
    Unresolved,
    /// The lookup waits for a reply.
    Resolving(LookupView),
    /// The lookup is over.
    Resolved(Option<Image>),
}

impl View for CoverCell {
    type V = CellView;

    open spec fn view(&self) -> CellView {
        match self {
            CoverCell::Unresolved => CellView::Unresolved,
            CoverCell::Resolving(lookup) => CellView::Resolving(lookup@),
            CoverCell::Resolved(found) => CellView::Resolved(*found),
        }
    }
}

/// What a step of a resolution leaves the caller with.
#[derive(Debug)]
pub enum Progress {
    /// Do this and hand back the reply.
    Ask(Request),
    /// The cover is resolved; there is nothing left to do.
    Ready,
    /// The lookup failed. Nothing is remembered of it.
    Failed(LoadWithCacheError),
}

/// The mathematical value of a [`Progress`].
pub enum ProgressView {
    /// Do this and hand back the reply.
    Ask(RequestView),
    /// The cover is resolved.
    Ready,
    /// The lookup failed.
    Failed(LoadWithCacheError),
}

impl View for Progress {
    type V = ProgressView;

    open spec fn view(&self) -> ProgressView {
        match self {
            Progress::Ask(request) => ProgressView::Ask(request@),
            Progress::Ready => ProgressView::Ready,
            Progress::Failed(e) => ProgressView::Failed(*e),
        }
    }
}

/// One step of a cell. A cell that is resolved stays as it is and asks for
/// nothing. A cell that has not begun begins, whatever the reply: a level
/// without a name has no cover of its own. A cell that waits is advanced by
/// the reply; without one it repeats its request. A failure leaves the cell
/// as if nothing had been looked for.
pub open spec fn spec_cell_step(cell: CellView, name: Option<Seq<char>>, reply: Option<Reply>) -> (
    CellView,
    ProgressView,
) {
    match cell {
        CellView::Resolved(_) => (cell, ProgressView::Ready),
        CellView::Unresolved => match name {
            None => (CellView::Resolved(None), ProgressView::Ready),
            Some(n) => (
                CellView::Resolving(LookupView::start(n)),
                ProgressView::Ask(LookupView::start(n).pending()),
            ),
        },
        CellView::Resolving(lookup) => match reply {
            None => (cell, ProgressView::Ask(lookup.pending())),
            Some(r) => match lookup.advance(r) {
                OutcomeView::Ask(next, request) => (
                    CellView::Resolving(next),
                    ProgressView::Ask(request),
                ),
                OutcomeView::Done(Ok(found)) => (CellView::Resolved(found), ProgressView::Ready),
                OutcomeView::Done(Err(e)) => (CellView::Unresolved, ProgressView::Failed(e)),
            },
        },
    }
}

/// One level of a chain of covers: the name under which the level looks for
/// its cover, if it has one, and its cell.
pub struct LevelView {
    /// The lookup name of the level.
    pub name: Option<Seq<char>>,
    /// The cell of the level.
    pub cell: CellView,
}

/// What a level makes of a step: it ends the step itself, or it hands a
/// reply, or none, to the level above.
#[derive(Debug)]
pub enum Turn {
    /// The step ends here.
    Stop(Progress),
    /// The level has no cover of its own; the level above goes on.
    Above(Option<Reply>),
}

/// The mathematical value of a [`Turn`].
pub enum TurnView {
    /// The step ends here.
    Stop(ProgressView),
    /// The level above goes on.
    Above(Option<Reply>),
}

impl View for Turn {
    type V = TurnView;

    open spec fn view(&self) -> TurnView {
        match self {
            Turn::Stop(progress) => TurnView::Stop(progress@),
            Turn::Above(reply) => TurnView::Above(*reply),
        }
    }
}

/// One step of one level of a chain. A level with a cover ends the step. A
/// level that is known to have none hands the reply to the level above it.
/// Any other level takes the step itself; if it finds that it has no cover,
/// the level above begins.
pub open spec fn spec_level_step(cell: CellView, name: Option<Seq<char>>, reply: Option<Reply>) -> (
    CellView,
    TurnView,
) {
    match cell {
        CellView::Resolved(Some(_)) => (cell, TurnView::Stop(ProgressView::Ready)),
        CellView::Resolved(None) => (cell, TurnView::Above(reply)),
        _ => {
            let stepped = spec_cell_step(cell, name, reply);
            if stepped.0 == CellView::Resolved(None) {
                (stepped.0, TurnView::Above(None))
            } else {
                (stepped.0, TurnView::Stop(stepped.1))
            }
        },
    }
}

/// One step of a chain of levels, the level that was asked first: each
/// level takes its turn until one of them ends the step. Where no level is
/// left, there is no cover and nothing to do.
pub open spec fn spec_chain_step(chain: Seq<LevelView>, reply: Option<Reply>) -> (
    Seq<LevelView>,
    ProgressView,
)
    decreases chain.len(),
{
    if chain.len() == 0 {
        (chain, ProgressView::Ready)
    } else {
        let stepped = spec_level_step(chain[0].cell, chain[0].name, reply);
        let now = LevelView { name: chain[0].name, cell: stepped.0 };
        match stepped.1 {
            TurnView::Stop(progress) => (seq![now] + chain.skip(1), progress),
            TurnView::Above(handed) => {
                let above = spec_chain_step(chain.skip(1), handed);
                (seq![now] + above.0, above.1)
            },
        }
    }
}

/// The cover that a chain of levels has found: that of the first level that
/// has one, where every level before it is known to have none.
pub open spec fn spec_chain_cover(chain: Seq<LevelView>) -> Option<Image>
    decreases chain.len(),
{
    if chain.len() == 0 {
        None
    } else {
        match chain[0].cell {
            CellView::Resolved(Some(image)) => Some(image),
            CellView::Resolved(None) => spec_chain_cover(chain.skip(1)),
            _ => None,
        }
    }
}

/// Whether a chain has come to its end: some level has a cover and every
/// level before it is known to have none, or no level has one.
pub open spec fn spec_chain_settled(chain: Seq<LevelView>) -> bool
    decreases chain.len(),
{
    if chain.len() == 0 {
        true
    } else {
        match chain[0].cell {
            CellView::Resolved(Some(_)) => true,
            CellView::Resolved(None) => spec_chain_settled(chain.skip(1)),
            _ => false,
        }
    }
}

/// A chain that has come to its end stays as it is, whatever reply it is
/// handed, and asks for nothing: the files are looked at once.
pub proof fn lemma_settled_chain_asks_nothing(chain: Seq<LevelView>, reply: Option<Reply>)
    requires
        spec_chain_settled(chain),
    ensures
        spec_chain_step(chain, reply) == (chain, ProgressView::Ready),
    decreases chain.len(),
{
    if chain.len() > 0 {
        let now = LevelView { name: chain[0].name, cell: chain[0].cell };
        assert(seq![now] + chain.skip(1) =~= chain);
        match chain[0].cell {
            CellView::Resolved(None) => {
                lemma_settled_chain_asks_nothing(chain.skip(1), reply);
            },
            _ => {},
        }
    }
}

/// A step that ends with `Ready` leaves the chain at its end.
pub proof fn lemma_ready_chain_is_settled(chain: Seq<LevelView>, reply: Option<Reply>)
    requires
        spec_chain_step(chain, reply).1 is Ready,
    ensures
        spec_chain_settled(spec_chain_step(chain, reply).0),
    decreases chain.len(),
{
    if chain.len() > 0 {
        let stepped = spec_level_step(chain[0].cell, chain[0].name, reply);
        let now = LevelView { name: chain[0].name, cell: stepped.0 };
        match stepped.1 {
            TurnView::Stop(progress) => {
                assert((seq![now] + chain.skip(1))[0] == now);
            },
            TurnView::Above(handed) => {
                lemma_ready_chain_is_settled(chain.skip(1), handed);
                let above = spec_chain_step(chain.skip(1), handed);
                assert((seq![now] + above.0).skip(1) =~= above.0);
                assert((seq![now] + above.0)[0] == now);
            },
        }
    }
}

/// A level without a cover of its own has the cover of the level above it.
pub proof fn lemma_cover_falls_back(chain: Seq<LevelView>)
    requires
        chain.len() >= 2,
        chain[0].cell == CellView::Resolved(None),
    ensures
        spec_chain_cover(chain) == spec_chain_cover(chain.skip(1)),
        chain[1].cell matches CellView::Resolved(Some(image)) ==> spec_chain_cover(chain) == Some(
            image,
        ),
{
    assert(chain.skip(1)[0] == chain[1]);
}

/// Whether the cache, as a set of file names, answers a lookup: it holds
/// the file for one of the extensions that are tried.
pub open spec fn spec_cache_hit(name: Seq<char>, cache: Set<Seq<char>>) -> bool {
    exists|i: int| 0 <= i < NUM_EXTENSIONS && cache.contains(#[trigger] spec_file_name(
        name,
        spec_extension(i),
    ))
}

/// Where a lookup stands once the questions about the cache are answered
/// from `cache`, beginning at the stage of `lookup`: at the request to read
/// a cached file, or at the first question about the source images.
pub open spec fn spec_after_cache(lookup: LookupView, cache: Set<Seq<char>>) -> OutcomeView
    decreases
        (match lookup.stage {
            Stage::ProbingCache(i) => NUM_EXTENSIONS - i,
            _ => 0,
        }),
{
    match lookup.stage {
        Stage::ProbingCache(i) => if i < NUM_EXTENSIONS {
            match lookup.advance(Reply::Exists(cache.contains(lookup.file(i as int)))) {
                OutcomeView::Ask(next, request) => spec_after_cache(next, cache),
                done => done,
            }
        } else {
            OutcomeView::Ask(lookup, lookup.pending())
        },
        _ => OutcomeView::Ask(lookup, lookup.pending()),
    }
}

/// A lookup that finds its file in the cache asks to read it. It never asks
/// for a source image, so nothing is transformed again.
pub proof fn lemma_cache_hit_reads(name: Seq<char>, cache: Set<Seq<char>>)
    requires
        spec_cache_hit(name, cache),
    ensures
        spec_after_cache(LookupView::start(name), cache) matches OutcomeView::Ask(
            _,
            RequestView::Read { file },
        ) && cache.contains(file),
{
    let l0 = LookupView::start(name);
    let l1 = LookupView { name, stage: Stage::ProbingCache(1) };
    let l2 = LookupView { name, stage: Stage::ProbingCache(2) };
    let hit = choose|i: int|
        0 <= i < NUM_EXTENSIONS && cache.contains(
            #[trigger] spec_file_name(name, spec_extension(i)),
        );
    reveal_with_fuel(spec_after_cache, 5);
    if cache.contains(l0.file(0)) {
    } else if cache.contains(l1.file(1)) {
    } else {
        assert(hit == 2);
        assert(cache.contains(l2.file(2)));
    }
}

/// What a lookup writes to the cache is found there by the next lookup of
/// the same name: the transformed image is written under an extension that
/// is tried.
pub proof fn lemma_written_file_is_found(name: Seq<char>, image: Image, cache: Set<Seq<char>>)
    ensures
        (LookupView { name, stage: Stage::Writing(image) }).pending() matches RequestView::Write {
            file,
            data,
        } && data == image.data@ && spec_cache_hit(name, cache.insert(file)),
{
    let file = spec_file_name(name, image.format.spec_ext());
    match image.format {
        Format::Png => {
            assert(cache.insert(file).contains(spec_file_name(name, spec_extension(0))));
        },
        Format::Jpeg => {
            assert(cache.insert(file).contains(spec_file_name(name, spec_extension(1))));
        },
    }
}

impl CoverCell {
    /// A cell for which nothing has been looked for.
    pub fn new() -> (r: CoverCell)
        ensures
            r@ == CellView::Unresolved,
    {
        CoverCell::Unresolved
    }

    /// Whether the lookup is over.
    pub fn is_resolved(&self) -> (r: bool)
        ensures
            r == (self@ is Resolved),
    {
        match self {
            CoverCell::Resolved(_) => true,
            _ => false,
        }
    }

    /// The image that was found, if the lookup is over and found one.
    pub fn image(&self) -> (r: Option<&Image>)
        ensures
            match self@ {
                CellView::Resolved(Some(image)) => r == Some(&image),
                _ => r is None,
            },
    {
        match self {
            CoverCell::Resolved(Some(image)) => Some(image),
            _ => None,
        }
    }

    /// Takes one step: begins the lookup, goes on with it after a reply, or
    /// finds that there is nothing left to do.
    pub fn step(&mut self, name: Option<&str>, reply: Option<Reply>) -> (r: Progress)
        ensures
            (final(self)@, r@) == spec_cell_step(
                old(self)@,
                crate::text::option_str_view(name),
                reply,
            ),
    {
        let mut cell = CoverCell::Unresolved;
        core::mem::swap(self, &mut cell);
        match cell {
            CoverCell::Resolved(found) => {
                *self = CoverCell::Resolved(found);
                Progress::Ready
            },
            CoverCell::Unresolved => match name {
                None => {
                    *self = CoverCell::Resolved(None);
                    Progress::Ready
                },
                Some(n) => {
                    let lookup = Lookup::start(n);
                    let request = lookup.pending();
                    *self = CoverCell::Resolving(lookup);
                    Progress::Ask(request)
                },
            },
            CoverCell::Resolving(lookup) => match reply {
                None => {
                    let request = lookup.pending();
                    *self = CoverCell::Resolving(lookup);
                    Progress::Ask(request)
                },
                Some(r) => match lookup.advance(r) {
                    Outcome::Ask(next, request) => {
                        *self = CoverCell::Resolving(next);
                        Progress::Ask(request)
                    },
                    Outcome::Done(Ok(found)) => {
                        *self = CoverCell::Resolved(found);
                        Progress::Ready
                    },
                    Outcome::Done(Err(e)) => Progress::Failed(e),
                },
            },
        }
    }
}

/// Lets one level of a chain take its turn.
pub fn step_level(own: &mut CoverCell, name: Option<&str>, reply: Option<Reply>) -> (r: Turn)
    ensures
        (final(own)@, r@) == spec_level_step(
            old(own)@,
            crate::text::option_str_view(name),
            reply,
        ),
{
    let resolved = own.is_resolved();
    if resolved {
        match own.image() {
            Some(_) => Turn::Stop(Progress::Ready),
            None => Turn::Above(reply),
        }
    } else {
        let progress = own.step(name, reply);
        let none_here = own.is_resolved() && own.image().is_none();
        if none_here {
            Turn::Above(None)
        } else {
            Turn::Stop(progress)
        }
    }
}

/// The lookup name of the cover of an album.
pub open spec fn spec_front_cover() -> Seq<char> {
    "Front Cover"@
}

} // verus!
