//! The image state store: what is known of the images built so far.
//!
//! The state of each built image is kept under the recipe, image and format
//! it was built for. A job asks the store whether the image it needs can be
//! reused, and tells it of every image it builds.

use crate::deps::{add_missing, extend_unique, lemma_extend_unique, lemma_unique_is_kept};
use crate::error::{PkgerError, PkgerErrorView};
use crate::target::{Os, OsView, RecipeTarget, RecipeTargetView};
use crate::text::{copy_texts, decimal, list_contains, push_decimal};
use vstd::prelude::*;
use vstd::string::*;

verus! {

/// A point in time, counted from the start of 1970.
#[derive(Clone, Copy, Debug, PartialEq, Eq, Hash, Structural)]
pub struct Timestamp {
    pub secs: u64,
    pub nanos: u32,
}

/// The tag of an image built at `at` on top of `image`: the name of the
/// image, a hyphen and the seconds of the time stamp.
pub open spec fn tag_of(image: Seq<char>, at: Timestamp) -> Seq<char> {
    image + "-"@ + decimal(at.secs as nat)
}

/// The tag under which a newly built image is committed.
pub fn image_tag(image: &str, at: &Timestamp) -> (r: String)
    ensures
        r@ == tag_of(image@, *at),
{
    let mut r = image.to_owned();
    r.append("-");
    push_decimal(&mut r, at.secs);
    r
}

/// Saved state of an image that contains all the metadata of the image
#[derive(Clone, Debug, PartialEq, Eq)]
pub struct ImageState {
    pub id: String,
    pub image: String,
    pub tag: String,
    pub os: Os,
    pub timestamp: Timestamp,
    /// What the container runtime reports of the image, kept as it came.
    pub details: String,
    /// The packages installed when the image was built.
    pub deps: Vec<String>,
    /// Whether the image was made from the minimal default definition
    /// rather than from a definition the user supplied.
    pub simple: bool,
}

pub struct ImageStateView {
    pub id: Seq<char>,
    pub image: Seq<char>,
    pub tag: Seq<char>,
    pub os: OsView,
    pub timestamp: Timestamp,
    pub details: Seq<char>,
    pub deps: Seq<Seq<char>>,
    pub simple: bool,
}

impl View for ImageState {
    type V = ImageStateView;

    open spec fn view(&self) -> ImageStateView {
        ImageStateView {
            id: self.id@,
            image: self.image@,
            tag: self.tag@,
            os: self.os@,
            timestamp: self.timestamp,
            details: self.details@,
            deps: self.deps.deep_view(),
            simple: self.simple,
        }
    }
}

impl DeepView for ImageState {
    type V = ImageStateView;

    open spec fn deep_view(&self) -> ImageStateView {
        self@
    }
}

/// The system inside an image: the one the recipe declares, else the one
/// detected in the image, else unknown.
pub open spec fn known_os(declared: Option<OsView>, detected: Option<OsView>) -> Option<OsView> {
    match declared {
        Some(os) => Some(os),
        None => detected,
    }
}

impl ImageStateView {
    /// The state with each installed package named once. The installed
    /// packages are a set: naming one twice says nothing more.
    pub open spec fn normalized(self) -> ImageStateView {
        ImageStateView { deps: extend_unique(Seq::empty(), self.deps), ..self }
    }

    /// Whether the image can be used again: it still exists, it was built
    /// with exactly the packages required now, and it was made in the way
    /// images are made now.
    pub open spec fn reusable(self, exists: bool, required: Set<Seq<char>>, simple: bool) -> bool {
        exists && self.deps.to_set() == required && self.simple == simple
    }
}

/// A normalized state names no package twice and holds the same packages
/// as before; a state that names none twice is its own normal form.
pub proof fn lemma_normalized(state: ImageStateView)
    ensures
        state.normalized().deps.no_duplicates(),
        state.normalized().deps.to_set() == state.deps.to_set(),
        state.deps.no_duplicates() ==> state.normalized() == state,
        state.normalized().normalized() == state.normalized(),
{
    lemma_extend_unique(Seq::empty(), state.deps);
    assert(state.normalized().deps.to_set() =~= state.deps.to_set());
    if state.deps.no_duplicates() {
        lemma_unique_is_kept(state.deps);
    }
    lemma_unique_is_kept(state.normalized().deps);
}

/// Whether every name of `a` is in `b`.
fn all_within(a: &Vec<String>, b: &Vec<String>) -> (r: bool)
    ensures
        r == a.deep_view().to_set().subset_of(b.deep_view().to_set()),
{
    let mut i: usize = 0;
    while i < a.len()
        invariant
            i <= a@.len(),
            forall|j: int| 0 <= j < i ==> b.deep_view().contains(#[trigger] a.deep_view()[j]),
        decreases a@.len() - i,
    {
        if !list_contains(b, a[i].as_str()) {
            assert(a.deep_view().to_set().contains(a.deep_view()[i as int]));
            return false;
        }
        i += 1;
    }
    true
}

/// Whether two lists hold the same names, whatever their order and however
/// often each occurs.
pub fn same_names(a: &Vec<String>, b: &Vec<String>) -> (r: bool)
    ensures
        r == (a.deep_view().to_set() == b.deep_view().to_set()),
{
    let r = all_within(a, b) && all_within(b, a);
    assert(r == (a.deep_view().to_set() =~= b.deep_view().to_set()));
    r
}

impl ImageState {
    /// The state of a newly built image. The system inside the image is the
    /// one the recipe declares and, where it declares none, the one that
    /// was detected; with neither, the state cannot be made.
    pub fn new(
        id: &str,
        target: &RecipeTarget,
        tag: &str,
        timestamp: &Timestamp,
        declared_os: Option<&Os>,
        detected_os: Option<Os>,
        details: &str,
        deps: &Vec<String>,
        simple: bool,
    ) -> (r: Result<ImageState, PkgerError>)
        ensures
            match r {
                Ok(state) => known_os(declared_os.deep_view(), detected_os.deep_view()) matches Some(
                    os,
                ) && state@ == (ImageStateView {
                    id: id@,
                    image: target@.image,
                    tag: tag@,
                    os,
                    timestamp: *timestamp,
                    details: details@,
                    deps: extend_unique(Seq::empty(), deps.deep_view()),
                    simple,
                }) && state@.deps.no_duplicates(),
                Err(e) => known_os(declared_os.deep_view(), detected_os.deep_view()) is None && e@
                    == (PkgerErrorView::OsDetectionFailed { image: target@.image }),
            },
    {
        let os = match declared_os {
            Some(os) => os.duplicate(),
            None => match detected_os {
                Some(os) => os,
                None => {
                    return Err(PkgerError::OsDetectionFailed { image: target.image.clone() });
                },
            },
        };
        let mut names: Vec<String> = Vec::new();
        assert(names.deep_view() == Seq::<Seq<char>>::empty());
        add_missing(&mut names, deps);
        proof {
            lemma_extend_unique(Seq::empty(), deps.deep_view());
        }
        Ok(
            ImageState {
                id: id.to_owned(),
                image: target.image.clone(),
                tag: tag.to_owned(),
                os,
                timestamp: *timestamp,
                details: details.to_owned(),
                deps: names,
                simple,
            },
        )
    }

    /// Whether the image can be used again. `exists` says whether the
    /// container runtime still has the image, `required` names the packages
    /// the recipe demands now, and `simple` the way images are made now.
    pub fn is_reusable(&self, exists: bool, required: &Vec<String>, simple: bool) -> (r: bool)
        ensures
            r == self@.reusable(exists, required.deep_view().to_set(), simple),
    {
        exists && same_names(&self.deps, required) && self.simple == simple
    }

    /// A copy with each installed package named once.
    pub fn normalized(&self) -> (r: ImageState)
        ensures
            r@ == self@.normalized(),
            r@.deps.no_duplicates(),
    {
        let mut deps: Vec<String> = Vec::new();
        assert(deps.deep_view() == Seq::<Seq<char>>::empty());
        add_missing(&mut deps, &self.deps);
        proof {
            lemma_normalized(self@);
        }
        ImageState {
            id: self.id.clone(),
            image: self.image.clone(),
            tag: self.tag.clone(),
            os: self.os.duplicate(),
            timestamp: self.timestamp,
            details: self.details.clone(),
            deps,
            simple: self.simple,
        }
    }

    pub fn duplicate(&self) -> (r: ImageState)
        ensures
            r@ == self@,
    {
        ImageState {
            id: self.id.clone(),
            image: self.image.clone(),
            tag: self.tag.clone(),
            os: self.os.duplicate(),
            timestamp: self.timestamp,
            details: self.details.clone(),
            deps: copy_texts(&self.deps),
            simple: self.simple,
        }
    }
}

/// The state file that is used where no other is named.
pub open spec fn default_state_file() -> Seq<char> {
    ".pkger.state"@
}

/// A cached image together with the key it is kept under.
pub type Entry = (RecipeTargetView, ImageStateView);

/// Whether no two entries have the same key.
pub open spec fn unique_keys(entries: Seq<Entry>) -> bool {
    forall|i: int, j: int|
        0 <= i < j < entries.len() ==> (#[trigger] entries[i]).0 != (#[trigger] entries[j]).0
}

/// Whether no state names a package twice.
pub open spec fn unique_deps(entries: Seq<Entry>) -> bool {
    forall|i: int| 0 <= i < entries.len() ==> (#[trigger] entries[i]).1.deps.no_duplicates()
}

/// The index of the first entry with the key `key`; the number of entries
/// where none has it.
pub open spec fn position(entries: Seq<Entry>, key: RecipeTargetView) -> int
    decreases entries.len(),
{
    if entries.len() == 0 {
        0
    } else if entries[0].0 == key {
        0
    } else {
        1 + position(entries.skip(1), key)
    }
}

/// The entries after `state` is stored under `key`: the entry with that key
/// is replaced where there is one, else a new entry comes last.
pub open spec fn put(entries: Seq<Entry>, key: RecipeTargetView, state: ImageStateView) -> Seq<
    Entry,
> {
    let at = position(entries, key);
    if at < entries.len() {
        entries.update(at, (key, state))
    } else {
        entries.push((key, state))
    }
}

/// The mapping that a list of entries stands for. Of two entries with the
/// same key the later one counts.
pub open spec fn map_of(entries: Seq<Entry>) -> Map<RecipeTargetView, ImageStateView>
    decreases entries.len(),
{
    if entries.len() == 0 {
        Map::empty()
    } else {
        map_of(entries.drop_last()).insert(entries.last().0, entries.last().1)
    }
}

/// `position` finds the first entry with the key, and none before it has it.
pub(crate) proof fn lemma_position(entries: Seq<Entry>, key: RecipeTargetView)
    ensures
        0 <= position(entries, key) <= entries.len(),
        position(entries, key) < entries.len() ==> entries[position(entries, key)].0 == key,
        forall|i: int| 0 <= i < position(entries, key) ==> (#[trigger] entries[i]).0 != key,
    decreases entries.len(),
{
    if entries.len() > 0 && entries[0].0 != key {
        let rest = entries.skip(1);
        lemma_position(rest, key);
        assert forall|i: int| 0 <= i < position(entries, key) implies (#[trigger] entries[i]).0
            != key by {
            if i > 0 {
                assert(entries[i] == rest[i - 1]);
            }
        }
    }
}

/// The mapping holds exactly the keys of the entries.
proof fn lemma_map_of_keys(entries: Seq<Entry>, key: RecipeTargetView)
    ensures
        map_of(entries).contains_key(key) <==> position(entries, key) < entries.len(),
    decreases entries.len(),
{
    lemma_position(entries, key);
    if entries.len() > 0 {
        let head = entries.drop_last();
        lemma_map_of_keys(head, key);
        lemma_position(head, key);
        if position(entries, key) < head.len() {
            assert(head[position(entries, key)] == entries[position(entries, key)]);
        }
    }
}

/// Where no key occurs twice, the mapping gives each key the state of its
/// entry.
proof fn lemma_map_of_entry(entries: Seq<Entry>, at: int)
    requires
        unique_keys(entries),
        0 <= at < entries.len(),
    ensures
        map_of(entries).contains_key(entries[at].0),
        map_of(entries)[entries[at].0] == entries[at].1,
    decreases entries.len(),
{
    let head = entries.drop_last();
    if at < entries.len() - 1 {
        lemma_map_of_entry(head, at);
    }
}

/// Storing a state that names no package twice leaves the store without a
/// state that does.
pub proof fn lemma_put_keeps_deps(entries: Seq<Entry>, key: RecipeTargetView, state: ImageStateView)
    requires
        unique_deps(entries),
        state.deps.no_duplicates(),
    ensures
        unique_deps(put(entries, key, state)),
{
    lemma_position(entries, key);
    let after = put(entries, key, state);
    assert forall|i: int| 0 <= i < after.len() implies (#[trigger] after[i]).1.deps.no_duplicates() by {
        if i < entries.len() && i != position(entries, key) {
            assert(after[i] == entries[i]);
        }
    }
}

/// Storing a state under a key changes the mapping at that key and nowhere
/// else, and leaves every key with one entry.
pub proof fn lemma_put(entries: Seq<Entry>, key: RecipeTargetView, state: ImageStateView)
    requires
        unique_keys(entries),
    ensures
        unique_keys(put(entries, key, state)),
        map_of(put(entries, key, state)) == map_of(entries).insert(key, state),
    decreases entries.len(),
{
    lemma_position(entries, key);
    let at = position(entries, key);
    let after = put(entries, key, state);
    if at < entries.len() {
        let head = entries.drop_last();
        if at == entries.len() - 1 {
            assert(after.drop_last() == head);
        } else {
            lemma_position(head, key);
            assert(position(head, key) == at) by {
                assert(head[at] == entries[at]);
            }
            lemma_put(head, key, state);
            assert(after.drop_last() == put(head, key, state));
        }
    } else {
        assert(after.drop_last() == entries);
    }
}

/// The in-memory store of image states, with the file it is kept in.
#[derive(Debug, PartialEq, Eq)]
pub struct ImagesState {
    /// Contains historical build data of images. Each entry pairs the
    /// target an image was built for with the state of the image; no target
    /// occurs twice.
    images: Vec<(RecipeTarget, ImageState)>,
    /// Path to a file containing image state
    state_file: String,
}

pub struct ImagesStateView {
    /// The cached images, in the order in which their keys were first
    /// stored.
    pub entries: Seq<Entry>,
    pub state_file: Seq<char>,
}

impl ImagesStateView {
    /// Every key has one entry, and no state names a package twice.
    pub open spec fn wf(self) -> bool {
        unique_keys(self.entries) && unique_deps(self.entries)
    }

    /// The store as a mapping from targets to image states.
    pub open spec fn images(self) -> Map<RecipeTargetView, ImageStateView> {
        map_of(self.entries)
    }

    /// A store that holds nothing.
    pub open spec fn empty(state_file: Seq<char>) -> ImagesStateView {
        ImagesStateView { entries: Seq::empty(), state_file }
    }

    /// The store after `state` is stored under `key`, with each of its
    /// installed packages named once.
    pub open spec fn updated(self, key: RecipeTargetView, state: ImageStateView)
        -> ImagesStateView {
        ImagesStateView {
            entries: put(self.entries, key, state.normalized()),
            state_file: self.state_file,
        }
    }

    /// Whether the image cached for `key` can be used again: the store has
    /// a state for the key, the image of that state still exists, it was
    /// built with exactly the packages required now, and it was made in the
    /// way images are made now.
    pub open spec fn cache_hit(
        self,
        key: RecipeTargetView,
        exists: bool,
        required: Set<Seq<char>>,
        simple: bool,
    ) -> bool {
        self.images().contains_key(key) && self.images()[key].reusable(exists, required, simple)
    }
}

impl View for ImagesState {
    type V = ImagesStateView;

    closed spec fn view(&self) -> ImagesStateView {
        ImagesStateView { entries: self.images.deep_view(), state_file: self.state_file@ }
    }
}

impl Default for ImagesState {
    fn default() -> (r: ImagesState)
        ensures
            r@ == ImagesStateView::empty(default_state_file()),
    {
        ImagesState::new(".pkger.state")
    }
}

impl ImagesState {
    #[verifier::type_invariant]
    spec fn valid(self) -> bool {
        unique_keys(self.images.deep_view()) && unique_deps(self.images.deep_view())
    }

    /// An empty store kept in `state_file`.
    pub fn new(state_file: &str) -> (r: ImagesState)
        ensures
            r@ == ImagesStateView::empty(state_file@),
            r@.wf(),
    {
        let images: Vec<(RecipeTarget, ImageState)> = Vec::new();
        assert(images.deep_view() == Seq::<Entry>::empty());
        ImagesState { images, state_file: state_file.to_owned() }
    }

    /// The file the store is kept in.
    pub fn state_file(&self) -> (r: &str)
        ensures
            r@ == self@.state_file,
    {
        self.state_file.as_str()
    }

    /// The number of cached images.
    pub fn len(&self) -> (r: usize)
        ensures
            self@.wf(),
            r == self@.entries.len(),
    {
        proof {
            use_type_invariant(self);
        }
        self.images.len()
    }

    /// The cached image at index `i`, with its key; nothing past the last
    /// one.
    pub fn entry(&self, i: usize) -> (r: Option<(&RecipeTarget, &ImageState)>)
        ensures
            match r {
                Some(pair) => i < self@.entries.len() && (pair.0@, pair.1@) == self@.entries[i as int],
                None => i >= self@.entries.len(),
            },
    {
        if i < self.images.len() {
            Some((&self.images[i].0, &self.images[i].1))
        } else {
            None
        }
    }

    fn index_of(&self, target: &RecipeTarget) -> (r: usize)
        ensures
            r == position(self@.entries, target@),
    {
        let ghost entries = self.images.deep_view();
        let mut i: usize = 0;
        assert(entries.skip(0) == entries);
        while i < self.images.len()
            invariant
                i <= self.images@.len(),
                entries == self.images.deep_view(),
                position(entries, target@) == i + position(entries.skip(i as int), target@),
            decreases self.images@.len() - i,
        {
            if self.images[i].0.same_as(target) {
                return i;
            }
            assert(entries.skip(i as int).skip(1) == entries.skip(i + 1));
            i += 1;
        }
        i
    }

    /// The state cached for `target`, if there is one.
    pub fn find(&self, target: &RecipeTarget) -> (r: Option<&ImageState>)
        ensures
            self@.wf(),
            match r {
                Some(state) => self@.images().contains_key(target@) && self@.images()[target@]
                    == state@,
                None => !self@.images().contains_key(target@),
            },
    {
        proof {
            use_type_invariant(self);
            lemma_position(self@.entries, target@);
            lemma_map_of_keys(self@.entries, target@);
        }
        let at = self.index_of(target);
        if at < self.images.len() {
            proof {
                lemma_map_of_entry(self@.entries, at as int);
            }
            Some(&self.images[at].1)
        } else {
            None
        }
    }

    /// The cached state of the image for `target` where it can be used
    /// again, and nothing where the image has to be built. `exists` says
    /// whether the container runtime still has the cached image; it is not
    /// looked at where the store has no state for the target.
    pub fn cached(
        &self,
        target: &RecipeTarget,
        exists: bool,
        required: &Vec<String>,
        simple: bool,
    ) -> (r: Option<&ImageState>)
        ensures
            r is Some <==> self@.cache_hit(target@, exists, required.deep_view().to_set(), simple),
            r matches Some(state) ==> self@.images()[target@] == state@,
    {
        match self.find(target) {
            Some(state) => {
                if state.is_reusable(exists, required, simple) {
                    Some(state)
                } else {
                    None
                }
            },
            None => None,
        }
    }

    /// Updates the target image with a new state. The installed packages
    /// of the state are a set: each of them is stored once.
    pub fn update(&mut self, target: &RecipeTarget, state: &ImageState)
        ensures
            final(self)@ == old(self)@.updated(target@, state@),
            final(self)@.images() == old(self)@.images().insert(target@, state@.normalized()),
            final(self)@.wf(),
    {
        proof {
            use_type_invariant(&*self);
            lemma_position(self@.entries, target@);
            lemma_normalized(state@);
            lemma_put(self@.entries, target@, state@.normalized());
            lemma_put_keeps_deps(self@.entries, target@, state@.normalized());
        }
        let ghost before = self.images.deep_view();
        let at = self.index_of(target);
        let entry = (target.duplicate(), state.normalized());
        let mut taken = ImagesState::new("");
        std::mem::swap(self, &mut taken);
        let ImagesState { images, state_file } = taken;
        let mut images = images;
        if at < images.len() {
            images.set(at, entry);
            assert(images.deep_view() == before.update(at as int, (target@, state@.normalized())));
        } else {
            images.push(entry);
            assert(images.deep_view() == before.push((target@, state@.normalized())));
        }
        *self = ImagesState { images, state_file };
    }
}

/// The last state stored under a key is the one that is found, whatever
/// was stored under it before.
pub proof fn lemma_last_writer_wins(
    store: ImagesStateView,
    key: RecipeTargetView,
    first: ImageStateView,
    second: ImageStateView,
)
    requires
        store.wf(),
    ensures
        store.updated(key, first).updated(key, second).images() == store.images().insert(
            key,
            second.normalized(),
        ),
{
    lemma_put(store.entries, key, first.normalized());
    lemma_put(store.updated(key, first).entries, key, second.normalized());
    assert(store.images().insert(key, first.normalized()).insert(key, second.normalized())
        =~= store.images().insert(key, second.normalized()));
}

/// An image that has just been stored is reused as long as it exists and
/// neither the required packages nor the way images are made change: a
/// second run of the same job builds nothing.
pub proof fn lemma_stored_image_is_reused(
    store: ImagesStateView,
    key: RecipeTargetView,
    state: ImageStateView,
)
    requires
        store.wf(),
    ensures
        store.updated(key, state).cache_hit(key, true, state.deps.to_set(), state.simple),
{
    lemma_normalized(state);
    lemma_put(store.entries, key, state.normalized());
}

} // verus!
