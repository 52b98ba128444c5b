//! The persisted form of the image state store.
//!
//! The store is written as CBOR. Each cached image becomes one row of plain
//! values, the rows and the path of the state file are handed to the CBOR
//! encoder, and reading goes the same way back.

use crate::deps::{add_missing, extend_unique, lemma_extend_unique};
use crate::error::{PkgerError, PkgerErrorView};
use crate::state::{
    lemma_normalized, lemma_position, put, unique_deps, unique_keys, Entry, ImageState,
    ImageStateView, ImagesState, ImagesStateView, Timestamp,
};
use crate::target::{
    lemma_build_target_name_round_trip, BuildTarget, Os, OsView, RecipeTarget, RecipeTargetView,
};
use crate::text::{copy_text, copy_texts, str_eq};
use vstd::prelude::*;

verus! {

/// One cached image as plain values: eight texts (the recipe, the image and
/// the format of the key, then the id, the image, the tag, the
/// distribution and the details of the state), the release of the
/// distribution, the seconds and nanoseconds of the time stamp, the
/// installed packages, and the mark of a simple image.
pub type ImageRow = (Vec<String>, Option<String>, u64, u32, Vec<String>, bool);

pub type ImageRowView = (Seq<Seq<char>>, Option<Seq<char>>, u64, u32, Seq<Seq<char>>, bool);

/// The row of an entry.
pub open spec fn row_of(key: RecipeTargetView, state: ImageStateView) -> ImageRowView {
    (
        seq![
            key.recipe,
            key.image,
            key.build_target.name(),
            state.id,
            state.image,
            state.tag,
            state.os.distro,
            state.details,
        ],
        state.os.version,
        state.timestamp.secs,
        state.timestamp.nanos,
        state.deps,
        state.simple,
    )
}

/// The entry of a row, with each installed package named once; none for a
/// row that has not eight texts or names no format.
pub open spec fn entry_of(row: ImageRowView) -> Option<Entry> {
    if row.0.len() == 8 {
        match BuildTarget::named(row.0[2]) {
            Some(build_target) => Some(
                (
                    RecipeTargetView { recipe: row.0[0], image: row.0[1], build_target },
                    ImageStateView {
                        id: row.0[3],
                        image: row.0[4],
                        tag: row.0[5],
                        os: OsView { distro: row.0[6], version: row.1 },
                        timestamp: Timestamp { secs: row.2, nanos: row.3 },
                        details: row.0[7],
                        deps: extend_unique(Seq::empty(), row.4),
                        simple: row.5,
                    },
                ),
            ),
            None => None,
        }
    } else {
        None
    }
}

pub open spec fn as_row() -> spec_fn(Entry) -> ImageRowView {
    |entry: Entry| row_of(entry.0, entry.1)
}

/// The rows of a store, in the order of its entries.
pub open spec fn rows_of(entries: Seq<Entry>) -> Seq<ImageRowView> {
    entries.map_values(as_row())
}

/// The entries that a list of rows stands for, each stored in turn, so that
/// of two rows with the same key the later one counts; none where a row
/// stands for no entry.
pub open spec fn entries_of(rows: Seq<ImageRowView>) -> Option<Seq<Entry>>
    decreases rows.len(),
{
    if rows.len() == 0 {
        Some(Seq::empty())
    } else {
        match (entries_of(rows.drop_last()), entry_of(rows.last())) {
            (Some(head), Some(entry)) => Some(put(head, entry.0, entry.1)),
            _ => None,
        }
    }
}

/// A row is read back as the entry it was made of, where the state names
/// no package twice.
pub proof fn lemma_row_round_trip(key: RecipeTargetView, state: ImageStateView)
    requires
        state.deps.no_duplicates(),
    ensures
        entry_of(row_of(key, state)) == Some((key, state)),
{
    lemma_build_target_name_round_trip(key.build_target);
    lemma_normalized(state);
}

/// The rows of a store are read back as the entries of the store.
pub proof fn lemma_rows_round_trip(entries: Seq<Entry>)
    requires
        unique_keys(entries),
        unique_deps(entries),
    ensures
        entries_of(rows_of(entries)) == Some(entries),
    decreases entries.len(),
{
    if entries.len() > 0 {
        let head = entries.drop_last();
        let last = entries.last();
        lemma_rows_round_trip(head);
        assert(rows_of(entries).drop_last() == rows_of(head));
        lemma_row_round_trip(last.0, last.1);
        lemma_position(head, last.0);
    }
}

/// The row of one cached image.
pub fn to_row(target: &RecipeTarget, state: &ImageState) -> (r: ImageRow)
    ensures
        r.deep_view() == row_of(target@, state@),
{
    let mut texts: Vec<String> = Vec::new();
    texts.push(target.recipe.clone());
    texts.push(target.image.clone());
    texts.push(target.build_target.as_str().to_owned());
    texts.push(state.id.clone());
    texts.push(state.image.clone());
    texts.push(state.tag.clone());
    texts.push(state.os.distro.clone());
    texts.push(state.details.clone());
    (
        texts,
        copy_text(&state.os.version),
        state.timestamp.secs,
        state.timestamp.nanos,
        copy_texts(&state.deps),
        state.simple,
    )
}

/// The cached image that a row stands for. A package that the row names
/// more than once is kept once.
pub fn from_row(row: &ImageRow) -> (r: Option<(RecipeTarget, ImageState)>)
    ensures
        r.deep_view() == entry_of(row.deep_view()),
        r matches Some(entry) ==> entry.1@.deps.no_duplicates(),
{
    proof {
        lemma_extend_unique(Seq::empty(), row.deep_view().4);
    }
    let texts = &row.0;
    if texts.len() != 8 {
        return None;
    }
    let build_target = match BuildTarget::parse(texts[2].as_str()) {
        Some(build_target) => build_target,
        None => {
            return None;
        },
    };
    let mut deps: Vec<String> = Vec::new();
    assert(deps.deep_view() == Seq::<Seq<char>>::empty());
    add_missing(&mut deps, &row.4);
    let target = RecipeTarget {
        recipe: texts[0].clone(),
        image: texts[1].clone(),
        build_target,
    };
    let state = ImageState {
        id: texts[3].clone(),
        image: texts[4].clone(),
        tag: texts[5].clone(),
        os: Os { distro: texts[6].clone(), version: copy_text(&row.1) },
        timestamp: Timestamp { secs: row.2, nanos: row.3 },
        details: texts[7].clone(),
        deps,
        simple: row.5,
    };
    Some((target, state))
}

/// `serde_cbor::Error`: why the CBOR codec refused a value or a run of
/// bytes. Nothing inside it is looked at here.
#[verifier::external_type_specification]
#[verifier::external_body]
pub struct ExCborError(serde_cbor::Error);

/// The bytes that `serde_cbor::to_vec` makes of the pair of the rows of a
/// store and the path of its state file.
pub uninterp spec fn cbor_encoding(rows: Seq<ImageRowView>, state_file: Seq<char>) -> Seq<u8>;

/// The rows and the path that `serde_cbor::from_slice` reads from `bytes`;
/// none where it refuses them.
pub uninterp spec fn cbor_decoding(bytes: Seq<u8>) -> Option<(Seq<ImageRowView>, Seq<char>)>;

/// Calls `serde_cbor::to_vec` on the pair of the rows and the path. The
/// encoder is a function of the value it is given, and on such a value it
/// does not fail: it writes into a vector, which takes every write, and
/// what it does for a list, a tuple, a text, a missing value, a number and
/// a truth value has no failure of its own. So it returns the encoding of
/// the pair.
#[verifier::external_body]
fn cbor_to_vec(rows: &Vec<ImageRow>, state_file: &str) -> (r: Result<Vec<u8>, serde_cbor::Error>)
    ensures
        r is Ok,
        r matches Ok(bytes) ==> bytes@ == cbor_encoding(rows.deep_view(), state_file@),
{
    serde_cbor::to_vec(&(rows, state_file))
}

/// Calls `serde_cbor::from_slice` for a pair of rows and a path. The
/// decoder is a function of the bytes it is given: it returns the pair that
/// they decode to, or an error where they decode to none.
#[verifier::external_body]
fn cbor_from_slice(bytes: &[u8]) -> (r: Result<(Vec<ImageRow>, String), serde_cbor::Error>)
    ensures
        match r {
            Ok(pair) => cbor_decoding(bytes@) == Some((pair.0.deep_view(), pair.1@)),
            Err(_) => cbor_decoding(bytes@) is None,
        },
{
    serde_cbor::from_slice(bytes)
}

/// The store that decoded rows stand for; a row that stands for no cached
/// image makes the whole file corrupt.
pub open spec fn store_of(rows: Seq<ImageRowView>, state_file: Seq<char>) -> Result<
    ImagesStateView,
    PkgerErrorView,
> {
    match entries_of(rows) {
        Some(entries) => Ok(ImagesStateView { entries, state_file }),
        None => Err(PkgerErrorView::StateFileCorrupt),
    }
}

/// The store that the bytes of a state file stand for.
pub open spec fn decoded(bytes: Seq<u8>) -> Result<ImagesStateView, PkgerErrorView> {
    match cbor_decoding(bytes) {
        Some((rows, state_file)) => store_of(rows, state_file),
        None => Err(PkgerErrorView::StateFileCorrupt),
    }
}

/// What failed where the store could not be encoded.
pub open spec fn encode_failure(state_file: Seq<char>) -> PkgerErrorView {
    PkgerErrorView::IoFailed { path: state_file, cause: "failed to serialize image state"@ }
}

/// A store and a failure by their views.
pub open spec fn store_view(r: Result<ImagesState, PkgerError>) -> Result<ImagesStateView, PkgerErrorView> {
    match r {
        Ok(store) => Ok(store@),
        Err(e) => Err(e@),
    }
}

/// Whether the decoder reads back what the encoder wrote of the rows and
/// the path.
pub open spec fn reads_back(rows: Seq<ImageRowView>, state_file: Seq<char>) -> bool {
    cbor_decoding(cbor_encoding(rows, state_file)) == Some((rows, state_file))
}

/// Decoding inverts encoding: where the decoder reads back what the
/// encoder wrote, the bytes of a store are read as the store it was, with
/// the same state under every key and the same path.
pub proof fn lemma_decode_inverts_encode(store: ImagesStateView)
    requires
        store.wf(),
        reads_back(rows_of(store.entries), store.state_file),
    ensures
        decoded(cbor_encoding(rows_of(store.entries), store.state_file)) == Ok::<
            ImagesStateView,
            PkgerErrorView,
        >(store),
{
    lemma_rows_round_trip(store.entries);
}

/// Whether two lists hold the same texts in the same order.
pub fn same_texts(a: &Vec<String>, b: &Vec<String>) -> (r: bool)
    ensures
        r == (a.deep_view() == b.deep_view()),
{
    if a.len() != b.len() {
        assert(a.deep_view().len() != b.deep_view().len());
        return false;
    }
    let mut i: usize = 0;
    while i < a.len()
        invariant
            i <= a@.len(),
            a@.len() == b@.len(),
            forall|j: int| 0 <= j < i ==> a.deep_view()[j] == b.deep_view()[j],
        decreases a@.len() - i,
    {
        if !str_eq(a[i].as_str(), b[i].as_str()) {
            assert(a.deep_view()[i as int] != b.deep_view()[i as int]);
            return false;
        }
        i += 1;
    }
    assert(a.deep_view() =~= b.deep_view());
    true
}

/// Whether two optional texts are the same.
pub fn same_text(a: &Option<String>, b: &Option<String>) -> (r: bool)
    ensures
        r == (a.deep_view() == b.deep_view()),
{
    match (a, b) {
        (Some(x), Some(y)) => str_eq(x.as_str(), y.as_str()),
        (None, None) => true,
        _ => false,
    }
}

/// Whether two rows hold the same values.
pub fn same_row(a: &ImageRow, b: &ImageRow) -> (r: bool)
    ensures
        r == (a.deep_view() == b.deep_view()),
{
    same_texts(&a.0, &b.0) && same_text(&a.1, &b.1) && a.2 == b.2 && a.3 == b.3 && same_texts(
        &a.4,
        &b.4,
    ) && a.5 == b.5
}

/// Whether two lists hold the same rows in the same order.
pub fn same_rows(a: &Vec<ImageRow>, b: &Vec<ImageRow>) -> (r: bool)
    ensures
        r == (a.deep_view() == b.deep_view()),
{
    if a.len() != b.len() {
        assert(a.deep_view().len() != b.deep_view().len());
        return false;
    }
    let mut i: usize = 0;
    while i < a.len()
        invariant
            i <= a@.len(),
            a@.len() == b@.len(),
            forall|j: int| 0 <= j < i ==> a.deep_view()[j] == b.deep_view()[j],
        decreases a@.len() - i,
    {
        if !same_row(&a[i], &b[i]) {
            assert(a.deep_view()[i as int] != b.deep_view()[i as int]);
            return false;
        }
        i += 1;
    }
    assert(a.deep_view() =~= b.deep_view());
    true
}

/// A prefix of rows that stands for no store makes the whole list stand
/// for none.
proof fn lemma_entries_prefix(rows: Seq<ImageRowView>, n: int)
    requires
        0 <= n <= rows.len(),
        entries_of(rows.take(n)) is None,
    ensures
        entries_of(rows) is None,
    decreases rows.len() - n,
{
    if n < rows.len() {
        assert(rows.take(n + 1).drop_last() == rows.take(n));
        lemma_entries_prefix(rows, n + 1);
    } else {
        assert(rows.take(n) == rows);
    }
}

impl ImagesState {
    /// The rows of the store, in the order of its entries.
    pub fn rows(&self) -> (r: Vec<ImageRow>)
        ensures
            r.deep_view() == rows_of(self@.entries),
            self@.wf(),
    {
        let ghost entries = self@.entries;
        let mut out: Vec<ImageRow> = Vec::new();
        let n = self.len();
        let mut i: usize = 0;
        while i < n
            invariant
                i <= n,
                n == entries.len(),
                entries == self@.entries,
                out.deep_view() == entries.take(i as int).map_values(as_row()),
            decreases n - i,
        {
            let ghost before = out.deep_view();
            if let Some((target, state)) = self.entry(i) {
                let row = to_row(target, state);
                out.push(row);
            }
            assert(out.deep_view() == before.push(as_row()(entries[i as int])));
            proof {
                entries.take(i as int).lemma_push_map_commute(as_row(), entries[i as int]);
            }
            i += 1;
        }
        out
    }

    /// The store that decoded rows stand for. The rows are stored one
    /// after the other; a row that stands for no cached image makes the
    /// state file corrupt.
    pub fn from_rows(rows: &Vec<ImageRow>, state_file: &str) -> (r: Result<ImagesState, PkgerError>)
        ensures
            store_view(r) == store_of(rows.deep_view(), state_file@),
            r matches Ok(store) ==> store@.wf(),
    {
        let ghost all = rows.deep_view();
        let mut store = ImagesState::new(state_file);
        let mut i: usize = 0;
        while i < rows.len()
            invariant
                i <= rows@.len(),
                all == rows.deep_view(),
                store@.wf(),
                store@.state_file == state_file@,
                entries_of(all.take(i as int)) == Some(store@.entries),
            decreases rows@.len() - i,
        {
            assert(all.take(i + 1).drop_last() == all.take(i as int));
            match from_row(&rows[i]) {
                Some((target, state)) => {
                    proof {
                        lemma_extend_unique(Seq::empty(), all[i as int].4);
                        lemma_normalized(state@);
                    }
                    store.update(&target, &state);
                },
                None => {
                    proof {
                        lemma_entries_prefix(all, i + 1);
                    }
                    return Err(PkgerError::StateFileCorrupt);
                },
            }
            i += 1;
        }
        assert(all.take(all.len() as int) == all);
        Ok(store)
    }

    /// What `encode` returns for each outcome of the encoder: its bytes, or
    /// the failure to write the state file.
    pub fn encoded(&self, outcome: Result<Vec<u8>, serde_cbor::Error>) -> (r: Result<
        Vec<u8>,
        PkgerError,
    >)
        ensures
            match outcome {
                Ok(bytes) => r == Ok::<Vec<u8>, PkgerError>(bytes),
                Err(_) => r matches Err(e) && e@ == encode_failure(self@.state_file),
            },
    {
        match outcome {
            Ok(bytes) => Ok(bytes),
            Err(_) => Err(
                PkgerError::IoFailed {
                    path: self.state_file().to_owned(),
                    cause: "failed to serialize image state".to_owned(),
                },
            ),
        }
    }

    /// The store as the bytes of a state file: the CBOR encoding of the
    /// rows of the store and of the path of its file. Every store has one.
    pub fn encode(&self) -> (r: Result<Vec<u8>, PkgerError>)
        ensures
            r matches Ok(bytes) && bytes@ == cbor_encoding(
                rows_of(self@.entries),
                self@.state_file,
            ),
    {
        let rows = self.rows();
        self.encoded(cbor_to_vec(&rows, self.state_file()))
    }

    /// The bytes of the store, handed out only after a look at what the
    /// decoder makes of them: they are there exactly when the decoder reads
    /// back what the encoder wrote, and then they are read as this very
    /// store.
    pub fn encode_checked(&self) -> (r: Option<Vec<u8>>)
        ensures
            match r {
                Some(bytes) => bytes@ == cbor_encoding(rows_of(self@.entries), self@.state_file)
                    && decoded(bytes@) == Ok::<ImagesStateView, PkgerErrorView>(self@),
                None => !reads_back(rows_of(self@.entries), self@.state_file),
            },
    {
        let rows = self.rows();
        let bytes = match cbor_to_vec(&rows, self.state_file()) {
            Ok(bytes) => bytes,
            Err(_) => {
                return None;
            },
        };
        match cbor_from_slice(bytes.as_slice()) {
            Ok(pair) => {
                if same_rows(&pair.0, &rows) && str_eq(pair.1.as_str(), self.state_file()) {
                    proof {
                        lemma_decode_inverts_encode(self@);
                    }
                    Some(bytes)
                } else {
                    None
                }
            },
            Err(_) => None,
        }
    }

    /// What `decode` returns for each outcome of the decoder: the store of
    /// the rows it read, and a corrupt state file where it read none.
    pub fn from_decoded(outcome: Result<(Vec<ImageRow>, String), serde_cbor::Error>) -> (r: Result<
        ImagesState,
        PkgerError,
    >)
        ensures
            store_view(r) == match outcome {
                Ok(pair) => store_of(pair.0.deep_view(), pair.1@),
                Err(_) => Err(PkgerErrorView::StateFileCorrupt),
            },
            r matches Ok(store) ==> store@.wf(),
    {
        match outcome {
            Ok(pair) => ImagesState::from_rows(&pair.0, pair.1.as_str()),
            Err(_) => Err(PkgerError::StateFileCorrupt),
        }
    }

    /// Reads a store from the bytes of a state file. Bytes that are no
    /// CBOR encoding of rows and a path, and rows that stand for no cached
    /// image, are reported as a corrupt state file.
    pub fn decode(bytes: &[u8]) -> (r: Result<ImagesState, PkgerError>)
        ensures
            store_view(r) == decoded(bytes@),
            r matches Ok(store) ==> store@.wf(),
    {
        ImagesState::from_decoded(cbor_from_slice(bytes))
    }

    /// Tries to initialize images state from the given path. `contents`
    /// holds the bytes of the file at that path, and nothing where there is
    /// no such file: the store is then empty and kept at that path.
    pub fn try_from_path(state_file: &str, contents: Option<&[u8]>) -> (r: Result<
        ImagesState,
        PkgerError,
    >)
        ensures
            store_view(r) == match contents {
                Some(bytes) => decoded(bytes@),
                None => Ok(ImagesStateView::empty(state_file@)),
            },
            r matches Ok(store) ==> store@.wf(),
    {
        match contents {
            Some(bytes) => ImagesState::decode(bytes),
            None => Ok(ImagesState::new(state_file)),
        }
    }

    /// The bytes to write to the state file, in place of what it holds.
    /// Where the file does not exist yet it is created empty; else it takes
    /// the encoded store. Saving does not fail here, and leaves the store
    /// as it is.
    pub fn save(&self, file_exists: bool) -> (r: Result<Vec<u8>, PkgerError>)
        ensures
            r matches Ok(bytes) && bytes@ == if file_exists {
                cbor_encoding(rows_of(self@.entries), self@.state_file)
            } else {
                Seq::empty()
            },
    {
        if file_exists {
            self.encode()
        } else {
            Ok(Vec::new())
        }
    }
}

} // verus!
