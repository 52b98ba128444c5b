//! Dependency declarations and their resolution for one image.

use crate::text::{append_names, list_contains, str_eq};
use crate::value::{texts, Value};
use vstd::prelude::*;
use vstd::seq_lib::lemma_seq_contains_after_push;

verus! {

/// The key of the bucket that applies to every image, where a declaration
/// is written as a table.
pub open spec fn common_key() -> Seq<char> {
    "all"@
}

/// Package names by the image they are needed on. `default` holds the names
/// needed on every image; `per_image` pairs an image name with the names
/// needed on that image only.
#[derive(Clone, Debug, PartialEq, Eq)]
pub struct Dependencies {
    pub default: Vec<String>,
    pub per_image: Vec<(String, Vec<String>)>,
}

pub struct DependenciesView {
    pub default: Seq<Seq<char>>,
    pub per_image: Seq<(Seq<char>, Seq<Seq<char>>)>,
}

impl View for Dependencies {
    type V = DependenciesView;

    open spec fn view(&self) -> DependenciesView {
        DependenciesView {
            default: self.default.deep_view(),
            per_image: self.per_image.deep_view(),
        }
    }
}

impl DeepView for Dependencies {
    type V = DependenciesView;

    open spec fn deep_view(&self) -> DependenciesView {
        self@
    }
}

impl DependenciesView {
    pub open spec fn empty() -> DependenciesView {
        DependenciesView { default: Seq::empty(), per_image: Seq::empty() }
    }

    /// Whether the bucket of `image` names `package`.
    pub open spec fn in_bucket(self, image: Seq<char>, package: Seq<char>) -> bool {
        exists|i: int|
            0 <= i < self.per_image.len() && (#[trigger] self.per_image[i]).0 == image
                && self.per_image[i].1.contains(package)
    }

    /// The packages required on `image`: those of the unfiltered bucket
    /// together with those of the bucket of `image`.
    pub open spec fn required(self, image: Seq<char>) -> Set<Seq<char>> {
        Set::new(|p: Seq<char>| self.default.contains(p) || self.in_bucket(image, p))
    }

    /// The names resolved from the unfiltered bucket and the first `n`
    /// entries of the per-image list.
    pub open spec fn resolved_up_to(self, image: Seq<char>, n: int) -> Seq<Seq<char>>
        decreases n,
    {
        if n <= 0 {
            extend_unique(Seq::empty(), self.default)
        } else {
            let head = self.resolved_up_to(image, n - 1);
            if self.per_image[n - 1].0 == image {
                extend_unique(head, self.per_image[n - 1].1)
            } else {
                head
            }
        }
    }

    /// The packages required on `image` as a list: the names of the
    /// unfiltered bucket, then those of every entry for `image`, each name
    /// once, at its first occurrence.
    pub open spec fn resolved(self, image: Seq<char>) -> Seq<Seq<char>> {
        self.resolved_up_to(image, self.per_image.len() as int)
    }
}

/// The declaration that a table of lists stands for: the list under the
/// common key joins the unfiltered bucket, every other list is the bucket
/// of the image its key names.
pub open spec fn table_dependencies(entries: Seq<(String, Value)>) -> Option<DependenciesView>
    decreases entries.len(),
{
    if entries.len() == 0 {
        Some(DependenciesView::empty())
    } else {
        match (table_dependencies(entries.drop_last()), entries.last().1.text_list()) {
            (Some(head), Some(list)) => if entries.last().0@ == common_key() {
                Some(DependenciesView { default: head.default + list, per_image: head.per_image })
            } else {
                Some(
                    DependenciesView {
                        default: head.default,
                        per_image: head.per_image.push((entries.last().0@, list)),
                    },
                )
            },
            _ => None,
        }
    }
}

/// The declaration that an untyped value stands for: a list of strings is
/// the unfiltered bucket, a table is read entry by entry, anything else is
/// no declaration.
pub open spec fn dependencies_of(value: Value) -> Option<DependenciesView> {
    match value {
        Value::Array(items) => match texts(items@) {
            Some(list) => Some(DependenciesView { default: list, per_image: Seq::empty() }),
            None => None,
        },
        Value::Table(entries) => table_dependencies(entries@),
        _ => None,
    }
}

/// Whether one of the first `n` entries of the per-image list is for
/// `image` and names `package`.
pub open spec fn named_before(
    deps: DependenciesView,
    image: Seq<char>,
    package: Seq<char>,
    n: int,
) -> bool {
    exists|j: int|
        0 <= j < n && (#[trigger] deps.per_image[j]).0 == image && deps.per_image[j].1.contains(
            package,
        )
}

/// The resolved list of a declaration for an image holds no name twice, and
/// as a set it is the union of the unfiltered bucket with the bucket of the
/// image.
pub proof fn lemma_resolved_is_union(deps: DependenciesView, image: Seq<char>)
    ensures
        deps.resolved(image).no_duplicates(),
        deps.resolved(image).to_set() == deps.required(image),
{
    let n = deps.per_image.len() as int;
    lemma_resolved_up_to(deps, image, n);
}

proof fn lemma_resolved_up_to(deps: DependenciesView, image: Seq<char>, n: int)
    requires
        0 <= n <= deps.per_image.len(),
    ensures
        deps.resolved_up_to(image, n).no_duplicates(),
        forall|p: Seq<char>|
            deps.resolved_up_to(image, n).contains(p) <==> deps.default.contains(p)
                || named_before(deps, image, p, n),
    decreases n,
{
    if n == 0 {
        lemma_extend_unique(Seq::empty(), deps.default);
    } else {
        let head = deps.resolved_up_to(image, n - 1);
        let entry = deps.per_image[n - 1];
        lemma_resolved_up_to(deps, image, n - 1);
        if entry.0 == image {
            lemma_extend_unique(head, entry.1);
        }
    }
}

/// `base` followed by the names of `more` that are new, each of them once
/// and in the order of its first occurrence.
pub open spec fn extend_unique(base: Seq<Seq<char>>, more: Seq<Seq<char>>) -> Seq<Seq<char>>
    decreases more.len(),
{
    if more.len() == 0 {
        base
    } else {
        let head = extend_unique(base, more.drop_last());
        if head.contains(more.last()) {
            head
        } else {
            head.push(more.last())
        }
    }
}

/// What `extend_unique` keeps: it adds no name twice, and the result holds
/// exactly the names of its two arguments.
pub proof fn lemma_extend_unique(base: Seq<Seq<char>>, more: Seq<Seq<char>>)
    requires
        base.no_duplicates(),
    ensures
        extend_unique(base, more).no_duplicates(),
        forall|p: Seq<char>|
            extend_unique(base, more).contains(p) <==> base.contains(p) || more.contains(p),
    decreases more.len(),
{
    if more.len() > 0 {
        let head = extend_unique(base, more.drop_last());
        lemma_extend_unique(base, more.drop_last());
        assert(more.drop_last().push(more.last()) == more);
        assert forall|p: Seq<char>|
            extend_unique(base, more).contains(p) <==> base.contains(p) || more.contains(p) by {
            lemma_seq_contains_after_push(head, more.last(), p);
            lemma_seq_contains_after_push(more.drop_last(), more.last(), p);
        }
    }
}

/// Appends to `out` the names of `more` that it does not hold yet.
pub fn add_missing(out: &mut Vec<String>, more: &Vec<String>)
    ensures
        final(out).deep_view() == extend_unique(old(out).deep_view(), more.deep_view()),
{
    let mut i: usize = 0;
    while i < more.len()
        invariant
            i <= more@.len(),
            out.deep_view() == extend_unique(old(out).deep_view(), more.deep_view().take(i as int)),
        decreases more@.len() - i,
    {
        let ghost seen = more.deep_view().take(i as int);
        assert(more.deep_view().take(i + 1).drop_last() == seen);
        if !list_contains(out, more[i].as_str()) {
            out.push(more[i].clone());
        }
        i += 1;
    }
    assert(more.deep_view().take(more@.len() as int) == more.deep_view());
}

/// A table that is no declaration up to its entry `n` is none overall.
proof fn lemma_table_prefix(entries: Seq<(String, Value)>, n: int)
    requires
        0 <= n <= entries.len(),
        table_dependencies(entries.take(n)) is None,
    ensures
        table_dependencies(entries) is None,
    decreases entries.len() - n,
{
    if n < entries.len() {
        assert(entries.take(n + 1).drop_last() == entries.take(n));
        lemma_table_prefix(entries, n + 1);
    } else {
        assert(entries.take(n) == entries);
    }
}

impl Dependencies {
    /// Reads a declaration from an untyped value. A list of strings is the
    /// unfiltered bucket. A table maps image names to lists of strings, and
    /// its key `all` names the unfiltered bucket. Any other value, and any
    /// list that holds something other than strings, is refused.
    pub fn from_value(value: &Value) -> (r: Option<Dependencies>)
        ensures
            r.deep_view() == dependencies_of(*value),
    {
        match value {
            Value::Array(_) => {
                match value.as_string_list() {
                    Some(list) => {
                        let r = Dependencies { default: list, per_image: Vec::new() };
                        assert(r.per_image.deep_view() == Seq::<
                            (Seq<char>, Seq<Seq<char>>),
                        >::empty());
                        Some(r)
                    },
                    None => None,
                }
            },
            Value::Table(entries) => {
                let mut acc = Dependencies::new();
                let mut i: usize = 0;
                while i < entries.len()
                    invariant
                        *value == Value::Table(*entries),
                        i <= entries@.len(),
                        table_dependencies(entries@.take(i as int)) == Some(acc@),
                    decreases entries@.len() - i,
                {
                    let ghost head = acc@;
                    assert(entries@.take(i + 1).drop_last() == entries@.take(i as int));
                    match entries[i].1.as_string_list() {
                        Some(list) => {
                            if str_eq(entries[i].0.as_str(), "all") {
                                append_names(&mut acc.default, &list);
                            } else {
                                acc.per_image.push((entries[i].0.clone(), list));
                                assert(acc.per_image.deep_view() == head.per_image.push(
                                    (entries@[i as int].0@, list.deep_view()),
                                ));
                            }
                        },
                        None => {
                            proof {
                                lemma_table_prefix(entries@, i + 1);
                            }
                            return None;
                        },
                    }
                    i += 1;
                }
                assert(entries@.take(entries@.len() as int) == entries@);
                Some(acc)
            },
            _ => None,
        }
    }

    /// A declaration that names nothing.
    pub fn new() -> (r: Dependencies)
        ensures
            r@ == DependenciesView::empty(),
    {
        let r = Dependencies { default: Vec::new(), per_image: Vec::new() };
        assert(r.default.deep_view() == Seq::<Seq<char>>::empty());
        assert(r.per_image.deep_view() == Seq::<(Seq<char>, Seq<Seq<char>>)>::empty());
        r
    }

    /// The packages required on `image`, each of them once: those of the
    /// unfiltered bucket and those of the bucket of `image`. As a set the
    /// result is the union of the two buckets; its order is that of the
    /// declaration.
    pub fn resolve_names(&self, image: &str) -> (r: Vec<String>)
        ensures
            r.deep_view() == self@.resolved(image@),
            r.deep_view().no_duplicates(),
            r.deep_view().to_set() == self@.required(image@),
    {
        let mut out: Vec<String> = Vec::new();
        assert(out.deep_view() == Seq::<Seq<char>>::empty());
        add_missing(&mut out, &self.default);
        let mut i: usize = 0;
        while i < self.per_image.len()
            invariant
                i <= self.per_image@.len(),
                out.deep_view() == self@.resolved_up_to(image@, i as int),
            decreases self.per_image@.len() - i,
        {
            if str_eq(self.per_image[i].0.as_str(), image) {
                add_missing(&mut out, &self.per_image[i].1);
            }
            i += 1;
        }
        proof {
            lemma_resolved_is_union(self@, image@);
        }
        out
    }
}

/// The names a declaration resolves to for an image; none where the recipe
/// has no such declaration.
pub open spec fn resolved_or_none(deps: Option<DependenciesView>, image: Seq<char>) -> Seq<
    Seq<char>,
> {
    match deps {
        Some(d) => d.resolved(image),
        None => Seq::empty(),
    }
}

pub fn resolve_or_none(deps: &Option<Dependencies>, image: &str) -> (r: Vec<String>)
    ensures
        r.deep_view() == resolved_or_none(deps.deep_view(), image@),
{
    match deps {
        Some(d) => d.resolve_names(image),
        None => {
            let r: Vec<String> = Vec::new();
            r
        },
    }
}

/// A list that names nothing twice is what `extend_unique` makes of it.
pub proof fn lemma_unique_is_kept(names: Seq<Seq<char>>)
    requires
        names.no_duplicates(),
    ensures
        extend_unique(Seq::empty(), names) == names,
    decreases names.len(),
{
    if names.len() > 0 {
        let head = names.drop_last();
        lemma_unique_is_kept(head);
        assert(!head.contains(names.last())) by {
            if head.contains(names.last()) {
                let i = choose|i: int| 0 <= i < head.len() && head[i] == names.last();
                assert(names[i] == names[names.len() - 1]);
            }
        }
        assert(head.push(names.last()) == names);
    }
}

} // verus!
