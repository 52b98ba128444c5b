//! Build targets: the package format, the image a recipe is built on, and
//! the key under which the state of a built image is cached.

use crate::text::str_eq;
use crate::value::Value;
use vstd::prelude::*;

verus! {

/// The package format a job produces.
#[derive(Clone, Copy, Debug, PartialEq, Eq, Hash, Structural)]
pub enum BuildTarget {
    Rpm,
    Deb,
    Gzip,
}

impl BuildTarget {
    /// The name of the format as recipes write it.
    pub open spec fn name(self) -> Seq<char> {
        match self {
            BuildTarget::Rpm => "rpm"@,
            BuildTarget::Deb => "deb"@,
            BuildTarget::Gzip => "gzip"@,
        }
    }

    /// The format that `s` names, if it names one.
    pub open spec fn named(s: Seq<char>) -> Option<BuildTarget> {
        if s == "rpm"@ {
            Some(BuildTarget::Rpm)
        } else if s == "deb"@ {
            Some(BuildTarget::Deb)
        } else if s == "gzip"@ {
            Some(BuildTarget::Gzip)
        } else {
            None
        }
    }

    pub fn as_str(&self) -> (r: &'static str)
        ensures
            r@ == self.name(),
    {
        match self {
            BuildTarget::Rpm => "rpm",
            BuildTarget::Deb => "deb",
            BuildTarget::Gzip => "gzip",
        }
    }

    /// Reads a format name. Only the exact names `rpm`, `deb` and `gzip` are
    /// accepted.
    pub fn parse(s: &str) -> (r: Option<BuildTarget>)
        ensures
            r == Self::named(s@),
    {
        if str_eq(s, "rpm") {
            Some(BuildTarget::Rpm)
        } else if str_eq(s, "deb") {
            Some(BuildTarget::Deb)
        } else if str_eq(s, "gzip") {
            Some(BuildTarget::Gzip)
        } else {
            None
        }
    }
}

/// Every format is read back from its own name.
pub proof fn lemma_build_target_name_round_trip(t: BuildTarget)
    ensures
        BuildTarget::named(t.name()) == Some(t),
{
    reveal_strlit("rpm");
    reveal_strlit("deb");
    reveal_strlit("gzip");
    match t {
        BuildTarget::Rpm => {},
        BuildTarget::Deb => {
            assert("deb"@[0] != "rpm"@[0]);
        },
        BuildTarget::Gzip => {},
    }
}

/// Distribution and release of the system inside an image.
#[derive(Clone, Debug, PartialEq, Eq, Hash)]
pub struct Os {
    pub distro: String,
    pub version: Option<String>,
}

pub struct OsView {
    pub distro: Seq<char>,
    pub version: Option<Seq<char>>,
}

impl View for Os {
    type V = OsView;

    open spec fn view(&self) -> OsView {
        OsView { distro: self.distro@, version: self.version.deep_view() }
    }
}

impl DeepView for Os {
    type V = OsView;

    open spec fn deep_view(&self) -> OsView {
        self@
    }
}

impl Os {
    pub fn new(distro: &str, version: Option<&str>) -> (r: Os)
        ensures
            r@.distro == distro@,
            r@.version == match version {
                Some(v) => Some(v@),
                None => None,
            },
    {
        let version = match version {
            Some(v) => Some(v.to_owned()),
            None => None,
        };
        Os { distro: distro.to_owned(), version }
    }

    /// A copy with the same distribution and release.
    pub fn duplicate(&self) -> (r: Os)
        ensures
            r@ == self@,
    {
        let version = match &self.version {
            Some(v) => Some(v.clone()),
            None => None,
        };
        Os { distro: self.distro.clone(), version }
    }
}

/// One entry of a recipe's image list: the image to build on, the format to
/// build, and the system inside the image where the recipe declares it.
#[derive(Clone, Debug, PartialEq, Eq, Hash)]
pub struct ImageTarget {
    pub image: String,
    pub build_target: BuildTarget,
    pub os: Option<Os>,
}

pub struct ImageTargetView {
    pub image: Seq<char>,
    pub build_target: BuildTarget,
    pub os: Option<OsView>,
}

impl View for ImageTarget {
    type V = ImageTargetView;

    open spec fn view(&self) -> ImageTargetView {
        ImageTargetView {
            image: self.image@,
            build_target: self.build_target,
            os: self.os.deep_view(),
        }
    }
}

impl DeepView for ImageTarget {
    type V = ImageTargetView;

    open spec fn deep_view(&self) -> ImageTargetView {
        self@
    }
}

/// The image target that an entry of a recipe's image list stands for. The
/// entry is a table: `name` is the image, `target` the format (gzip where
/// the entry has none), `os` the distribution inside the image, if declared.
pub open spec fn image_target_of(value: Value) -> Option<ImageTargetView> {
    match value.entry("name"@) {
        Some(Value::String(name)) => {
            let target = match value.entry("target"@) {
                None => Some(BuildTarget::Gzip),
                Some(Value::String(t)) => BuildTarget::named(t@),
                Some(_) => None,
            };
            let os = match value.entry("os"@) {
                None => Some(None),
                Some(Value::String(distro)) => Some(
                    Some(OsView { distro: distro@, version: None }),
                ),
                Some(_) => None,
            };
            match (target, os) {
                (Some(build_target), Some(os)) => Some(
                    ImageTargetView { image: name@, build_target, os },
                ),
                _ => None,
            }
        },
        _ => None,
    }
}

/// The image targets of a whole image list, if every entry stands for one.
pub open spec fn image_targets_of(items: Seq<Value>) -> Option<Seq<ImageTargetView>>
    decreases items.len(),
{
    if items.len() == 0 {
        Some(Seq::empty())
    } else {
        match (image_targets_of(items.drop_last()), image_target_of(items.last())) {
            (Some(head), Some(target)) => Some(head.push(target)),
            _ => None,
        }
    }
}

/// An image list with a bad entry among its first `n` is bad overall.
proof fn lemma_image_targets_prefix(items: Seq<Value>, n: int)
    requires
        0 <= n <= items.len(),
        image_targets_of(items.take(n)) is None,
    ensures
        image_targets_of(items) is None,
    decreases items.len() - n,
{
    if n < items.len() {
        assert(items.take(n + 1).drop_last() == items.take(n));
        lemma_image_targets_prefix(items, n + 1);
    } else {
        assert(items.take(n) == items);
    }
}

impl ImageTarget {
    /// Reads one entry of a recipe's image list.
    pub fn from_value(value: &Value) -> (r: Option<ImageTarget>)
        ensures
            r.deep_view() == image_target_of(*value),
    {
        let name = match value.get("name") {
            Some(v) => match v.as_str() {
                Some(name) => name,
                None => {
                    return None;
                },
            },
            None => {
                return None;
            },
        };
        let build_target = match value.get("target") {
            None => BuildTarget::Gzip,
            Some(v) => match v.as_str() {
                Some(t) => match BuildTarget::parse(t) {
                    Some(build_target) => build_target,
                    None => {
                        return None;
                    },
                },
                None => {
                    return None;
                },
            },
        };
        let os = match value.get("os") {
            None => None,
            Some(v) => match v.as_str() {
                Some(distro) => Some(Os::new(distro, None)),
                None => {
                    return None;
                },
            },
        };
        Some(ImageTarget { image: name.to_owned(), build_target, os })
    }

    /// Reads a recipe's image list; `None` where an entry is refused.
    pub fn list_from_values(items: &Vec<Value>) -> (r: Option<Vec<ImageTarget>>)
        ensures
            r.deep_view() == image_targets_of(items@),
    {
        let mut out: Vec<ImageTarget> = Vec::new();
        let mut i: usize = 0;
        while i < items.len()
            invariant
                i <= items@.len(),
                image_targets_of(items@.take(i as int)) == Some(out.deep_view()),
            decreases items@.len() - i,
        {
            assert(items@.take(i + 1).drop_last() == items@.take(i as int));
            match ImageTarget::from_value(&items[i]) {
                Some(target) => {
                    out.push(target);
                },
                None => {
                    proof {
                        lemma_image_targets_prefix(items@, i + 1);
                    }
                    return None;
                },
            }
            i += 1;
        }
        assert(items@.take(items@.len() as int) == items@);
        Some(out)
    }

    pub fn new(image: &str, build_target: BuildTarget, os: Option<Os>) -> (r: ImageTarget)
        ensures
            r@ == (ImageTargetView { image: image@, build_target, os: os.deep_view() }),
    {
        ImageTarget { image: image.to_owned(), build_target, os }
    }

    pub fn image(&self) -> (r: &str)
        ensures
            r@ == self@.image,
    {
        self.image.as_str()
    }

    pub fn build_target(&self) -> (r: BuildTarget)
        ensures
            r == self@.build_target,
    {
        self.build_target
    }

    pub fn duplicate(&self) -> (r: ImageTarget)
        ensures
            r@ == self@,
    {
        let os = match &self.os {
            Some(os) => Some(os.duplicate()),
            None => None,
        };
        ImageTarget { image: self.image.clone(), build_target: self.build_target, os }
    }
}

/// The key under which the state of a built image is cached: the recipe,
/// the image and the format. Two keys are the same when all three are.
#[derive(Clone, Debug, PartialEq, Eq, Hash)]
pub struct RecipeTarget {
    pub recipe: String,
    pub image: String,
    pub build_target: BuildTarget,
}

pub struct RecipeTargetView {
    pub recipe: Seq<char>,
    pub image: Seq<char>,
    pub build_target: BuildTarget,
}

impl View for RecipeTarget {
    type V = RecipeTargetView;

    open spec fn view(&self) -> RecipeTargetView {
        RecipeTargetView {
            recipe: self.recipe@,
            image: self.image@,
            build_target: self.build_target,
        }
    }
}

impl DeepView for RecipeTarget {
    type V = RecipeTargetView;

    open spec fn deep_view(&self) -> RecipeTargetView {
        self@
    }
}

impl RecipeTarget {
    pub fn new(recipe: &str, target: &ImageTarget) -> (r: RecipeTarget)
        ensures
            r@ == (RecipeTargetView {
                recipe: recipe@,
                image: target@.image,
                build_target: target@.build_target,
            }),
    {
        RecipeTarget {
            recipe: recipe.to_owned(),
            image: target.image.clone(),
            build_target: target.build_target,
        }
    }

    pub fn recipe(&self) -> (r: &str)
        ensures
            r@ == self@.recipe,
    {
        self.recipe.as_str()
    }

    pub fn image(&self) -> (r: &str)
        ensures
            r@ == self@.image,
    {
        self.image.as_str()
    }

    pub fn build_target(&self) -> (r: BuildTarget)
        ensures
            r == self@.build_target,
    {
        self.build_target
    }

    /// Componentwise equality of two keys.
    pub fn same_as(&self, other: &RecipeTarget) -> (r: bool)
        ensures
            r == (self@ == other@),
    {
        self.recipe == other.recipe && self.image == other.image && self.build_target
            == other.build_target
    }

    pub fn duplicate(&self) -> (r: RecipeTarget)
        ensures
            r@ == self@,
    {
        RecipeTarget {
            recipe: self.recipe.clone(),
            image: self.image.clone(),
            build_target: self.build_target,
        }
    }
}

} // verus!
