//! The git repository a recipe takes its sources from.

use crate::value::Value;
use vstd::prelude::*;

verus! {

/// The branch that is checked out where a recipe names none.
pub open spec fn default_branch() -> Seq<char> {
    "master"@
}

/// A git source: a bare URL, or a URL with the branch to check out.
#[derive(Clone, Debug, PartialEq, Eq)]
pub enum GitSource {
    Url(String),
    UrlBranch { url: String, branch: String },
}

pub enum GitSourceView {
    Url(Seq<char>),
    UrlBranch { url: Seq<char>, branch: Seq<char> },
}

impl GitSourceView {
    pub open spec fn url(self) -> Seq<char> {
        match self {
            GitSourceView::Url(url) => url,
            GitSourceView::UrlBranch { url, .. } => url,
        }
    }

    /// The branch to check out; `master` where none is named.
    pub open spec fn branch(self) -> Seq<char> {
        match self {
            GitSourceView::Url(_) => default_branch(),
            GitSourceView::UrlBranch { branch, .. } => branch,
        }
    }
}

impl View for GitSource {
    type V = GitSourceView;

    open spec fn view(&self) -> GitSourceView {
        match self {
            GitSource::Url(url) => GitSourceView::Url(url@),
            GitSource::UrlBranch { url, branch } => GitSourceView::UrlBranch {
                url: url@,
                branch: branch@,
            },
        }
    }
}

impl DeepView for GitSource {
    type V = GitSourceView;

    open spec fn deep_view(&self) -> GitSourceView {
        self@
    }
}

/// The git source that an untyped value stands for: a string is the URL; a
/// table gives the URL under `url` and may name a branch under `branch`.
pub open spec fn git_source_of(value: Value) -> Option<GitSourceView> {
    match value {
        Value::String(url) => Some(GitSourceView::Url(url@)),
        Value::Table(_) => match (value.entry("url"@), value.entry("branch"@)) {
            (Some(Value::String(url)), None) => Some(GitSourceView::Url(url@)),
            (Some(Value::String(url)), Some(Value::String(branch))) => Some(
                GitSourceView::UrlBranch { url: url@, branch: branch@ },
            ),
            _ => None,
        },
        _ => None,
    }
}

impl GitSource {
    pub fn new(url: &str, branch: Option<&str>) -> (r: GitSource)
        ensures
            r@ == match branch {
                Some(b) => GitSourceView::UrlBranch { url: url@, branch: b@ },
                None => GitSourceView::Url(url@),
            },
    {
        match branch {
            Some(b) => GitSource::UrlBranch { url: url.to_owned(), branch: b.to_owned() },
            None => GitSource::Url(url.to_owned()),
        }
    }

    pub fn url(&self) -> (r: &str)
        ensures
            r@ == self@.url(),
    {
        match self {
            GitSource::Url(url) => url.as_str(),
            GitSource::UrlBranch { url, .. } => url.as_str(),
        }
    }

    pub fn branch(&self) -> (r: &str)
        ensures
            r@ == self@.branch(),
    {
        match self {
            GitSource::Url(_) => "master",
            GitSource::UrlBranch { branch, .. } => branch.as_str(),
        }
    }

    /// Reads a git source from an untyped value; `None` where the value is
    /// neither a string nor a table with a string under `url` and, if it has
    /// a `branch`, a string under it.
    pub fn from_value(value: &Value) -> (r: Option<GitSource>)
        ensures
            r.deep_view() == git_source_of(*value),
    {
        match value {
            Value::String(url) => Some(GitSource::Url(url.clone())),
            Value::Table(_) => {
                let url = match value.get("url") {
                    Some(v) => match v.as_str() {
                        Some(url) => url,
                        None => {
                            return None;
                        },
                    },
                    None => {
                        return None;
                    },
                };
                match value.get("branch") {
                    None => Some(GitSource::Url(url.to_owned())),
                    Some(b) => match b.as_str() {
                        Some(branch) => Some(
                            GitSource::UrlBranch { url: url.to_owned(), branch: branch.to_owned() },
                        ),
                        None => None,
                    },
                }
            },
            _ => None,
        }
    }
}

} // verus!
