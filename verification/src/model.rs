//! The data the engine works on: discovered repositories, the exclusion set,
//! the per-repository sync target, and their mathematical models.

use vstd::prelude::*;
use vstd::string::StrSliceExecFns;

use crate::text::{slash_join, str_eq};
use crate::validate::{valid_username, validate_username, ValidationError};

verus! {

/// The destination subdirectory of one account: `root/name`.
pub open spec fn spec_user_dir(root: Seq<char>, name: Seq<char>) -> Seq<char> {
    root + "/"@ + name
}

/// The fully qualified name of a repository: `owner/name`.
pub open spec fn spec_full_name(owner: Seq<char>, name: Seq<char>) -> Seq<char> {
    owner + "/"@ + name
}

/// The clone target of a repository: `user_dir/name`.
pub open spec fn spec_repo_dir(user_dir: Seq<char>, name: Seq<char>) -> Seq<char> {
    user_dir + "/"@ + name
}

/// One account to mirror: its validated name and its destination
/// subdirectory under the run's root.
pub struct SyncTarget {
    pub name: String,
    pub dir: String,
}

pub struct SyncTargetModel {
    pub name: Seq<char>,
    pub dir: Seq<char>,
}

impl View for SyncTarget {
    type V = SyncTargetModel;

    open spec fn view(&self) -> SyncTargetModel {
        SyncTargetModel { name: self.name@, dir: self.dir@ }
    }
}

/// A well-formed target under a given root: the name passed validation and
/// the directory is the name's subdirectory of the root.
pub open spec fn target_wf(t: SyncTargetModel, root: Seq<char>) -> bool {
    valid_username(t.name) && t.dir == spec_user_dir(root, t.name)
}

impl SyncTarget {
    /// Builds the target for one account name, rejecting names that fail
    /// validation.
    pub fn new(root: &str, name: &str) -> (r: Result<SyncTarget, ValidationError>)
        ensures
            r is Ok <==> valid_username(name@),
            r matches Ok(t) ==> t@ == (SyncTargetModel {
                name: name@,
                dir: spec_user_dir(root@, name@),
            }) && target_wf(t@, root@),
            r is Err ==> r == Err::<SyncTarget, ValidationError>(ValidationError::InvalidUsername),
    {
        match validate_username(name) {
            Ok(_) => Ok(SyncTarget { name: name.to_owned(), dir: slash_join(root, name) }),
            Err(e) => Err(e),
        }
    }
}

/// The two name/URL fields read out of one listed entry, each absent when
/// the entry does not carry it as a string.
pub struct RepoFields {
    pub name: Option<String>,
    pub url: Option<String>,
}

pub struct RepoFieldsModel {
    pub name: Option<Seq<char>>,
    pub url: Option<Seq<char>>,
}

impl View for RepoFields {
    type V = RepoFieldsModel;

    open spec fn view(&self) -> RepoFieldsModel {
        RepoFieldsModel { name: self.name.deep_view(), url: self.url.deep_view() }
    }
}

impl DeepView for RepoFields {
    type V = RepoFieldsModel;

    open spec fn deep_view(&self) -> RepoFieldsModel {
        self.view()
    }
}

/// The field's characters, or the empty sequence where the field is absent.
pub open spec fn spec_field_or_empty(o: Option<Seq<char>>) -> Seq<char> {
    match o {
        Option::Some(s) => s,
        Option::None => Seq::empty(),
    }
}

/// An entry usable as a repository: both fields present and non-empty.
pub open spec fn spec_valid_fields(f: RepoFieldsModel) -> bool {
    spec_field_or_empty(f.name).len() > 0 && spec_field_or_empty(f.url).len() > 0
}

/// The repository an entry with valid fields stands for.
pub open spec fn spec_repo_of(f: RepoFieldsModel) -> RemoteRepoModel {
    RemoteRepoModel { name: spec_field_or_empty(f.name), url: spec_field_or_empty(f.url) }
}

/// One repository discovered through the listing API.
pub struct RemoteRepo {
    pub name: String,
    pub url: String,
}

pub struct RemoteRepoModel {
    pub name: Seq<char>,
    pub url: Seq<char>,
}

impl View for RemoteRepo {
    type V = RemoteRepoModel;

    open spec fn view(&self) -> RemoteRepoModel {
        RemoteRepoModel { name: self.name@, url: self.url@ }
    }
}

/// The repository invariant: a repository with an empty name or an empty
/// clone URL is invalid and is rejected before any action is taken on it.
pub open spec fn repo_wf(r: RemoteRepoModel) -> bool {
    r.name.len() > 0 && r.url.len() > 0
}

impl RemoteRepo {
    /// Accepts a listed entry as a repository exactly when both its fields
    /// are present and non-empty.
    pub fn from_fields(f: &RepoFields) -> (r: Option<RemoteRepo>)
        ensures
            r is Some <==> spec_valid_fields(f@),
            r matches Some(repo) ==> repo@ == spec_repo_of(f@) && repo_wf(repo@),
    {
        match (&f.name, &f.url) {
            (Some(n), Some(u)) => {
                if n.as_str().unicode_len() > 0 && u.as_str().unicode_len() > 0 {
                    Some(RemoteRepo { name: n.clone(), url: u.clone() })
                } else {
                    None
                }
            },
            _ => None,
        }
    }
}

/// The set of `owner/repo` names that the run leaves untouched. Only
/// membership is consulted; the set never changes during a run.
pub struct ExclusionSet {
    pub items: Vec<String>,
}

impl View for ExclusionSet {
    type V = Seq<Seq<char>>;

    open spec fn view(&self) -> Seq<Seq<char>> {
        self.items.deep_view()
    }
}

impl ExclusionSet {
    pub fn new(items: Vec<String>) -> (s: ExclusionSet)
        ensures
            s@ == items.deep_view(),
    {
        ExclusionSet { items }
    }

    /// Membership of a fully qualified `owner/repo` name.
    pub fn contains_name(&self, full_name: &str) -> (r: bool)
        ensures
            r == self@.contains(full_name@),
    {
        let n = self.items.len();
        let mut i: usize = 0;
        while i < n
            invariant
                0 <= i <= n,
                n == self.items@.len(),
                self@.len() == self.items@.len(),
                forall|j: int| 0 <= j < self@.len() ==> self@[j] == self.items@[j]@,
                forall|j: int| 0 <= j < i ==> self@[j] != full_name@,
            decreases n - i,
        {
            if str_eq(self.items[i].as_str(), full_name) {
                proof {
                    assert(self@[i as int] == full_name@);
                }
                return true;
            }
            i = i + 1;
        }
        false
    }
}

} // verus!
