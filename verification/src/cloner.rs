//! Cloning a repository into the directory that its URL names.

use crate::backend::{ActionModel, DryRunRepoCommands, RepoCommands};
use crate::location::{
    resolution, resolve, url_parts, LocationModel, ParseError, RepositoryLocation,
};
use crate::text::{join_path, joined, needs_separator};
use vstd::prelude::*;

verus! {

/// Why a run ended before the clone was done.
#[derive(Debug, Clone, PartialEq, Eq)]
pub enum RunError {
    /// The URL names no repository location.
    Parse(ParseError),
    /// The directory for the clone could not be made; the cause is given.
    DirectoryCreationFailure(String),
    /// The clone itself failed; the cause is given.
    CloneProcessFailure(String),
}

/// The directory that is made for a clone below `base`.
pub open spec fn clone_directory(base: Seq<char>, host: Seq<char>, owner: Seq<char>) -> Seq<char> {
    joined(joined(base, host), owner)
}

/// The directory that a repository at `location` is cloned into below `base`.
pub open spec fn clone_target(base: Seq<char>, location: LocationModel) -> Seq<char> {
    joined(clone_directory(base, location.host, location.owner), location.project)
}

/// The commands of a complete run, in the order in which they are issued.
pub open spec fn full_run(url: Seq<char>, base: Seq<char>, location: LocationModel) -> Seq<
    ActionModel,
> {
    seq![
        ActionModel::CreateDir { path: clone_directory(base, location.host, location.owner) },
        ActionModel::GitClone { url, path: clone_target(base, location) },
        ActionModel::CdDestination { path: clone_target(base, location) },
        ActionModel::DisplaySuccess,
    ]
}

/// What making the directory at `path` comes to, given what the backend
/// answered: the directory itself, or the failure with the backend's cause.
pub fn after_create_dir(path: String, answer: Result<(), String>) -> (r: Result<String, RunError>)
    ensures
        match answer {
            Ok(_) => r == Ok::<String, RunError>(path),
            Err(cause) => r == Err::<String, RunError>(RunError::DirectoryCreationFailure(cause)),
        },
{
    match answer {
        Ok(()) => Ok(path),
        Err(cause) => Err(RunError::DirectoryCreationFailure(cause)),
    }
}

/// What the clone comes to, given what the backend answered: nothing to
/// report, or the failure with the backend's cause.
pub fn after_git_clone(answer: Result<(), String>) -> (r: Result<(), RunError>)
    ensures
        match answer {
            Ok(_) => r == Ok::<(), RunError>(()),
            Err(cause) => r == Err::<(), RunError>(RunError::CloneProcessFailure(cause)),
        },
{
    match answer {
        Ok(()) => Ok(()),
        Err(cause) => Err(RunError::CloneProcessFailure(cause)),
    }
}

/// Clones repositories through the backend it holds.
pub struct RepoCloner<C: RepoCommands> {
    pub commands: C,
}

impl<C: RepoCommands> RepoCloner<C> {
    /// A cloner that issues its commands to `commands`.
    pub fn new(commands: C) -> (r: Self)
        ensures
            r.commands == commands,
    {
        RepoCloner { commands }
    }

    /// Clones the repository at `git_url` below `base_path` and returns the
    /// directory it was cloned into.
    ///
    /// Where the URL names no location the backend is left as it was. Otherwise
    /// the backend receives the commands of a full run, up to and including the
    /// first that fails.
    pub fn run(&mut self, git_url: &str, base_path: &str) -> (r: Result<String, RunError>)
        ensures
            match resolution(url_parts(git_url@)) {
                Err(e) => r == Err::<String, RunError>(RunError::Parse(e)) && *final(self) == *old(
                    self,
                ),
                Ok(location) => {
                    let plan = full_run(git_url@, base_path@, location);
                    let before = old(self).commands.issued();
                    let after = final(self).commands.issued();
                    match r {
                        Ok(target) => target@ == clone_target(base_path@, location) && after
                            == before + plan,
                        Err(RunError::DirectoryCreationFailure(_)) => after == before + plan.take(
                            1,
                        ),
                        Err(RunError::CloneProcessFailure(_)) => after == before + plan.take(2),
                        Err(RunError::Parse(_)) => false,
                    }
                },
            },
            C::infallible() ==> (r.is_ok() <==> resolution(url_parts(git_url@)).is_ok()),
    {
        let location = match self.parse_git_url(git_url) {
            Ok(location) => location,
            Err(e) => { return Err(RunError::Parse(e)); },
        };
        let ghost plan = full_run(git_url@, base_path@, location@);
        let ghost before = self.commands.issued();
        let clone_dir = match self.create_directory_structure(
            base_path,
            location.host.as_str(),
            location.owner.as_str(),
        ) {
            Ok(clone_dir) => clone_dir,
            Err(e) => {
                assert(self.commands.issued() =~= before + plan.take(1));
                return Err(e);
            },
        };
        let project_path = join_path(clone_dir.as_str(), location.project.as_str());
        match after_git_clone(self.commands.git_clone(git_url, project_path.as_str())) {
            Ok(()) => {},
            Err(e) => {
                assert(self.commands.issued() =~= before + plan.take(2));
                return Err(e);
            },
        }
        self.commands.cd_destination(project_path.as_str());
        self.commands.display_success();
        assert(self.commands.issued() =~= before + plan);
        Ok(project_path)
    }

    /// Resolves `git_url` into the location it names.
    pub fn parse_git_url(&self, git_url: &str) -> (r: Result<RepositoryLocation, ParseError>)
        ensures
            match r {
                Ok(location) => resolution(url_parts(git_url@)) == Ok::<
                    LocationModel,
                    ParseError,
                >(location@) && location@.well_formed(),
                Err(e) => resolution(url_parts(git_url@)) == Err::<LocationModel, ParseError>(e),
            },
    {
        resolve(git_url)
    }

    /// Has the backend make the directory for the clones of `author` at
    /// `domain` below `base_path`, and returns that directory.
    pub fn create_directory_structure(
        &mut self,
        base_path: &str,
        domain: &str,
        author: &str,
    ) -> (r: Result<String, RunError>)
        ensures
            final(self).commands.issued() == old(self).commands.issued().push(
                ActionModel::CreateDir { path: clone_directory(base_path@, domain@, author@) },
            ),
            match r {
                Ok(path) => path@ == clone_directory(base_path@, domain@, author@),
                Err(e) => e is DirectoryCreationFailure,
            },
            C::infallible() ==> r.is_ok(),
    {
        let below_host = join_path(base_path, domain);
        let path = join_path(below_host.as_str(), author);
        let answer = self.commands.create_dir_all(path.as_str());
        after_create_dir(path, answer)
    }
}

/// Goes through the run for `git_url` below `base_path` without carrying
/// anything out, and returns the backend that received the commands.
pub fn dry_run(git_url: &str, base_path: &str) -> (r: Result<DryRunRepoCommands, ParseError>)
    ensures
        match resolution(url_parts(git_url@)) {
            Err(e) => r == Err::<DryRunRepoCommands, ParseError>(e),
            Ok(location) => r matches Ok(backend) && backend.issued() == full_run(
                git_url@,
                base_path@,
                location,
            ),
        },
{
    let mut cloner = RepoCloner::new(DryRunRepoCommands::new());
    match cloner.run(git_url, base_path) {
        Ok(_) => {
            assert(cloner.commands.issued() =~= full_run(
                git_url@,
                base_path@,
                resolution(url_parts(git_url@)).unwrap(),
            ));
            Ok(cloner.commands)
        },
        Err(RunError::Parse(e)) => Err(e),
        Err(_) => vstd::pervasive::unreached(),
    }
}

/// Below a base directory that is not empty and does not end in `/`, the clone
/// of a well-formed location whose host does not end in `/` goes to
/// base, host, owner and project, in this order, with one `/` between each two.
pub proof fn lemma_clone_target_layout(base: Seq<char>, location: LocationModel)
    requires
        needs_separator(base),
        location.well_formed(),
        location.host.last() != '/',
    ensures
        clone_directory(base, location.host, location.owner) == base + seq!['/'] + location.host
            + seq!['/'] + location.owner,
        clone_target(base, location) == base + seq!['/'] + location.host + seq!['/']
            + location.owner + seq!['/'] + location.project,
{
    let below_host = joined(base, location.host);
    assert(below_host.last() == location.host.last());
    let directory = joined(below_host, location.owner);
    assert(directory.last() == location.owner.last());
    assert(location.owner.contains(location.owner.last()));
}

/// Resolving is a function of the text: equal texts resolve alike.
pub proof fn lemma_resolution_is_deterministic(first: Seq<char>, second: Seq<char>)
    requires
        first == second,
    ensures
        resolution(url_parts(first)) == resolution(url_parts(second)),
{
}

} // verus!
