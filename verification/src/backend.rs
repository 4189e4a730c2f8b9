//! The commands that cloning a repository takes, and the backends that
//! receive them.

use crate::text::texts;
use vstd::prelude::*;
use vstd::string::*;

verus! {

/// One command issued to a backend.
#[derive(Debug, Clone, PartialEq, Eq)]
pub enum RepoAction {
    /// Make sure that the directory at `path` exists, with all its parents.
    CreateDir { path: String },
    /// Clone the repository at `url` into `path`.
    GitClone { url: String, path: String },
    /// Tell the user to change into `path`.
    CdDestination { path: String },
    /// Tell the user that the clone is done.
    DisplaySuccess,
}

/// The mathematical content of a [`RepoAction`].
pub enum ActionModel {
    CreateDir { path: Seq<char> },
    GitClone { url: Seq<char>, path: Seq<char> },
    CdDestination { path: Seq<char> },
    DisplaySuccess,
}

impl View for RepoAction {
    type V = ActionModel;

    open spec fn view(&self) -> ActionModel {
        match *self {
            RepoAction::CreateDir { path } => ActionModel::CreateDir { path: path@ },
            RepoAction::GitClone { url, path } => ActionModel::GitClone { url: url@, path: path@ },
            RepoAction::CdDestination { path } => ActionModel::CdDestination { path: path@ },
            RepoAction::DisplaySuccess => ActionModel::DisplaySuccess,
        }
    }
}

/// The commands that a list of actions stands for.
pub open spec fn models(actions: Seq<RepoAction>) -> Seq<ActionModel> {
    actions.map_values(|a: RepoAction| a@)
}

/// The line that describes a command which is not carried out.
pub open spec fn simulated_text(action: ActionModel) -> Seq<char> {
    match action {
        ActionModel::CreateDir { path } => "DRY RUN: mkdir -p "@ + path,
        ActionModel::GitClone { url, path } => "DRY RUN: git clone "@ + url + " "@ + path,
        ActionModel::CdDestination { path } => "DRY RUN: cd "@ + path,
        ActionModel::DisplaySuccess => "DRY RUN: Repository cloned successfully."@,
    }
}

/// The line that goes with a command which is carried out, where it has one.
pub open spec fn live_text(action: ActionModel) -> Option<Seq<char>> {
    match action {
        ActionModel::CreateDir { path } => None,
        ActionModel::GitClone { url, path } => None,
        ActionModel::CdDestination { path } => Some("cd "@ + path),
        ActionModel::DisplaySuccess => Some("Repository cloned successfully."@),
    }
}

impl RepoAction {
    /// The line that describes this command where it is not carried out.
    pub fn simulated_line(&self) -> (r: String)
        ensures
            r@ == simulated_text(self@),
    {
        match self {
            RepoAction::CreateDir { path } => String::from_str("DRY RUN: mkdir -p ").concat(
                path.as_str(),
            ),
            RepoAction::GitClone { url, path } => String::from_str("DRY RUN: git clone ").concat(
                url.as_str(),
            ).concat(" ").concat(path.as_str()),
            RepoAction::CdDestination { path } => String::from_str("DRY RUN: cd ").concat(
                path.as_str(),
            ),
            RepoAction::DisplaySuccess => String::from_str(
                "DRY RUN: Repository cloned successfully.",
            ),
        }
    }

    /// The line that goes with this command where it is carried out.
    pub fn live_line(&self) -> (r: Option<String>)
        ensures
            match r {
                Some(line) => live_text(self@) == Some(line@),
                None => live_text(self@).is_none(),
            },
    {
        match self {
            RepoAction::CreateDir { path } => None,
            RepoAction::GitClone { url, path } => None,
            RepoAction::CdDestination { path } => Some(
                String::from_str("cd ").concat(path.as_str()),
            ),
            RepoAction::DisplaySuccess => Some(String::from_str("Repository cloned successfully.")),
        }
    }
}

/// What cloning a repository asks of its surroundings.
///
/// A backend keeps, in `issued`, the commands it has received, each in the
/// order and with the arguments it came with. A backend that cannot fail says
/// so in `infallible`.
///
/// Both have a default, so that a backend can be written in code that is not
/// verified. What is proved of a run holds of a backend whose methods keep the
/// contracts below; of one that is not verified this rests on its author.
pub trait RepoCommands {
    /// The commands received so far, oldest first.
    open spec fn issued(&self) -> Seq<ActionModel> {
        Seq::empty()
    }

    /// Whether no command ever fails on a backend of this type.
    open spec fn infallible() -> bool {
        false
    }

    /// Clones the repository at `url` into `clone_path`.
    fn git_clone(&mut self, url: &str, clone_path: &str) -> (r: Result<(), String>)
        ensures
            final(self).issued() == old(self).issued().push(
                ActionModel::GitClone { url: url@, path: clone_path@ },
            ),
            Self::infallible() ==> r.is_ok(),
    ;

    /// Tells the user to change into `clone_path`.
    fn cd_destination(&mut self, clone_path: &str)
        ensures
            final(self).issued() == old(self).issued().push(
                ActionModel::CdDestination { path: clone_path@ },
            ),
    ;

    /// Tells the user that the clone is done.
    fn display_success(&mut self)
        ensures
            final(self).issued() == old(self).issued().push(ActionModel::DisplaySuccess),
    ;

    /// Makes sure that the directory at `path` exists, with all its parents.
    fn create_dir_all(&mut self, path: &str) -> (r: Result<(), String>)
        ensures
            final(self).issued() == old(self).issued().push(ActionModel::CreateDir { path: path@ }),
            Self::infallible() ==> r.is_ok(),
    ;
}

/// A backend that carries nothing out: it keeps each command it receives, and
/// every command succeeds.
#[derive(Debug, Clone, PartialEq, Eq)]
pub struct DryRunRepoCommands {
    pub actions: Vec<RepoAction>,
}

impl DryRunRepoCommands {
    /// A backend that has received nothing.
    pub fn new() -> (r: Self)
        ensures
            r.actions@.len() == 0,
            r.issued() == Seq::<ActionModel>::empty(),
    {
        let r = DryRunRepoCommands { actions: Vec::new() };
        assert(r.issued() =~= Seq::<ActionModel>::empty());
        r
    }

    /// One line for each command received, oldest first.
    pub fn lines(&self) -> (r: Vec<String>)
        ensures
            texts(r@) == self.issued().map_values(|a: ActionModel| simulated_text(a)),
    {
        let mut out: Vec<String> = Vec::new();
        let mut i: usize = 0;
        while i < self.actions.len()
            invariant
                i <= self.actions.len(),
                out@.len() == i,
                forall|k: int| 0 <= k < i ==> (#[trigger] out@[k])@ == simulated_text(self.actions@[k]@),
            decreases self.actions.len() - i,
        {
            out.push(self.actions[i].simulated_line());
            i += 1;
        }
        assert(texts(out@) =~= self.issued().map_values(|a: ActionModel| simulated_text(a)));
        out
    }

    fn record(&mut self, action: RepoAction)
        ensures
            final(self).issued() == old(self).issued().push(action@),
    {
        self.actions.push(action);
        assert(self.issued() =~= old(self).issued().push(action@));
    }
}

impl RepoCommands for DryRunRepoCommands {
    open spec fn issued(&self) -> Seq<ActionModel> {
        models(self.actions@)
    }

    open spec fn infallible() -> bool {
        true
    }

    fn git_clone(&mut self, url: &str, clone_path: &str) -> (r: Result<(), String>) {
        self.record(
            RepoAction::GitClone { url: String::from_str(url), path: String::from_str(clone_path) },
        );
        Ok(())
    }

    fn cd_destination(&mut self, clone_path: &str) {
        self.record(RepoAction::CdDestination { path: String::from_str(clone_path) });
    }

    fn display_success(&mut self) {
        self.record(RepoAction::DisplaySuccess);
    }

    fn create_dir_all(&mut self, path: &str) -> (r: Result<(), String>) {
        self.record(RepoAction::CreateDir { path: String::from_str(path) });
        Ok(())
    }
}

/// The line that describes a command which was not carried out is never the
/// line that goes with the same command where it is carried out.
pub proof fn lemma_simulated_text_differs(action: ActionModel)
    ensures
        live_text(action) != Some(simulated_text(action)),
{
    reveal_strlit("DRY RUN: cd ");
    reveal_strlit("cd ");
    reveal_strlit("DRY RUN: Repository cloned successfully.");
    reveal_strlit("Repository cloned successfully.");
    match action {
        ActionModel::CdDestination { path } => {
            assert(("DRY RUN: cd "@ + path).len() != ("cd "@ + path).len());
        },
        ActionModel::DisplaySuccess => {
            assert("DRY RUN: Repository cloned successfully."@.len()
                != "Repository cloned successfully."@.len());
        },
        _ => {},
    }
}

} // verus!
