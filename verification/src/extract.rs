//! Extraction planning: turns the entries of a downloaded archive into the
//! filesystem actions that install the server binary. Entries whose stored
//! path is unsafe are skipped; a directory entry becomes a directory
//! creation; a file entry becomes a verbatim write of its bytes. The actions
//! come out in archive order, so parent directories named by directory
//! entries are created no later than the archive itself orders them.
use vstd::prelude::*;
use crate::paths::{is_dir_entry_name, is_dir_name, is_safe_entry_path, safe_entry_path};

verus! {

/// One entry read out of the archive: its stored path and its decompressed
/// bytes (empty for a directory entry).
#[derive(Debug, PartialEq, Eq)]
pub struct ArchiveEntry {
    pub name: String,
    pub data: Vec<u8>,
}

/// Mathematical model of an archive entry.
pub struct EntryModel {
    pub name: Seq<char>,
    pub data: Seq<u8>,
}

impl View for ArchiveEntry {
    type V = EntryModel;

    open spec fn view(&self) -> EntryModel {
        EntryModel { name: self.name@, data: self.data@ }
    }
}

/// One filesystem action of the installation: create a directory (and its
/// ancestors), or write a file verbatim after creating its ancestors.
#[derive(Debug, PartialEq, Eq)]
pub enum FsAction {
    MkDir { path: String },
    PutFile { path: String, data: Vec<u8> },
}

/// Mathematical model of a filesystem action.
pub enum ActionModel {
    MkDir { path: Seq<char> },
    PutFile { path: Seq<char>, data: Seq<u8> },
}

impl View for FsAction {
    type V = ActionModel;

    open spec fn view(&self) -> ActionModel {
        match self {
            FsAction::MkDir { path } => ActionModel::MkDir { path: path@ },
            FsAction::PutFile { path, data } => ActionModel::PutFile { path: path@, data: data@ },
        }
    }
}

/// The path an action touches.
pub open spec fn action_path(a: ActionModel) -> Seq<char> {
    match a {
        ActionModel::MkDir { path } => path,
        ActionModel::PutFile { path, data } => path,
    }
}

/// Model of a sequence of entries.
pub open spec fn entries_model(es: Seq<ArchiveEntry>) -> Seq<EntryModel> {
    es.map_values(|e: ArchiveEntry| e@)
}

/// Model of a sequence of actions.
pub open spec fn actions_model(s: Seq<FsAction>) -> Seq<ActionModel> {
    s.map_values(|a: FsAction| a@)
}

/// The actions one entry contributes: nothing when its path is unsafe, a
/// directory creation when its name ends with the separator, a file write
/// otherwise.
pub open spec fn plan_one(e: EntryModel) -> Seq<ActionModel> {
    if !safe_entry_path(e.name) {
        Seq::empty()
    } else if is_dir_name(e.name) {
        seq![ActionModel::MkDir { path: e.name }]
    } else {
        seq![ActionModel::PutFile { path: e.name, data: e.data }]
    }
}

/// The actions a whole archive contributes, entry by entry in archive order.
pub open spec fn plan_spec(es: Seq<EntryModel>) -> Seq<ActionModel>
    decreases es.len(),
{
    if es.len() == 0 {
        Seq::empty()
    } else {
        plan_spec(es.drop_last()) + plan_one(es.last())
    }
}

/// Every action of a plan touches a safe path.
pub open spec fn actions_safe(s: Seq<ActionModel>) -> bool {
    forall|j: int| 0 <= j < s.len() ==> safe_entry_path(action_path(#[trigger] s[j]))
}

/// An entry whose stored path is unsafe — a traversal attempt, an absolute
/// path, a backslash-separated or NUL-containing one — is skipped: it
/// contributes no action.
pub proof fn lemma_unsafe_entry_skipped(e: EntryModel)
    requires
        !safe_entry_path(e.name),
    ensures
        plan_one(e) == Seq::<ActionModel>::empty(),
{
}

/// No planned action ever reaches outside the extraction root: every action
/// of a plan carries a safe path, whatever the archive held. An entry whose
/// path attempts traversal contributes no action at all.
pub proof fn lemma_plan_paths_safe(es: Seq<EntryModel>)
    ensures
        actions_safe(plan_spec(es)),
    decreases es.len(),
{
    if es.len() > 0 {
        lemma_plan_paths_safe(es.drop_last());
    }
}

/// The failure policy for executing one action: a failed file write leaves a
/// partial installation and is fatal to the whole install; a failed
/// directory creation is logged only, since a needed directory is also
/// created with the file written under it.
pub fn failure_is_fatal(action: &FsAction) -> (r: bool)
    ensures
        r == (action@ matches ActionModel::PutFile { .. }),
{
    match action {
        FsAction::MkDir { .. } => false,
        FsAction::PutFile { .. } => true,
    }
}

/// Clones a byte vector.
fn clone_bytes(v: &Vec<u8>) -> (r: Vec<u8>)
    ensures
        r@ == v@,
{
    let r = v.clone();
    proof {
        assert(r@ =~= v@);
    }
    r
}

/// Plans the installation of a sequence of archive entries: exactly the
/// actions of `plan_spec`, in order.
pub fn plan_extraction(entries: &Vec<ArchiveEntry>) -> (r: Vec<FsAction>)
    ensures
        actions_model(r@) == plan_spec(entries_model(entries@)),
        actions_safe(actions_model(r@)),
{
    let mut r: Vec<FsAction> = Vec::new();
    let mut i: usize = 0;
    while i < entries.len()
        invariant
            i <= entries@.len(),
            actions_model(r@) == plan_spec(entries_model(entries@).take(i as int)),
        decreases entries@.len() - i,
    {
        let e = &entries[i];
        if is_safe_entry_path(e.name.as_str()) {
            if is_dir_entry_name(e.name.as_str()) {
                r.push(FsAction::MkDir { path: e.name.clone() });
            } else {
                r.push(
                    FsAction::PutFile { path: e.name.clone(), data: clone_bytes(&e.data) },
                );
            }
        }
        proof {
            let em = entries_model(entries@);
            assert(em.take(i + 1).drop_last() =~= em.take(i as int));
            assert(em.take(i + 1).last() == em[i as int]);
            assert(actions_model(r@) =~= plan_spec(em.take(i as int)) + plan_one(em[i as int]));
        }
        i = i + 1;
    }
    proof {
        assert(entries_model(entries@).take(entries@.len() as int) =~= entries_model(entries@));
        lemma_plan_paths_safe(entries_model(entries@));
    }
    r
}

} // verus!
