//! Transfer resolution and outcome handling.
//!
//! A transfer copies the item selected in the source pane into a destination
//! resolved from the other pane's state. The resolver only computes paths
//! syntactically: it never checks the destination on disk, so a file
//! highlighted in the destination pane still becomes a path component there,
//! which the copy engine will then reject as a normal failure.

use vstd::prelude::*;

use crate::focus::Focus;
use crate::listing::FileList;
use crate::listing::spec_sentinel_name;
use crate::path::DirPath;
use crate::status::STATUS_TICKS;
use crate::status::StatusMessage;

verus! {

/// The ghost model of a resolved transfer.
pub struct TransferModel {
    pub source_path: Seq<Seq<char>>,
    pub dest_path: Seq<Seq<char>>,
    pub item_name: Seq<char>,
}

/// A resolved transfer: the concrete source and destination paths handed to
/// the copy engine, and the base name under which the item travels.
pub struct TransferRequest {
    pub source_path: DirPath,
    pub dest_path: DirPath,
    pub item_name: String,
}

/// What the copy engine reported back.
pub enum TransferOutcome {
    /// The engine ran and succeeded.
    Success,
    /// The engine ran but reported failure; carries its diagnostic text.
    EngineFailure(String),
    /// The engine could not be invoked at all; carries that diagnostic.
    LaunchFailure(String),
}

/// Where in the destination pane a transferred item named `name` lands: under
/// the pane's current directory when nothing or the sentinel is selected, and
/// under the selected entry otherwise. The selected entry's type is not
/// checked; it is treated as a directory to copy into.
pub open spec fn spec_dest_path(dest: FileList, name: Seq<char>) -> Seq<Seq<char>> {
    match dest.spec_selected() {
        None => dest.spec_path().push(name),
        Some(j) => if !(0 <= j < dest.spec_items().len()) {
            dest.spec_path().push(name)
        } else {
            let selected = dest.spec_items()[j];
            if selected.name == spec_sentinel_name() {
                dest.spec_path().push(name)
            } else {
                dest.spec_path().push(selected.name).push(name)
            }
        },
    }
}

/// The resolved transfer for a source and a destination pane, if the source
/// pane has something to transfer. A selected sentinel transfers the source
/// pane's current directory itself, under that directory's base name; at a
/// filesystem root there is no such name and nothing is resolved. The
/// travelling name is never the sentinel, so the destination path never
/// holds a sentinel component.
pub open spec fn spec_resolve(source: FileList, dest: FileList) -> Option<TransferModel> {
    match source.spec_selected() {
        None => None,
        Some(i) => if !(0 <= i < source.spec_items().len()) {
            None
        } else {
            let item = source.spec_items()[i];
            if item.name == spec_sentinel_name() {
                if source.spec_path().len() == 0 {
                    None
                } else {
                    Some(
                        TransferModel {
                            source_path: source.spec_path(),
                            dest_path: spec_dest_path(dest, source.spec_path().last()),
                            item_name: source.spec_path().last(),
                        },
                    )
                }
            } else {
                Some(
                    TransferModel {
                        source_path: source.spec_path().push(item.name),
                        dest_path: spec_dest_path(dest, item.name),
                        item_name: item.name,
                    },
                )
            }
        },
    }
}

/// Computes the destination path for an item named `name`.
fn resolve_dest(dest: &FileList, name: &String) -> (p: DirPath)
    ensures
        p@ == spec_dest_path(*dest, name@),
{
    match dest.selected_entry() {
        None => dest.current_path().child(name),
        Some(selected) => {
            if selected.is_sentinel_name() {
                dest.current_path().child(name)
            } else {
                let selected_name = String::from_str(selected.name());
                dest.current_path().child(&selected_name).child(name)
            }
        },
    }
}

/// Resolves a transfer from the source pane's selection into the destination
/// pane, or nothing when the source pane has no transferable selection.
pub fn resolve_transfer(source: &FileList, dest: &FileList) -> (r: Option<TransferRequest>)
    ensures
        match r {
            Some(req) => spec_resolve(*source, *dest) == Some(
                TransferModel {
                    source_path: req.source_path@,
                    dest_path: req.dest_path@,
                    item_name: req.item_name@,
                },
            ),
            None => spec_resolve(*source, *dest) is None,
        },
{
    match source.selected_entry() {
        None => None,
        Some(item) => {
            if item.is_sentinel_name() {
                match source.current_path().last_component() {
                    None => None,
                    Some(base) => {
                        let item_name = base.clone();
                        let source_path = source.current_path().clone();
                        let dest_path = resolve_dest(dest, &item_name);
                        Some(TransferRequest { source_path, dest_path, item_name })
                    },
                }
            } else {
                let item_name = String::from_str(item.name());
                let source_path = source.current_path().child(&item_name);
                let dest_path = resolve_dest(dest, &item_name);
                Some(TransferRequest { source_path, dest_path, item_name })
            }
        },
    }
}

/// The travelling name is always a real base name, so the produced
/// destination path never literally contains the sentinel as a component:
/// for well-formed panes whose current paths and real entries are free of
/// sentinel-named components, a resolved transfer's item name is not the
/// sentinel and neither is any component of its destination path.
pub proof fn lemma_dest_path_free_of_sentinel(source: FileList, dest: FileList, tm: TransferModel)
    requires
        source.inv(),
        dest.inv(),
        spec_resolve(source, dest) == Some(tm),
        forall|k: int|
            0 <= k < source.spec_path().len() ==> source.spec_path()[k] != spec_sentinel_name(),
        forall|k: int|
            0 <= k < dest.spec_path().len() ==> dest.spec_path()[k] != spec_sentinel_name(),
        forall|k: int|
            1 <= k < source.spec_items().len() ==> source.spec_items()[k].name
                != spec_sentinel_name(),
        forall|k: int|
            1 <= k < dest.spec_items().len() ==> dest.spec_items()[k].name
                != spec_sentinel_name(),
    ensures
        tm.item_name != spec_sentinel_name(),
        forall|k: int| 0 <= k < tm.dest_path.len() ==> tm.dest_path[k] != spec_sentinel_name(),
{
    let i = source.spec_selected()->0;
    if source.spec_items()[i].name != spec_sentinel_name() {
        assert(source.spec_items()[0] == crate::listing::spec_sentinel());
        assert(i != 0);
    }
    assert(tm.item_name != spec_sentinel_name());
    assert forall|k: int| 0 <= k < tm.dest_path.len() implies tm.dest_path[k]
        != spec_sentinel_name() by {
        assert(tm.dest_path == spec_dest_path(dest, tm.item_name));
        match dest.spec_selected() {
            None => {},
            Some(j) => {
                if 0 <= j < dest.spec_items().len() && dest.spec_items()[j].name
                    != spec_sentinel_name() {
                    assert(dest.spec_items()[0] == crate::listing::spec_sentinel());
                    assert(j != 0);
                }
            },
        }
    }
}

/// The status text a finished transfer leaves behind: a per-direction success
/// note, or the engine's own diagnostic behind a marker that tells an engine
/// failure from a launch failure.
pub open spec fn spec_status_text(
    outcome: TransferOutcome,
    source: Focus,
    item_name: Seq<char>,
) -> Seq<char> {
    match outcome {
        TransferOutcome::Success => if source == Focus::Wsl {
            "Exported "@ + item_name + " to Windows"@
        } else {
            "Imported "@ + item_name + " to WSL"@
        },
        TransferOutcome::EngineFailure(diagnostic) => "Copy failed: "@ + diagnostic@,
        TransferOutcome::LaunchFailure(diagnostic) => "Copy engine unavailable: "@ + diagnostic@,
    }
}

/// The status message a finished transfer sets, shown for the default number
/// of render iterations.
pub fn status_for(outcome: &TransferOutcome, source: Focus, item_name: &String) -> (m:
    StatusMessage)
    ensures
        m@.text == spec_status_text(*outcome, source, item_name@),
        m@.remaining == STATUS_TICKS,
{
    let text = match outcome {
        TransferOutcome::Success => {
            match source {
                Focus::Wsl => {
                    let mut t = String::from_str("Exported ");
                    t.append(item_name.as_str());
                    t.append(" to Windows");
                    t
                },
                Focus::Windows => {
                    let mut t = String::from_str("Imported ");
                    t.append(item_name.as_str());
                    t.append(" to WSL");
                    t
                },
            }
        },
        TransferOutcome::EngineFailure(diagnostic) => {
            let mut t = String::from_str("Copy failed: ");
            t.append(diagnostic.as_str());
            t
        },
        TransferOutcome::LaunchFailure(diagnostic) => {
            let mut t = String::from_str("Copy engine unavailable: ");
            t.append(diagnostic.as_str());
            t
        },
    };
    StatusMessage::new(text)
}

} // verus!
