//! File-dialog decisions: the title a chooser shows, how its results are
//! routed back to the handler, and the glob patterns a file filter turns
//! into.
//!
//! The chooser itself runs out of process; a background thread drives it
//! and hands the outcome back through the idle queue. Only the decisions
//! live here.

use vstd::prelude::*;

verus! {

/// Options of one open/save dialog request that the decisions read.
#[derive(Clone, Copy, Debug, PartialEq, Eq, Structural)]
pub struct FileDialogOptions {
    /// Allow choosing several files.
    pub multi_selection: bool,
    /// Choose directories rather than files.
    pub select_directories: bool,
}

/// The title an open/save dialog shows when the caller set none: folders
/// are opened, files are opened or saved.
pub fn dialog_title(open: bool, select_directories: bool) -> (title: &'static str)
    ensures
        open && select_directories ==> title@ == "Open Folder"@,
        open && !select_directories ==> title@ == "Open File"@,
        !open ==> title@ == "Save File"@,
{
    match (open, select_directories) {
        (true, true) => "Open Folder",
        (true, false) => "Open File",
        (false, _) => "Save File",
    }
}

/// How a dialog's chosen paths reach the handler.
#[derive(Clone, Copy, Debug, PartialEq, Eq, Structural)]
pub enum DialogRouting {
    /// Every chosen path goes to the handler's multi-file open hook.
    OpenMultiple,
    /// The first chosen path (or none) goes to the single-file open
    /// hook; `warn_extra` notes that suspiciously many paths came back.
    OpenSingle { warn_extra: bool },
    /// The first chosen path (or none) goes to the save hook, with the
    /// same note.
    SaveSingle { warn_extra: bool },
    /// A multi-selection save has no handler hook; the result is dropped
    /// with a warning.
    Unsupported,
}

/// Decide the routing for a finished dialog: multi-selection opens take
/// every path, single selections take the first path to the open or save
/// hook, and a multi-selection save is unsupported.
pub fn dialog_routing(multi: bool, open: bool, n_paths: usize) -> (r: DialogRouting)
    ensures
        multi && open ==> r is OpenMultiple,
        !multi && open ==> r == (DialogRouting::OpenSingle { warn_extra: n_paths > 2 }),
        !multi && !open ==> r == (DialogRouting::SaveSingle { warn_extra: n_paths > 2 }),
        multi && !open ==> r is Unsupported,
{
    if multi && open {
        DialogRouting::OpenMultiple
    } else if !multi {
        let warn_extra = n_paths > 2;
        if open {
            DialogRouting::OpenSingle { warn_extra }
        } else {
            DialogRouting::SaveSingle { warn_extra }
        }
    } else {
        DialogRouting::Unsupported
    }
}

/// The glob pattern that matches files of one extension, as byte text:
/// a star and a dot, then the extension.
pub fn extension_glob(extension: &Vec<u8>) -> (glob: Vec<u8>)
    requires
        extension@.len() + 2 <= usize::MAX,
    ensures
        glob@ == seq![42u8, 46u8] + extension@,
{
    let mut glob: Vec<u8> = Vec::new();
    glob.push(42);
    glob.push(46);
    let mut i: usize = 0;
    while i < extension.len()
        invariant
            0 <= i <= extension@.len(),
            glob@.len() == i + 2,
            glob@[0] == 42u8 && glob@[1] == 46u8,
            forall|j: int| 0 <= j < i ==> glob@[j + 2] == extension@[j],
        decreases extension@.len() - i,
    {
        glob.push(extension[i]);
        i = i + 1;
    }
    proof {
        assert(glob@ =~= seq![42u8, 46u8] + extension@);
    }
    glob
}

/// The glob patterns of a file filter: one per allowed extension, in
/// order.
pub fn filter_globs(extensions: &Vec<Vec<u8>>) -> (globs: Vec<Vec<u8>>)
    requires
        forall|i: int| 0 <= i < extensions@.len() ==> #[trigger] extensions@[i]@.len() + 2
            <= usize::MAX,
    ensures
        globs@.len() == extensions@.len(),
        forall|i: int| 0 <= i < globs@.len() ==> #[trigger] globs@[i]@ == seq![42u8, 46u8]
            + extensions@[i]@,
{
    let mut globs: Vec<Vec<u8>> = Vec::new();
    let mut i: usize = 0;
    while i < extensions.len()
        invariant
            0 <= i <= extensions@.len(),
            globs@.len() == i,
            forall|j: int| 0 <= j < i ==> #[trigger] globs@[j]@ == seq![42u8, 46u8]
                + extensions@[j]@,
            forall|k: int| 0 <= k < extensions@.len() ==> #[trigger] extensions@[k]@.len() + 2
                <= usize::MAX,
        decreases extensions@.len() - i,
    {
        globs.push(extension_glob(&extensions[i]));
        i = i + 1;
    }
    globs
}

} // verus!
