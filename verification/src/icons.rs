//! The general interface icons, by name. How each is drawn lives with the
//! painter that draws it.

use vstd::prelude::*;

verus! {

/// Icons used outside the toolbox.
#[derive(Debug, Clone, Copy, PartialEq, Eq, Structural)]
pub enum Icon {
    Eye,
    EyeOff,
    LockTransparency,
    LockPixels,
    LockPosition,
    Lock,
    Plus,
    Trash,
    Duplicate,
    MergeDown,
    Folder,
    ChevronDown,
    ChevronRight,
    Swap,
    Reset,
    Undo,
    Redo,
    Clip,
    Mask,
    Close,
    Home,
    Up,
    File,
    /// Boolean selection modes, drawn as two overlapping squares showing which
    /// parts survive, which is the visual language an options bar wants.
    SelectNew,
    SelectAdd,
    SelectSubtract,
    SelectIntersect,
    QuickMask,
    MaskLink,
    /// Collapse the whole stack into one layer.
    Flatten,
}

} // verus!
