//! Choosing what a document's colours mean: the state of the colour-profile
//! window and the profile its buttons act on.

use vstd::prelude::*;
use crate::text::{trim, trimmed};

verus! {

/// What the Convert and Assign buttons act on.
#[derive(Debug, PartialEq, Eq)]
pub enum Picked {
    /// A path typed in, trimmed.
    Typed(String),
    /// The profile at this index of the list found.
    Listed(usize),
}

/// The colour-profile window. `P` is how the window names the file a profile
/// was found in.
pub struct ProfileDialog<P> {
    /// What the document is in now.
    pub current: String,
    /// The profiles found on this machine, by name and path.
    pub found: Vec<(String, P)>,
    /// Which of them is selected. `None` means the built-in sRGB.
    pub chosen: Option<usize>,
    /// A path typed in, for a profile that is not where the others are.
    pub typed: String,
    pub status: String,
}

/// The line naming the profile a document is in: its name, then its colour
/// space in brackets.
pub open spec fn current_text(name: Seq<char>, space: Seq<char>) -> Seq<char> {
    name + seq![' ', '('] + space + seq![')']
}

impl<P> ProfileDialog<P> {
    /// A window for a document in the profile called `name` over the colour
    /// space called `space`, offering the profiles `found`.
    pub fn from_parts(name: &str, space: &str, found: Vec<(String, P)>) -> (d: ProfileDialog<P>)
        ensures
            d.current@ == current_text(name@, space@),
            d.found@ == found@,
            d.chosen is None,
            d.typed@.len() == 0,
            d.status@.len() == 0,
    {
        let mut current = String::from_str(name);
        current.append(" (");
        current.append(space);
        current.append(")");
        proof {
            reveal_strlit(" (");
            reveal_strlit(")");
        }
        ProfileDialog { current, found, chosen: None, typed: String::new(), status: String::new() }
    }

    pub open spec fn spec_title(&self) -> Seq<char> {
        "Colour Profile"@
    }

    pub fn title(&self) -> (s: &'static str)
        ensures
            s@ == self.spec_title(),
    {
        "Colour Profile"
    }

    /// What the Convert and Assign buttons act on: a typed path wins when
    /// there is one, otherwise the profile chosen from the list, otherwise
    /// nothing, which means the built-in sRGB.
    pub fn picked(&self) -> (p: Option<Picked>)
        ensures
            match p {
                Some(Picked::Typed(t)) => trimmed(self.typed@).len() > 0 && t@ == trimmed(self.typed@),
                Some(Picked::Listed(i)) => trimmed(self.typed@).len() == 0 && self.chosen == Some(i)
                    && i < self.found@.len(),
                None => trimmed(self.typed@).len() == 0
                    && !(self.chosen matches Some(i) && i < self.found@.len()),
            },
    {
        let typed = trim(self.typed.as_str());
        if typed.as_str().unicode_len() != 0 {
            return Some(Picked::Typed(typed));
        }
        match self.chosen {
            Some(i) => {
                if i < self.found.len() {
                    Some(Picked::Listed(i))
                } else {
                    None
                }
            },
            None => None,
        }
    }
}

/// How many folders deep the search for profiles goes below each place it
/// starts from: enough for the way those places are laid out, and a bound
/// that stops a symlink loop from turning the search into a hang.
pub const SEARCH_DEPTH: usize = 2;

/// Whether a file with extension `e` is read as a colour profile: `icc` or
/// `icm`, in any mix of case.
pub open spec fn spec_is_profile_extension(e: Seq<char>) -> bool {
    &&& e.len() == 3
    &&& (e[0] == 'i' || e[0] == 'I')
    &&& (e[1] == 'c' || e[1] == 'C')
    &&& (e[2] == 'c' || e[2] == 'C' || e[2] == 'm' || e[2] == 'M')
}

pub fn is_profile_extension(e: &str) -> (b: bool)
    ensures
        b == spec_is_profile_extension(e@),
{
    if e.unicode_len() != 3 {
        return false;
    }
    let a = e.get_char(0);
    let b = e.get_char(1);
    let c = e.get_char(2);
    (a == 'i' || a == 'I') && (b == 'c' || b == 'C') && (c == 'c' || c == 'C' || c == 'm' || c == 'M')
}

} // verus!
