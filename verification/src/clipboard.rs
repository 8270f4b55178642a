//! Which copy a paste uses, and which images from the desktop are accepted.
//!
//! Two clipboards are kept. The system one carries plain RGBA and is what
//! other programs see; the internal one keeps the same pixels and where they
//! came from, which is what Paste in Place needs. Pasting reads the system
//! clipboard, because something else may have replaced it since; when what
//! comes back is the same image that went out, the internal copy is used
//! instead so the origin is not lost.

use vstd::prelude::*;

verus! {

/// Pixels as tightly packed RGBA bytes, and where on the canvas they were
/// taken from.
pub struct Clipping {
    pub width: u32,
    pub height: u32,
    pub bytes: Vec<u8>,
    pub origin: (i32, i32),
}

impl Clone for Clipping {
    fn clone(&self) -> (c: Self)
        ensures
            c.width == self.width,
            c.height == self.height,
            c.bytes@ == self.bytes@,
            c.origin == self.origin,
    {
        Clipping { width: self.width, height: self.height, bytes: self.bytes.clone(), origin: self.origin }
    }
}

/// Whether two clippings hold the same image: the same size and the same
/// bytes, wherever they came from.
pub open spec fn same_image(a: &Clipping, b: &Clipping) -> bool {
    a.width == b.width && a.height == b.height && a.bytes@ == b.bytes@
}

fn same_bytes(a: &Vec<u8>, b: &Vec<u8>) -> (r: bool)
    ensures
        r == (a@ == b@),
{
    if a.len() != b.len() {
        return false;
    }
    let mut i: usize = 0;
    while i < a.len()
        invariant
            a@.len() == b@.len(),
            0 <= i <= a@.len(),
            forall|j: int| 0 <= j < i ==> a@[j] == b@[j],
        decreases a@.len() - i,
    {
        if a[i] != b[i] {
            return false;
        }
        i = i + 1;
    }
    assert(a@ =~= b@);
    true
}

/// What to paste, given what the system clipboard holds (`outside`, already
/// read back as a clipping with no origin) and the last internal copy
/// (`mine`): our own image coming back keeps its origin; anything else came
/// from another program; with nothing outside, the internal copy.
pub fn paste_source(outside: Option<Clipping>, mine: Option<Clipping>) -> (r: Option<Clipping>)
    ensures
        match (outside, mine) {
            (Some(o), Some(m)) => if same_image(&o, &m) { r == Some(m) } else { r == Some(o) },
            (Some(o), None) => r == Some(o),
            (None, m) => r == m,
        },
{
    match (outside, mine) {
        (Some(o), Some(m)) => {
            if o.width == m.width && o.height == m.height && same_bytes(&o.bytes, &m.bytes) {
                Some(m)
            } else {
                Some(o)
            }
        },
        (Some(o), None) => Some(o),
        (None, m) => m,
    }
}

/// The dimensions of an image handed over by the desktop, as `u32`s (the
/// low 32 bits of each), or `None` when the image is empty or larger than
/// 65,536 pixels a side and so refused.
pub fn system_dimensions(width: usize, height: usize) -> (r: Option<(u32, u32)>)
    ensures
        ({
            let w = width as u32;
            let h = height as u32;
            if w == 0 || h == 0 || w > 65536 || h > 65536 {
                r is None
            } else {
                r == Some((w, h))
            }
        }),
{
    let w = width as u32;
    let h = height as u32;
    if w == 0 || h == 0 || w > 65536 || h > 65536 {
        None
    } else {
        Some((w, h))
    }
}

/// The editor's own clipboard: the last thing copied, with its position.
pub struct InnerClipboard {
    pub inner: Option<Clipping>,
}

impl InnerClipboard {
    pub fn new() -> (c: InnerClipboard)
        ensures
            c.inner is None,
    {
        InnerClipboard { inner: None }
    }

    /// True when there is something to paste without asking the system,
    /// which is what the menus grey themselves out on.
    pub fn has_content(&self) -> (b: bool)
        ensures
            b == self.inner is Some,
    {
        self.inner.is_some()
    }

    /// Remember a copy.
    pub fn set(&mut self, clip: Clipping)
        ensures
            final(self).inner == Some(clip),
    {
        self.inner = Some(clip);
    }
}

} // verus!
