//! What the modal dialogs decide: the choices they offer, the colour a fill
//! lays down, the name a rename or a save ends up with, and the size and
//! memory line they show.

use vstd::prelude::*;
use crate::text::{dec, push_decimal, trim, trimmed};
use crate::units::{bytes_text, format_bytes};

verus! {

/// An eight-bit colour with straight alpha.
#[derive(Debug, Clone, Copy, PartialEq, Eq, Structural)]
pub struct Rgba8 {
    pub r: u8,
    pub g: u8,
    pub b: u8,
    pub a: u8,
}

impl Rgba8 {
    pub open spec fn spec_opaque(r: u8, g: u8, b: u8) -> Rgba8 {
        Rgba8 { r, g, b, a: 255 }
    }

    pub fn opaque(r: u8, g: u8, b: u8) -> (c: Rgba8)
        ensures
            c == Self::spec_opaque(r, g, b),
    {
        Rgba8 { r, g, b, a: 255 }
    }
}


// ---------------------------------------------------------------------------
// New document
// ---------------------------------------------------------------------------

/// What a new document starts filled with.
#[derive(Debug, Clone, Copy, PartialEq, Eq, Structural)]
pub enum BackgroundChoice {
    White,
    Black,
    Transparent,
}

/// The background the New Document dialog's list entry `index` stands for:
/// the second entry is black, the third transparent, anything else white.
pub fn background_choice(index: usize) -> (b: BackgroundChoice)
    ensures
        b == if index == 1 {
            BackgroundChoice::Black
        } else if index == 2 {
            BackgroundChoice::Transparent
        } else {
            BackgroundChoice::White
        },
{
    if index == 1 {
        BackgroundChoice::Black
    } else if index == 2 {
        BackgroundChoice::Transparent
    } else {
        BackgroundChoice::White
    }
}

pub open spec fn spec_background_label(index: usize) -> Seq<char> {
    if index == 0 {
        "White"@
    } else if index == 1 {
        "Black"@
    } else {
        "Transparent"@
    }
}

/// The text the background list shows for entry `index`, clamped to the
/// last entry.
pub fn background_label(index: usize) -> (s: &'static str)
    ensures
        s@ == spec_background_label(index),
{
    if index == 0 {
        "White"
    } else if index == 1 {
        "Black"
    } else {
        "Transparent"
    }
}

/// The memory a canvas of this size takes at four bytes a pixel.
pub open spec fn canvas_bytes(width: u32, height: u32) -> nat {
    (width * height * 4) as nat
}

/// `"{w} x {h} px  ·  {bytes}"`, the size-and-memory line of the New
/// Document and size dialogs.
pub open spec fn dimensions_text(width: u32, height: u32) -> Seq<char> {
    dec(width as nat) + " x "@ + dec(height as nat) + " px  ·  "@
        + bytes_text(canvas_bytes(width, height))
}

pub fn dimensions_line(width: u32, height: u32) -> (s: String)
    requires
        width * height * 4 <= u64::MAX,
    ensures
        s@ == dimensions_text(width, height),
{
    let mut s = String::new();
    push_decimal(&mut s, width as u64);
    s.append(" x ");
    push_decimal(&mut s, height as u64);
    s.append(" px  ·  ");
    proof {
        assert(width * height <= width * height * 4) by (nonlinear_arith);
    }
    let bytes = width as u64 * height as u64 * 4;
    let b = format_bytes(bytes);
    s.append(b.as_str());
    s
}

/// The Image Size and Canvas Size dialogs' "Current:" line.
pub fn current_size_line(width: u32, height: u32) -> (s: String)
    requires
        width * height * 4 <= u64::MAX,
    ensures
        s@ == "Current: "@ + dimensions_text(width, height),
{
    let mut s = String::new();
    s.append("Current: ");
    let d = dimensions_line(width, height);
    s.append(d.as_str());
    s
}

/// Their "New:" line.
pub fn new_size_line(width: u32, height: u32) -> (s: String)
    requires
        width * height * 4 <= u64::MAX,
    ensures
        s@ == "New: "@ + dimensions_text(width, height),
{
    let mut s = String::new();
    s.append("New: ");
    let d = dimensions_line(width, height);
    s.append(d.as_str());
    s
}

pub open spec fn spec_size_title(resample: bool) -> Seq<char> {
    if resample { "Image Size"@ } else { "Canvas Size"@ }
}

/// Image Size resamples; Canvas Size does not.
pub fn size_title(resample: bool) -> (s: &'static str)
    ensures
        s@ == spec_size_title(resample),
{
    if resample { "Image Size" } else { "Canvas Size" }
}

// ---------------------------------------------------------------------------
// Edit > Fill
// ---------------------------------------------------------------------------

/// What a fill is made of.
#[derive(Debug, Clone, Copy, PartialEq, Eq, Structural)]
pub enum FillContents {
    Foreground,
    Background,
    Black,
    Gray,
    White,
    Custom,
}

impl FillContents {
    pub open spec fn spec_name(self) -> Seq<char> {
        match self {
            FillContents::Foreground => "Foreground Colour"@,
            FillContents::Background => "Background Colour"@,
            FillContents::Black => "Black"@,
            FillContents::Gray => "50% Gray"@,
            FillContents::White => "White"@,
            FillContents::Custom => "Custom…"@,
        }
    }

    pub fn name(self) -> (s: &'static str)
        ensures
            s@ == self.spec_name(),
    {
        match self {
            FillContents::Foreground => "Foreground Colour",
            FillContents::Background => "Background Colour",
            FillContents::Black => "Black",
            FillContents::Gray => "50% Gray",
            FillContents::White => "White",
            FillContents::Custom => "Custom…",
        }
    }

    pub const ALL: [FillContents; 6] = [
        FillContents::Foreground,
        FillContents::Background,
        FillContents::Black,
        FillContents::Gray,
        FillContents::White,
        FillContents::Custom,
    ];

    /// The colour this choice lays down, given the two swatches and what the
    /// custom picker holds.
    pub open spec fn spec_color(self, foreground: Rgba8, background: Rgba8, custom: Rgba8) -> Rgba8 {
        match self {
            FillContents::Foreground => foreground,
            FillContents::Background => background,
            FillContents::Black => Rgba8::spec_opaque(0, 0, 0),
            FillContents::Gray => Rgba8::spec_opaque(128, 128, 128),
            FillContents::White => Rgba8::spec_opaque(255, 255, 255),
            FillContents::Custom => custom,
        }
    }

    pub fn color(self, foreground: Rgba8, background: Rgba8, custom: Rgba8) -> (c: Rgba8)
        ensures
            c == self.spec_color(foreground, background, custom),
    {
        match self {
            FillContents::Foreground => foreground,
            FillContents::Background => background,
            FillContents::Black => Rgba8::opaque(0, 0, 0),
            FillContents::Gray => Rgba8::opaque(128, 128, 128),
            FillContents::White => Rgba8::opaque(255, 255, 255),
            FillContents::Custom => custom,
        }
    }
}

// ---------------------------------------------------------------------------
// Colour picker
// ---------------------------------------------------------------------------

/// Which swatch the picker is editing.
#[derive(Debug, Clone, Copy, PartialEq, Eq, Structural)]
pub enum PickerTarget {
    Foreground,
    Background,
}

impl PickerTarget {
    pub open spec fn spec_title(self) -> Seq<char> {
        match self {
            PickerTarget::Foreground => "Foreground Colour"@,
            PickerTarget::Background => "Background Colour"@,
        }
    }

    /// The picker window's title.
    pub fn title(self) -> (s: &'static str)
        ensures
            s@ == self.spec_title(),
    {
        match self {
            PickerTarget::Foreground => "Foreground Colour",
            PickerTarget::Background => "Background Colour",
        }
    }

    /// The swatch the picker starts from.
    pub fn current(self, foreground: Rgba8, background: Rgba8) -> (c: Rgba8)
        ensures
            c == match self {
                PickerTarget::Foreground => foreground,
                PickerTarget::Background => background,
            },
    {
        match self {
            PickerTarget::Foreground => foreground,
            PickerTarget::Background => background,
        }
    }
}

// ---------------------------------------------------------------------------
// Rename layer
// ---------------------------------------------------------------------------

/// The name a rename commits: what was typed, trimmed; nothing when that
/// leaves nothing, in which case the layer keeps its name.
pub fn rename_result(typed: &str) -> (r: Option<String>)
    ensures
        match r {
            Some(n) => trimmed(typed@).len() > 0 && n@ == trimmed(typed@),
            None => trimmed(typed@).len() == 0,
        },
{
    let t = trim(typed);
    if t.as_str().unicode_len() == 0 {
        None
    } else {
        Some(t)
    }
}

// ---------------------------------------------------------------------------
// File browser
// ---------------------------------------------------------------------------

#[derive(Debug, Clone, Copy, PartialEq, Eq, Structural)]
pub enum BrowserMode {
    Open,
    Save,
}

pub open spec fn spec_save_base(filename: Seq<char>) -> Seq<char> {
    if trimmed(filename).len() == 0 { "Untitled"@ } else { trimmed(filename) }
}

/// The name a save starts from: what was typed, trimmed, or "Untitled".
pub fn save_base_name(filename: &str) -> (s: String)
    ensures
        s@ == spec_save_base(filename@),
{
    let t = trim(filename);
    if t.as_str().unicode_len() == 0 {
        String::from_str("Untitled")
    } else {
        t
    }
}

/// The file name a save writes: the base name, with the format's extension
/// added unless the base already names that format.
pub fn save_file_name(base: String, names_format: bool, extension: &str) -> (s: String)
    ensures
        s@ == if names_format { base@ } else { base@ + "."@ + extension@ },
{
    if names_format {
        base
    } else {
        let mut s = base;
        s.append(".");
        s.append(extension);
        s
    }
}

} // verus!
