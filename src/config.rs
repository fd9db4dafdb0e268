use vstd::prelude::*;

use crate::color::Color;

verus! {

/// A font to load at start-up, by the name font discovery knows it under.
#[derive(Clone, Debug)]
pub struct Font {
    pub name: String,
}

impl Font {
    pub fn default() -> (f: Font)
        ensures
            f.name@.len() == 0,
    {
        Font { name: String::new() }
    }
}

/// Fonts to load before the bar is built.
#[derive(Debug)]
pub struct PreloadedFonts {
    pub list: Vec<Font>,
}

impl PreloadedFonts {
    pub fn default() -> (p: PreloadedFonts)
        ensures
            p.list@.len() == 0,
    {
        PreloadedFonts { list: Vec::new() }
    }
}

/// A font with its size and colour.
#[derive(Clone, Debug)]
pub struct FontStyle {
    pub name: String,
    pub size: usize,
    pub color: Color,
}

impl FontStyle {
    pub fn default() -> (f: FontStyle)
        ensures
            f.name@.len() == 0,
            f.size == 0,
            f.color == Color(0),
    {
        FontStyle { name: String::new(), size: 0, color: Color(0) }
    }

    /// Opaque black.
    pub fn default_text_color() -> (c: Color)
        ensures
            c == Color(0x000000FF),
    {
        Color(0x000000FF)
    }

    pub fn default_text_size() -> (s: usize)
        ensures
            s == 12,
    {
        12
    }
}

#[derive(Clone, Copy, Debug)]
pub struct Background {
    pub enable: bool,
    pub color: Color,
}

impl Background {
    pub fn default() -> (b: Background)
        ensures
            !b.enable,
            b.color == Color(0),
    {
        Background { enable: false, color: Color(0) }
    }
}

#[derive(Clone, Copy, Debug)]
pub struct Border {
    pub enable: bool,
    pub color: Color,
    pub size: u32,
}

impl Border {
    pub fn default() -> (b: Border)
        ensures
            !b.enable,
            b.color == Color(0),
            b.size == 0,
    {
        Border { enable: false, color: Color(0), size: 0 }
    }
}

#[derive(Clone, Copy, Debug)]
pub struct StyleConfig {}

/// Why a font could not be loaded.
#[derive(Debug)]
pub enum FontsError {
    /// Reading the font file failed; the field says how.
    IO(String),
    /// Font discovery knows no font of this name.
    FontNotFound(String),
}

/// The loaded fonts' names; a font's index here is its index in the font table the text
/// engine draws with.
pub struct FontTable {
    names: Vec<String>,
}

impl FontTable {
    pub closed spec fn view(self) -> Seq<Seq<char>> {
        Seq::new(self.names@.len(), |i: int| self.names@[i]@)
    }

    pub fn new() -> (t: FontTable)
        ensures
            t.view().len() == 0,
    {
        FontTable { names: Vec::new() }
    }

    /// Registers a loaded font and returns its index.
    pub fn add_font_by_name(&mut self, name: String) -> (i: usize)
        ensures
            final(self).view() == old(self).view().push(name@),
            i == old(self).view().len(),
    {
        let i = self.names.len();
        self.names.push(name);
        assert(self.view() =~= old(self).view().push(self.names@[i as int]@));
        i
    }

    /// Index of the font registered under `name`; a name registered again maps to its
    /// latest font.
    pub fn fonts_map(&self, name: &String) -> (r: Option<usize>)
        ensures
            r is Some <==> exists|i: int| 0 <= i < self.view().len() && self.view()[i] == name@,
            r matches Some(i) ==> i < self.view().len() && self.view()[i as int] == name@
                && forall|j: int| i < j < self.view().len() ==> self.view()[j] != name@,
    {
        let mut k: usize = self.names.len();
        while k > 0
            invariant
                k <= self.names@.len(),
                forall|j: int| k <= j < self.view().len() ==> self.view()[j] != name@,
            decreases k,
        {
            if self.names[k - 1] == *name {
                assert(self.view()[k - 1] == name@);
                return Some(k - 1);
            }
            k = k - 1;
        }
        None
    }

    pub fn len(&self) -> (n: usize)
        ensures
            n == self.view().len(),
    {
        self.names.len()
    }
}

} // verus!
