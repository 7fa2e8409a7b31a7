//! Matching light and dark colour palettes. Colours are plain 8-bit RGB
//! triples; the user interface turns them into its own colour type.

use vstd::prelude::*;

verus! {

/// An opaque 8-bit-per-channel colour.
#[derive(Clone, Copy, PartialEq, Eq, Structural, Debug)]
pub struct Rgb {
    pub r: u8,
    pub g: u8,
    pub b: u8,
}

/// A full set of semantic colours for one theme variant.
#[derive(Clone, Copy, PartialEq, Eq, Structural, Debug)]
pub struct Palette {
    pub dark: bool,
    pub bg: Rgb,
    pub surface: Rgb,
    pub surface_hi: Rgb,
    pub border: Rgb,
    pub accent: Rgb,
    pub accent_hover: Rgb,
    pub on_accent: Rgb,
    pub ok: Rgb,
    pub danger: Rgb,
    pub muted: Rgb,
    pub text: Rgb,
}

pub open spec fn spec_rgb(r: u8, g: u8, b: u8) -> Rgb {
    Rgb { r, g, b }
}

/// Dark theme: deep slate with a teal accent.
pub open spec fn dark_palette() -> Palette {
    Palette {
        dark: true,
        bg: spec_rgb(0x0d, 0x11, 0x17),
        surface: spec_rgb(0x16, 0x1c, 0x24),
        surface_hi: spec_rgb(0x23, 0x2c, 0x38),
        border: spec_rgb(0x2c, 0x37, 0x44),
        accent: spec_rgb(0x2d, 0xd4, 0xbf),
        accent_hover: spec_rgb(0x5e, 0xea, 0xd4),
        on_accent: spec_rgb(0x04, 0x1a, 0x17),
        ok: spec_rgb(0x4a, 0xde, 0x80),
        danger: spec_rgb(0xf8, 0x71, 0x71),
        muted: spec_rgb(0x8b, 0x97, 0xa7),
        text: spec_rgb(0xe6, 0xed, 0xf3),
    }
}

/// Light theme: soft paper with a deeper teal accent for contrast.
pub open spec fn light_palette() -> Palette {
    Palette {
        dark: false,
        bg: spec_rgb(0xf2, 0xf4, 0xf7),
        surface: spec_rgb(0xff, 0xff, 0xff),
        surface_hi: spec_rgb(0xe9, 0xed, 0xf2),
        border: spec_rgb(0xd4, 0xda, 0xe2),
        accent: spec_rgb(0x0d, 0x94, 0x88),
        accent_hover: spec_rgb(0x0f, 0x76, 0x6e),
        on_accent: spec_rgb(0xff, 0xff, 0xff),
        ok: spec_rgb(0x15, 0x9a, 0x52),
        danger: spec_rgb(0xd9, 0x34, 0x34),
        muted: spec_rgb(0x5b, 0x65, 0x73),
        text: spec_rgb(0x1c, 0x24, 0x30),
    }
}

/// The palette that matches a light or dark preference.
pub open spec fn system_palette(is_dark: bool) -> Palette {
    if is_dark {
        dark_palette()
    } else {
        light_palette()
    }
}

pub fn rgb(r: u8, g: u8, b: u8) -> (c: Rgb)
    ensures
        c == spec_rgb(r, g, b),
{
    Rgb { r, g, b }
}

/// Dark theme: deep slate with a teal accent.
pub fn dark() -> (p: Palette)
    ensures
        p == dark_palette(),
{
    Palette {
        dark: true,
        bg: rgb(0x0d, 0x11, 0x17),
        surface: rgb(0x16, 0x1c, 0x24),
        surface_hi: rgb(0x23, 0x2c, 0x38),
        border: rgb(0x2c, 0x37, 0x44),
        accent: rgb(0x2d, 0xd4, 0xbf),
        accent_hover: rgb(0x5e, 0xea, 0xd4),
        on_accent: rgb(0x04, 0x1a, 0x17),
        ok: rgb(0x4a, 0xde, 0x80),
        danger: rgb(0xf8, 0x71, 0x71),
        muted: rgb(0x8b, 0x97, 0xa7),
        text: rgb(0xe6, 0xed, 0xf3),
    }
}

/// Light theme: soft paper with a deeper teal accent for contrast.
pub fn light() -> (p: Palette)
    ensures
        p == light_palette(),
{
    Palette {
        dark: false,
        bg: rgb(0xf2, 0xf4, 0xf7),
        surface: rgb(0xff, 0xff, 0xff),
        surface_hi: rgb(0xe9, 0xed, 0xf2),
        border: rgb(0xd4, 0xda, 0xe2),
        accent: rgb(0x0d, 0x94, 0x88),
        accent_hover: rgb(0x0f, 0x76, 0x6e),
        on_accent: rgb(0xff, 0xff, 0xff),
        ok: rgb(0x15, 0x9a, 0x52),
        danger: rgb(0xd9, 0x34, 0x34),
        muted: rgb(0x5b, 0x65, 0x73),
        text: rgb(0x1c, 0x24, 0x30),
    }
}

/// Build the palette matching the OS preference.
pub fn for_system(is_dark: bool) -> (p: Palette)
    ensures
        p == system_palette(is_dark),
        p.dark == is_dark,
{
    if is_dark {
        dark()
    } else {
        light()
    }
}

/// The background of text inputs and other sunken areas.
pub open spec fn extreme_bg_rgb(p: Palette) -> Rgb {
    if p.dark {
        spec_rgb(0x0a, 0x0e, 0x13)
    } else {
        spec_rgb(0xff, 0xff, 0xff)
    }
}

/// The fill of a widget under the pointer.
pub open spec fn hover_fill_rgb(p: Palette) -> Rgb {
    if p.dark {
        p.surface_hi
    } else {
        spec_rgb(0xdf, 0xe5, 0xec)
    }
}

/// The background of text inputs and other sunken areas.
pub fn extreme_bg(p: Palette) -> (c: Rgb)
    ensures
        c == extreme_bg_rgb(p),
{
    if p.dark {
        rgb(0x0a, 0x0e, 0x13)
    } else {
        rgb(0xff, 0xff, 0xff)
    }
}

/// The fill of a widget under the pointer.
pub fn hover_fill(p: Palette) -> (c: Rgb)
    ensures
        c == hover_fill_rgb(p),
{
    if p.dark {
        p.surface_hi
    } else {
        rgb(0xdf, 0xe5, 0xec)
    }
}

} // verus!
