//! The glyph of the status item, and how it is put on screen.

use vstd::prelude::*;

verus! {

/// Width of an image glyph on screen, in points.
pub const ICON_WIDTH: u32 = 18;

/// Height of an image glyph on screen, in points.
pub const ICON_HEIGHT: u32 = 18;

/// The glyph of the status item: a text, or the bytes of an encoded image.
#[derive(Debug, PartialEq, Eq)]
pub enum Icon {
    Name(String),
    Image(Vec<u8>),
}

/// An `Icon` as mathematics.
pub ghost enum IconView {
    Name(Seq<char>),
    Image(Seq<u8>),
}

impl View for Icon {
    type V = IconView;

    open spec fn view(&self) -> IconView {
        match self {
            Icon::Name(text) => IconView::Name(text@),
            Icon::Image(bytes) => IconView::Image(bytes@),
        }
    }
}

/// Why an icon could not be taken from a file.
#[derive(Debug, PartialEq, Eq)]
pub enum IconError {
    /// The file at this path could not be read.
    Unreadable(String),
}

/// How much room the status item takes in the bar.
#[derive(Clone, Copy, Debug, PartialEq, Eq, Structural)]
pub enum StatusItemLength {
    /// As wide as its title.
    Variable,
    /// As wide as the bar is high.
    Square,
}

/// What the status item shows.
#[derive(Debug, PartialEq, Eq)]
pub enum Glyph {
    /// A title.
    Title(String),
    /// An image decoded from `bytes` and scaled to `width` by `height` points.
    Image { bytes: Vec<u8>, width: u32, height: u32 },
    /// Nothing.
    Blank,
}

/// A `Glyph` as mathematics.
pub ghost enum GlyphView {
    Title(Seq<char>),
    Image { bytes: Seq<u8>, width: u32, height: u32 },
    Blank,
}

impl View for Glyph {
    type V = GlyphView;

    open spec fn view(&self) -> GlyphView {
        match self {
            Glyph::Title(text) => GlyphView::Title(text@),
            Glyph::Image { bytes, width, height } => GlyphView::Image {
                bytes: bytes@,
                width: *width,
                height: *height,
            },
            Glyph::Blank => GlyphView::Blank,
        }
    }
}

/// The status item as it goes on screen.
#[derive(Debug, PartialEq, Eq)]
pub struct Presentation {
    pub length: StatusItemLength,
    pub glyph: Glyph,
}

/// A `Presentation` as mathematics.
pub ghost struct PresentationView {
    pub length: StatusItemLength,
    pub glyph: GlyphView,
}

impl View for Presentation {
    type V = PresentationView;

    open spec fn view(&self) -> PresentationView {
        PresentationView { length: self.length, glyph: self.glyph@ }
    }
}

/// How `icon` goes on screen. A text becomes the title of an item as wide as
/// the text. The bytes of an image become an image of the fixed glyph size in a
/// square item; where the toolkit could not decode them (`decoded` is false)
/// the square item stays without a glyph. For a text `decoded` says nothing.
pub open spec fn presentation(icon: IconView, decoded: bool) -> PresentationView {
    match icon {
        IconView::Name(text) => PresentationView {
            length: StatusItemLength::Variable,
            glyph: GlyphView::Title(text),
        },
        IconView::Image(bytes) => PresentationView {
            length: StatusItemLength::Square,
            glyph: if decoded {
                GlyphView::Image { bytes, width: ICON_WIDTH, height: ICON_HEIGHT }
            } else {
                GlyphView::Blank
            },
        },
    }
}

impl Icon {
    /// The bytes that the toolkit has to decode before the icon can be shown:
    /// those of an image, and none for a text.
    pub fn image_bytes(&self) -> (bytes: Option<&Vec<u8>>)
        ensures
            match self@ {
                IconView::Name(_) => bytes is None,
                IconView::Image(image) => bytes is Some && bytes->0@ == image,
            },
    {
        match self {
            Icon::Name(_) => None,
            Icon::Image(bytes) => Some(bytes),
        }
    }

    /// Decides how the icon goes on screen, given whether the toolkit could
    /// decode its image bytes.
    pub fn present(&self, decoded: bool) -> (shown: Presentation)
        ensures
            shown@ == presentation(self@, decoded),
    {
        match self {
            Icon::Name(text) => Presentation {
                length: StatusItemLength::Variable,
                glyph: Glyph::Title(text.clone()),
            },
            Icon::Image(bytes) => {
                if decoded {
                    Presentation {
                        length: StatusItemLength::Square,
                        glyph: Glyph::Image {
                            bytes: bytes.clone(),
                            width: ICON_WIDTH,
                            height: ICON_HEIGHT,
                        },
                    }
                } else {
                    Presentation { length: StatusItemLength::Square, glyph: Glyph::Blank }
                }
            },
        }
    }
}

} // verus!
