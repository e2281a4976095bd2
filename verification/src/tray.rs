//! What the tray shows: its icon, tooltip and menu, as plain data that the
//! tray toolkit of the platform is fed with.

use vstd::prelude::*;
use vstd::string::*;
use crate::text::str_is;

verus! {

/// The byte that fills the placeholder icon.
pub const DUMMY_ICON_BYTE: u8 = 200;

/// What the host wants the tray to show. The icon is a square of `icon_dim`
/// pixels, four bytes each, as `pixels_to_tray_icon` lays them out.
#[derive(Clone, Debug, PartialEq, Eq)]
pub struct PanoTray {
    pub tooltip: String,
    pub icon_argb: Vec<u8>,
    pub icon_dim: u32,
    /// Identity and text of each menu item.
    pub menu_items: Vec<(String, String)>,
}

/// What the host wants the tray to show, as it crosses the boundary.
#[derive(Clone, Debug, PartialEq, Eq)]
pub struct PanoTrayData {
    pub tooltip: String,
    pub icon_argb: Vec<u8>,
    pub icon_dim: u32,
    /// Identity and text of each menu item.
    pub menu_items: Vec<(String, String)>,
}

/// An entry of the tray menu.
#[derive(Clone, Debug, PartialEq, Eq)]
pub enum TrayMenuEntry {
    /// A line between groups of items.
    Separator,
    /// An item that reports its identity when it is chosen.
    Standard { id: String, label: String, enabled: bool },
}

/// The mathematical content of a `TrayMenuEntry`.
pub enum TrayMenuEntryView {
    Separator,
    Standard { id: Seq<char>, label: Seq<char>, enabled: bool },
}

impl View for TrayMenuEntry {
    type V = TrayMenuEntryView;

    open spec fn view(&self) -> TrayMenuEntryView {
        match self {
            TrayMenuEntry::Separator => TrayMenuEntryView::Separator,
            TrayMenuEntry::Standard { id, label, enabled } => TrayMenuEntryView::Standard {
                id: id@,
                label: label@,
                enabled: *enabled,
            },
        }
    }
}

/// The icon of the tray as the platform wants it.
#[derive(Clone, Debug, PartialEq, Eq)]
pub struct TrayIcon {
    pub width: i32,
    pub height: i32,
    pub data: Vec<u8>,
}

/// The menu entry for an item of the host: the identity `Separator` gives a
/// separator; any other item is shown with its text, and can be chosen unless
/// its identity is `Dummy`.
pub open spec fn spec_menu_entry(id: Seq<char>, text: Seq<char>) -> TrayMenuEntryView {
    if id == "Separator"@ {
        TrayMenuEntryView::Separator
    } else {
        TrayMenuEntryView::Standard { id, label: text, enabled: id != "Dummy"@ }
    }
}

/// The menu entry for an item of the host.
pub fn menu_entry(id: &str, text: &str) -> (r: TrayMenuEntry)
    ensures
        r@ == spec_menu_entry(id@, text@),
{
    if str_is(id, "Separator") {
        TrayMenuEntry::Separator
    } else {
        TrayMenuEntry::Standard {
            id: id.to_owned(),
            label: text.to_owned(),
            enabled: !str_is(id, "Dummy"),
        }
    }
}

/// A 32-bit dimension read as a signed number in two's complement.
pub open spec fn spec_dimension(dim: u32) -> int {
    if dim <= i32::MAX {
        dim as int
    } else {
        dim - 0x1_0000_0000
    }
}

/// A 32-bit dimension read as a signed number in two's complement.
fn dimension(dim: u32) -> (r: i32)
    ensures
        r == spec_dimension(dim),
{
    if dim <= 0x7fff_ffff {
        dim as i32
    } else {
        // dim - 2^32 == -(2^32 - dim), and u32::MAX - dim + 1 is at most 2^31.
        let back: u32 = u32::MAX - dim;
        -(back as i32) - 1
    }
}

impl PanoTray {
    /// The tray that shows what the host handed over.
    pub fn from_data(data: PanoTrayData) -> (r: PanoTray)
        ensures
            r.tooltip == data.tooltip,
            r.icon_argb == data.icon_argb,
            r.icon_dim == data.icon_dim,
            r.menu_items == data.menu_items,
    {
        PanoTray {
            tooltip: data.tooltip,
            icon_argb: data.icon_argb,
            icon_dim: data.icon_dim,
            menu_items: data.menu_items,
        }
    }

    /// The tray before the host has said what to show: the placeholder icon
    /// of 64 pixels, and one item that cannot be chosen.
    pub fn initial() -> (r: PanoTray)
        ensures
            r.tooltip@ == "Pano Scrobbler"@,
            r.icon_dim == 64,
            r.icon_argb@ == Seq::new(16384, |i: int| DUMMY_ICON_BYTE),
            r.menu_items@.len() == 1,
            r.menu_items@[0].0@ == "Dummy"@,
            r.menu_items@[0].1@ == "Initializing Pano Scrobbler"@,
    {
        let mut menu_items: Vec<(String, String)> = Vec::new();
        menu_items.push(("Dummy".to_owned(), "Initializing Pano Scrobbler".to_owned()));
        PanoTray {
            tooltip: "Pano Scrobbler".to_owned(),
            icon_argb: dummy_icon(64),
            icon_dim: 64,
            menu_items,
        }
    }

    /// The identity under which the tray registers.
    pub fn id(&self) -> (s: String)
        ensures
            s@ == "com.arn.scrobble.tray"@,
    {
        "com.arn.scrobble.tray".to_owned()
    }

    /// The title of the tray.
    pub fn title(&self) -> (s: String)
        ensures
            s@ == "Pano Scrobbler"@,
    {
        "Pano Scrobbler".to_owned()
    }

    /// The icon: a square of `icon_dim` pixels with the bytes that the host
    /// handed over.
    pub fn icon_pixmap(&self) -> (r: TrayIcon)
        ensures
            r.width == spec_dimension(self.icon_dim),
            r.height == spec_dimension(self.icon_dim),
            r.data@ == self.icon_argb@,
    {
        let mut data: Vec<u8> = Vec::new();
        let n = self.icon_argb.len();
        let mut i: usize = 0;
        while i < n
            invariant
                n == self.icon_argb.len(),
                i <= n,
                data@ == self.icon_argb@.take(i as int),
            decreases n - i,
        {
            data.push(self.icon_argb[i]);
            assert(data@ =~= self.icon_argb@.take(i + 1));
            i += 1;
        }
        assert(self.icon_argb@.take(n as int) == self.icon_argb@);
        TrayIcon { width: dimension(self.icon_dim), height: dimension(self.icon_dim), data }
    }

    /// The menu: one entry for each item of the host, in their order.
    pub fn menu(&self) -> (r: Vec<TrayMenuEntry>)
        ensures
            r@.len() == self.menu_items@.len(),
            forall|i: int|
                0 <= i < r@.len() ==> (#[trigger] r@[i])@ == spec_menu_entry(
                    self.menu_items@[i].0@,
                    self.menu_items@[i].1@,
                ),
    {
        let mut out: Vec<TrayMenuEntry> = Vec::new();
        let n = self.menu_items.len();
        let mut i: usize = 0;
        while i < n
            invariant
                n == self.menu_items.len(),
                i <= n,
                out@.len() == i,
                forall|j: int|
                    0 <= j < i ==> (#[trigger] out@[j])@ == spec_menu_entry(
                        self.menu_items@[j].0@,
                        self.menu_items@[j].1@,
                    ),
            decreases n - i,
        {
            let item = &self.menu_items[i];
            out.push(menu_entry(item.0.as_str(), item.1.as_str()));
            i += 1;
        }
        out
    }
}

/// The placeholder icon of a square of `size` pixels: four bytes for each
/// pixel, all of them `DUMMY_ICON_BYTE`.
pub fn dummy_icon(size: u32) -> (r: Vec<u8>)
    requires
        size * size * 4 <= u32::MAX,
    ensures
        r@ == Seq::new((size * size * 4) as nat, |i: int| DUMMY_ICON_BYTE),
{
    assert(size * size <= u32::MAX) by (nonlinear_arith)
        requires
            size * size * 4 <= u32::MAX,
    ;
    let n: u32 = size * size * 4;
    let mut out: Vec<u8> = Vec::new();
    let mut i: u32 = 0;
    while i < n
        invariant
            i <= n,
            out@ == Seq::new(i as nat, |k: int| DUMMY_ICON_BYTE),
        decreases n - i,
    {
        out.push(DUMMY_ICON_BYTE);
        assert(out@ =~= Seq::new((i + 1) as nat, |k: int| DUMMY_ICON_BYTE));
        i += 1;
    }
    out
}

/// The byte of a packed pixel that stands `shift` bits from its low end.
pub open spec fn spec_channel(pixel: u32, shift: u32) -> u8 {
    ((pixel >> shift) & 0xff) as u8
}

/// The byte of a packed pixel that stands `shift` bits from its low end.
fn channel(pixel: u32, shift: u32) -> (r: u8)
    requires
        shift < 32,
    ensures
        r == spec_channel(pixel, shift),
{
    let c: u32 = (pixel >> shift) & 0xff;
    assert(c < 256) by (bit_vector)
        requires
            c == (pixel >> shift) & 0xff,
    ;
    c as u8
}

/// The bytes of packed pixels, four for each pixel in the order red, green,
/// blue, alpha. A pixel holds alpha in its highest byte, then red, green and
/// blue.
pub open spec fn spec_pixels_to_rgba(pixels: Seq<u32>) -> Seq<u8> {
    Seq::new(
        4 * pixels.len(),
        |i: int|
            {
                let p = pixels[i / 4];
                if i % 4 == 0 {
                    spec_channel(p, 16)
                } else if i % 4 == 1 {
                    spec_channel(p, 8)
                } else if i % 4 == 2 {
                    spec_channel(p, 0)
                } else {
                    spec_channel(p, 24)
                }
            },
    )
}

/// The bytes of packed pixels, four for each pixel in the order red, green,
/// blue, alpha.
pub fn pixels_to_rgba(pixels: &Vec<u32>) -> (r: Vec<u8>)
    ensures
        r@ == spec_pixels_to_rgba(pixels@),
{
    let mut out: Vec<u8> = Vec::new();
    let n = pixels.len();
    let mut i: usize = 0;
    while i < n
        invariant
            n == pixels.len(),
            i <= n,
            out@.len() == 4 * i,
            forall|k: int| 0 <= k < out@.len() ==> out@[k] == spec_pixels_to_rgba(pixels@)[k],
        decreases n - i,
    {
        let p = pixels[i];
        out.push(channel(p, 16));
        out.push(channel(p, 8));
        out.push(channel(p, 0));
        out.push(channel(p, 24));
        i += 1;
    }
    assert(out@ =~= spec_pixels_to_rgba(pixels@));
    out
}

/// The icon bytes of the tray for packed pixels, four for each pixel: its
/// alpha, then its red, then its blue, then its green. A pixel holds alpha in
/// its highest byte, then red, green and blue.
pub open spec fn spec_pixels_to_tray_icon(pixels: Seq<u32>) -> Seq<u8> {
    Seq::new(
        4 * pixels.len(),
        |i: int|
            {
                let p = pixels[i / 4];
                if i % 4 == 0 {
                    spec_channel(p, 24)
                } else if i % 4 == 1 {
                    spec_channel(p, 16)
                } else if i % 4 == 2 {
                    spec_channel(p, 0)
                } else {
                    spec_channel(p, 8)
                }
            },
    )
}

/// The icon bytes that the tray is given for the packed pixels of the host:
/// four for each pixel, its alpha, then its red, then its blue, then its
/// green. This is the content of `PanoTrayData::icon_argb`.
pub fn pixels_to_tray_icon(pixels: &Vec<u32>) -> (r: Vec<u8>)
    ensures
        r@ == spec_pixels_to_tray_icon(pixels@),
{
    let mut out: Vec<u8> = Vec::new();
    let n = pixels.len();
    let mut i: usize = 0;
    while i < n
        invariant
            n == pixels.len(),
            i <= n,
            out@.len() == 4 * i,
            forall|k: int| 0 <= k < out@.len() ==> out@[k] == spec_pixels_to_tray_icon(pixels@)[k],
        decreases n - i,
    {
        let p = pixels[i];
        out.push(channel(p, 24));
        out.push(channel(p, 16));
        out.push(channel(p, 0));
        out.push(channel(p, 8));
        i += 1;
    }
    assert(out@ =~= spec_pixels_to_tray_icon(pixels@));
    out
}

/// Icon bytes in the order red, green, blue, alpha from icon bytes in the
/// order alpha, red, green, blue. Bytes beyond the last whole pixel are left
/// out.
pub open spec fn spec_argb_to_rgba(argb: Seq<u8>) -> Seq<u8> {
    Seq::new(
        (4 * (argb.len() / 4)) as nat,
        |i: int|
            if i % 4 == 3 {
                argb[i - 3]
            } else {
                argb[i + 1]
            },
    )
}

/// Icon bytes in the order red, green, blue, alpha from icon bytes in the
/// order alpha, red, green, blue.
pub fn argb_to_rgba(argb: &Vec<u8>) -> (r: Vec<u8>)
    ensures
        r@ == spec_argb_to_rgba(argb@),
{
    let mut out: Vec<u8> = Vec::new();
    let n = argb.len() / 4;
    let mut i: usize = 0;
    while i < n
        invariant
            n == argb.len() / 4,
            i <= n,
            out@.len() == 4 * i,
            forall|k: int| 0 <= k < out@.len() ==> out@[k] == spec_argb_to_rgba(argb@)[k],
        decreases n - i,
    {
        out.push(argb[4 * i + 1]);
        out.push(argb[4 * i + 2]);
        out.push(argb[4 * i + 3]);
        out.push(argb[4 * i]);
        i += 1;
    }
    assert(out@ =~= spec_argb_to_rgba(argb@));
    out
}

} // verus!
