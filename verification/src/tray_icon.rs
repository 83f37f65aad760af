//! The over-quota tray icon: choosing and decoding the entry of an `.ico`
//! file that suits the tray.
use vstd::prelude::*;
use crate::bmp::{palette_in_range, palette_overflow};

verus! {

/// The largest edge (pixels) of an icon entry that suits the tray.
pub const TRAY_ICON_MAX_PX: u32 = 48;

#[verifier::external_type_specification]
#[verifier::external_body]
pub struct ExIconDir(ico::IconDir);

/// One entry of an icon directory: its width, its height, its raw encoded
/// data, and the RGBA pixels `ico::IconDirEntry::decode` gives for it
/// (`None` when `decode` returns an error).
pub type IconEntry = (u32, u32, Seq<u8>, Option<Seq<u8>>);

/// The entries of an icon directory, in order.
pub uninterp spec fn icon_entries(dir: ico::IconDir) -> Seq<(u32, u32, Seq<u8>, Option<Seq<u8>>)>;

/// What `ico::IconDir::read` gives for a file's bytes: its entries as
/// [`icon_entries`] describes them, or `None` when the file is rejected.
pub uninterp spec fn ico_read(bytes: Seq<u8>) -> Option<Seq<(u32, u32, Seq<u8>, Option<Seq<u8>>)>>;

/// The (width, height) of each entry, in order.
pub open spec fn entry_sizes_of(entries: Seq<IconEntry>) -> Seq<(u32, u32)> {
    Seq::new(entries.len(), |i: int| (entries[i].0, entries[i].1))
}

/// Calls `ico::IconDir::read` on the bytes. Claims only that the result is
/// the named function of the bytes, and that the directory it returns holds
/// the entries that name gives. Left unsaid: for a PNG entry `read` also
/// parses the PNG header with the `png` crate, which is not audited here
/// for panics.
#[verifier::external_body]
fn read_icon_dir(bytes: &[u8]) -> (r: Option<ico::IconDir>)
    ensures
        (r is Some) == (ico_read(bytes@) is Some),
        r matches Some(d) ==> icon_entries(d) == ico_read(bytes@)->Some_0,
{
    ico::IconDir::read(std::io::Cursor::new(bytes)).ok()
}

/// Lists `ico::IconDirEntry::width` and `height` of each entry of
/// `ico::IconDir::entries`, in order; claims that these are the sizes of the
/// directory's named entries.
#[verifier::external_body]
fn entry_sizes(dir: &ico::IconDir) -> (r: Vec<(u32, u32)>)
    ensures
        r@ == entry_sizes_of(icon_entries(*dir)),
{
    dir.entries().iter().map(|e| (e.width(), e.height())).collect()
}

/// Copies `ico::IconDirEntry::data` of entry `index`: claims that it is the
/// entry's named raw data.
#[verifier::external_body]
fn entry_data(dir: &ico::IconDir, index: usize) -> (r: Vec<u8>)
    requires
        index < icon_entries(*dir).len(),
    ensures
        r@ == icon_entries(*dir)[index as int].2,
{
    dir.entries()[index].data().to_vec()
}

/// Calls `ico::IconDirEntry::decode` on entry `index` and hands back the
/// RGBA data and the size. Claims that it gives `Some` exactly when `decode`
/// returns `Ok`, with the entry's named pixels (decoding reads only the
/// entry's own data), the entry's listed size (the crate rejects an image
/// whose size differs) and four bytes per pixel (the crate's image
/// constructor refuses any other length).
///
/// `decode` panics on a BMP entry some pixel of which names a colour past
/// its short colour table (the crate indexes that table unchecked); the
/// `requires` leaves such entries out. Its BMP path has no other panic: its
/// own size checks bound every other index and product.
#[verifier::external_body]
fn decode_entry(dir: &ico::IconDir, index: usize) -> (r: Option<(Vec<u8>, u32, u32)>)
    requires
        index < icon_entries(*dir).len(),
        !palette_overflow(icon_entries(*dir)[index as int].2),
    ensures
        (r is Some) == (icon_entries(*dir)[index as int].3 is Some),
        r matches Some((data, w, h)) ==> data@ == icon_entries(*dir)[index as int].3->Some_0 && w
            == icon_entries(*dir)[index as int].0 && h == icon_entries(*dir)[index as int].1
            && data@.len() == 4 * w * h,
{
    match dir.entries()[index].decode() {
        Ok(img) => Some((img.rgba_data().to_vec(), img.width(), img.height())),
        Err(_) => None,
    }
}

/// Whether an entry of size `s` suits the tray (no edge above 48 pixels).
pub open spec fn fits_tray(s: (u32, u32)) -> bool {
    s.0 <= TRAY_ICON_MAX_PX && s.1 <= TRAY_ICON_MAX_PX
}

/// Among the first `n` entries, the widest one that suits the tray; of
/// equally wide ones, the last.
pub open spec fn widest_fitting(sizes: Seq<(u32, u32)>, n: int) -> Option<int>
    decreases n,
{
    if n <= 0 {
        None
    } else {
        let prev = widest_fitting(sizes, n - 1);
        if fits_tray(sizes[n - 1]) {
            match prev {
                Some(b) => if sizes[n - 1].0 >= sizes[b].0 {
                    Some(n - 1)
                } else {
                    Some(b)
                },
                None => Some(n - 1),
            }
        } else {
            prev
        }
    }
}

/// The entry for the tray: the widest one that suits it (the last of equally
/// wide ones), else the last entry, else none.
pub open spec fn tray_entry_index(sizes: Seq<(u32, u32)>) -> Option<int> {
    match widest_fitting(sizes, sizes.len() as int) {
        Some(i) => Some(i),
        None => if sizes.len() > 0 {
            Some(sizes.len() - 1)
        } else {
            None
        },
    }
}

/// The index of the entry that suits the tray best.
pub fn pick_tray_entry(sizes: &Vec<(u32, u32)>) -> (r: Option<usize>)
    ensures
        match r {
            Some(k) => tray_entry_index(sizes@) == Some(k as int) && k < sizes@.len(),
            None => tray_entry_index(sizes@) is None,
        },
{
    let n = sizes.len();
    let mut best: Option<usize> = None;
    let mut i: usize = 0;
    while i < n
        invariant
            n == sizes@.len(),
            i <= n,
            match widest_fitting(sizes@, i as int) {
                Some(b) => best == Some(b as usize) && 0 <= b < i,
                None => best is None,
            },
        decreases n - i,
    {
        let (w, h) = sizes[i];
        if w <= TRAY_ICON_MAX_PX && h <= TRAY_ICON_MAX_PX {
            best = match best {
                Some(b) => if w >= sizes[b].0 {
                    Some(i)
                } else {
                    Some(b)
                },
                None => Some(i),
            };
        }
        i = i + 1;
    }
    match best {
        Some(b) => Some(b),
        None => if n > 0 {
            Some(n - 1)
        } else {
            None
        },
    }
}

/// Decodes the tray entry of an `.ico` file: `None` when the file is
/// rejected, has no entries, or its entry is a BMP whose pixels name colours
/// past its colour table or does not decode; otherwise the RGBA pixels that
/// `ico` decodes for the entry that `tray_entry_index` picks, with its size.
pub fn warn_icon_rgba(bytes: &[u8]) -> (r: Option<(Vec<u8>, u32, u32)>)
    ensures
        match ico_read(bytes@) {
            None => r is None,
            Some(entries) => match tray_entry_index(entry_sizes_of(entries)) {
                None => r is None,
                Some(i) => if palette_overflow(entries[i].2) {
                    r is None
                } else {
                    &&& (r is Some) == (entries[i].3 is Some)
                    &&& r matches Some((data, w, h)) ==> data@ == entries[i].3->Some_0 && w
                        == entries[i].0 && h == entries[i].1 && data@.len() == 4 * w * h
                },
            },
        },
{
    let dir = match read_icon_dir(bytes) {
        Some(d) => d,
        None => return None,
    };
    let sizes = entry_sizes(&dir);
    match pick_tray_entry(&sizes) {
        Some(i) => {
            let data = entry_data(&dir, i);
            if !palette_in_range(data.as_slice()) {
                return None;
            }
            decode_entry(&dir, i)
        },
        None => None,
    }
}

}
