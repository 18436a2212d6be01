//! Placement of the icons in the volume window.
use vstd::prelude::*;
use crate::args::ConfigError;
use crate::path::{file_name, file_name_of};

verus! {

/// Size at which icons are drawn.
pub const ICON_SIZE: u64 = 100;
/// Left column: the application icon and the first attachment of a row.
pub const LEFT_X: u64 = 75;
/// Right column: the drop link and the second attachment of a row.
pub const RIGHT_X: u64 = 396;
/// Row of the application icon and the drop link.
pub const TOP_Y: u64 = 64;
/// Vertical space between two rows of icons.
pub const ROW_GAP: u64 = 60;
/// Width of the volume window.
pub const WINDOW_WIDTH: u64 = 571;
/// Height of the volume window.
pub const WINDOW_HEIGHT: u64 = 375;
/// Most attachments that can be laid out: every row then has a 64-bit
/// coordinate.
pub const MAX_ATTACHMENTS: usize = 0xFFFF_FFFF;

/// Where one attachment is placed.
pub struct LayoutEntry {
    pub name: String,
    pub x: u64,
    pub y: u64,
}

/// The y coordinate of attachment row `row` (0-based): the rows stack
/// below the top row.
pub open spec fn row_y(row: nat) -> nat {
    64 + (row + 1) * (100 + 60)
}

/// The x coordinate of attachment `k`: attachments are taken two to a row,
/// the first to the left column and the second to the right one.
pub open spec fn column_x(k: nat) -> nat {
    if k % 2 == 0 {
        75
    } else {
        396
    }
}

/// Each path has a file name.
pub open spec fn all_named(paths: Seq<Seq<char>>) -> bool {
    forall|k: int| 0 <= k < paths.len() ==> (#[trigger] file_name_of(paths[k])) is Some
}

/// The file names of paths that all have one.
pub open spec fn names_of(paths: Seq<Seq<char>>) -> Seq<Seq<char>> {
    paths.map_values(|p: Seq<char>| file_name_of(p)->0)
}

/// The text of each string.
pub open spec fn views(v: Seq<String>) -> Seq<Seq<char>> {
    v.map_values(|s: String| s@)
}

/// `e` is the placement of attachment `k`, whose file name is `name`.
pub open spec fn placed(e: LayoutEntry, k: nat, name: Seq<char>) -> bool {
    &&& e.name@ == name
    &&& e.x == column_x(k)
    &&& e.y == row_y(k / 2)
}

/// Places the attachments, in order, in a two-column grid below the
/// application icon; fails on the first one that has no file name.
pub fn compute_layout(attachments: &Vec<String>) -> (r: Result<Vec<LayoutEntry>, ConfigError>)
    requires
        attachments@.len() <= MAX_ATTACHMENTS,
    ensures
        match r {
            Ok(v) => {
                &&& all_named(views(attachments@))
                &&& v@.len() == attachments@.len()
                &&& forall|k: int| 0 <= k < v@.len() ==> placed(#[trigger] v@[k], k as nat,
                    names_of(views(attachments@))[k])
            },
            Err(ConfigError::AttachmentWithoutFileName(k)) => {
                &&& k < attachments@.len()
                &&& file_name_of(attachments@[k as int]@) is None
                &&& forall|j: int| 0 <= j < k ==> (#[trigger] file_name_of(attachments@[j]@)) is Some
            },
            Err(_) => false,
        },
{
    let n = attachments.len();
    let mut out: Vec<LayoutEntry> = Vec::new();
    let mut k: usize = 0;
    while k < n
        invariant
            n == attachments@.len(),
            n <= MAX_ATTACHMENTS,
            k <= n,
            out@.len() == k,
            forall|j: int| 0 <= j < k ==> (#[trigger] file_name_of(attachments@[j]@)) is Some,
            forall|j: int| 0 <= j < k ==> placed(#[trigger] out@[j], j as nat,
                file_name_of(attachments@[j]@)->0),
        decreases n - k,
    {
        let name = match file_name(attachments[k].as_str()) {
            Some(s) => s,
            None => return Err(ConfigError::AttachmentWithoutFileName(k)),
        };
        let x: u64 = if k % 2 == 0 { LEFT_X } else { RIGHT_X };
        let row: u64 = (k / 2) as u64;
        let y: u64 = TOP_Y + (row + 1) * (ICON_SIZE + ROW_GAP);
        out.push(LayoutEntry { name, x, y });
        k = k + 1;
    }
    Ok(out)
}

} // verus!
