//! The two fixed tables: the site's category codes with their names, and the
//! trackers that every magnet link announces.
use vstd::prelude::*;

verus! {

/// Every category code with its name, groups first within each hundred.
///
/// A group has a code that is a multiple of one hundred; the categories of
/// the group share its hundreds digit. Codes that the site added later are
/// not listed: they are named after their group.
pub const CATEGORIES: [(u16, &'static str); 41] = [
    (100, "Audio"),
    (101, "Audio: Music"),
    (102, "Audio: Audio books"),
    (103, "Audio: Sound clips"),
    (104, "Audio: FLAC"),
    (199, "Audio: Other"),
    (200, "Video"),
    (201, "Video: Movies"),
    (202, "Video: Movies DVDR"),
    (203, "Video: Music videos"),
    (204, "Video: Movie clips"),
    (205, "Video: TV shows"),
    (206, "Video: Handheld"),
    (299, "Video: Other"),
    (300, "Applications"),
    (301, "Applications: Windows"),
    (302, "Applications: Mac"),
    (303, "Applications: UNIX"),
    (304, "Applications: Handheld"),
    (399, "Applications: Other OS"),
    (400, "Games"),
    (401, "Games: PC"),
    (402, "Games: Mac"),
    (403, "Games: PSx"),
    (404, "Games: XBOX360"),
    (405, "Games: Wii"),
    (406, "Games: Handheld"),
    (499, "Games: Other"),
    (500, "Porn"),
    (501, "Porn: Movies"),
    (502, "Porn: Movies DVDR"),
    (503, "Porn: Pictures"),
    (504, "Porn: Games"),
    (599, "Porn: Other"),
    (600, "Other"),
    (601, "Other: E-books"),
    (602, "Other: Comics"),
    (603, "Other: Pictures"),
    (604, "Other: Covers"),
    (605, "Other: Physibles"),
    (699, "Other: Other"),
];

/// The announce URLs added to every magnet link, in this order.
pub const TRACKERS: [&'static str; 10] = [
    "udp://tracker.coppersurfer.tk:6969/announce",
    "udp://tracker.openbittorrent.com:6969/announce",
    "udp://9.rarbg.to:2710/announce",
    "udp://9.rarbg.me:2780/announce",
    "udp://9.rarbg.to:2730/announce",
    "udp://tracker.opentrackr.org:1337",
    "http://p4p.arenabg.com:1337/announce",
    "udp://tracker.torrent.eu.org:451/announce",
    "udp://tracker.tiny-vps.com:6969/announce",
    "udp://open.stealth.si:80/announce",
];

/// Whether row `i` of the category table holds `code`.
pub open spec fn row_of(code: u16, i: int) -> bool {
    0 <= i < CATEGORIES@.len() && CATEGORIES@[i].0 == code
}

/// Whether the category table has a row for `code`.
pub open spec fn listed(code: u16) -> bool {
    exists|i: int| row_of(code, i)
}

/// The name in the row of `code`, for a listed code.
pub open spec fn listed_name(code: u16) -> Seq<char> {
    CATEGORIES@[choose|i: int| row_of(code, i)].1@
}

/// Every row of the category table lists its code.
pub proof fn lemma_rows_are_listed(i: int)
    requires
        0 <= i < CATEGORIES@.len(),
    ensures
        listed(CATEGORIES@[i].0),
{
    assert(row_of(CATEGORIES@[i].0, i));
}

/// The codes of the category table rise from row to row.
pub proof fn lemma_codes_rise(i: int, j: int)
    requires
        0 <= i < j < CATEGORIES@.len(),
    ensures
        CATEGORIES@[i].0 < CATEGORIES@[j].0,
{
}

/// No code has two rows.
pub proof fn lemma_one_row(code: u16, i: int, j: int)
    requires
        row_of(code, i),
        row_of(code, j),
    ensures
        i == j,
{
    if i < j {
        lemma_codes_rise(i, j);
    } else if j < i {
        lemma_codes_rise(j, i);
    }
}

} // verus!
