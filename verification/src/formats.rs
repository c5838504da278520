//! Names of the host's predefined clipboard formats.
//!
//! The host describes clipboard content by numeric format identifiers. The
//! predefined identifiers have well-known names; registered formats carry a
//! name the host reports itself. Querying the host is the driver's job; the
//! table, the lookup and the display-name fallback rules live here.

use vstd::prelude::*;
use vstd::string::StringExecFns;

verus! {

/// The predefined clipboard formats: each identifier with its name.
pub open spec fn format_table() -> Seq<(u16, Seq<char>)> {
    seq![
        (2u16, "CF_BITMAP"@),
        (8u16, "CF_DIB"@),
        (17u16, "CF_DIBV5"@),
        (5u16, "CF_DIF"@),
        (130u16, "CF_DSPBITMAP"@),
        (142u16, "CF_DSPENHMETAFILE"@),
        (131u16, "CF_DSPMETAFILEPICT"@),
        (129u16, "CF_DSPTEXT"@),
        (14u16, "CF_ENHMETAFILE"@),
        (768u16, "CF_GDIOBJFIRST"@),
        (1023u16, "CF_GDIOBJLAST"@),
        (15u16, "CF_HDROP"@),
        (16u16, "CF_LOCALE"@),
        (3u16, "CF_METAFILEPICT"@),
        (7u16, "CF_OEMTEXT"@),
        (128u16, "CF_OWNERDISPLAY"@),
        (9u16, "CF_PALETTE"@),
        (10u16, "CF_PENDATA"@),
        (512u16, "CF_PRIVATEFIRST"@),
        (767u16, "CF_PRIVATELAST"@),
        (11u16, "CF_RIFF"@),
        (4u16, "CF_SYLK"@),
        (1u16, "CF_TEXT"@),
        (6u16, "CF_TIFF"@),
        (13u16, "CF_UNICODETEXT"@),
        (12u16, "CF_WAVE"@),
    ]
}

/// The predefined formats as runtime values, in the table's order.
pub fn known_clipboard_formats() -> (v: Vec<(u16, &'static str)>)
    ensures
        v@.len() == format_table().len(),
        forall|j: int|
            0 <= j < v@.len() ==> v@[j].0 == format_table()[j].0 && v@[j].1@
                == format_table()[j].1,
{
    let mut v: Vec<(u16, &'static str)> = Vec::new();
    v.push((2, "CF_BITMAP"));
    v.push((8, "CF_DIB"));
    v.push((17, "CF_DIBV5"));
    v.push((5, "CF_DIF"));
    v.push((130, "CF_DSPBITMAP"));
    v.push((142, "CF_DSPENHMETAFILE"));
    v.push((131, "CF_DSPMETAFILEPICT"));
    v.push((129, "CF_DSPTEXT"));
    v.push((14, "CF_ENHMETAFILE"));
    v.push((768, "CF_GDIOBJFIRST"));
    v.push((1023, "CF_GDIOBJLAST"));
    v.push((15, "CF_HDROP"));
    v.push((16, "CF_LOCALE"));
    v.push((3, "CF_METAFILEPICT"));
    v.push((7, "CF_OEMTEXT"));
    v.push((128, "CF_OWNERDISPLAY"));
    v.push((9, "CF_PALETTE"));
    v.push((10, "CF_PENDATA"));
    v.push((512, "CF_PRIVATEFIRST"));
    v.push((767, "CF_PRIVATELAST"));
    v.push((11, "CF_RIFF"));
    v.push((4, "CF_SYLK"));
    v.push((1, "CF_TEXT"));
    v.push((6, "CF_TIFF"));
    v.push((13, "CF_UNICODETEXT"));
    v.push((12, "CF_WAVE"));
    v
}

/// Whether an identifier is one of the predefined formats.
pub open spec fn is_predefined_format(id: u16) -> bool {
    exists|j: int| 0 <= j < format_table().len() && format_table()[j].0 == id
}

/// The name of a predefined format identifier, if it is one.
#[allow(non_snake_case)]
pub fn GetPredefinedClipboardFormatName(format_id: u16) -> (r: Option<&'static str>)
    ensures
        r is Some <==> is_predefined_format(format_id),
        r matches Some(s) ==> exists|j: int|
            0 <= j < format_table().len() && format_table()[j].0 == format_id && s@
                == format_table()[j].1,
{
    let table = known_clipboard_formats();
    let mut i: usize = 0;
    while i < table.len()
        invariant
            i <= table@.len(),
            table@.len() == format_table().len(),
            forall|j: int|
                0 <= j < table@.len() ==> table@[j].0 == format_table()[j].0 && table@[j].1@
                    == format_table()[j].1,
            forall|j: int| 0 <= j < i ==> format_table()[j].0 != format_id,
        decreases table@.len() - i,
    {
        if table[i].0 == format_id {
            proof {
                assert(format_table()[i as int].0 == format_id);
            }
            return Some(table[i].1);
        }
        i = i + 1;
    }
    None
}

/// The names among the predefined formats whose flag is set, in the table's
/// order up to the first `n` entries.
pub open spec fn selected_names(flags: Seq<bool>, n: int) -> Seq<Seq<char>>
    decreases n,
{
    if n <= 0 {
        Seq::empty()
    } else {
        selected_names(flags, n - 1) + if flags[n - 1] {
            seq![format_table()[n - 1].1]
        } else {
            Seq::empty()
        }
    }
}

/// The names of the predefined formats the host reports as currently on
/// offer, given one availability flag per table entry.
pub fn clipboard_available_formats(available: &Vec<bool>) -> (r: Vec<&'static str>)
    requires
        available@.len() == format_table().len(),
    ensures
        r@.map_values(|s: &'static str| s@) == selected_names(
            available@,
            format_table().len() as int,
        ),
{
    let table = known_clipboard_formats();
    let mut r: Vec<&'static str> = Vec::new();
    let mut i: usize = 0;
    while i < table.len()
        invariant
            i <= table@.len(),
            table@.len() == format_table().len(),
            available@.len() == format_table().len(),
            forall|j: int|
                0 <= j < table@.len() ==> table@[j].0 == format_table()[j].0 && table@[j].1@
                    == format_table()[j].1,
            r@.map_values(|s: &'static str| s@) == selected_names(available@, i as int),
        decreases table@.len() - i,
    {
        if available[i] {
            r.push(table[i].1);
        }
        proof {
            assert(r@.map_values(|s: &'static str| s@) =~= selected_names(
                available@,
                i + 1,
            ));
        }
        i = i + 1;
    }
    r
}

/// The display name for a format: the name the host reported for it if there
/// is one, else its predefined name, else a placeholder.
pub fn format_display_name(format_id: u16, host_name: Option<String>) -> (r: String)
    ensures
        (match host_name {
            Some(n) => n@.len() > 0 ==> r@ == n@,
            None => true,
        }),
        (match host_name {
            Some(n) => n@.len() == 0,
            None => true,
        }) ==> {
            &&& is_predefined_format(format_id) ==> exists|j: int|
                0 <= j < format_table().len() && format_table()[j].0 == format_id && r@
                    == format_table()[j].1
            &&& !is_predefined_format(format_id) ==> r@ == "[unknown format]"@
        },
{
    match host_name {
        Some(n) => {
            if !n.as_str().is_empty() {
                return n;
            }
        },
        None => {},
    }
    match GetPredefinedClipboardFormatName(format_id) {
        Some(s) => String::from_str(s),
        None => String::from_str("[unknown format]"),
    }
}

} // verus!
