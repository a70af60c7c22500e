//! The names of the Windows clipboard formats.

use vstd::prelude::*;
use vstd::string::StringExecFns;
use crate::text::{decode_utf16_lossy, same_text, utf16_encoded, utf16_lossy, wide_with_terminator};

verus! {
/// The standard clipboard formats: the code of each and the name under which
/// it is listed among the representations.
pub open spec fn standard_formats() -> Seq<(u32, Seq<char>)> {
    seq![
        (2u32, "CF_BITMAP"@),
        (8u32, "CF_DIB"@),
        (17u32, "CF_DIBV5"@),
        (5u32, "CF_DIF"@),
        (0x0082u32, "CF_DSPBITMAP"@),
        (0x008Eu32, "CF_DSPENHMETAFILE"@),
        (0x0083u32, "CF_DSPMETAFILEPICT"@),
        (0x0081u32, "CF_DSPTEXT"@),
        (14u32, "CF_ENHMETAFILE"@),
        (0x0300u32, "CF_GDIOBJFIRST"@),
        (0x03FFu32, "CF_GDIOBJLAST"@),
        (15u32, "CF_HDROP"@),
        (16u32, "CF_LOCALE"@),
        (3u32, "CF_METAFILEPICT"@),
        (7u32, "CF_OEMTEXT"@),
        (0x0080u32, "CF_OWNERDISPLAY"@),
        (9u32, "CF_PALETTE"@),
        (10u32, "CF_PENDATA"@),
        (0x0200u32, "CF_PRIVATEFIRST"@),
        (0x02FFu32, "CF_PRIVATELAST"@),
        (11u32, "CF_RIFF"@),
        (4u32, "CF_SYLK"@),
        (1u32, "CF_TEXT"@),
        (6u32, "CF_TIFF"@),
        (13u32, "CF_UNICODETEXT"@),
        (12u32, "CF_WAVE"@),
    ]
}

/// Whether the table lists `code` under `name`.
pub open spec fn is_standard(code: u32, name: Seq<char>) -> bool {
    exists|i: int|
        0 <= i < standard_formats().len() && #[trigger] standard_formats()[i] == (code, name)
}

/// Whether the table lists the code at all.
pub open spec fn is_standard_code(code: u32) -> bool {
    exists|i: int| 0 <= i < standard_formats().len() && (#[trigger] standard_formats()[i]).0 == code
}

/// Whether the table lists the name at all.
pub open spec fn is_standard_name(name: Seq<char>) -> bool {
    exists|i: int| 0 <= i < standard_formats().len() && (#[trigger] standard_formats()[i]).1 == name
}

fn standard_table() -> (table: Vec<(u32, &'static str)>)
    ensures
        table@.len() == standard_formats().len(),
        forall|i: int|
            0 <= i < table@.len() ==> (#[trigger] table@[i]).0 == standard_formats()[i].0
                && table@[i].1@ == standard_formats()[i].1,
{
    vec![
        (2u32, "CF_BITMAP"),
        (8u32, "CF_DIB"),
        (17u32, "CF_DIBV5"),
        (5u32, "CF_DIF"),
        (0x0082u32, "CF_DSPBITMAP"),
        (0x008Eu32, "CF_DSPENHMETAFILE"),
        (0x0083u32, "CF_DSPMETAFILEPICT"),
        (0x0081u32, "CF_DSPTEXT"),
        (14u32, "CF_ENHMETAFILE"),
        (0x0300u32, "CF_GDIOBJFIRST"),
        (0x03FFu32, "CF_GDIOBJLAST"),
        (15u32, "CF_HDROP"),
        (16u32, "CF_LOCALE"),
        (3u32, "CF_METAFILEPICT"),
        (7u32, "CF_OEMTEXT"),
        (0x0080u32, "CF_OWNERDISPLAY"),
        (9u32, "CF_PALETTE"),
        (10u32, "CF_PENDATA"),
        (0x0200u32, "CF_PRIVATEFIRST"),
        (0x02FFu32, "CF_PRIVATELAST"),
        (11u32, "CF_RIFF"),
        (4u32, "CF_SYLK"),
        (1u32, "CF_TEXT"),
        (6u32, "CF_TIFF"),
        (13u32, "CF_UNICODETEXT"),
        (12u32, "CF_WAVE"),
    ]
}

/// The name of a standard format; nothing for any other code.
pub fn standard_format_name(format: u32) -> (name: Option<&'static str>)
    ensures
        match name {
            Some(name) => is_standard(format, name@),
            None => !is_standard_code(format),
        },
{
    let table = standard_table();
    let mut i: usize = 0;
    while i < table.len()
        invariant
            i <= table@.len(),
            table@.len() == standard_formats().len(),
            forall|k: int|
                0 <= k < table@.len() ==> (#[trigger] table@[k]).0 == standard_formats()[k].0
                    && table@[k].1@ == standard_formats()[k].1,
            forall|k: int| 0 <= k < i ==> (#[trigger] standard_formats()[k]).0 != format,
        decreases table@.len() - i,
    {
        if table[i].0 == format {
            return Some(table[i].1);
        }
        i += 1;
    }
    None
}

/// The code of a standard format, by its name; nothing for any other name.
pub fn standard_format_code(name: &str) -> (code: Option<u32>)
    ensures
        match code {
            Some(code) => is_standard(code, name@),
            None => !is_standard_name(name@),
        },
{
    let table = standard_table();
    let mut i: usize = 0;
    while i < table.len()
        invariant
            i <= table@.len(),
            table@.len() == standard_formats().len(),
            forall|k: int|
                0 <= k < table@.len() ==> (#[trigger] table@[k]).0 == standard_formats()[k].0
                    && table@[k].1@ == standard_formats()[k].1,
            forall|k: int| 0 <= k < i ==> (#[trigger] standard_formats()[k]).1 != name@,
        decreases table@.len() - i,
    {
        if same_text(table[i].1, name) {
            return Some(table[i].0);
        }
        i += 1;
    }
    None
}

/// The name under which a format is listed: the standard name of a standard
/// format; for any other the name that the system has it registered under,
/// handed in as UTF-16, and `unknown` where the system knows none.
pub fn get_format_name(format: u32, registered_name: &[u16]) -> (name: String)
    ensures
        is_standard_code(format) ==> is_standard(format, name@),
        !is_standard_code(format) && registered_name@.len() == 0 ==> name@ == "unknown"@,
        !is_standard_code(format) && registered_name@.len() > 0 ==> name@ == utf16_lossy(
            registered_name@,
        ),
{
    match standard_format_name(format) {
        Some(name) => String::from_str(name),
        None => {
            if registered_name.len() == 0 {
                String::from_str("unknown")
            } else {
                decode_utf16_lossy(registered_name)
            }
        },
    }
}

/// The code of a format, or what it takes to get one.
#[derive(Debug, Clone, PartialEq, Eq)]
pub enum FormatCode {
    /// The code of a standard format.
    Standard(u32),
    /// The format has to be registered with the system, under this name in
    /// UTF-16 with its terminating zero.
    Register(Vec<u16>),
}

/// The code of the format that is listed under `name`.
pub fn get_format_code(name: &str) -> (code: FormatCode)
    ensures
        match code {
            FormatCode::Standard(code) => is_standard(code, name@),
            FormatCode::Register(wide) => !is_standard_name(name@) && wide@ == utf16_encoded(
                name@,
            ).push(0u16),
        },
{
    match standard_format_code(name) {
        Some(code) => FormatCode::Standard(code),
        None => FormatCode::Register(wide_with_terminator(name)),
    }
}

/// What tells the standard names apart: the length of a name and two of its
/// characters.
spec fn fingerprint(name: Seq<char>) -> (nat, char, char) {
    (name.len(), name[3], name[5])
}

/// The fingerprint of the name at a position of the table.
spec fn fingerprint_at(position: int) -> (nat, char, char) {
    if position == 0 {
        (9, 'B', 'T')
    } else if position == 1 {
        (6, 'D', 'B')
    } else if position == 2 {
        (8, 'D', 'B')
    } else if position == 3 {
        (6, 'D', 'F')
    } else if position == 4 {
        (12, 'D', 'P')
    } else if position == 5 {
        (17, 'D', 'P')
    } else if position == 6 {
        (18, 'D', 'P')
    } else if position == 7 {
        (10, 'D', 'P')
    } else if position == 8 {
        (14, 'E', 'H')
    } else if position == 9 {
        (14, 'G', 'I')
    } else if position == 10 {
        (13, 'G', 'I')
    } else if position == 11 {
        (8, 'H', 'R')
    } else if position == 12 {
        (9, 'L', 'C')
    } else if position == 13 {
        (15, 'M', 'T')
    } else if position == 14 {
        (10, 'O', 'M')
    } else if position == 15 {
        (15, 'O', 'N')
    } else if position == 16 {
        (10, 'P', 'L')
    } else if position == 17 {
        (10, 'P', 'N')
    } else if position == 18 {
        (15, 'P', 'I')
    } else if position == 19 {
        (14, 'P', 'I')
    } else if position == 20 {
        (7, 'R', 'F')
    } else if position == 21 {
        (7, 'S', 'L')
    } else if position == 22 {
        (7, 'T', 'X')
    } else if position == 23 {
        (7, 'T', 'F')
    } else if position == 24 {
        (14, 'U', 'I')
    } else {
        (7, 'W', 'V')
    }
}

/// The table lists no code twice and no name twice, so a code has one name
/// and a name one code.
pub proof fn lemma_standard_formats_are_distinct(i: int, j: int)
    requires
        0 <= i < standard_formats().len(),
        0 <= j < standard_formats().len(),
        i != j,
    ensures
        standard_formats()[i].0 != standard_formats()[j].0,
        standard_formats()[i].1 != standard_formats()[j].1,
{
    reveal_strlit("CF_BITMAP");
    reveal_strlit("CF_DIB");
    reveal_strlit("CF_DIBV5");
    reveal_strlit("CF_DIF");
    reveal_strlit("CF_DSPBITMAP");
    reveal_strlit("CF_DSPENHMETAFILE");
    reveal_strlit("CF_DSPMETAFILEPICT");
    reveal_strlit("CF_DSPTEXT");
    reveal_strlit("CF_ENHMETAFILE");
    reveal_strlit("CF_GDIOBJFIRST");
    reveal_strlit("CF_GDIOBJLAST");
    reveal_strlit("CF_HDROP");
    reveal_strlit("CF_LOCALE");
    reveal_strlit("CF_METAFILEPICT");
    reveal_strlit("CF_OEMTEXT");
    reveal_strlit("CF_OWNERDISPLAY");
    reveal_strlit("CF_PALETTE");
    reveal_strlit("CF_PENDATA");
    reveal_strlit("CF_PRIVATEFIRST");
    reveal_strlit("CF_PRIVATELAST");
    reveal_strlit("CF_RIFF");
    reveal_strlit("CF_SYLK");
    reveal_strlit("CF_TEXT");
    reveal_strlit("CF_TIFF");
    reveal_strlit("CF_UNICODETEXT");
    reveal_strlit("CF_WAVE");
    let table = standard_formats();
    assert(fingerprint(table[i].1) == fingerprint_at(i));
    assert(fingerprint(table[j].1) == fingerprint_at(j));
}

/// Looking up the name of a standard code and then the code of that name
/// gives the code back, and the other way round.
pub proof fn lemma_standard_round_trip(
    code: u32,
    name: Seq<char>,
    other_code: u32,
    other_name: Seq<char>,
)
    requires
        is_standard(code, name),
    ensures
        is_standard(other_code, name) ==> other_code == code,
        is_standard(code, other_name) ==> other_name == name,
{
    let i = choose|i: int|
        0 <= i < standard_formats().len() && #[trigger] standard_formats()[i] == (code, name);
    if is_standard(other_code, name) {
        let j = choose|j: int|
            0 <= j < standard_formats().len() && #[trigger] standard_formats()[j] == (
                other_code,
                name,
            );
        if i != j {
            lemma_standard_formats_are_distinct(i, j);
        }
    }
    if is_standard(code, other_name) {
        let j = choose|j: int|
            0 <= j < standard_formats().len() && #[trigger] standard_formats()[j] == (
                code,
                other_name,
            );
        if i != j {
            lemma_standard_formats_are_distinct(i, j);
        }
    }
}
} // verus!
