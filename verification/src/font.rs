//! Finding the family name of a font in the bytes of its file.

use vstd::prelude::*;

verus! {

/// The identifier that a font's name table gives to the family name.
pub const FAMILY: u16 = 1;

/// One record of a font's name table: what it names, and its text where
/// the record holds Unicode.
#[derive(Clone, Debug, PartialEq, Eq)]
pub struct NameRecord {
    pub name_id: u16,
    pub text: Option<String>,
}

impl View for NameRecord {
    type V = (u16, Option<Seq<char>>);

    open spec fn view(&self) -> (u16, Option<Seq<char>>) {
        (
            self.name_id,
            match self.text {
                Some(t) => Some(t@),
                None => None,
            },
        )
    }
}

/// Why a font file gave no family name.
#[derive(Clone, Copy, Debug, PartialEq, Eq, Structural)]
pub enum FontError {
    /// The bytes are no font.
    InvalidFont,
    /// The font names no family in Unicode.
    NoFamilyName,
}

/// The name records that `ttf_parser` reads from the first face of the font
/// in `bytes`, in table order; `None` if it cannot parse the font.
pub uninterp spec fn font_names(bytes: Seq<u8>) -> Option<Seq<(u16, Option<Seq<char>>)>>;

/// The records held in `names`, as plain values.
pub open spec fn record_views(names: Seq<NameRecord>) -> Seq<(u16, Option<Seq<char>>)> {
    names.map_values(|n: NameRecord| n@)
}

/// The text of the first record from position `i` on that names the family
/// and has a text.
pub open spec fn family_from(names: Seq<(u16, Option<Seq<char>>)>, i: int) -> Option<Seq<char>>
    decreases names.len() - i,
{
    if i < 0 || i >= names.len() {
        None
    } else if names[i].0 == FAMILY && names[i].1 is Some {
        names[i].1
    } else {
        family_from(names, i + 1)
    }
}

/// The family name that a font with the name records `names` has.
pub open spec fn family_name(names: Option<Seq<(u16, Option<Seq<char>>)>>) -> Result<
    Seq<char>,
    FontError,
> {
    match names {
        None => Err(FontError::InvalidFont),
        Some(n) => match family_from(n, 0) {
            Some(name) => Ok(name),
            None => Err(FontError::NoFamilyName),
        },
    }
}

/// `ttf_parser::Face::parse` on face 0, then `Face::names` and, for each
/// record, `Name::to_string`: the records of the font's name table in table
/// order, each with its identifier and its text where it has one.  The
/// result is taken to depend on `bytes` alone.
#[verifier::external_body]
fn read_names(bytes: &[u8]) -> (r: Option<Vec<NameRecord>>)
    ensures
        match r {
            Some(names) => Some(record_views(names@)),
            None => None,
        } == font_names(bytes@),
{
    let face = ttf_parser::Face::parse(bytes, 0).ok()?;
    Some(
        face.names().into_iter().map(
            |name| NameRecord { name_id: name.name_id, text: name.to_string() },
        ).collect(),
    )
}

/// The family name among `names`: the text of the first record that names
/// the family and has a text.
pub fn first_family_name(names: &Vec<NameRecord>) -> (r: Option<String>)
    ensures
        match r {
            Some(name) => Some(name@),
            None => None,
        } == family_from(record_views(names@), 0),
{
    let mut i: usize = 0;
    while i < names.len()
        invariant
            i <= names@.len(),
            family_from(record_views(names@), i as int) == family_from(record_views(names@), 0),
        decreases names@.len() - i,
    {
        if names[i].name_id == FAMILY {
            match &names[i].text {
                Some(text) => {
                    return Some(text.clone());
                },
                None => {},
            }
        }
        i += 1;
    }
    None
}

/// The family name of the font in `bytes`.
pub fn font_family(bytes: &[u8]) -> (r: Result<String, FontError>)
    ensures
        match r {
            Ok(name) => Ok(name@),
            Err(e) => Err(e),
        } == family_name(font_names(bytes@)),
{
    match read_names(bytes) {
        None => Err(FontError::InvalidFont),
        Some(names) => match first_family_name(&names) {
            Some(name) => Ok(name),
            None => Err(FontError::NoFamilyName),
        },
    }
}

} // verus!
