//! The focal length recorded in an image's EXIF data.

use vstd::prelude::*;

verus! {

/// The EXIF tag under which a camera records its focal length.
pub const FOCAL_LENGTH_TAG: u32 = 0x920A;

/// One entry of an image's EXIF data: the code of its tag and its value as
/// readable text.
#[derive(Debug)]
pub struct ExifField {
    pub tag: u32,
    pub text: String,
}

impl View for ExifField {
    type V = (u32, Seq<char>);

    open spec fn view(&self) -> (u32, Seq<char>) {
        (self.tag, self.text@)
    }
}

/// The models of a list of entries, in the same order.
pub open spec fn fields_model(fields: Seq<ExifField>) -> Seq<(u32, Seq<char>)> {
    Seq::new(fields.len(), |i: int| fields[i]@)
}

/// The model of the entries that a parser found, if it found any.
pub open spec fn parsed_model(parsed: Option<Vec<ExifField>>) -> Option<Seq<(u32, Seq<char>)>> {
    match parsed {
        Some(fields) => Some(fields_model(fields@)),
        None => None,
    }
}

/// The EXIF entries that `rexif` finds in the bytes of a JPEG or TIFF image,
/// each as its tag's code and its readable value; nothing where it reports
/// an error.
pub uninterp spec fn exif_fields(contents: Seq<u8>) -> Option<Seq<(u32, Seq<char>)>>;

/// `rexif::parse_buffer_quiet` parses the EXIF data in the bytes of a JPEG
/// or TIFF image; its warnings are dropped. The entries it returns are
/// handed out in its order, each as the code of its tag and its
/// `value_more_readable`. The result depends on the bytes alone, and is
/// what `exif_fields` names.
#[verifier::external_body]
fn parse_exif(contents: &Vec<u8>) -> (parsed: Option<Vec<ExifField>>)
    ensures
        parsed_model(parsed) == exif_fields(contents@),
{
    let exif = rexif::parse_buffer_quiet(contents).0.ok()?;
    Some(
        exif.entries.into_iter().map(
            |entry| ExifField { tag: entry.tag as u32, text: entry.value_more_readable.to_string() },
        ).collect(),
    )
}

/// The readable value of the first entry tagged as the focal length.
pub open spec fn first_focal(fields: Seq<(u32, Seq<char>)>) -> Option<Seq<char>>
    decreases fields.len(),
{
    if fields.len() == 0 {
        None
    } else if fields[0].0 == FOCAL_LENGTH_TAG {
        Some(fields[0].1)
    } else {
        first_focal(fields.drop_first())
    }
}

/// The focal length among the entries: the readable value of the first one
/// tagged as the focal length, or nothing where there is none.
pub fn focal_length_among(fields: &Vec<ExifField>) -> (focal: Option<String>)
    ensures
        crate::text::optional(focal) == first_focal(fields_model(fields@)),
{
    let ghost model = fields_model(fields@);
    let mut i: usize = 0;
    assert(model.skip(0) =~= model);
    while i < fields.len()
        invariant
            i <= fields@.len(),
            model == fields_model(fields@),
            first_focal(model) == first_focal(model.skip(i as int)),
        decreases fields@.len() - i,
    {
        proof {
            let rest = model.skip(i as int);
            assert(rest[0] == fields@[i as int]@);
            assert(rest.drop_first() =~= model.skip(i as int + 1));
        }
        if fields[i].tag == FOCAL_LENGTH_TAG {
            return Some(fields[i].text.clone());
        }
        i = i + 1;
    }
    None
}

/// The focal length recorded in the bytes of an image file, or nothing where
/// the bytes hold no EXIF data that can be parsed or no focal length.
pub fn extract_focal_length(contents: &Vec<u8>) -> (focal: Option<String>)
    ensures
        crate::text::optional(focal) == match exif_fields(contents@) {
            Some(fields) => first_focal(fields),
            None => None,
        },
{
    match parse_exif(contents) {
        Some(fields) => focal_length_among(&fields),
        None => None,
    }
}

} // verus!
