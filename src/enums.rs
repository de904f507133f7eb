use std::path::PathBuf;
use vstd::prelude::*;
use vstd::string::*;

verus! {

/// Paths are carried through messages unexamined.
#[verifier::external_type_specification]
#[verifier::external_body]
pub struct ExPathBuf(PathBuf);

/// A request from the user interface to the event loop.
#[derive(Debug, PartialEq, Eq, PartialOrd, Ord)]
pub enum InterfaceMessage {
    LoadImage(PathBuf),
    Reset,
    /// Contains an rgb color
    ThreshColor((u8, u8, u8)),
    DoThreshold,
    Quit,
}

/// The colour spaces in which an image can be thresholded.
#[derive(Clone, Copy, Debug, PartialEq, Eq, Structural, PartialOrd, Ord, Hash)]
#[non_exhaustive]
pub enum ColorSpace {
    RGB,
    HSBorHSV,
    HSL,
    HSI,
    LabCIE,
    YUV,
}

/// Every colour space, in the order in which the selector lists them.
pub open spec fn all_spaces() -> Seq<ColorSpace> {
    seq![
        ColorSpace::RGB,
        ColorSpace::HSBorHSV,
        ColorSpace::HSL,
        ColorSpace::HSI,
        ColorSpace::LabCIE,
        ColorSpace::YUV,
    ]
}

/// The stable string form of a colour space, as the selector shows it.
pub open spec fn name_of(c: ColorSpace) -> Seq<char> {
    match c {
        ColorSpace::RGB => "RGB"@,
        ColorSpace::HSBorHSV => "HSB or HSV"@,
        ColorSpace::HSL => "HSL"@,
        ColorSpace::HSI => "HSI"@,
        ColorSpace::LabCIE => "LabCIE"@,
        ColorSpace::YUV => "YUV"@,
    }
}

/// The colour space that a selector string names, if any; "HSB" and
/// "HSV" are accepted as aliases of "HSB or HSV".
pub open spec fn space_named(s: Seq<char>) -> Option<ColorSpace> {
    if s == "RGB"@ {
        Some(ColorSpace::RGB)
    } else if s == "HSB"@ || s == "HSV"@ || s == "HSB or HSV"@ {
        Some(ColorSpace::HSBorHSV)
    } else if s == "HSL"@ {
        Some(ColorSpace::HSL)
    } else if s == "HSI"@ {
        Some(ColorSpace::HSI)
    } else if s == "LabCIE"@ {
        Some(ColorSpace::LabCIE)
    } else if s == "YUV"@ {
        Some(ColorSpace::YUV)
    } else {
        None
    }
}

/// The human names of the three channels of a colour space.
pub open spec fn channel_labels(c: ColorSpace) -> Seq<Seq<char>> {
    match c {
        ColorSpace::RGB => seq!["Red"@, "Green"@, "Blue"@],
        ColorSpace::HSBorHSV => seq!["Hue"@, "Saturation"@, "Brightness/Value"@],
        ColorSpace::HSL => seq!["Hue"@, "Saturation"@, "Lightness"@],
        ColorSpace::HSI => seq!["Hue"@, "Saturation"@, "Intensity"@],
        ColorSpace::LabCIE => seq!["L"@, "a"@, "b"@],
        ColorSpace::YUV => seq!["Y"@, "U"@, "V"@],
    }
}

/// The string form of every colour space parses back to that space.
pub proof fn lemma_name_round_trip(c: ColorSpace)
    ensures
        space_named(name_of(c)) == Some(c),
{
    reveal_strlit("RGB");
    reveal_strlit("HSB");
    reveal_strlit("HSV");
    reveal_strlit("HSB or HSV");
    reveal_strlit("HSL");
    reveal_strlit("HSI");
    reveal_strlit("LabCIE");
    reveal_strlit("YUV");
    match c {
        ColorSpace::RGB => {},
        ColorSpace::HSBorHSV => {
            assert("HSB or HSV"@.len() == 10);
            assert("RGB"@.len() == 3);
        },
        ColorSpace::HSL => {
            assert("HSL"@[2] != "RGB"@[2]);
            assert("HSL"@[2] != "HSB"@[2]);
            assert("HSL"@[2] != "HSV"@[2]);
        },
        ColorSpace::HSI => {
            assert("HSI"@[0] != "RGB"@[0]);
            assert("HSI"@[2] != "HSB"@[2]);
            assert("HSI"@[2] != "HSV"@[2]);
            assert("HSI"@[2] != "HSL"@[2]);
        },
        ColorSpace::LabCIE => {
            assert("LabCIE"@.len() == 6);
            assert("HSB or HSV"@.len() == 10);
        },
        ColorSpace::YUV => {
            assert("YUV"@[0] != "RGB"@[0]);
            assert("YUV"@[0] != "HSB"@[0]);
            assert("YUV"@[0] != "HSV"@[0]);
            assert("YUV"@[0] != "HSL"@[0]);
            assert("YUV"@[0] != "HSI"@[0]);
        },
    }
}

/// Character-wise equality of two strings.
fn same_text(a: &str, b: &str) -> (r: bool)
    ensures
        r == (a@ == b@),
{
    let n = a.unicode_len();
    if n != b.unicode_len() {
        return false;
    }
    let mut i: usize = 0;
    while i < n
        invariant
            n == a@.len(),
            n == b@.len(),
            i <= n,
            forall|j: int| 0 <= j < i ==> a@[j] == b@[j],
        decreases n - i,
    {
        if a.get_char(i) != b.get_char(i) {
            return false;
        }
        i = i + 1;
    }
    assert(a@ =~= b@);
    true
}

impl ColorSpace {
    /// Parses a selector string; unknown strings give `None`.
    pub fn from_str(name: &str) -> (r: Option<ColorSpace>)
        ensures
            r == space_named(name@),
    {
        if same_text(name, "RGB") {
            Some(ColorSpace::RGB)
        } else if same_text(name, "HSB") || same_text(name, "HSV") || same_text(name, "HSB or HSV") {
            Some(ColorSpace::HSBorHSV)
        } else if same_text(name, "HSL") {
            Some(ColorSpace::HSL)
        } else if same_text(name, "HSI") {
            Some(ColorSpace::HSI)
        } else if same_text(name, "LabCIE") {
            Some(ColorSpace::LabCIE)
        } else if same_text(name, "YUV") {
            Some(ColorSpace::YUV)
        } else {
            None
        }
    }

    /// The string form of every colour space, in selector order.
    pub fn get_variants() -> (r: Vec<String>)
        ensures
            r@.len() == all_spaces().len(),
            forall|i: int| 0 <= i < r@.len() ==> r@[i]@ == name_of(#[trigger] all_spaces()[i]),
    {
        let mut v: Vec<String> = Vec::new();
        v.push("RGB".to_owned());
        v.push("HSB or HSV".to_owned());
        v.push("HSL".to_owned());
        v.push("HSI".to_owned());
        v.push("LabCIE".to_owned());
        v.push("YUV".to_owned());
        v
    }

    /// The human names of this colour space's three channels.
    pub fn channel_names(&self) -> (r: [String; 3])
        ensures
            r@.len() == 3,
            forall|i: int| 0 <= i < 3 ==> r@[i]@ == #[trigger] channel_labels(*self)[i],
    {
        match self {
            ColorSpace::RGB => ["Red".to_owned(), "Green".to_owned(), "Blue".to_owned()],
            ColorSpace::HSBorHSV => [
                "Hue".to_owned(),
                "Saturation".to_owned(),
                "Brightness/Value".to_owned(),
            ],
            ColorSpace::HSL => ["Hue".to_owned(), "Saturation".to_owned(), "Lightness".to_owned()],
            ColorSpace::HSI => ["Hue".to_owned(), "Saturation".to_owned(), "Intensity".to_owned()],
            ColorSpace::LabCIE => ["L".to_owned(), "a".to_owned(), "b".to_owned()],
            ColorSpace::YUV => ["Y".to_owned(), "U".to_owned(), "V".to_owned()],
        }
    }
}

} // verus!
