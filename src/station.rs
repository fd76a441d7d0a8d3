use vstd::prelude::*;

verus! {

/// The kind of inspection station that produces the files.
#[derive(Debug, Clone, Copy, PartialEq, Eq, Structural)]
pub enum SType {
    SPI,
    AOI,
}

impl SType {
    /// The tag of the station kind, as it appears in folder names.
    pub open spec fn tag(self) -> Seq<char> {
        match self {
            SType::SPI => seq!['S', 'P', 'I'],
            SType::AOI => seq!['A', 'O', 'I'],
        }
    }

    pub fn as_str(&self) -> (r: String)
        ensures
            r@ == self.tag(),
    {
        match self {
            SType::SPI => {
                proof {
                    reveal_strlit("SPI");
                }
                String::from_str("SPI")
            },
            SType::AOI => {
                proof {
                    reveal_strlit("AOI");
                }
                String::from_str("AOI")
            },
        }
    }
}

/// A station: its production line and its kind.
#[derive(Debug, Clone, Copy, PartialEq, Eq, Structural)]
pub struct Station {
    pub line: u8,
    pub name: SType,
}

/// The settings of one archiving run, already read and checked.
#[derive(Debug)]
pub struct Config {
    pub input_dir: String,
    pub output_dir: String,
    /// Age, in whole days, that a file must exceed to be archived.
    pub time_limit: u8,
    /// Keep the source file after a verified copy.
    pub only_copy: bool,
    pub station: Station,
}

} // verus!
