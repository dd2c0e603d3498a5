use vstd::prelude::*;

verus! {

/// The file formats data can be exported to and imported from.
#[derive(Clone, Copy, Debug, PartialEq, Eq, Structural)]
pub enum FileFormat {
    Json,
    Xml,
}

impl FileFormat {
    /// The file-name extension of this format.
    pub fn extension(&self) -> (r: &'static str)
        ensures
            r@ == match *self {
                FileFormat::Json => "json"@,
                FileFormat::Xml => "xml"@,
            },
    {
        match *self {
            FileFormat::Json => "json",
            FileFormat::Xml => "xml",
        }
    }

    /// The format chosen as `choice` in the menu: 1 for JSON, 2 for XML.
    pub fn parse_choice(choice: i32) -> (r: Option<FileFormat>)
        ensures
            r == (if choice == 1 {
                Some(FileFormat::Json)
            } else if choice == 2 {
                Some(FileFormat::Xml)
            } else {
                None
            }),
    {
        match choice {
            1 => Some(FileFormat::Json),
            2 => Some(FileFormat::Xml),
            _ => None,
        }
    }
}

} // verus!
