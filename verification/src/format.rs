//! The output container format, held as a filename extension.

use vstd::prelude::*;
use vstd::string::StrSliceExecFns;
use vstd::string::StringExecFns;

verus! {

/// A container format, stored as its filename extension with the leading
/// dot included.
#[derive(Debug)]
pub struct Format {
    format_ext: String,
}

impl Format {
    /// The extension as a character sequence, for contracts.
    pub closed spec fn ext(&self) -> Seq<char> {
        self.format_ext@
    }

    /// Builds a format from a name or an extension: a leading dot is added
    /// when it is absent.
    pub fn new(name_or_ext: &str) -> (r: Format)
        ensures
            r.ext() == if name_or_ext@.len() > 0 && name_or_ext@[0] == '.' {
                name_or_ext@
            } else {
                "."@ + name_or_ext@
            },
    {
        if !name_or_ext.is_empty() && name_or_ext.get_char(0) == '.' {
            Format { format_ext: String::from_str(name_or_ext) }
        } else {
            let mut ext = String::from_str(".");
            ext.append(name_or_ext);
            Format { format_ext: ext }
        }
    }

    /// Builds a format from an exact extension, taken as it is.
    pub fn from_exact_extension(ext: &str) -> (r: Format)
        ensures
            r.ext() == ext@,
    {
        Format { format_ext: String::from_str(ext) }
    }

    /// The filename extension of this format.
    pub fn get_extension(&self) -> (r: &str)
        ensures
            r@ == self.ext(),
    {
        self.format_ext.as_str()
    }
}

/// The output filename of an item: its name with every character illegal in
/// filenames removed, followed by the format's extension.
pub fn output_file_name(name: &str, format: &Format) -> (r: String)
    ensures
        r@ == crate::util::legal_filename_chars(name@) + format.ext(),
{
    let mut legal = crate::util::legalize_filename(name);
    legal.append(format.get_extension());
    legal
}

impl Clone for Format {
    fn clone(&self) -> (r: Self)
        ensures
            r.ext() == self.ext(),
    {
        Format { format_ext: self.format_ext.clone() }
    }
}

} // verus!
