//! The media-conversion collaborator, as seen from this library: the path
//! of the external conversion program and the conversion lifecycle queues.
//! Running the program is input/output and happens outside the library.

use crate::event::Event;
use vstd::prelude::*;

verus! {

/// Configuration of the external media converter.
#[derive(Debug)]
pub struct Converter {
    pub ffmpeg_path: String,
    pub on_convert: Event,
    pub on_done: Event,
}

impl Converter {
    /// A new converter that will run the program at the given path.
    pub fn new(ffmpeg_path: String) -> (r: Converter)
        ensures
            r.ffmpeg_path == ffmpeg_path,
            r.on_convert@ == Seq::<Seq<char>>::empty(),
            r.on_done@ == Seq::<Seq<char>>::empty(),
    {
        Converter { ffmpeg_path, on_convert: Event::new(), on_done: Event::new() }
    }
}

} // verus!
