//! What a parsed document tells the surrounding file-selection logic to
//! keep: the referenced media files of a valid document.

use vstd::prelude::*;

use crate::data::{OsuFile, OsuFileV};

verus! {

/// The string a maybe-absent borrowed string denotes: its text, or empty.
pub fn strip_option(opt: Option<&str>) -> (r: String)
    ensures
        r@ == (match opt {
            Some(s) => s@,
            None => Seq::<char>::empty(),
        }),
{
    if let Some(stripped) = opt {
        return stripped.to_owned();
    }
    String::new()
}

/// The media file names a document requires its directory to retain: the
/// background image when one exists, then the audio file.  An invalid
/// document must not drive retention decisions, so it names nothing.
pub open spec fn spec_media_to_keep(doc: OsuFileV) -> Seq<Seq<char>> {
    if !doc.is_valid {
        Seq::empty()
    } else if doc.events_section.background.exists {
        seq![doc.events_section.background.file_name].push(doc.general_section.audio_file_name)
    } else {
        seq![doc.general_section.audio_file_name]
    }
}

impl OsuFile {
    /// The relative media file names this document keeps alive; mirrors
    /// [`spec_media_to_keep`].
    pub fn media_to_keep(&self) -> (r: Vec<String>)
        ensures
            r@.map_values(|s: String| s@) == spec_media_to_keep(self@),
    {
        let mut r: Vec<String> = Vec::new();
        if !self.is_valid {
            proof {
                assert(r@.map_values(|s: String| s@) =~= spec_media_to_keep(self@));
            }
            return r;
        }
        if self.events_section.background.exists {
            r.push(self.events_section.background.file_name.clone());
        }
        r.push(self.general_section.audio_file_name.clone());
        proof {
            assert(r@.map_values(|s: String| s@) =~= spec_media_to_keep(self@));
        }
        r
    }
}

} // verus!
