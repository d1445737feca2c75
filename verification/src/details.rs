use vstd::prelude::*;

use crate::BrowseError;
use crate::EntryKind;
use crate::classify;
use crate::spec_classify;
use crate::format::dec_string;
use crate::format::format_permissions;
use crate::format::format_size;
use crate::format::format_timestamp;
use crate::format::kind_label;
use crate::format::kind_label_spec;
use crate::format::perm_string;
use crate::format::stamp_shape;
use crate::format::time_error_message;
use crate::format::unsupported_marker;

verus! {

/// What the filesystem reports of a path when the details panel asks: the
/// size in bytes, the POSIX mode bits where the platform has them, the
/// three timestamps in seconds since the Unix epoch where retrievable,
/// and the type flags.
#[derive(Clone, Copy, PartialEq, Eq, Structural, Debug)]
pub struct RawDetails {
    pub size: u64,
    pub mode: Option<u32>,
    pub created: Option<i64>,
    pub accessed: Option<i64>,
    pub modified: Option<i64>,
    pub is_dir: bool,
    pub is_file: bool,
    pub is_symlink: bool,
}

/// The content of the details panel for one path. Built on a "Show
/// Details" action, discarded when the panel closes.
#[derive(Debug)]
pub struct FileDetails {
    pub path: String,
    pub size: u64,
    pub mode: Option<u32>,
    pub created: Option<i64>,
    pub accessed: Option<i64>,
    pub modified: Option<i64>,
    pub kind: EntryKind,
}

/// Builds the details of a path from what the filesystem reported; where
/// the metadata fetch failed, the panel gets an error instead.
pub fn make_details(path: String, meta: Option<RawDetails>) -> (r: Result<
    FileDetails,
    BrowseError,
>)
    ensures
        meta is None ==> r == Err::<FileDetails, BrowseError>(BrowseError::DetailsUnavailable),
        meta matches Some(m) ==> (r matches Ok(d) && d.path@ == path@ && d.size == m.size
            && d.mode == m.mode && d.created == m.created && d.accessed == m.accessed
            && d.modified == m.modified && d.kind == spec_classify(
            m.is_dir,
            m.is_file,
            m.is_symlink,
        )),
{
    match meta {
        Some(m) => Ok(
            FileDetails {
                path,
                size: m.size,
                mode: m.mode,
                created: m.created,
                accessed: m.accessed,
                modified: m.modified,
                kind: classify(m.is_dir, m.is_file, m.is_symlink),
            },
        ),
        None => Err(BrowseError::DetailsUnavailable),
    }
}

/// The attribute table of the details panel: its six labels, in the order
/// shown, each with the value the formatters give it. Which stamp a
/// timestamp row shows depends on the machine's time zone; its sentinel
/// case, its success and its shape are pinned as in `format_timestamp`.
pub fn details_rows(d: &FileDetails) -> (rows: Vec<(String, String)>)
    ensures
        rows@.len() == 6,
        rows@[0].0@ == "Size"@ && rows@[0].1@ == dec_string(d.size as nat),
        rows@[1].0@ == "Permissions"@ && (d.mode matches Some(m) ==> rows@[1].1@ == perm_string(m))
            && (d.mode is None ==> rows@[1].1@ == unsupported_marker()),
        rows@[2].0@ == "Created"@ && (d.created is None ==> rows@[2].1@ == time_error_message()),
        rows@[3].0@ == "Last Accessed"@ && (d.accessed is None ==> rows@[3].1@
            == time_error_message()),
        rows@[4].0@ == "Last Modified"@ && (d.modified is None ==> rows@[4].1@
            == time_error_message()),
        rows@[5].0@ == "Type"@ && rows@[5].1@ == kind_label_spec(d.kind),
        d.created matches Some(secs) && -1000000000000 <= secs <= 1000000000000 ==> rows@[2].1@
            != time_error_message(),
        d.accessed matches Some(secs) && -1000000000000 <= secs <= 1000000000000 ==> rows@[3].1@
            != time_error_message(),
        d.modified matches Some(secs) && -1000000000000 <= secs <= 1000000000000 ==> rows@[4].1@
            != time_error_message(),
        d.created matches Some(secs) && -30000000000 <= secs <= 100000000000 ==> stamp_shape(rows@[2].1@),
        d.accessed matches Some(secs) && -30000000000 <= secs <= 100000000000 ==> stamp_shape(rows@[3].1@),
        d.modified matches Some(secs) && -30000000000 <= secs <= 100000000000 ==> stamp_shape(rows@[4].1@),
{
    let mut rows: Vec<(String, String)> = Vec::new();
    rows.push((String::from_str("Size"), format_size(d.size)));
    rows.push((String::from_str("Permissions"), format_permissions(d.mode)));
    rows.push((String::from_str("Created"), format_timestamp(d.created)));
    rows.push((String::from_str("Last Accessed"), format_timestamp(d.accessed)));
    rows.push((String::from_str("Last Modified"), format_timestamp(d.modified)));
    rows.push((String::from_str("Type"), kind_label(d.kind)));
    rows
}

} // verus!
