use vstd::prelude::*;
use crate::error::LibraryError;
use crate::extension::{is_flac_name, is_flac_path};
use crate::framing::metadata_framed;
use crate::outside::{comment_block, comment_block_readable, flac_header_valid, flac_stream_info};
use crate::stream::{duration_ms, duration_of, info_of, read_stream_info, AudioStreamInfo};
use crate::tags::{read_tags, tags_of, TagSet};

verus! {

/// What a scan target turned out to be.
#[derive(Clone, Copy, Debug, PartialEq, Eq, Structural)]
pub enum TargetKind {
    /// Nothing exists at the path.
    Missing,
    /// The path exists and is not a directory.
    NotADirectory,
    /// The path is a directory.
    Directory,
}

/// One entry of a directory, and the contents of the file if it was read.
#[derive(Clone, Debug)]
pub struct DirEntry {
    pub path: String,
    pub file_name: String,
    /// The entry is a directory.
    pub is_dir: bool,
    /// `None` when the file could not be read.
    pub contents: Option<Vec<u8>>,
}

/// The summary of one FLAC file found by a scan.
///
/// Fields that could not be read are zero, absent or empty, and the two flags
/// say which parts of the file were read.
#[derive(Clone, Debug)]
pub struct TrackSummary {
    pub path: String,
    pub file_name: String,
    pub sample_rate: u32,
    pub channels: u8,
    pub bits_per_sample: u8,
    pub total_samples: Option<u64>,
    pub duration_ms: Option<u64>,
    pub tags: TagSet,
    /// The stream header was read.
    pub stream_read: bool,
    /// The metadata blocks were read.
    pub tags_read: bool,
}

/// The stream parameters of a file that could not be read.
pub open spec fn zero_info() -> AudioStreamInfo {
    AudioStreamInfo { sample_rate: 0, channels: 0, bits_per_sample: 0, total_samples: None }
}

/// The contents of an entry, or no bytes when it could not be read.
pub open spec fn contents_of(e: DirEntry) -> Option<Seq<u8>> {
    match e.contents {
        Some(b) => Some(b@),
        None => None,
    }
}

/// Whether the stream header of these contents can be read.
pub open spec fn stream_readable(c: Option<Seq<u8>>) -> bool {
    c matches Some(b) && flac_header_valid(b)
}

/// Whether the metadata blocks of these contents can be read.
pub open spec fn tags_readable(c: Option<Seq<u8>>) -> bool {
    c matches Some(b) && metadata_framed(b) && comment_block_readable(b)
}

/// Whether `t` is the summary of the entry: the stream fields of a readable
/// header, else zero; the tags of readable metadata, else none.
pub open spec fn summarizes(t: TrackSummary, e: DirEntry) -> bool {
    let c = contents_of(e);
    let info = if stream_readable(c) {
        info_of(flac_stream_info(c.unwrap()))
    } else {
        zero_info()
    };
    &&& t.path@ == e.path@
    &&& t.file_name@ == e.file_name@
    &&& t.stream_read == stream_readable(c)
    &&& t.tags_read == tags_readable(c)
    &&& t.sample_rate == info.sample_rate
    &&& t.channels == info.channels
    &&& t.bits_per_sample == info.bits_per_sample
    &&& t.total_samples == info.total_samples
    &&& t.duration_ms == duration_of(info.total_samples, info.sample_rate)
    &&& t.tags.wf()
    &&& t.tags@ == (if tags_readable(c) {
        tags_of(comment_block(c.unwrap()))
    } else {
        Map::empty()
    })
}

/// Whether a scan summarizes the entry: a file whose name has the `flac`
/// extension.
pub open spec fn is_flac_file(e: DirEntry) -> bool {
    !e.is_dir && is_flac_name(e.path@)
}

/// The entries that are FLAC files, in their order.
pub open spec fn flac_entries(s: Seq<DirEntry>) -> Seq<DirEntry>
    decreases s.len(),
{
    if s.len() == 0 {
        Seq::empty()
    } else if is_flac_file(s.last()) {
        flac_entries(s.drop_last()).push(s.last())
    } else {
        flac_entries(s.drop_last())
    }
}

/// Summarizes one FLAC file. A file whose header or metadata cannot be read
/// still gets a summary, with those fields zero or empty.
pub fn summarize_track(entry: &DirEntry) -> (r: TrackSummary)
    requires
        is_flac_name(entry.path@),
    ensures
        summarizes(r, *entry),
{
    let path = entry.path.clone();
    let file_name = entry.file_name.clone();
    let (info, stream_read, tags, tags_read) = match &entry.contents {
        None => (AudioStreamInfo { sample_rate: 0, channels: 0, bits_per_sample: 0, total_samples: None }, false, TagSet::new(), false),
        Some(bytes) => {
            let (info, stream_read) = match read_stream_info(bytes.as_slice()) {
                Ok(i) => (i, true),
                Err(_) => (AudioStreamInfo { sample_rate: 0, channels: 0, bits_per_sample: 0, total_samples: None }, false),
            };
            let (tags, tags_read) = match read_tags(path.as_str(), bytes.as_slice()) {
                Ok(t) => (t, true),
                Err(_) => (TagSet::new(), false),
            };
            (info, stream_read, tags, tags_read)
        },
    };
    let duration = duration_ms(info.total_samples, info.sample_rate);
    TrackSummary {
        path,
        file_name,
        sample_rate: info.sample_rate,
        channels: info.channels,
        bits_per_sample: info.bits_per_sample,
        total_samples: info.total_samples,
        duration_ms: duration,
        tags,
        stream_read,
        tags_read,
    }
}

/// Lists the FLAC files of a directory: one summary per file whose name has
/// the `flac` extension in any case, in the order of `entries`; other entries,
/// subdirectories among them, are skipped. A corrupt file gives a degraded summary, never an error.
pub fn list_tracks(target: TargetKind, entries: Vec<DirEntry>) -> (r: Result<
    Vec<TrackSummary>,
    LibraryError,
>)
    ensures
        target == TargetKind::Missing ==> r == Err::<Vec<TrackSummary>, LibraryError>(
            LibraryError::NotFound,
        ),
        target == TargetKind::NotADirectory ==> r == Err::<Vec<TrackSummary>, LibraryError>(
            LibraryError::NotADirectory,
        ),
        target == TargetKind::Directory ==> (r matches Ok(v) && v@.len() == flac_entries(
            entries@,
        ).len() && forall|k: int|
            0 <= k < v@.len() ==> summarizes(#[trigger] v@[k], flac_entries(entries@)[k])),
{
    match target {
        TargetKind::Missing => { return Err(LibraryError::NotFound) },
        TargetKind::NotADirectory => { return Err(LibraryError::NotADirectory) },
        TargetKind::Directory => {},
    }
    let mut tracks: Vec<TrackSummary> = Vec::new();
    let mut i: usize = 0;
    while i < entries.len()
        invariant
            0 <= i <= entries.len(),
            tracks@.len() == flac_entries(entries@.take(i as int)).len(),
            forall|k: int|
                0 <= k < tracks@.len() ==> summarizes(
                    #[trigger] tracks@[k],
                    flac_entries(entries@.take(i as int))[k],
                ),
        decreases entries.len() - i,
    {
        let ghost before = entries@.take(i as int);
        let ghost after = entries@.take(i as int + 1);
        assert(after.drop_last() =~= before);
        if !entries[i].is_dir && is_flac_path(entries[i].path.as_str()) {
            let t = summarize_track(&entries[i]);
            tracks.push(t);
        }
        i = i + 1;
    }
    assert(entries@.take(entries.len() as int) =~= entries@);
    Ok(tracks)
}

} // verus!

verus! {

/// The entries kept by a scan are exactly the FLAC files, in order.
pub proof fn lemma_flac_entries_filter(s: Seq<DirEntry>)
    ensures
        flac_entries(s) == s.filter(|e: DirEntry| is_flac_file(e)),
        forall|k: int| 0 <= k < flac_entries(s).len() ==> is_flac_file(#[trigger] flac_entries(s)[k]),
    decreases s.len(),
{
    reveal(Seq::filter);
    if s.len() > 0 {
        lemma_flac_entries_filter(s.drop_last());
    }
    assert forall|k: int|
        0 <= k < flac_entries(s).len() implies is_flac_file(#[trigger] flac_entries(s)[k]) by {
        broadcast use vstd::seq_lib::group_filter_ensures;
    }
}

/// A file is summarized the same way every time: two summaries of one entry
/// agree in every field.
pub proof fn lemma_summary_repeatable(a: TrackSummary, b: TrackSummary, e: DirEntry)
    requires
        summarizes(a, e),
        summarizes(b, e),
    ensures
        a.path@ == b.path@,
        a.file_name@ == b.file_name@,
        a.sample_rate == b.sample_rate,
        a.channels == b.channels,
        a.bits_per_sample == b.bits_per_sample,
        a.total_samples == b.total_samples,
        a.duration_ms == b.duration_ms,
        a.tags@ == b.tags@,
        a.stream_read == b.stream_read,
        a.tags_read == b.tags_read,
{
}

/// A file whose header and metadata cannot be read is still summarized, with
/// zero stream fields and no tags.
pub proof fn lemma_corrupt_summary(t: TrackSummary, e: DirEntry)
    requires
        summarizes(t, e),
        !stream_readable(contents_of(e)),
        !tags_readable(contents_of(e)),
    ensures
        t.sample_rate == 0 && t.channels == 0 && t.bits_per_sample == 0,
        t.total_samples is None && t.duration_ms is None,
        t.tags@ == Map::<Seq<char>, Seq<char>>::empty(),
        !t.stream_read && !t.tags_read,
{
}

} // verus!
