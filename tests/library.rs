use flac_index::error::LibraryError;
use flac_index::extension::{is_flac_extension, is_flac_path};
use flac_index::framing::check_metadata_framing;
use flac_index::scan::{list_tracks, summarize_track, DirEntry, TargetKind, TrackSummary};
use flac_index::stream::{assemble_pcm, decode_to_pcm, duration_ms, read_stream_info, AudioStreamInfo};
use flac_index::tags::{join_values, read_tags, tags_from_comments, TagSet};

fn crc8(data: &[u8]) -> u8 {
    let mut crc: u8 = 0;
    for &b in data {
        crc ^= b;
        for _ in 0..8 {
            crc = if crc & 0x80 != 0 { (crc << 1) ^ 0x07 } else { crc << 1 };
        }
    }
    crc
}

fn crc16(data: &[u8]) -> u16 {
    let mut crc: u16 = 0;
    for &b in data {
        crc ^= (b as u16) << 8;
        for _ in 0..8 {
            crc = if crc & 0x8000 != 0 { (crc << 1) ^ 0x8005 } else { crc << 1 };
        }
    }
    crc
}

fn block_header(last: bool, kind: u8, len: usize) -> Vec<u8> {
    let first = if last { 0x80 | kind } else { kind };
    vec![first, (len >> 16) as u8, (len >> 8) as u8, len as u8]
}

fn streaminfo(sample_rate: u64, channels: u64, bps: u64, total: u64) -> Vec<u8> {
    let mut b = vec![0x00, 0x10, 0x00, 0x10, 0, 0, 0, 0, 0, 0];
    let packed: u64 = (sample_rate << 44) | ((channels - 1) << 41) | ((bps - 1) << 36) | total;
    b.extend_from_slice(&packed.to_be_bytes());
    b.extend_from_slice(&[0u8; 16]);
    b
}

fn comment_block(comments: &[&str]) -> Vec<u8> {
    let vendor = b"test";
    let mut b = Vec::new();
    b.extend_from_slice(&(vendor.len() as u32).to_le_bytes());
    b.extend_from_slice(vendor);
    b.extend_from_slice(&(comments.len() as u32).to_le_bytes());
    for c in comments {
        b.extend_from_slice(&(c.len() as u32).to_le_bytes());
        b.extend_from_slice(c.as_bytes());
    }
    b
}

/// One mono frame of 16 eight-bit samples, all equal to `value`.
fn constant_frame(value: u8) -> Vec<u8> {
    let mut f = vec![0xFF, 0xF8, 0x60, 0x02, 0x00, 0x0F];
    let c = crc8(&f);
    f.push(c);
    f.push(0x00);
    f.push(value);
    let c = crc16(&f);
    f.extend_from_slice(&c.to_be_bytes());
    f
}

/// A mono 8-bit stream at 44100 Hz that declares `total` samples, with an
/// optional comment block, followed by `frames`.
fn flac_file(total: u64, comments: Option<&[&str]>, frames: &[Vec<u8>]) -> Vec<u8> {
    let mut b = b"fLaC".to_vec();
    let info = streaminfo(44100, 1, 8, total);
    b.extend(block_header(comments.is_none(), 0, info.len()));
    b.extend(info);
    if let Some(c) = comments {
        let block = comment_block(c);
        b.extend(block_header(true, 4, block.len()));
        b.extend(block);
    }
    for f in frames {
        b.extend_from_slice(f);
    }
    b
}

fn entry(path: &str, contents: Option<Vec<u8>>) -> DirEntry {
    let file_name = path.rsplit('/').next().unwrap().to_string();
    DirEntry { path: path.to_string(), file_name, is_dir: false, contents }
}

fn strings(v: &[&str]) -> Vec<String> {
    v.iter().map(|s| s.to_string()).collect()
}

#[test]
fn flac_extension_ignores_ascii_case() {
    assert!(is_flac_extension("flac"));
    assert!(is_flac_extension("FLAC"));
    assert!(is_flac_extension("FlAc"));
    assert!(!is_flac_extension("fla"));
    assert!(!is_flac_extension("flacc"));
    assert!(!is_flac_extension("mp3"));
}

#[test]
fn flac_path_reads_the_extension() {
    assert!(is_flac_path("music/song.flac"));
    assert!(is_flac_path("music/SONG.FLAC"));
    assert!(!is_flac_path("music/song.mp3"));
    assert!(!is_flac_path("music/flac"));
    assert!(!is_flac_path("music/.flac"));
    assert!(!is_flac_path("music/song.flac.bak"));
}

#[test]
fn join_values_uses_separator_in_order() {
    assert_eq!(join_values(&strings(&["A", "B"])), "A; B");
    assert_eq!(join_values(&strings(&["B", "A", "C"])), "B; A; C");
    assert_eq!(join_values(&strings(&["only"])), "only");
    assert_eq!(join_values(&Vec::new()), "");
}

#[test]
fn multi_value_tag_is_flattened() {
    let t = tags_from_comments(Some(vec![("ARTIST".to_string(), strings(&["A", "B"]))]));
    assert_eq!(t.len(), 1);
    assert_eq!(t.get("ARTIST"), Some("A; B".to_string()));
    assert_eq!(t.get("artist"), None);
    assert_eq!(t.pairs(), vec![("ARTIST".to_string(), "A; B".to_string())]);
}

#[test]
fn missing_comment_block_gives_no_tags() {
    let t = tags_from_comments(None);
    assert_eq!(t.len(), 0);
    assert_eq!(TagSet::new().len(), 0);
}

#[test]
fn read_tags_refuses_other_extensions() {
    let bytes = flac_file(0, Some(&["TITLE=x"]), &[]);
    assert_eq!(read_tags("a/song.mp3", &bytes).err(), Some(LibraryError::InvalidFormat));
}

#[test]
fn read_tags_reports_unreadable_metadata() {
    assert_eq!(read_tags("a/song.flac", b"not a flac file").err(), Some(LibraryError::FormatError));
}

#[test]
fn read_tags_without_comment_block_is_empty() {
    let bytes = flac_file(0, None, &[]);
    let t = read_tags("a/song.flac", &bytes).unwrap();
    assert_eq!(t.len(), 0);
}

#[test]
fn read_tags_joins_repeated_keys() {
    let bytes = flac_file(0, Some(&["ARTIST=A", "TITLE=Song", "ARTIST=B"]), &[]);
    let t = read_tags("a/song.FLAC", &bytes).unwrap();
    assert_eq!(t.len(), 2);
    assert_eq!(t.get("ARTIST"), Some("A; B".to_string()));
    assert_eq!(t.get("TITLE"), Some("Song".to_string()));
}

#[test]
fn stream_info_of_a_header() {
    let bytes = flac_file(44100, None, &[]);
    let i = read_stream_info(&bytes).unwrap();
    assert_eq!(i, AudioStreamInfo { sample_rate: 44100, channels: 1, bits_per_sample: 8, total_samples: Some(44100) });
    let unknown = read_stream_info(&flac_file(0, None, &[])).unwrap();
    assert_eq!(unknown.total_samples, None);
    assert_eq!(read_stream_info(b"RIFF....WAVE").err(), Some(LibraryError::FormatError));
}

#[test]
fn duration_of_one_second() {
    assert_eq!(duration_ms(Some(44100), 44100), Some(1000));
}

#[test]
fn duration_rounds_down_and_needs_both_values() {
    assert_eq!(duration_ms(Some(22050), 44100), Some(500));
    assert_eq!(duration_ms(Some(1), 44100), Some(0));
    assert_eq!(duration_ms(Some(44101), 44100), Some(1000));
    assert_eq!(duration_ms(Some(10), 3), Some(3333));
    assert_eq!(duration_ms(None, 44100), None);
    assert_eq!(duration_ms(Some(44100), 0), None);
    assert_eq!(duration_ms(Some(u64::MAX), 1), Some(u64::MAX));
}

#[test]
fn assemble_counts_instants_when_undeclared() {
    let info = AudioStreamInfo { sample_rate: 8000, channels: 2, bits_per_sample: 16, total_samples: None };
    let p = assemble_pcm(info, vec![1, 2, 3, 4, 5]);
    assert_eq!(p.total_samples, 2);
    assert_eq!(p.pcm, vec![1, 2, 3, 4, 5]);
    let declared = AudioStreamInfo { total_samples: Some(7), ..info };
    assert_eq!(assemble_pcm(declared, vec![1, 2]).total_samples, 7);
}

#[test]
fn decode_refuses_mp3_extension() {
    let bytes = flac_file(16, None, &[constant_frame(5)]);
    assert_eq!(decode_to_pcm("a/track.mp3", &bytes).err(), Some(LibraryError::InvalidFormat));
    assert_eq!(decode_to_pcm("a/track.mp3", b"").err(), Some(LibraryError::InvalidFormat));
}

#[test]
fn decode_reports_bad_container() {
    assert_eq!(decode_to_pcm("a/track.flac", b"garbage bytes").err(), Some(LibraryError::FormatError));
}

#[test]
fn decode_reports_corrupt_frame() {
    let mut frame = constant_frame(5);
    let n = frame.len();
    frame[n - 1] ^= 0xFF;
    let bytes = flac_file(16, None, &[frame]);
    assert_eq!(decode_to_pcm("a/track.flac", &bytes).err(), Some(LibraryError::DecodeError));
}

#[test]
fn decode_length_matches_declared_samples() {
    let bytes = flac_file(32, None, &[constant_frame(5), constant_frame(250)]);
    let p = decode_to_pcm("a/track.flac", &bytes).unwrap();
    assert_eq!(p.sample_rate, 44100);
    assert_eq!(p.channels, 1);
    assert_eq!(p.bits_per_sample, 8);
    assert_eq!(p.total_samples, 32);
    assert_eq!(p.pcm.len() as u64, p.total_samples * p.channels as u64);
    assert!(p.pcm[..16].iter().all(|&s| s == 5));
    assert!(p.pcm[16..].iter().all(|&s| s == -6));
}

#[test]
fn decode_counts_samples_when_undeclared() {
    let bytes = flac_file(0, None, &[constant_frame(1)]);
    let p = decode_to_pcm("a/track.flac", &bytes).unwrap();
    assert_eq!(p.total_samples, 16);
    assert_eq!(p.pcm.len(), 16);
}

#[test]
fn list_tracks_on_missing_path() {
    assert_eq!(list_tracks(TargetKind::Missing, Vec::new()).err(), Some(LibraryError::NotFound));
}

#[test]
fn list_tracks_on_regular_file() {
    assert_eq!(list_tracks(TargetKind::NotADirectory, Vec::new()).err(), Some(LibraryError::NotADirectory));
}

#[test]
fn list_tracks_keeps_every_flac_and_degrades_corrupt_ones() {
    let good = flac_file(44100, Some(&["ARTIST=A", "ARTIST=B"]), &[]);
    let entries = vec![
        entry("lib/one.flac", Some(good)),
        entry("lib/cover.jpg", Some(vec![1, 2, 3])),
        entry("lib/broken.FLAC", Some(b"corrupt".to_vec())),
        entry("lib/notes.txt", None),
        entry("lib/unreadable.flac", None),
        entry("lib/sub", None),
        DirEntry { path: "lib/album.flac".to_string(), file_name: "album.flac".to_string(), is_dir: true, contents: None },
    ];
    let tracks = list_tracks(TargetKind::Directory, entries).unwrap();
    let names: Vec<&str> = tracks.iter().map(|t| t.file_name.as_str()).collect();
    assert_eq!(names, vec!["one.flac", "broken.FLAC", "unreadable.flac"]);

    let one = &tracks[0];
    assert_eq!(one.path, "lib/one.flac");
    assert!(one.stream_read && one.tags_read);
    assert_eq!((one.sample_rate, one.channels, one.bits_per_sample), (44100, 1, 8));
    assert_eq!(one.total_samples, Some(44100));
    assert_eq!(one.duration_ms, Some(1000));
    assert_eq!(one.tags.get("ARTIST"), Some("A; B".to_string()));

    for t in &tracks[1..] {
        assert!(!t.stream_read && !t.tags_read);
        assert_eq!((t.sample_rate, t.channels, t.bits_per_sample), (0, 0, 0));
        assert_eq!(t.total_samples, None);
        assert_eq!(t.duration_ms, None);
        assert_eq!(t.tags.len(), 0);
    }
}

#[test]
fn list_tracks_of_empty_directory() {
    assert_eq!(list_tracks(TargetKind::Directory, Vec::new()).unwrap().len(), 0);
}

fn same_summary(a: &TrackSummary, b: &TrackSummary) -> bool {
    a.path == b.path
        && a.file_name == b.file_name
        && a.sample_rate == b.sample_rate
        && a.channels == b.channels
        && a.bits_per_sample == b.bits_per_sample
        && a.total_samples == b.total_samples
        && a.duration_ms == b.duration_ms
        && a.tags.len() == b.tags.len()
        && a.tags.get("ARTIST") == b.tags.get("ARTIST")
}

#[test]
fn operations_repeat_identically() {
    let bytes = flac_file(16, Some(&["ARTIST=A", "ARTIST=B"]), &[constant_frame(9)]);
    let t1 = read_tags("x.flac", &bytes).unwrap();
    let t2 = read_tags("x.flac", &bytes).unwrap();
    assert_eq!(t1.get("ARTIST"), t2.get("ARTIST"));
    assert_eq!(t1.len(), t2.len());
    assert_eq!(read_stream_info(&bytes).unwrap(), read_stream_info(&bytes).unwrap());
    let p1 = decode_to_pcm("x.flac", &bytes).unwrap();
    let p2 = decode_to_pcm("x.flac", &bytes).unwrap();
    assert_eq!(p1.pcm, p2.pcm);
    assert_eq!(p1.total_samples, p2.total_samples);
    let e = entry("x.flac", Some(bytes));
    assert!(same_summary(&summarize_track(&e), &summarize_track(&e)));
}

#[test]
fn errors_have_messages() {
    assert_eq!(LibraryError::NotFound.message(), "file or directory not found");
    assert_eq!(LibraryError::InvalidFormat.message(), "not a FLAC file");
    assert_eq!(LibraryError::FormatError.message(), "FLAC container could not be parsed");
    assert_eq!(LibraryError::DecodeError.message(), "failed to read a sample");
    assert_eq!(LibraryError::NotADirectory.message(), "path is not a directory");
    assert_eq!(LibraryError::IOError.message(), "failed to read the directory");
}

fn with_block(kind: u8, body: &[u8]) -> Vec<u8> {
    let mut b = b"fLaC".to_vec();
    let info = streaminfo(44100, 1, 8, 0);
    b.extend(block_header(false, 0, info.len()));
    b.extend(info);
    b.extend(block_header(true, kind, body.len()));
    b.extend_from_slice(body);
    b
}

#[test]
fn framing_accepts_well_formed_metadata() {
    assert!(check_metadata_framing(&flac_file(0, None, &[])));
    assert!(check_metadata_framing(&flac_file(10, Some(&["A=1", "B="]), &[constant_frame(1)])));
    let mut picture = Vec::new();
    picture.extend_from_slice(&3u32.to_be_bytes());
    picture.extend_from_slice(&9u32.to_be_bytes());
    picture.extend_from_slice(b"image/png");
    picture.extend_from_slice(&0u32.to_be_bytes());
    picture.extend_from_slice(&[0u8; 16]);
    picture.extend_from_slice(&2u32.to_be_bytes());
    picture.extend_from_slice(&[7, 7]);
    assert!(check_metadata_framing(&with_block(6, &picture)));
    picture.pop();
    assert!(!check_metadata_framing(&with_block(6, &picture)));
}

#[test]
fn framing_skips_a_leading_id3_tag() {
    let mut b = vec![0x49, 0x44, 0x33, 0x03, 0x00, 0x00, 0x00, 0x00, 0x00, 0x02, 0xAA, 0xBB];
    b.extend(flac_file(0, Some(&["ARTIST=X"]), &[]));
    assert!(check_metadata_framing(&b));
    assert_eq!(read_tags("a.flac", &b).unwrap().get("ARTIST"), Some("X".to_string()));
}

#[test]
fn framing_refuses_short_streaminfo() {
    let bytes = [0x66, 0x4C, 0x61, 0x43, 0x80, 0x00, 0x00, 0x00];
    assert!(!check_metadata_framing(&bytes));
    assert_eq!(read_tags("a.flac", &bytes).err(), Some(LibraryError::FormatError));
}

#[test]
fn comment_without_equals_is_a_format_error() {
    let bytes = flac_file(0, Some(&["ARTIST=A", "NOEQUALS"]), &[]);
    assert!(!check_metadata_framing(&bytes));
    assert_eq!(read_tags("a.flac", &bytes).err(), Some(LibraryError::FormatError));
}

#[test]
fn overrunning_lengths_are_a_format_error() {
    let mut body = comment_block(&["ARTIST=A"]);
    let n = body.len();
    body[n - 12] = 200;
    let bytes = with_block(4, &body);
    assert_eq!(read_tags("a.flac", &bytes).err(), Some(LibraryError::FormatError));
    let mut truncated = flac_file(0, Some(&["ARTIST=A"]), &[]);
    truncated.truncate(truncated.len() - 3);
    assert_eq!(read_tags("a.flac", &truncated).err(), Some(LibraryError::FormatError));
    assert_eq!(read_tags("a.flac", &with_block(2, &[1, 2])).err(), Some(LibraryError::FormatError));
    assert_eq!(read_tags("a.flac", &with_block(5, &[0u8; 395])).err(), Some(LibraryError::FormatError));
}

#[test]
fn scan_degrades_badly_framed_metadata() {
    let bad = flac_file(44100, Some(&["NOEQUALS"]), &[]);
    let tracks = list_tracks(TargetKind::Directory, vec![entry("lib/a.flac", Some(bad))]).unwrap();
    assert_eq!(tracks.len(), 1);
    assert!(!tracks[0].tags_read);
    assert_eq!(tracks[0].tags.len(), 0);
    assert_eq!(tracks[0].sample_rate, if tracks[0].stream_read { 44100 } else { 0 });
}
