use vstd::prelude::*;
use crate::tags::{comments_view, keys_distinct, pairs_to_map};
use crate::stream::RawStreamInfo;
use crate::framing::metadata_framed;

verus! {

/// The extension of a path, as `std::path::Path::extension` reads it.
pub uninterp spec fn extension_of(p: Seq<char>) -> Option<Seq<char>>;

/// Relies on `std::path::Path::extension`: the part of the file name after
/// its last dot, if there is one; it depends on the path text alone.
#[verifier::external_body]
pub(crate) fn path_extension(p: &str) -> (r: Option<String>)
    ensures
        r is Some <==> extension_of(p@) is Some,
        r is Some ==> r.unwrap()@ == extension_of(p@).unwrap(),
{
    std::path::Path::new(p).extension().and_then(|e| e.to_str()).map(|e| e.to_string())
}

} // verus!

verus! {

#[verifier::external_type_specification]
#[verifier::external_body]
pub struct ExMetaflacError(metaflac::Error);

/// Whether `metaflac` reads the metadata blocks of these bytes without error.
pub uninterp spec fn comment_block_readable(b: Seq<u8>) -> bool;

/// The Vorbis comment block of these bytes, key to values in their order, as
/// `metaflac` reads it; `None` when the file has no such block.
pub uninterp spec fn comment_block(b: Seq<u8>) -> Option<Map<Seq<char>, Seq<Seq<char>>>>;

/// Relies on `metaflac::Tag::read_from`, which reads every metadata block, and
/// on `Tag::vorbis_comments`, which gives the comment block if there is one.
/// Its comments are a `HashMap`, so the keys come out distinct, in an order
/// that is not promised. metaflac indexes block bodies without bounds checks
/// and panics where they are short, so the metadata must be framed soundly.
/// Keys are upper-cased by metaflac.
#[verifier::external_body]
pub(crate) fn read_comment_block(bytes: &[u8]) -> (r: Result<
    Option<Vec<(String, Vec<String>)>>,
    metaflac::Error,
>)
    requires
        metadata_framed(bytes@),
    ensures
        r is Ok <==> comment_block_readable(bytes@),
        r matches Ok(c) ==> (c is Some <==> comment_block(bytes@) is Some),
        r matches Ok(Some(v)) ==> {
            &&& keys_distinct(comments_view(v@))
            &&& pairs_to_map(comments_view(v@)) == comment_block(bytes@).unwrap()
        },
{
    let mut input = bytes;
    metaflac::Tag::read_from(&mut input).map(
        |tag| tag.vorbis_comments().map(|vc| vc.comments.clone().into_iter().collect()),
    )
}

} // verus!

verus! {

#[verifier::external_type_specification]
#[verifier::external_body]
pub struct ExClaxonError(claxon::Error);

/// Whether `claxon` accepts the stream header and metadata blocks of these bytes.
pub uninterp spec fn flac_header_valid(b: Seq<u8>) -> bool;

/// The streaminfo block of these bytes, as `claxon` reads it.
pub uninterp spec fn flac_stream_info(b: Seq<u8>) -> RawStreamInfo;

/// The samples of every audio frame of these bytes, channels interleaved, as
/// `claxon` decodes them; `None` when a frame fails to decode.
pub uninterp spec fn flac_samples(b: Seq<u8>) -> Option<Seq<i32>>;

/// Relies on `claxon::FlacReader::new`, which reads the `fLaC` marker and the
/// metadata blocks, and on `FlacReader::streaminfo`. claxon refuses a sample
/// rate of 0 or above 655350, reads the channel count as a 3-bit field plus
/// one, the bits per sample as a 5-bit field plus one, and the sample count
/// as a 36-bit field in which 0 stands for unknown.
#[verifier::external_body]
pub(crate) fn open_flac(bytes: &[u8]) -> (r: Result<RawStreamInfo, claxon::Error>)
    ensures
        r is Ok <==> flac_header_valid(bytes@),
        r matches Ok(i) ==> i == flac_stream_info(bytes@) && i.in_range(),
{
    claxon::FlacReader::new(bytes).map(|reader| {
        let i = reader.streaminfo();
        RawStreamInfo {
            sample_rate: i.sample_rate,
            channels: i.channels,
            bits_per_sample: i.bits_per_sample,
            samples: i.samples,
        }
    })
}

/// Relies on `claxon::FlacReader::new` and `FlacReader::streaminfo`, as
/// `open_flac` does, and on `FlacReader::samples`: every sample of every
/// audio frame, channels interleaved, or the error of the first frame that
/// fails to decode.
#[verifier::external_body]
pub(crate) fn decode_flac(bytes: &[u8]) -> (r: Result<
    (RawStreamInfo, Result<Vec<i32>, claxon::Error>),
    claxon::Error,
>)
    ensures
        r is Ok <==> flac_header_valid(bytes@),
        r matches Ok(d) ==> {
            &&& d.0 == flac_stream_info(bytes@)
            &&& d.0.in_range()
            &&& d.1 is Ok <==> flac_samples(bytes@) is Some
            &&& d.1 matches Ok(v) ==> v@ == flac_samples(bytes@).unwrap()
        },
{
    claxon::FlacReader::new(bytes).map(|mut reader| {
        let i = reader.streaminfo();
        let info = RawStreamInfo {
            sample_rate: i.sample_rate,
            channels: i.channels,
            bits_per_sample: i.bits_per_sample,
            samples: i.samples,
        };
        (info, reader.samples().collect())
    })
}

} // verus!

