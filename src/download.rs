use vstd::prelude::*;
use crate::input::append_char;
use crate::song::lemma_tag_keys;
use crate::tags::{set_vorbis_values, vorbis_of};

verus! {

/// What is left to do for a downloaded track, from which of its files exist.
#[derive(Clone, Copy, Debug, PartialEq, Eq, Structural)]
pub enum DownloadStep {
    /// Neither file is there: download the audio, then convert it.
    DownloadAndConvert,
    /// Only the downloaded audio is there: convert it.
    ConvertOnly,
    /// The converted file is there already.
    AlreadyDownloaded,
}

pub open spec fn step_for(opus_exists: bool, flac_exists: bool) -> DownloadStep {
    if !opus_exists && !flac_exists {
        DownloadStep::DownloadAndConvert
    } else if !flac_exists {
        DownloadStep::ConvertOnly
    } else {
        DownloadStep::AlreadyDownloaded
    }
}

pub fn download_step(opus_exists: bool, flac_exists: bool) -> (r: DownloadStep)
    ensures
        r == step_for(opus_exists, flac_exists),
{
    if !opus_exists && !flac_exists {
        DownloadStep::DownloadAndConvert
    } else if !flac_exists && opus_exists {
        DownloadStep::ConvertOnly
    } else {
        DownloadStep::AlreadyDownloaded
    }
}

/// A video title made fit for a file name: `/` becomes `_` and `:` becomes ` -`.
pub open spec fn safe_stem(s: Seq<char>) -> Seq<char>
    decreases s.len(),
{
    if s.len() == 0 {
        Seq::empty()
    } else {
        let c = s.last();
        safe_stem(s.drop_last()) + if c == '/' {
            seq!['_']
        } else if c == ':' {
            seq![' ', '-']
        } else {
            seq![c]
        }
    }
}

pub fn safe_file_stem(title: &str) -> (r: String)
    ensures
        r@ == safe_stem(title@),
{
    let n = title.unicode_len();
    let mut out = String::new();
    let mut i: usize = 0;
    proof {
        assert(title@.subrange(0, 0) =~= Seq::<char>::empty());
    }
    while i < n
        invariant
            n == title@.len(),
            i <= n,
            out@ == safe_stem(title@.subrange(0, i as int)),
        decreases n - i,
    {
        let c = title.get_char(i);
        let ghost before = out@;
        proof {
            assert(title@.subrange(0, i + 1).drop_last() =~= title@.subrange(0, i as int));
        }
        if c == '/' {
            append_char(&mut out, '_');
            proof {
                assert(out@ =~= before + seq!['_']);
            }
        } else if c == ':' {
            append_char(&mut out, ' ');
            append_char(&mut out, '-');
            proof {
                assert(out@ =~= before + seq![' ', '-']);
            }
        } else {
            append_char(&mut out, c);
            proof {
                assert(out@ =~= before + seq![c]);
            }
        }
        i += 1;
    }
    proof {
        assert(title@.subrange(0, n as int) =~= title@);
    }
    out
}

/// Writes the title, the artist and the album a user gave for a downloaded track into
/// its tag block, each as the single value of its key.
pub fn tag_download(tag: &mut metaflac::Tag, title: String, artist: String, album: String)
    ensures
        vorbis_of(*final(tag)) == vorbis_of(*old(tag)).insert("TITLE"@, seq![title@]).insert(
            "ARTIST"@,
            seq![artist@],
        ).insert("ALBUM"@, seq![album@]),
{
    proof {
        lemma_tag_keys();
    }
    let ghost (t, ar, al) = (title@, artist@, album@);
    let titles = vec![title];
    let artists = vec![artist];
    let albums = vec![album];
    proof {
        assert(titles.deep_view() =~= seq![t]);
        assert(artists.deep_view() =~= seq![ar]);
        assert(albums.deep_view() =~= seq![al]);
    }
    set_vorbis_values(tag, "TITLE", titles);
    set_vorbis_values(tag, "ARTIST", artists);
    set_vorbis_values(tag, "ALBUM", albums);
}

} // verus!
