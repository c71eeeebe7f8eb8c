//! The decisions of a clip download. The caller performs each network or disk
//! operation that a step asks for and hands its outcome to the next step:
//! resolve the identifier to metadata, fetch the media, write it to a file.
use vstd::prelude::*;
use crate::foreign::{joined_url_of, join_url, sanitized_of, sanitize_file_name, local_time_text, minute_format};

verus! {

/// Why a download failed. Each kind is terminal for its request.
#[derive(Debug)]
pub enum DownloadError {
    /// The identifier does not make a valid request URL.
    ParseError(),
    /// A transport failure or a non-success status, on either request.
    FetchError(reqwest::Error),
    /// The metadata holds no usable `mp4` URL.
    ApiError(),
    /// Creating or writing the destination file failed.
    FilesystemError(std::io::Error),
}

/// One encoding of a clip, as the metadata lists it.
pub struct MediaFile {
    /// The name of the encoding, such as `mp4`.
    pub format: String,
    /// Where that encoding can be downloaded, if the service says.
    pub url: Option<String>,
}

/// What the metadata API says of a clip.
pub struct ClipMetadata {
    pub title: String,
    /// The encodings, one entry per format name.
    pub files: Vec<MediaFile>,
}

/// The base of the metadata API, `https://api.streamable.com/videos/`.
pub open spec fn api_base() -> Seq<char> {
    seq![
        'h', 't', 't', 'p', 's', ':', '/', '/', 'a', 'p', 'i', '.', 's', 't', 'r', 'e', 'a', 'm',
        'a', 'b', 'l', 'e', '.', 'c', 'o', 'm', '/', 'v', 'i', 'd', 'e', 'o', 's', '/',
    ]
}

/// The format name that is downloaded.
pub open spec fn mp4() -> Seq<char> {
    seq!['m', 'p', '4']
}

/// The URL field of the first entry of `files` named `format`; `None` where no
/// entry has that name.
pub open spec fn format_entry(files: Seq<MediaFile>, format: Seq<char>) -> Option<Option<Seq<char>>>
    decreases files.len(),
{
    if files.len() == 0 {
        None
    } else if files[0].format@ == format {
        match files[0].url {
            Some(u) => Some(Some(u@)),
            None => Some(None),
        }
    } else {
        format_entry(files.drop_first(), format)
    }
}

/// The URL to download a clip from: that of its `mp4` entry, where there is
/// one and it is not empty.
pub open spec fn usable_url(m: ClipMetadata) -> Option<Seq<char>> {
    match format_entry(m.files@, mp4()) {
        Some(Some(u)) => if u.len() > 0 {
            Some(u)
        } else {
            None
        },
        _ => None,
    }
}

/// The name of a downloaded clip before sanitizing:
/// `<stamp> <prefix> - <title>.mp4`.
pub open spec fn raw_file_name(stamp: Seq<char>, prefix: Seq<char>, title: Seq<char>) -> Seq<char> {
    stamp + seq![' '] + prefix + seq![' ', '-', ' '] + title + seq!['.', 'm', 'p', '4']
}

/// The name a downloaded clip is saved under: the raw name with every
/// character that a file name cannot hold removed, device names included.
pub open spec fn file_name_of(stamp: Seq<char>, prefix: Seq<char>, title: Seq<char>) -> Seq<char> {
    sanitized_of(raw_file_name(stamp, prefix, title), true, true, Seq::empty())
}

/// The URL field of the first entry of `files` named `format`.
pub fn find_format<'a>(files: &'a Vec<MediaFile>, format: &String) -> (r: Option<&'a Option<String>>)
    ensures
        match r {
            Some(u) => format_entry(files@, format@) == Some(
                match *u {
                    Some(s) => Some(s@),
                    None => None::<Seq<char>>,
                },
            ),
            None => format_entry(files@, format@) is None,
        },
{
    let mut i: usize = 0;
    assert(files@.subrange(0, files@.len() as int) =~= files@);
    while i < files.len()
        invariant
            0 <= i <= files.len(),
            format_entry(files@, format@) == format_entry(files@.subrange(i as int, files@.len() as int), format@),
        decreases files.len() - i,
    {
        let ghost rest = files@.subrange(i as int, files@.len() as int);
        assert(rest.drop_first() =~= files@.subrange(i + 1, files@.len() as int));
        assert(rest[0] == files@[i as int]);
        if files[i].format == *format {
            return Some(&files[i].url);
        }
        i = i + 1;
    }
    assert(files@.subrange(i as int, files@.len() as int).len() == 0);
    None
}

/// The URL to download a clip from, as `usable_url` says.
pub fn media_url(metadata: &ClipMetadata) -> (r: Option<String>)
    ensures
        match r {
            Some(u) => usable_url(*metadata) == Some(u@),
            None => usable_url(*metadata) is None,
        },
{
    let wanted: &str = "mp4";
    proof {
        reveal_strlit("mp4");
    }
    let wanted = wanted.to_owned();
    assert(wanted@ =~= mp4());
    match find_format(&metadata.files, &wanted) {
        Some(Some(u)) => {
            if u.as_str().is_empty() {
                None
            } else {
                Some(u.clone())
            }
        },
        _ => None,
    }
}

/// The name a clip is saved under, before sanitizing, as `raw_file_name` says.
pub fn compose_file_name(stamp: &str, prefix: &str, title: &str) -> (r: String)
    ensures
        r@ == raw_file_name(stamp@, prefix@, title@),
{
    let space: &str = " ";
    let dash: &str = " - ";
    let extension: &str = ".mp4";
    proof {
        reveal_strlit(" ");
        reveal_strlit(" - ");
        reveal_strlit(".mp4");
    }
    let mut r = stamp.to_owned();
    r.append(space);
    r.append(prefix);
    r.append(dash);
    r.append(title);
    r.append(extension);
    assert(r@ =~= raw_file_name(stamp@, prefix@, title@));
    r
}

/// The name a clip is saved under, as `file_name_of` says. It holds no path
/// separator and no control character, so the file stays in its folder.
pub fn download_file_name(stamp: &str, prefix: &str, title: &str) -> (r: String)
    ensures
        r@ == file_name_of(stamp@, prefix@, title@),
        forall|k: int| 0 <= k < r@.len() ==> #[trigger] r@[k] != '/' && r@[k] != '\\' && ' ' <= r@[k],
{
    let raw = compose_file_name(stamp, prefix, title);
    let none: &str = "";
    proof {
        reveal_strlit("");
    }
    assert(none@ =~= Seq::<char>::empty());
    sanitize_file_name(raw.as_str(), true, true, none)
}

/// A request whose metadata is to be fetched from `url`.
pub struct MetadataRequest {
    pub url: String,
    /// Put in the file name before the title; usually the requester's name.
    pub prefix: String,
}

/// A request whose media is to be fetched from `url`.
pub struct MediaRequest {
    pub url: String,
    pub prefix: String,
    pub title: String,
}

/// A request whose media is to be streamed into `file_name`, in the download
/// folder, replacing any file of that name.
pub struct SaveTarget {
    pub file_name: String,
}

/// Starts a download of the clip `shortcode`: its metadata URL is the API base
/// joined with the identifier. Fails with `ParseError` exactly where that join
/// fails.
pub fn request_metadata(shortcode: &str, prefix: &str) -> (r: Result<MetadataRequest, DownloadError>)
    ensures
        match r {
            Ok(q) => joined_url_of(api_base(), shortcode@) == Some(q.url@) && q.prefix@ == prefix@,
            Err(e) => joined_url_of(api_base(), shortcode@) is None && e is ParseError,
        },
{
    let base: &str = "https://api.streamable.com/videos/";
    proof {
        reveal_strlit("https://api.streamable.com/videos/");
    }
    assert(base@ =~= api_base());
    match join_url(base, shortcode) {
        Some(url) => Ok(MetadataRequest { url, prefix: prefix.to_owned() }),
        None => Err(DownloadError::ParseError()),
    }
}

impl MetadataRequest {
    /// Takes the outcome of the metadata request: a transport or status
    /// failure is a `FetchError`; metadata without a usable `mp4` URL is an
    /// `ApiError`; otherwise the media is fetched next.
    pub fn on_metadata(self, response: Result<ClipMetadata, reqwest::Error>) -> (r: Result<
        MediaRequest,
        DownloadError,
    >)
        ensures
            match response {
                Err(e) => r == Err::<MediaRequest, DownloadError>(DownloadError::FetchError(e)),
                Ok(m) => match usable_url(m) {
                    None => r matches Err(DownloadError::ApiError()),
                    Some(u) => r matches Ok(q) && q.url@ == u && q.prefix@ == self.prefix@
                        && q.title@ == m.title@,
                },
            },
    {
        match response {
            Err(e) => Err(DownloadError::FetchError(e)),
            Ok(metadata) => match media_url(&metadata) {
                None => Err(DownloadError::ApiError()),
                Some(url) => Ok(MediaRequest { url, prefix: self.prefix, title: metadata.title }),
            },
        }
    }
}

impl MediaRequest {
    /// The file name this request is saved under when the media arrives at
    /// the minute written `stamp`.
    pub open spec fn target_at(self, stamp: Seq<char>) -> Seq<char> {
        file_name_of(stamp, self.prefix@, self.title@)
    }

    /// Takes the outcome of the media request, with the local time stamp
    /// `stamp` (`YYYY-MM-DD HH:MM`): a failure is a `FetchError`; otherwise the
    /// media is saved under the name `target_at(stamp)`.
    pub fn on_media_response_at(self, response: Result<(), reqwest::Error>, stamp: &str) -> (r:
        Result<SaveTarget, DownloadError>)
        ensures
            match response {
                Err(e) => r == Err::<SaveTarget, DownloadError>(DownloadError::FetchError(e)),
                Ok(()) => r matches Ok(t) && t.file_name@ == self.target_at(stamp@),
            },
    {
        match response {
            Err(e) => Err(DownloadError::FetchError(e)),
            Ok(()) => Ok(
                SaveTarget { file_name: download_file_name(stamp, &self.prefix, &self.title) },
            ),
        }
    }

    /// Takes the outcome of the media request, stamping it with the local time
    /// now: a failure is a `FetchError`; otherwise the media is saved under the
    /// name that `target_at` gives for some time stamp.
    pub fn on_media_response(self, response: Result<(), reqwest::Error>) -> (r: Result<
        SaveTarget,
        DownloadError,
    >)
        ensures
            match response {
                Err(e) => r == Err::<SaveTarget, DownloadError>(DownloadError::FetchError(e)),
                Ok(()) => r matches Ok(t) && exists|stamp: Seq<char>|
                    t.file_name@ == #[trigger] self.target_at(stamp),
            },
    {
        match response {
            Err(e) => Err(DownloadError::FetchError(e)),
            Ok(()) => {
                let format: &str = "%F %R";
                proof {
                    reveal_strlit("%F %R");
                }
                assert(format@ =~= minute_format());
                let stamp = local_time_text(format);
                let r = self.on_media_response_at(Ok(()), stamp.as_str());
                assert(r matches Ok(t) && t.file_name@ == self.target_at(stamp@));
                r
            },
        }
    }
}

impl SaveTarget {
    /// Takes the outcome of creating the file and streaming the media into it:
    /// a failure is a `FilesystemError`, and the download is otherwise done.
    pub fn on_written(self, result: Result<(), std::io::Error>) -> (r: Result<(), DownloadError>)
        ensures
            match result {
                Ok(()) => r is Ok,
                Err(e) => r == Err::<(), DownloadError>(DownloadError::FilesystemError(e)),
            },
    {
        match result {
            Ok(()) => Ok(()),
            Err(e) => Err(DownloadError::FilesystemError(e)),
        }
    }
}

/// Two requests that agree on prefix and title and whose media arrives in the
/// same minute are saved under one file name, whatever their identifiers or
/// media URLs: the later download replaces the earlier file.
pub proof fn lemma_same_minute_same_file(a: MediaRequest, b: MediaRequest, stamp: Seq<char>)
    requires
        a.prefix@ == b.prefix@,
        a.title@ == b.title@,
    ensures
        a.target_at(stamp) == b.target_at(stamp),
{
}

} // verus!
