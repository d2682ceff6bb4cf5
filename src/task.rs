//! Download tasks: request URLs and destination paths built from manifest values.
use vstd::prelude::*;

verus! {

/// Which of the two artifacts of a call a task fetches.
#[derive(Clone, Copy, Debug, PartialEq, Eq, Structural)]
pub enum ArtifactKind {
    Audio,
    Transcript,
}

/// One resolved unit of download work.
#[derive(Clone, Debug)]
pub struct DownloadTask {
    pub request_url: String,
    pub destination: String,
    pub kind: ArtifactKind,
}

/// `s` with every space replaced by an underscore.
pub open spec fn underscored(s: Seq<char>) -> Seq<char> {
    Seq::new(s.len(), |i: int| if s[i] == ' ' { '_' } else { s[i] })
}

/// The URL of an audio recording: the manifest's URL with the key as query.
pub open spec fn audio_url(record_url: Seq<char>, api_key: Seq<char>) -> Seq<char> {
    record_url + "?apikey="@ + api_key
}

/// The URL of a transcript: the call id under the service's base URL.
pub open spec fn transcript_url(base_url: Seq<char>, call_id: Seq<char>, api_key: Seq<char>) -> Seq<char> {
    base_url + "/"@ + call_id + "?apikey="@ + api_key
}

/// Where an artifact of the given kind with the given raw file name is stored.
pub open spec fn destination_of(kind: ArtifactKind, raw_name: Seq<char>) -> Seq<char> {
    match kind {
        ArtifactKind::Audio => "export/"@ + underscored(raw_name) + ".mp3"@,
        ArtifactKind::Transcript => "export/transcripts/"@ + underscored(raw_name) + ".json"@,
    }
}

/// The request URL of a task of the given kind; `key` is the recording URL
/// for audio and the call id for transcripts.
pub open spec fn request_url_of(
    kind: ArtifactKind,
    base_url: Seq<char>,
    key: Seq<char>,
    api_key: Seq<char>,
) -> Seq<char> {
    match kind {
        ArtifactKind::Audio => audio_url(key, api_key),
        ArtifactKind::Transcript => transcript_url(base_url, key, api_key),
    }
}

impl DownloadTask {
    /// The task is the one built from these values.
    pub open spec fn is_task_of(
        &self,
        kind: ArtifactKind,
        base_url: Seq<char>,
        key: Seq<char>,
        raw_name: Seq<char>,
        api_key: Seq<char>,
    ) -> bool {
        &&& self.kind == kind
        &&& self.request_url@ == request_url_of(kind, base_url, key, api_key)
        &&& self.destination@ == destination_of(kind, raw_name)
    }
}

/// Relies on String::push: the character is appended at the end.
#[verifier::external_body]
fn push_char(s: &mut String, c: char)
    ensures
        final(s)@ == old(s)@.push(c),
{
    s.push(c)
}

/// Replaces every space of a raw file name by an underscore.
pub fn normalize_filename(raw: &str) -> (r: String)
    ensures
        r@ == underscored(raw@),
{
    let n = raw.unicode_len();
    let mut out = String::new();
    let mut i: usize = 0;
    while i < n
        invariant
            n == raw@.len(),
            i <= n,
            out@ == underscored(raw@.subrange(0, i as int)),
        decreases n - i,
    {
        let c = raw.get_char(i);
        if c == ' ' {
            push_char(&mut out, '_');
        } else {
            push_char(&mut out, c);
        }
        assert(underscored(raw@.subrange(0, i + 1)) =~= underscored(raw@.subrange(0, i as int)).push(
            if c == ' ' { '_' } else { c },
        ));
        i += 1;
    }
    assert(raw@.subrange(0, n as int) =~= raw@);
    out
}

/// The request URL of a recording: `<record_url>?apikey=<api_key>`.
pub fn build_audio_url(record_url: &str, api_key: &str) -> (r: String)
    ensures
        r@ == audio_url(record_url@, api_key@),
{
    let mut url = String::from_str(record_url);
    url.append("?apikey=");
    url.append(api_key);
    url
}

/// The request URL of a transcript: `<base_url>/<call_id>?apikey=<api_key>`.
pub fn build_transcript_url(base_url: &str, call_id: &str, api_key: &str) -> (r: String)
    ensures
        r@ == transcript_url(base_url@, call_id@, api_key@),
{
    let mut url = String::from_str(base_url);
    url.append("/");
    url.append(call_id);
    url.append("?apikey=");
    url.append(api_key);
    url
}

/// The destination path of an artifact: `export/<name>.mp3` for audio and
/// `export/transcripts/<name>.json` for transcripts, spaces in the name
/// turned into underscores.
pub fn build_destination(kind: ArtifactKind, raw_name: &str) -> (r: String)
    ensures
        r@ == destination_of(kind, raw_name@),
{
    let name = normalize_filename(raw_name);
    let mut path = match kind {
        ArtifactKind::Audio => String::from_str("export/"),
        ArtifactKind::Transcript => String::from_str("export/transcripts/"),
    };
    path.append(name.as_str());
    match kind {
        ArtifactKind::Audio => path.append(".mp3"),
        ArtifactKind::Transcript => path.append(".json"),
    }
    path
}

/// Builds the task of one manifest row. `key` is the recording URL for audio
/// and the call id for transcripts; `base_url` is used by transcripts only.
pub fn build_task(
    kind: ArtifactKind,
    base_url: &str,
    key: &str,
    raw_name: &str,
    api_key: &str,
) -> (r: DownloadTask)
    ensures
        r.is_task_of(kind, base_url@, key@, raw_name@, api_key@),
{
    let request_url = match kind {
        ArtifactKind::Audio => build_audio_url(key, api_key),
        ArtifactKind::Transcript => build_transcript_url(base_url, key, api_key),
    };
    DownloadTask { request_url, destination: build_destination(kind, raw_name), kind }
}

} // verus!
