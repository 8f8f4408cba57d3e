//! Audio logs: which WAV files a session writes, and when.
//!
//! A session writes what it hears to one file and what it says to another.  A file is created
//! with the first samples that go to it, and closed at the end of the session.

use vstd::prelude::*;

verus! {

/// The format of a WAV file. Samples are integers.
#[derive(Debug, Clone, Copy, PartialEq, Eq, Structural)]
pub struct WavFormat {
    pub channels: u16,
    pub sample_rate: u32,
    pub bits_per_sample: u16,
}

/// A WAV file to be created.
#[derive(Debug)]
pub struct WavFile {
    pub directory: String,
    pub name: String,
    pub format: WavFormat,
}

/// One of the two audio tracks of a session.
#[derive(Debug, Clone, Copy, PartialEq, Eq, Structural)]
pub enum Track {
    /// What the client sent.
    Input,
    /// What the server answered.
    Output,
}

/// The WAV file of a track, as contracts speak of it.
#[verifier::ext_equal]
pub struct WavFileModel {
    pub directory: Seq<char>,
    pub name: Seq<char>,
    pub format: WavFormat,
}

impl View for WavFile {
    type V = WavFileModel;

    open spec fn view(&self) -> WavFileModel {
        WavFileModel { directory: self.directory@, name: self.name@, format: self.format }
    }
}

/// 16-bit mono at a given rate.
pub open spec fn mono(sample_rate: u32) -> WavFormat {
    WavFormat { channels: 1, sample_rate, bits_per_sample: 16 }
}

/// The logs of a session as contracts speak of them.
#[verifier::ext_equal]
pub struct AudioLoggerModel {
    pub session_id: Seq<char>,
    pub output_dir: Seq<char>,
    /// The tracks whose files have been created.
    pub open: Set<Track>,
}

impl AudioLoggerModel {
    /// The file of a track: input at 16kHz, output at 24kHz.
    pub open spec fn file(self, track: Track) -> WavFileModel {
        match track {
            Track::Input => WavFileModel {
                directory: self.output_dir,
                name: self.session_id + "_input.wav"@,
                format: mono(16000),
            },
            Track::Output => WavFileModel {
                directory: self.output_dir,
                name: self.session_id + "_output.wav"@,
                format: mono(24000),
            },
        }
    }

    /// The file to create before samples can go to a track: none once there is one.
    pub open spec fn to_create(self, track: Track) -> Option<WavFileModel> {
        if self.open.contains(track) {
            None
        } else {
            Some(self.file(track))
        }
    }

    /// The files to close, in order.
    pub open spec fn to_close(self) -> Seq<Track> {
        (if self.open.contains(Track::Input) {
            seq![Track::Input]
        } else {
            seq![]
        }) + (if self.open.contains(Track::Output) {
            seq![Track::Output]
        } else {
            seq![]
        })
    }
}

/// The file that is to be created, if there is one.
pub open spec fn file_view(file: Option<WavFile>) -> Option<WavFileModel> {
    match file {
        Some(f) => Some(f@),
        None => None,
    }
}

/// Audio logger that decides which WAV files to write PCM audio to.
#[derive(Debug)]
pub struct AudioLogger {
    session_id: String,
    output_dir: String,
    input_open: bool,
    output_open: bool,
}

impl View for AudioLogger {
    type V = AudioLoggerModel;

    closed spec fn view(&self) -> AudioLoggerModel {
        AudioLoggerModel {
            session_id: self.session_id@,
            output_dir: self.output_dir@,
            open: Set::new(
                |t: Track|
                    match t {
                        Track::Input => self.input_open,
                        Track::Output => self.output_open,
                    },
            ),
        }
    }
}

impl AudioLogger {
    /// The logger of a session that has not logged anything yet.
    pub fn new(session_id: String, output_dir: String) -> (logger: AudioLogger)
        ensures
            logger@ == (AudioLoggerModel {
                session_id: session_id@,
                output_dir: output_dir@,
                open: Set::empty(),
            }),
    {
        AudioLogger { session_id, output_dir, input_open: false, output_open: false }
    }

    /// What to create before input audio (16-bit PCM, 16kHz mono) can be written.
    pub fn write_input(&self) -> (file: Option<WavFile>)
        ensures
            file_view(file) == self@.to_create(Track::Input),
    {
        if self.input_open {
            None
        } else {
            Some(
                WavFile {
                    directory: self.output_dir.clone(),
                    name: self.session_id.clone().concat("_input.wav"),
                    format: WavFormat { channels: 1, sample_rate: 16000, bits_per_sample: 16 },
                },
            )
        }
    }

    /// What to create before output audio (16-bit PCM, 24kHz mono) can be written.
    pub fn write_output(&self) -> (file: Option<WavFile>)
        ensures
            file_view(file) == self@.to_create(Track::Output),
    {
        if self.output_open {
            None
        } else {
            Some(
                WavFile {
                    directory: self.output_dir.clone(),
                    name: self.session_id.clone().concat("_output.wav"),
                    format: WavFormat { channels: 1, sample_rate: 24000, bits_per_sample: 16 },
                },
            )
        }
    }

    /// Note that the file of a track has been created.
    pub fn created(&mut self, track: Track)
        ensures
            final(self)@ == (AudioLoggerModel {
                open: old(self)@.open.insert(track),
                ..old(self)@
            }),
    {
        match track {
            Track::Input => {
                self.input_open = true;
            },
            Track::Output => {
                self.output_open = true;
            },
        }
        assert(self@.open =~= old(self)@.open.insert(track));
    }

    /// Close the logs. Returns the tracks whose files have to be finalized, in order.
    pub fn finalize(self) -> (tracks: Vec<Track>)
        ensures
            tracks@ == self@.to_close(),
    {
        let mut tracks: Vec<Track> = Vec::new();
        if self.input_open {
            tracks.push(Track::Input);
        }
        if self.output_open {
            tracks.push(Track::Output);
        }
        assert(tracks@ =~= self@.to_close());
        tracks
    }
}

/// The two tracks of a session never share a file, and neither do two sessions with different
/// identifiers that log the same track.
pub proof fn law_files_are_apart(a: AudioLoggerModel, b: AudioLoggerModel, track: Track)
    ensures
        a.file(Track::Input).name != a.file(Track::Output).name,
        a.session_id != b.session_id ==> a.file(track).name != b.file(track).name,
{
    reveal_strlit("_input.wav");
    reveal_strlit("_output.wav");
    assert(a.file(Track::Input).name.len() == a.session_id.len() + 10);
    assert(a.file(Track::Output).name.len() == a.session_id.len() + 11);
    if a.file(track).name == b.file(track).name {
        let n: int = a.session_id.len() as int;
        assert(a.session_id =~= a.file(track).name.take(n));
        assert(b.session_id =~= b.file(track).name.take(n));
    }
}

/// A file is asked for until it has been created, and never again after that; it is closed at
/// the end if and only if it was created.
pub proof fn law_created_once(logger: AudioLoggerModel, track: Track, other: Track)
    ensures
        ({
            let later = AudioLoggerModel { open: logger.open.insert(track), ..logger };
            &&& later.to_create(track) is None
            &&& other != track ==> later.to_create(other) == logger.to_create(other)
            &&& later.to_close().contains(track)
        }),
        logger.to_create(track) is None <==> logger.to_close().contains(track),
{
    let later = AudioLoggerModel { open: logger.open.insert(track), ..logger };
    lemma_to_close(logger, track);
    lemma_to_close(later, track);
}

proof fn lemma_to_close(logger: AudioLoggerModel, track: Track)
    ensures
        logger.to_close().contains(track) <==> logger.open.contains(track),
{
    let tracks = logger.to_close();
    if logger.open.contains(Track::Input) {
        assert(tracks[0] == Track::Input);
    }
    if logger.open.contains(Track::Output) {
        assert(tracks[tracks.len() - 1] == Track::Output);
    }
}

/// The files are named after the session and lie in the directory of the logs: the input as 16-bit
/// mono at 16kHz, the output as 16-bit mono at 24kHz.
pub proof fn law_file_of_a_track(logger: AudioLoggerModel, track: Track)
    ensures
        ({
            let file = logger.file(track);
            let ending = match track {
                Track::Input => "_input.wav"@,
                Track::Output => "_output.wav"@,
            };
            &&& file.directory == logger.output_dir
            &&& file.name == logger.session_id + ending
            &&& file.format.channels == 1
            &&& file.format.bits_per_sample == 16
            &&& file.format.sample_rate == match track {
                Track::Input => 16000u32,
                Track::Output => 24000u32,
            }
        }),
        !logger.open.contains(track) ==> logger.to_create(track) == Some(logger.file(track)),
{
}

/// Exactly the files that were created are closed, each once, that of the input first.
pub proof fn law_closed_in_order(logger: AudioLoggerModel, i: int, j: int)
    requires
        0 <= i < j < logger.to_close().len(),
    ensures
        logger.to_close().len() == 2,
        logger.to_close()[i] == Track::Input,
        logger.to_close()[j] == Track::Output,
{
}

/// A file that is to be created is seen with all that it has.
pub proof fn law_file_is_seen_whole(file: WavFile)
    ensures
        file_view(Some(file)) == Some(file@),
        file_view(None) is None,
        file@.directory == file.directory@,
        file@.name == file.name@,
        file@.format == file.format,
{
}

} // verus!
