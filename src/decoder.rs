use vstd::prelude::*;

verus! {

/// Why a byte stream was refused by the decoder.
#[derive(Clone, Copy, Debug, PartialEq, Eq, Structural)]
pub enum Mp3Error {
    NotMp3,
}

#[verifier::external_type_specification]
#[verifier::external_body]
#[verifier::reject_recursive_types(R)]
pub struct ExMp3Decoder<R>(minimp3::Decoder<R>);

/// Relies on minimp3::Decoder::new: it only wraps the reader, reading nothing.
pub assume_specification<R>[ minimp3::Decoder::<R>::new ](reader: R) -> minimp3::Decoder<R>;

/// The interleaved samples and the format of one decoded frame.
pub struct Mp3Frame {
    pub data: Vec<i16>,
    pub sample_rate: i32,
    pub channels: usize,
}

/// Relies on minimp3::Decoder::next_frame: it returns the next frame that
/// decodes, which holds `samples * channels` samples with `samples > 0` and
/// one or two channels; end of input and read errors give no frame.
#[verifier::external_body]
fn read_frame<R: std::io::Read>(decoder: &mut minimp3::Decoder<R>) -> (r: Option<Mp3Frame>)
    ensures
        r matches Some(f) ==> f.data@.len() > 0 && 1 <= f.channels <= 2,
{
    match decoder.next_frame() {
        Ok(f) => Some(Mp3Frame { data: f.data, sample_rate: f.sample_rate, channels: f.channels }),
        Err(_) => None,
    }
}

/// Probes `data` by decoding one frame from it. The bytes read for the probe
/// are consumed from `data`.
fn is_mp3<R: std::io::Read>(data: &mut R) -> (r: Result<Mp3Frame, ()>)
    ensures
        r matches Ok(f) ==> f.data@.len() > 0 && 1 <= f.channels <= 2,
{
    let mut decoder = minimp3::Decoder::new(data);
    match read_frame(&mut decoder) {
        Some(frame) => Ok(frame),
        None => Err(()),
    }
}

/// Where the decoder stands: the buffered frame, the next sample's position
/// in it, and the frame's format.
pub struct DecoderState {
    pub samples: Seq<i16>,
    pub offset: nat,
    pub sample_rate: i32,
    pub channels: usize,
}

impl DecoderState {
    /// A non-empty frame of one or two channels, read up to `offset`.
    pub open spec fn wf(self) -> bool {
        &&& 0 < self.samples.len()
        &&& self.offset <= self.samples.len()
        &&& 1 <= self.channels <= 2
    }
}

/// An MP3 decoder over a stream that cannot seek: it yields the samples of
/// one frame after the other, pulling a frame from the stream when the
/// buffered one is used up. Its length is unknown: the stream may be live.
#[verifier::reject_recursive_types(R)]
pub struct Mp3StreamDecoder<R> {
    decoder: minimp3::Decoder<R>,
    current_frame: Mp3Frame,
    current_frame_offset: usize,
}

impl<R> View for Mp3StreamDecoder<R> {
    type V = DecoderState;

    closed spec fn view(&self) -> DecoderState {
        DecoderState {
            samples: self.current_frame.data@,
            offset: self.current_frame_offset as nat,
            sample_rate: self.current_frame.sample_rate,
            channels: self.current_frame.channels,
        }
    }
}

impl<R: std::io::Read> Mp3StreamDecoder<R> {
    /// Accepts `data` when one frame decodes from its start, and keeps that
    /// frame as the first to play; otherwise the stream is not MP3.
    pub fn new(data: R) -> (r: Result<Self, Mp3Error>)
        ensures
            r matches Ok(d) ==> d@.wf() && d@.offset == 0,
            r matches Err(e) ==> e == Mp3Error::NotMp3,
    {
        let mut data = data;
        match is_mp3(&mut data) {
            Ok(current_frame) => {
                let decoder = minimp3::Decoder::new(data);
                Ok(Mp3StreamDecoder { decoder, current_frame, current_frame_offset: 0 })
            },
            Err(()) => Err(Mp3Error::NotMp3),
        }
    }

    /// The next sample. Within the buffered frame it is the sample at the
    /// offset; at the frame's end the next frame is pulled and its first
    /// sample returned, and when the stream has no further frame the sequence
    /// ends and the decoder is left as it was.
    pub fn next(&mut self) -> (r: Option<i16>)
        requires
            old(self)@.wf(),
        ensures
            final(self)@.wf(),
            old(self)@.offset < old(self)@.samples.len() ==> {
                &&& r == Some(old(self)@.samples[old(self)@.offset as int])
                &&& final(self)@ == (DecoderState { offset: old(self)@.offset + 1, ..old(self)@ })
            },
            old(self)@.offset == old(self)@.samples.len() ==> {
                ||| r is None && final(self)@ == old(self)@
                ||| final(self)@.offset == 1 && r == Some(final(self)@.samples[0])
            },
    {
        if self.current_frame_offset == self.current_frame.data.len() {
            match read_frame(&mut self.decoder) {
                Some(frame) => self.current_frame = frame,
                None => return None,
            }
            self.current_frame_offset = 0;
        }
        let v: i16 = self.current_frame.data[self.current_frame_offset];
        self.current_frame_offset = self.current_frame_offset + 1;
        Some(v)
    }

    /// The number of samples in the buffered frame.
    pub fn current_frame_len(&self) -> (r: Option<usize>)
        ensures
            r == Some(self@.samples.len() as usize),
    {
        Some(self.current_frame.data.len())
    }

    /// The buffered frame's channel count.
    pub fn channels(&self) -> (r: u16)
        requires
            self@.wf(),
        ensures
            r == self@.channels,
    {
        self.current_frame.channels as u16
    }

    /// The stream's total duration, which is unknown: the source is live.
    pub fn total_duration(&self) -> (r: Option<std::time::Duration>)
        ensures
            r is None,
    {
        None
    }

    /// The buffered frame's sample rate in hertz.
    pub fn sample_rate(&self) -> (r: u32)
        ensures
            r == self@.sample_rate as u32,
    {
        self.current_frame.sample_rate as u32
    }
}

} // verus!
