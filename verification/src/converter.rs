use vstd::prelude::*;
use crate::codec::{
    decode_accepts, decode_image, decoded_of, encode_accepts, encode_image, encode_single_frame_gif,
    encoded_of, gif_encode_accepts, gif_encoded_of,
};
use crate::options::{spec_target_of, target_of, ConversionOptions, TargetFormat};

verus! {

/// A progress observer: a host-supplied component whose `on_progress` is
/// invoked synchronously with each checkpoint percentage, in emission
/// order. Whatever it returns — in particular a failure — is discarded by
/// the converter, so a misbehaving observer never alters a conversion's
/// outcome.
pub trait ProgressObserver {
    fn on_progress(&self, percent: u32) -> Result<(), ()>;
}

/// Everything a conversion can fail with. The `Decode` and `Encode` texts
/// are the underlying codec's own messages.
#[derive(Debug, PartialEq, Eq)]
pub enum ConvertError {
    /// The input bytes are not decodable as any recognized image container.
    Decode(String),
    /// The configured format string lies outside the recognized set.
    UnsupportedFormat,
    /// The target codec rejected the decoded pixel data.
    Encode(String),
    /// Video conversion is reserved interface surface, nothing more.
    NotImplemented,
}

/// The checkpoint cadence of a successful PNG, JPEG or WebP conversion.
pub open spec fn generic_checkpoints() -> Seq<u32> {
    seq![0u32, 30u32, 60u32, 100u32]
}

/// The checkpoint cadence of a successful GIF conversion, which has its
/// own single-frame encoding path.
pub open spec fn gif_checkpoints() -> Seq<u32> {
    seq![0u32, 30u32, 50u32, 70u32, 90u32, 100u32]
}

/// A conversion session: one immutable configuration, fixed at
/// construction, and at most one progress observer, settable and
/// replaceable afterward. The ghost log records every checkpoint
/// percentage the session has emitted, oldest first.
pub struct MediaConverter<O: ProgressObserver> {
    options: ConversionOptions,
    observer: Option<O>,
    progress_log: Ghost<Seq<u32>>,
}

impl<O: ProgressObserver> MediaConverter<O> {
    /// The configuration this converter was built from.
    pub closed spec fn spec_options(self) -> ConversionOptions {
        self.options
    }

    /// The registered observer, where one is registered.
    pub closed spec fn spec_observer(self) -> Option<O> {
        self.observer
    }

    /// Every checkpoint percentage emitted so far, oldest first. A
    /// checkpoint is emitted whether or not an observer is listening.
    pub closed spec fn emitted(self) -> Seq<u32> {
        self.progress_log@
    }

    /// Builds a converter from its configuration, with no observer
    /// attached. Construction never rejects a well-typed configuration:
    /// in particular the format string and the quality are stored as
    /// given, unexamined.
    pub fn new(options: ConversionOptions) -> (r: MediaConverter<O>)
        ensures
            r.spec_options() == options,
            r.spec_observer() is None,
            r.emitted() == Seq::<u32>::empty(),
    {
        MediaConverter { options, observer: None, progress_log: Ghost(Seq::empty()) }
    }

    /// Registers an observer, replacing any previous one. Pure mutation:
    /// it cannot fail and touches nothing else.
    pub fn set_progress_callback(&mut self, callback: O)
        ensures
            final(self).spec_options() == old(self).spec_options(),
            final(self).spec_observer() == Some(callback),
            final(self).emitted() == old(self).emitted(),
    {
        self.observer = Some(callback);
    }

    /// Emits one checkpoint: appends it to the log and, where an observer
    /// is registered, invokes it synchronously. The observer's result is
    /// discarded, so the conversion's outcome never depends on it; with no
    /// observer the notification is silently skipped.
    fn update_progress(&mut self, percent: u32)
        ensures
            final(self).spec_options() == old(self).spec_options(),
            final(self).spec_observer() == old(self).spec_observer(),
            final(self).emitted() == old(self).emitted().push(percent),
    {
        self.progress_log = Ghost(self.progress_log@.push(percent));
        match &self.observer {
            Some(callback) => {
                let _ = callback.on_progress(percent);
            },
            None => {},
        }
    }

    /// Finishes the PNG/JPEG/WebP path from the encoder's outcome: on
    /// success the final checkpoint is emitted and the bytes are handed
    /// through unchanged; on failure the codec's message is reported and
    /// nothing further is emitted.
    fn finish_generic(&mut self, encoded: Result<Vec<u8>, String>) -> (r: Result<
        Vec<u8>,
        ConvertError,
    >)
        ensures
            final(self).spec_options() == old(self).spec_options(),
            final(self).spec_observer() == old(self).spec_observer(),
            encoded matches Ok(bytes) ==> r == Ok::<Vec<u8>, ConvertError>(bytes)
                && final(self).emitted() == old(self).emitted().push(100u32),
            encoded matches Err(message) ==> r == Err::<Vec<u8>, ConvertError>(
                ConvertError::Encode(message),
            ) && final(self).emitted() == old(self).emitted(),
    {
        match encoded {
            Ok(bytes) => {
                self.update_progress(100);
                Ok(bytes)
            },
            Err(message) => Err(ConvertError::Encode(message)),
        }
    }

    /// Finishes the GIF path from the encoder's outcome: on success the
    /// two closing checkpoints are emitted and the bytes are handed
    /// through unchanged; on failure the codec's message is reported and
    /// nothing further is emitted.
    fn finish_gif(&mut self, encoded: Result<Vec<u8>, String>) -> (r: Result<
        Vec<u8>,
        ConvertError,
    >)
        ensures
            final(self).spec_options() == old(self).spec_options(),
            final(self).spec_observer() == old(self).spec_observer(),
            encoded matches Ok(bytes) ==> r == Ok::<Vec<u8>, ConvertError>(bytes)
                && final(self).emitted() == old(self).emitted().push(90u32).push(100u32),
            encoded matches Err(message) ==> r == Err::<Vec<u8>, ConvertError>(
                ConvertError::Encode(message),
            ) && final(self).emitted() == old(self).emitted(),
    {
        match encoded {
            Ok(bytes) => {
                self.update_progress(90);
                self.update_progress(100);
                Ok(bytes)
            },
            Err(message) => Err(ConvertError::Encode(message)),
        }
    }

    /// Converts one encoded image into the configured output format.
    ///
    /// The fixed sequence: emit checkpoint 0; decode, failure ending the
    /// conversion as `Decode`; emit 30; dispatch on the configured format
    /// string, an unrecognized one ending it as `UnsupportedFormat`; then
    /// encode, on the generic path (emit 60, encode, emit 100) or on the
    /// GIF single-frame path (emit 50 and 70, encode, emit 90 and 100),
    /// an encoder failure ending it as `Encode` with no further
    /// checkpoint. The configured quality is never consulted.
    pub fn convert_image(&mut self, input_data: Vec<u8>) -> (r: Result<Vec<u8>, ConvertError>)
        ensures
            final(self).spec_options() == old(self).spec_options(),
            final(self).spec_observer() == old(self).spec_observer(),
            (r matches Err(e) && e matches ConvertError::Decode(_)) <==> !decode_accepts(
                input_data@,
            ),
            !decode_accepts(input_data@) ==> final(self).emitted() == old(self).emitted()
                + seq![0u32],
            (r matches Err(e) && e is UnsupportedFormat) <==> (decode_accepts(input_data@)
                && spec_target_of(old(self).spec_options().format@) is None),
            decode_accepts(input_data@) && spec_target_of(old(self).spec_options().format@) is None
                ==> final(self).emitted() == old(self).emitted() + seq![0u32, 30u32],
            r is Ok || (r matches Err(e) && e matches ConvertError::Encode(_)) ==> decode_accepts(
                input_data@,
            ) && spec_target_of(old(self).spec_options().format@) is Some,
            !(r matches Err(e) && e is NotImplemented),
            decode_accepts(input_data@) ==> match spec_target_of(
                old(self).spec_options().format@,
            ) {
                Some(t) => {
                    &&& t != TargetFormat::Gif ==> {
                        &&& (r is Ok <==> encode_accepts(decoded_of(input_data@), t))
                        &&& r matches Ok(v) ==> v@ == encoded_of(decoded_of(input_data@), t)
                            && v@.len() > 0
                        &&& r is Ok ==> final(self).emitted() == old(self).emitted()
                            + generic_checkpoints()
                        &&& r is Err ==> final(self).emitted() == old(self).emitted() + seq![
                            0u32,
                            30u32,
                            60u32,
                        ]
                    }
                    &&& t == TargetFormat::Gif ==> {
                        &&& (r is Ok <==> gif_encode_accepts(decoded_of(input_data@)))
                        &&& r matches Ok(v) ==> v@ == gif_encoded_of(decoded_of(input_data@))
                            && v@.len() > 0
                        &&& r is Ok ==> final(self).emitted() == old(self).emitted()
                            + gif_checkpoints()
                        &&& r is Err ==> final(self).emitted() == old(self).emitted() + seq![
                            0u32,
                            30u32,
                            50u32,
                            70u32,
                        ]
                    }
                },
                None => true,
            },
    {
        let ghost initial = self.emitted();
        self.update_progress(0);
        let img = match decode_image(&input_data) {
            Ok(img) => img,
            Err(message) => {
                proof {
                    assert(self.emitted() =~= initial + seq![0u32]);
                }
                return Err(ConvertError::Decode(message));
            },
        };
        self.update_progress(30);
        proof {
            assert(self.emitted() =~= initial + seq![0u32, 30u32]);
        }
        let target = match target_of(&self.options.format) {
            Some(target) => target,
            None => { return Err(ConvertError::UnsupportedFormat) },
        };
        match target {
            TargetFormat::Gif => {
                self.update_progress(50);
                self.update_progress(70);
                proof {
                    assert(self.emitted() =~= initial + seq![0u32, 30u32, 50u32, 70u32]);
                    assert(self.emitted() + seq![90u32, 100u32] =~= initial + gif_checkpoints());
                }
                let encoded = encode_single_frame_gif(img);
                let r = self.finish_gif(encoded);
                proof {
                    if r is Ok {
                        assert(self.emitted() =~= initial + gif_checkpoints());
                    }
                }
                r
            },
            _ => {
                self.update_progress(60);
                proof {
                    assert(self.emitted() =~= initial + seq![0u32, 30u32, 60u32]);
                }
                let encoded = encode_image(&img, target);
                let r = self.finish_generic(encoded);
                proof {
                    if r is Ok {
                        assert(self.emitted() =~= initial + generic_checkpoints());
                    }
                }
                r
            },
        }
    }

    /// Video conversion is unimplemented by design: whatever the input,
    /// even empty, it reads nothing, emits no checkpoint, invokes no
    /// observer, and fails as `NotImplemented`.
    pub fn convert_video(&mut self, input_data: Vec<u8>) -> (r: Result<Vec<u8>, ConvertError>)
        ensures
            *final(self) == *old(self),
            r == Err::<Vec<u8>, ConvertError>(ConvertError::NotImplemented),
    {
        Err(ConvertError::NotImplemented)
    }
}

} // verus!
