//! The three operations of the protocol, each a stream of the engine's
//! output: [`Signature`], [`Delta`] and [`Patch`].
//!
//! An operation owns the driver of its job. It is made from what the engine
//! answered when it was asked to begin. It ends by releasing its job, and
//! only then hands back what the job worked on: its streams, the basis of a
//! patch, the signature of a delta.

use vstd::prelude::*;

use crate::error::{error_of_status, invalid_signature_error, Error, ErrorKind, IoError};
use crate::job::{Job, JobDriver, Progress};
use crate::raw::{RS_BLAKE2_SIG_MAGIC, RS_DEFAULT_BLOCK_LEN, RS_DONE, RS_MD4_SIG_MAGIC};

verus! {

/// The signature type.
#[derive(Clone, Copy, Debug, PartialEq, Eq, Structural)]
pub enum SignatureType {
    /// A signature file with MD4 signatures.
    ///
    /// Backward compatible with librsync < 1.0, but deprecated because of a security
    /// vulnerability.
    MD4,
    /// A signature file using BLAKE2 hash.
    Blake2,
}

impl SignatureType {
    /// The tag that the engine knows this format by.
    pub open spec fn magic(self) -> i32 {
        match self {
            SignatureType::MD4 => RS_MD4_SIG_MAGIC,
            SignatureType::Blake2 => RS_BLAKE2_SIG_MAGIC,
        }
    }

    /// The tag that the engine knows this format by.
    pub fn as_raw(self) -> (magic: i32)
        ensures
            magic == self.magic(),
    {
        match self {
            SignatureType::MD4 => RS_MD4_SIG_MAGIC,
            SignatureType::Blake2 => RS_BLAKE2_SIG_MAGIC,
        }
    }
}

/// The handle of a signature that the engine holds in memory.
///
/// Like a [`Job`], it is never null and is given up only once.
#[derive(Debug)]
pub struct Sumset(usize);

impl Sumset {
    #[verifier::type_invariant]
    spec fn not_null(self) -> bool {
        self.0 != 0
    }

    /// The address that the engine knows the signature by.
    pub closed spec fn addr(self) -> usize {
        self.0
    }

    /// Takes the address that the engine stored when a load began; there is
    /// no signature at the null address.
    pub fn from_raw(raw: usize) -> (sumset: Option<Sumset>)
        ensures
            sumset is None <==> raw == 0,
            sumset matches Some(s) ==> s.addr() == raw,
    {
        if raw == 0 {
            None
        } else {
            Some(Sumset(raw))
        }
    }

    /// The address to pass to the engine's calls on this signature.
    pub fn as_raw(&self) -> (raw: usize)
        ensures
            raw == self.addr(),
            raw != 0,
    {
        proof {
            use_type_invariant(self);
        }
        self.0
    }

    /// Gives the handle up for the address, which the engine is to free.
    pub fn into_raw(self) -> (raw: usize)
        ensures
            raw == self.addr(),
            raw != 0,
    {
        proof {
            use_type_invariant(&self);
        }
        self.0
    }
}

/// A signature that is yet to begin: the input and the parameters to ask the
/// engine with.
pub struct SignatureStart<R> {
    input: R,
    block_len: usize,
    strong_len: usize,
    sig_magic: SignatureType,
}

/// A struct to generate a signature.
///
/// The engine's output is the signature of what the driver's source
/// delivers.
pub struct Signature<R> {
    driver: JobDriver<R>,
}

impl<R> SignatureStart<R> {
    /// The input to sign.
    pub closed spec fn source(self) -> R {
        self.input
    }

    /// The size of the blocks to sum, in bytes.
    pub closed spec fn spec_block_len(self) -> usize {
        self.block_len
    }

    /// The length to cut strong sums to, in bytes; zero for their full length.
    pub closed spec fn spec_strong_len(self) -> usize {
        self.strong_len
    }

    /// The format to write.
    pub closed spec fn format(self) -> SignatureType {
        self.sig_magic
    }

    /// The block length to ask the engine with.
    pub fn block_len(&self) -> (n: usize)
        ensures
            n == self.spec_block_len(),
    {
        self.block_len
    }

    /// The strong sum length to ask the engine with.
    pub fn strong_len(&self) -> (n: usize)
        ensures
            n == self.spec_strong_len(),
    {
        self.strong_len
    }

    /// The format tag to ask the engine with.
    pub fn sig_magic(&self) -> (magic: i32)
        ensures
            magic == self.format().magic(),
    {
        self.sig_magic.as_raw()
    }

    /// Takes the engine's answer to the request to begin. The engine
    /// answers with no job where it does not know the format: that is
    /// `BadMagic`, and the input is dropped. With a job the signature stands,
    /// its driver new.
    pub fn begin(self, job: Option<Job>) -> (r: Result<Signature<R>, Error>)
        ensures
            job is None <==> r is Err,
            r matches Err(e) ==> e == Error::BadMagic,
            r matches Ok(sig) ==> {
                &&& sig.driver().source() == self.source()
                &&& Some(sig.driver().engine()) == job
                &&& sig.driver()@ == Progress::initial()
            },
    {
        match job {
            None => Err(Error::BadMagic),
            Some(job) => Ok(Signature { driver: JobDriver::new(self.input, job) }),
        }
    }
}

impl<R> Signature<R> {
    /// The driver of the signature's job.
    pub closed spec fn driver(self) -> JobDriver<R> {
        self.driver
    }

    /// Prepares a signature of `input` with default parameters: BLAKE2 for
    /// the hashing, 2048 bytes for the block length and full length for the
    /// strong signature size.
    pub fn new(input: R) -> (start: SignatureStart<R>)
        ensures
            start.source() == input,
            start.spec_block_len() == RS_DEFAULT_BLOCK_LEN,
            start.spec_strong_len() == 0,
            start.format() == SignatureType::Blake2,
    {
        Self::with_options(input, RS_DEFAULT_BLOCK_LEN, 0, SignatureType::Blake2)
    }

    /// Prepares a signature of `input` by specifying custom parameters: the
    /// size of checksum blocks as `block_len` (larger values make the
    /// signature shorter and the delta longer), and the size of strong
    /// signatures in bytes as `strong_len`; if it is non-zero the signature
    /// will be truncated to that amount of bytes. The last parameter
    /// specifies which version of the signature format to be used.
    pub fn with_options(
        input: R,
        block_len: usize,
        strong_len: usize,
        sig_magic: SignatureType,
    ) -> (start: SignatureStart<R>)
        ensures
            start.source() == input,
            start.spec_block_len() == block_len,
            start.spec_strong_len() == strong_len,
            start.format() == sig_magic,
    {
        SignatureStart { input, block_len, strong_len, sig_magic }
    }

    /// The driver, for the runner to read the signature through.
    pub fn driver_mut(&mut self) -> (driver: &mut JobDriver<R>)
        ensures
            *driver == old(self).driver(),
            final(self).driver() == *final(driver),
    {
        &mut self.driver
    }

    /// Unwraps this stream: releases the job, then returns the underlying
    /// input stream.
    pub fn into_inner<F: FnOnce(Job)>(self, release: F) -> (input: R)
        requires
            release.requires((self.driver().engine(),)),
        ensures
            input == self.driver().source(),
            release.ensures((self.driver().engine(),), ()),
    {
        self.driver.into_inner(release)
    }
}

/// A delta whose base signature is being loaded into the engine.
///
/// The runner drains the signature's stream through [`DeltaLoad::loader_mut`]
/// and, if that went well, asks the engine to index what it loaded.
pub struct DeltaLoad<R, S> {
    new: R,
    loader: JobDriver<S>,
    sumset: Sumset,
}

/// A delta whose base signature is loaded and indexed, and whose own job is
/// yet to begin.
pub struct DeltaStart<R> {
    new: R,
    sumset: Sumset,
}

/// A struct to generate a delta between two files.
///
/// The engine's output is the delta that leads from the file of the base
/// signature to what the driver's source delivers.
pub struct Delta<R> {
    driver: JobDriver<R>,
    sumset: Sumset,
}

impl<R, S> DeltaLoad<R, S> {
    /// The stream of the new file.
    pub closed spec fn new_file(self) -> R {
        self.new
    }

    /// The driver of the job that loads the signature.
    pub closed spec fn loader(self) -> JobDriver<S> {
        self.loader
    }

    /// The signature that is being loaded.
    pub closed spec fn signature(self) -> Sumset {
        self.sumset
    }

    /// The driver to drain the signature's stream through.
    pub fn loader_mut(&mut self) -> (driver: &mut JobDriver<S>)
        ensures
            *driver == old(self).loader(),
            final(self).loader() == *final(driver),
            final(self).new_file() == old(self).new_file(),
            final(self).signature() == old(self).signature(),
    {
        &mut self.loader
    }

    /// The signature to ask the engine to index: there is one once the
    /// signature's stream has been drained to its end, and not before.
    pub fn sumset(&self) -> (sumset: Option<&Sumset>)
        ensures
            sumset is Some <==> self.loader()@.drained(),
            sumset matches Some(s) ==> *s == self.signature(),
    {
        if self.loader.drained() {
            Some(&self.sumset)
        } else {
            None
        }
    }

    /// Takes the engine's answer to the request to index the loaded
    /// signature. The loading job is released in any case. The delta can
    /// begin if the signature's stream was drained to its end and the
    /// engine's answer is *done*. Without the drain the index is worth
    /// nothing: that is `Internal`. Any answer but *done* is the error that
    /// the status stands for. With either error the signature comes back, to
    /// be released by the caller: it is in the caller's hands only when the
    /// job that loaded it is released.
    pub fn indexed<F: FnOnce(Job)>(self, status: i32, release: F) -> (r: Result<
        DeltaStart<R>,
        (Error, Sumset),
    >)
        requires
            release.requires((self.loader().engine(),)),
        ensures
            release.ensures((self.loader().engine(),), ()),
            r is Ok <==> self.loader()@.drained() && status == RS_DONE,
            r matches Ok(start) ==> start.new_file() == self.new_file() && start.signature()
                == self.signature(),
            r matches Err((e, sumset)) ==> {
                &&& e == if self.loader()@.drained() {
                    error_of_status(status)
                } else {
                    Error::Internal
                }
                &&& sumset == self.signature()
            },
    {
        let DeltaLoad { new, loader, sumset } = self;
        let drained = loader.drained();
        let _ = loader.into_inner(release);
        if !drained {
            Err((Error::Internal, sumset))
        } else if status != RS_DONE {
            Err((Error::from(status), sumset))
        } else {
            Ok(DeltaStart { new, sumset })
        }
    }

    /// Gives up a load whose drain has failed: the loading job is released,
    /// and then the signature comes back, to be released by the caller.
    pub fn abandon<F: FnOnce(Job)>(self, release: F) -> (sumset: Sumset)
        requires
            release.requires((self.loader().engine(),)),
        ensures
            release.ensures((self.loader().engine(),), ()),
            sumset == self.signature(),
    {
        let DeltaLoad { new: _, loader, sumset } = self;
        let _ = loader.into_inner(release);
        sumset
    }
}

impl<R> DeltaStart<R> {
    /// The stream of the new file.
    pub closed spec fn new_file(self) -> R {
        self.new
    }

    /// The indexed signature.
    pub closed spec fn signature(self) -> Sumset {
        self.sumset
    }

    /// The signature to begin the delta's job on.
    pub fn sumset(&self) -> (sumset: &Sumset)
        ensures
            *sumset == self.signature(),
    {
        &self.sumset
    }

    /// Takes the engine's answer to the request to begin. The engine answers
    /// with no job where it will not work on the signature: that is an I/O
    /// error of kind `InvalidData`, and the signature comes back with it, to
    /// be released by the caller. With a job the delta stands, its driver
    /// new.
    pub fn begin(self, job: Option<Job>) -> (r: Result<Delta<R>, (Error, Sumset)>)
        ensures
            job is None <==> r is Err,
            r matches Err((e, sumset)) ==> e == invalid_signature_error() && sumset
                == self.signature(),
            r matches Ok(delta) ==> {
                &&& delta.driver().source() == self.new_file()
                &&& Some(delta.driver().engine()) == job
                &&& delta.driver()@ == Progress::initial()
                &&& delta.signature() == self.signature()
            },
    {
        let DeltaStart { new, sumset } = self;
        match job {
            None => Err(
                (
                    Error::Io(
                        IoError { kind: ErrorKind::InvalidData, message: "invalid signature given" },
                    ),
                    sumset,
                ),
            ),
            Some(job) => Ok(Delta { driver: JobDriver::new(new, job), sumset }),
        }
    }
}

impl<R> Delta<R> {
    /// The driver of the delta's job.
    pub closed spec fn driver(self) -> JobDriver<R> {
        self.driver
    }

    /// The indexed signature that the job works on.
    pub closed spec fn signature(self) -> Sumset {
        self.sumset
    }

    /// Prepares a delta that leads to the file `new`. The signature of the
    /// base file is to be read from `base_sig`; `job` is the engine's job
    /// that loads it, and `sumset` what the job loads it into.
    pub fn new<S>(new: R, base_sig: S, job: Job, sumset: Sumset) -> (load: DeltaLoad<R, S>)
        ensures
            load.new_file() == new,
            load.signature() == sumset,
            load.loader().source() == base_sig,
            load.loader().engine() == job,
            load.loader()@ == Progress::initial(),
    {
        DeltaLoad { new, loader: JobDriver::new(base_sig, job), sumset }
    }

    /// The driver, for the runner to read the delta through.
    pub fn driver_mut(&mut self) -> (driver: &mut JobDriver<R>)
        ensures
            *driver == old(self).driver(),
            final(self).driver() == *final(driver),
            final(self).signature() == old(self).signature(),
    {
        &mut self.driver
    }

    /// Unwraps this stream: releases the job, then returns the underlying
    /// new file stream and the signature that the job worked on. The
    /// signature is for the caller to release. As long as the job lives it
    /// works on the signature, so the signature is in the caller's hands
    /// only when the job is released.
    pub fn into_inner<F: FnOnce(Job)>(self, release: F) -> (parts: (R, Sumset))
        requires
            release.requires((self.driver().engine(),)),
        ensures
            parts.0 == self.driver().source(),
            parts.1 == self.signature(),
            release.ensures((self.driver().engine(),), ()),
    {
        let Delta { driver, sumset } = self;
        let new = driver.into_inner(release);
        (new, sumset)
    }
}

/// A struct to apply a delta to a basis file, to recreate the new file.
///
/// The engine's output is the new file. The engine reads the basis on its
/// own, through a callback, while it makes a step; `B` is this operation's
/// share of the basis.
pub struct Patch<B, D> {
    driver: JobDriver<D>,
    base: B,
}

impl<B, D> Patch<B, D> {
    /// The driver of the patch's job.
    pub closed spec fn driver(self) -> JobDriver<D> {
        self.driver
    }

    /// This operation's share of the basis.
    pub closed spec fn basis(self) -> B {
        self.base
    }

    /// A patch of `base` by the delta read from `delta`, worked by `job`,
    /// which the engine has begun with a callback that reads that basis.
    pub fn new(base: B, delta: D, job: Job) -> (patch: Self)
        ensures
            patch.basis() == base,
            patch.driver().source() == delta,
            patch.driver().engine() == job,
            patch.driver()@ == Progress::initial(),
    {
        Patch { driver: JobDriver::new(delta, job), base }
    }

    /// The driver, for the runner to read the new file through.
    pub fn driver_mut(&mut self) -> (driver: &mut JobDriver<D>)
        ensures
            *driver == old(self).driver(),
            final(self).driver() == *final(driver),
            final(self).basis() == old(self).basis(),
    {
        &mut self.driver
    }

    /// Unwraps this stream and returns the underlying streams. The job is
    /// released first: as long as it lives the engine may call for the
    /// basis, so the basis is let go of only after it.
    pub fn into_inner<F: FnOnce(Job)>(self, release: F) -> (streams: (B, D))
        requires
            release.requires((self.driver().engine(),)),
        ensures
            streams.0 == self.basis(),
            streams.1 == self.driver().source(),
            release.ensures((self.driver().engine(),), ()),
    {
        let Patch { driver, base } = self;
        let delta = driver.into_inner(release);
        (base, delta)
    }
}

} // verus!
