//! Codecs applied to each item of a packet stream: identity, Brotli
//! compression and decompression, packing and unpacking, and composition.

use std::marker::PhantomData;

use vstd::prelude::*;

use crate::message::{pack_to_vec, spec_pack_to_vec, view_result, PackedStructSlice, PackingError};

verus! {

/// Failures of Brotli compression and decompression.
#[derive(Clone, Copy, Debug, PartialEq, Eq, Structural)]
pub enum CodecError {
    /// The compressor or decompressor reported an I/O error (for
    /// decompression: the input is not a valid Brotli stream).
    Io,
}

/// The Brotli compression of `data` at the given quality.
pub uninterp spec fn brotli_compressed(data: Seq<u8>, quality: i32) -> Seq<u8>;

/// The Brotli decompression of `data`, or `None` where `data` is not a
/// valid Brotli stream.
pub uninterp spec fn brotli_decompressed(data: Seq<u8>) -> Option<Seq<u8>>;

/// Calls `brotli::BrotliCompress` on the bytes with default encoder
/// parameters except for the quality. Claimed: reading from a slice and
/// writing to a vector, the compression succeeds; the result is the
/// deterministic compression of the bytes at that quality, and Brotli being
/// lossless, it decompresses to the bytes.
#[verifier::external_body]
pub(crate) fn brotli_compress(data: &[u8], quality: i32) -> (r: Result<Vec<u8>, CodecError>)
    ensures
        r is Ok,
        r matches Ok(v) ==> v@ == brotli_compressed(data@, quality),
        r matches Ok(v) ==> brotli_decompressed(v@) == Some(data@),
{
    let params = brotli::enc::BrotliEncoderParams { quality, ..Default::default() };
    let mut out = vec![];
    match brotli::BrotliCompress(&mut &data[..], &mut out, &params) {
        Ok(_) => Ok(out),
        Err(_) => Err(CodecError::Io),
    }
}

/// Calls `brotli::BrotliDecompress` on the bytes. Claimed: it fails exactly
/// when the bytes are not a valid Brotli stream, and otherwise gives their
/// deterministic decompression.
#[verifier::external_body]
pub(crate) fn brotli_decompress(data: &[u8]) -> (r: Result<Vec<u8>, CodecError>)
    ensures
        r is Err <==> brotli_decompressed(data@) is None,
        r matches Ok(v) ==> brotli_decompressed(data@) == Some(v@),
{
    let mut out = vec![];
    match brotli::BrotliDecompress(&mut &data[..], &mut out) {
        Ok(()) => Ok(out),
        Err(_) => Err(CodecError::Io),
    }
}

/// A transformation applied to each item of a stream.
pub trait StreamCodec {
    type Input;
    type Output;
    type Error;

    /// The inputs on which the transformation is defined.
    spec fn spec_accepts(x: Self::Input) -> bool;

    /// What the transformation gives on an input, when it succeeds.
    spec fn spec_encode_ok(x: Self::Input, y: Self::Output) -> bool;

    /// The transformation never fails.
    spec fn spec_infallible() -> bool;

    fn encode(x: Self::Input) -> (r: Result<Self::Output, Self::Error>)
        requires
            Self::spec_accepts(x),
        ensures
            r matches Ok(y) ==> Self::spec_encode_ok(x, y),
            Self::spec_infallible() ==> r is Ok,
    ;
}

/// A transformation with an inverse.
pub trait InvertibleCodec: StreamCodec {
    type Invert: StreamCodec<Output = Self::Input, Input = Self::Output>;
}

/// Passes each item through unchanged.
pub struct Identity<T>(PhantomData<T>);

impl<T> StreamCodec for Identity<T> {
    type Input = T;
    type Output = T;
    type Error = ();

    open spec fn spec_accepts(x: T) -> bool {
        true
    }

    open spec fn spec_infallible() -> bool {
        true
    }

    open spec fn spec_encode_ok(x: T, y: T) -> bool {
        y == x
    }

    fn encode(x: T) -> (r: Result<T, ()>)
        ensures
            r == Ok::<T, ()>(x),
    {
        Ok(x)
    }
}

impl<T> InvertibleCodec for Identity<T> {
    type Invert = Self;
}

/// The compression quality that a Brotli codec uses.
pub trait BrotliParams {
    spec fn spec_quality() -> i32;

    fn quality() -> (r: i32)
        ensures
            r == Self::spec_quality(),
    ;
}

/// The highest Brotli quality, used for the downlink.
pub struct MaxQuality;

impl BrotliParams for MaxQuality {
    open spec fn spec_quality() -> i32 {
        11
    }

    fn quality() -> (r: i32) {
        11
    }
}

/// Compresses each item with Brotli.
pub struct BrotliCompress<T>(PhantomData<T>);

impl<T: BrotliParams> StreamCodec for BrotliCompress<T> {
    type Input = Vec<u8>;
    type Output = Vec<u8>;
    type Error = CodecError;

    open spec fn spec_accepts(x: Vec<u8>) -> bool {
        true
    }

    open spec fn spec_infallible() -> bool {
        true
    }

    open spec fn spec_encode_ok(x: Vec<u8>, y: Vec<u8>) -> bool {
        y@ == brotli_compressed(x@, T::spec_quality())
    }

    /// Compression succeeds, and decompressing what it gives yields the item.
    fn encode(x: Vec<u8>) -> (r: Result<Vec<u8>, CodecError>)
        ensures
            r is Ok,
            r matches Ok(y) ==> y@ == brotli_compressed(x@, T::spec_quality()),
            r matches Ok(y) ==> brotli_decompressed(y@) == Some(x@),
    {
        brotli_compress(x.as_slice(), T::quality())
    }
}

/// Decompresses each item with Brotli.
pub struct BrotliDecompress<T>(PhantomData<T>);

impl<T> StreamCodec for BrotliDecompress<T> {
    type Input = Vec<u8>;
    type Output = Vec<u8>;
    type Error = CodecError;

    open spec fn spec_accepts(x: Vec<u8>) -> bool {
        true
    }

    open spec fn spec_infallible() -> bool {
        false
    }

    open spec fn spec_encode_ok(x: Vec<u8>, y: Vec<u8>) -> bool {
        brotli_decompressed(x@) == Some(y@)
    }

    /// Decompression fails exactly on items that are not Brotli streams.
    fn encode(x: Vec<u8>) -> (r: Result<Vec<u8>, CodecError>)
        ensures
            r is Err <==> brotli_decompressed(x@) is None,
            r matches Ok(y) ==> brotli_decompressed(x@) == Some(y@),
    {
        brotli_decompress(x.as_slice())
    }
}

impl<T: BrotliParams> InvertibleCodec for BrotliDecompress<T> {
    type Invert = BrotliCompress<T>;
}

/// Applies `T`, which must not fail on the items it is given, then `U`.
pub struct Compose<T, U>(PhantomData<(T, U)>);

impl<B, T: StreamCodec<Output = B>, U: StreamCodec<Input = B>> StreamCodec for Compose<T, U> {
    type Input = T::Input;
    type Output = U::Output;
    type Error = U::Error;

    open spec fn spec_infallible() -> bool {
        T::spec_infallible() && U::spec_infallible()
    }

    open spec fn spec_accepts(x: T::Input) -> bool {
        &&& T::spec_infallible()
        &&& T::spec_accepts(x)
        &&& forall|b: B| #[trigger] T::spec_encode_ok(x, b) ==> U::spec_accepts(b)
    }

    open spec fn spec_encode_ok(x: T::Input, y: U::Output) -> bool {
        exists|b: B| #[trigger] T::spec_encode_ok(x, b) && U::spec_encode_ok(b, y)
    }

    fn encode(x: T::Input) -> (r: Result<U::Output, U::Error>) {
        match T::encode(x) {
            Ok(b) => U::encode(b),
            Err(_) => vstd::pervasive::unreached(),
        }
    }
}

/// Packs each item into its bytes.
pub struct SlicePack<T>(PhantomData<T>);

impl<T: PackedStructSlice> StreamCodec for SlicePack<T> {
    type Input = T;
    type Output = Vec<u8>;
    type Error = PackingError;

    open spec fn spec_accepts(x: T) -> bool {
        T::spec_packed_bytes_size(Some(x@)) matches Ok(n) ==> n <= usize::MAX
            && !T::spec_pack_panics(x@, n)
    }

    open spec fn spec_infallible() -> bool {
        false
    }

    open spec fn spec_encode_ok(x: T, y: Vec<u8>) -> bool {
        spec_pack_to_vec::<T>(x@) == Ok::<Seq<u8>, PackingError>(y@)
    }

    fn encode(x: T) -> (r: Result<Vec<u8>, PackingError>)
        ensures
            match r {
                Ok(y) => spec_pack_to_vec::<T>(x@) == Ok::<Seq<u8>, PackingError>(y@),
                Err(e) => spec_pack_to_vec::<T>(x@) == Err::<Seq<u8>, PackingError>(e),
            },
    {
        pack_to_vec(&x)
    }
}

/// Unpacks each item from its bytes.
pub struct SliceUnpack<T>(PhantomData<T>);

impl<T: PackedStructSlice> StreamCodec for SliceUnpack<T> {
    type Input = Vec<u8>;
    type Output = T;
    type Error = PackingError;

    open spec fn spec_accepts(x: Vec<u8>) -> bool {
        true
    }

    open spec fn spec_infallible() -> bool {
        false
    }

    open spec fn spec_encode_ok(x: Vec<u8>, y: T) -> bool {
        T::spec_unpack(x@) == Ok::<T::V, PackingError>(y@)
    }

    fn encode(x: Vec<u8>) -> (r: Result<T, PackingError>)
        ensures
            view_result(r) == T::spec_unpack(x@),
    {
        T::unpack_from_slice(x.as_slice())
    }
}

} // verus!
