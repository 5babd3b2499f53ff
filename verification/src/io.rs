use vstd::prelude::*;

use crate::texture::CPUTexture;
use crate::types::{Format, IOError};

verus! {

/// What decoding an encoded image gives: its pixel bytes and its extent,
/// or nothing when the bytes are not a decodable image. Decoding depends
/// on the bytes alone.
pub uninterp spec fn image_decode(bytes: Seq<u8>) -> Option<(Seq<u8>, u32, u32)>;

/// Relies on image::load_from_memory: decodes an encoded image from bytes,
/// guessing the format; the result is a function of the bytes alone. One
/// caveat: for images with more than eight bits per sample the crate hands
/// the sample buffer back in the machine's native byte order, so on such
/// images the named result is a function of the bytes only per target;
/// their byte-per-pixel counts fail the loader's channel check downstream.
#[verifier::external_body]
fn decode_image(bytes: &[u8]) -> (r: Option<(Vec<u8>, u32, u32)>)
    ensures
        match r {
            Some((data, w, h)) => image_decode(bytes@) == Some((data@, w, h)),
            None => image_decode(bytes@) is None,
        },
{
    match image::load_from_memory(bytes) {
        Ok(img) => {
            let w = img.width();
            let h = img.height();
            Some((img.into_bytes(), w, h))
        },
        Err(_) => None,
    }
}

/// The pixel format matching a channel count: one channel is a single
/// gray channel, three are red-green-blue, four add alpha. Any other
/// count identifies no format.
pub open spec fn spec_format_from_channels(n: nat) -> Option<Format> {
    if n == 1 {
        Some(Format::R8)
    } else if n == 3 {
        Some(Format::RGB8)
    } else if n == 4 {
        Some(Format::RGBA8)
    } else {
        None
    }
}

/// Infers the pixel format of a decoded image from its channel count.
pub fn format_from_channels(n: u64) -> (r: Option<Format>)
    ensures
        r == spec_format_from_channels(n as nat),
{
    if n == 1 {
        Some(Format::R8)
    } else if n == 3 {
        Some(Format::RGB8)
    } else if n == 4 {
        Some(Format::RGBA8)
    } else {
        None
    }
}

/// The bytes stored under a path, looking from position `i` on: the first
/// entry whose path matches.
pub open spec fn lookup_from(entries: Seq<(String, Vec<u8>)>, path: Seq<char>, i: nat) -> Option<
    Seq<u8>,
>
    decreases entries.len() - i,
{
    if i >= entries.len() {
        None
    } else if entries[i as int].0@ == path {
        Some(entries[i as int].1@)
    } else {
        lookup_from(entries, path, i + 1)
    }
}

/// The bytes stored under a path.
pub open spec fn loaded_bytes(entries: Seq<(String, Vec<u8>)>, path: Seq<char>) -> Option<Seq<u8>> {
    lookup_from(entries, path, 0)
}

proof fn lemma_lookup_skip(entries: Seq<(String, Vec<u8>)>, path: Seq<char>, i: nat)
    requires
        i <= entries.len(),
        forall|j: int| 0 <= j < i ==> (#[trigger] entries[j]).0@ != path,
    ensures
        lookup_from(entries, path, 0) == lookup_from(entries, path, i),
    decreases i,
{
    if i > 0 {
        lemma_lookup_skip(entries, path, (i - 1) as nat);
    }
}

/// What the image loader produces for a stored resource: the decoded pixel
/// bytes, the extent, and the format inferred from the channel count; or
/// nothing when the resource is absent, not decodable, empty, or of an
/// unrecognizable channel count.
pub open spec fn image_spec(entries: Seq<(String, Vec<u8>)>, path: Seq<char>) -> Option<
    (Seq<u8>, u32, u32, Format),
> {
    match loaded_bytes(entries, path) {
        None => None,
        Some(bytes) => match image_decode(bytes) {
            None => None,
            Some((data, w, h)) => if w > 0 && h > 0 {
                match spec_format_from_channels((data.len() / ((w as nat) * (h as nat))) as nat) {
                    Some(format) => Some((data, w, h, format)),
                    None => None,
                }
            } else {
                None
            },
        },
    }
}

/// In-memory loaded resources: the raw bytes of each resource under the
/// path it was loaded from.
pub struct Loaded {
    entries: Vec<(String, Vec<u8>)>,
}

impl View for Loaded {
    type V = Seq<(String, Vec<u8>)>;

    closed spec fn view(&self) -> Seq<(String, Vec<u8>)> {
        self.entries@
    }
}

impl Loaded {
    pub fn new() -> (r: Loaded)
        ensures
            r@.len() == 0,
    {
        Loaded { entries: Vec::new() }
    }

    /// Stores the bytes of one resource under its path.
    pub fn insert(&mut self, path: String, bytes: Vec<u8>)
        ensures
            final(self)@ == old(self)@.push((path, bytes)),
    {
        self.entries.push((path, bytes));
    }

    /// The raw bytes of the resource stored under the path.
    pub fn bytes(&self, path: &String) -> (r: Result<&Vec<u8>, IOError>)
        ensures
            match r {
                Ok(bytes) => loaded_bytes(self@, path@) == Some(bytes@),
                Err(e) => loaded_bytes(self@, path@) is None && e matches IOError::FailedToLoad {
                    ..
                },
            },
    {
        let mut i: usize = 0;
        while i < self.entries.len()
            invariant
                i <= self.entries@.len(),
                forall|j: int| 0 <= j < i ==> (#[trigger] self.entries@[j]).0@ != path@,
            decreases self.entries@.len() - i,
        {
            if (&self.entries[i].0).eq(path) {
                proof {
                    lemma_lookup_skip(self.entries@, path@, i as nat);
                }
                return Ok(&self.entries[i].1);
            }
            i = i + 1;
        }
        proof {
            lemma_lookup_skip(self.entries@, path@, self.entries@.len());
        }
        Err(IOError::FailedToLoad { message: "Resource not loaded.".to_owned() })
    }

    /// Deserializes the loaded image resource at the given path into a CPU
    /// texture, inferring the pixel format from the channel count.
    pub fn image(&self, path: &String) -> (r: Result<CPUTexture, IOError>)
        ensures
            match image_spec(self@, path@) {
                Some((data, w, h, format)) => match r {
                    Ok(t) => {
                        &&& t.data@ == data
                        &&& t.width == w as usize
                        &&& t.height == h as usize
                        &&& t.format == format
                    },
                    Err(_) => false,
                },
                None => r is Err && (r->Err_0 matches IOError::FailedToLoad { .. }),
            },
    {
        let data_bytes = match self.bytes(path) {
            Ok(b) => b,
            Err(e) => {
                return Err(e);
            },
        };
        let decoded = decode_image(data_bytes.as_slice());
        match decoded {
            None => Err(IOError::FailedToLoad { message: "Failed to decode image.".to_owned() }),
            Some((data, w, h)) => {
                if w == 0 || h == 0 {
                    return Err(
                        IOError::FailedToLoad {
                            message: "Could not determine the pixel format for the texture."
                                .to_owned(),
                        },
                    );
                }
                proof {
                    assert(1 <= (w as int) * (h as int) && (w as int) * (h as int) <= 0xFFFF_FFFFint * 0xFFFF_FFFFint) by (nonlinear_arith)
                        requires
                            1 <= w as int,
                            1 <= h as int,
                            w as int <= 0xFFFF_FFFF,
                            h as int <= 0xFFFF_FFFF,
                    ;
                }
                let pixels = (w as u64) * (h as u64);
                let number_of_channels = (data.len() as u64) / pixels;
                match format_from_channels(number_of_channels) {
                    None => Err(
                        IOError::FailedToLoad {
                            message: "Could not determine the pixel format for the texture."
                                .to_owned(),
                        },
                    ),
                    Some(format) => Ok(
                        CPUTexture { data, width: w as usize, height: h as usize, format },
                    ),
                }
            },
        }
    }

    /// Deserializes the six loaded image resources at the given paths into
    /// one CPU texture whose data holds the six images back to back, in
    /// right, left, top, bottom, front, back order; the extent and format
    /// are those of the first image.
    pub fn cube_image(
        &self,
        right_path: &String,
        left_path: &String,
        top_path: &String,
        bottom_path: &String,
        front_path: &String,
        back_path: &String,
    ) -> (r: Result<CPUTexture, IOError>)
        ensures
            r is Ok <==> {
                &&& image_spec(self@, right_path@) is Some
                &&& image_spec(self@, left_path@) is Some
                &&& image_spec(self@, top_path@) is Some
                &&& image_spec(self@, bottom_path@) is Some
                &&& image_spec(self@, front_path@) is Some
                &&& image_spec(self@, back_path@) is Some
            },
            r is Ok ==> {
                let right = image_spec(self@, right_path@)->Some_0;
                let left = image_spec(self@, left_path@)->Some_0;
                let top = image_spec(self@, top_path@)->Some_0;
                let bottom = image_spec(self@, bottom_path@)->Some_0;
                let front = image_spec(self@, front_path@)->Some_0;
                let back = image_spec(self@, back_path@)->Some_0;
                &&& r->Ok_0.data@ == right.0 + left.0 + top.0 + bottom.0 + front.0 + back.0
                &&& r->Ok_0.width == right.1 as usize
                &&& r->Ok_0.height == right.2 as usize
                &&& r->Ok_0.format == right.3
            },
            r is Err ==> (r->Err_0 matches IOError::FailedToLoad { .. }),
    {
        let mut right = match self.image(right_path) {
            Ok(t) => t,
            Err(e) => {
                return Err(e);
            },
        };
        let mut left = match self.image(left_path) {
            Ok(t) => t,
            Err(e) => {
                return Err(e);
            },
        };
        let mut top = match self.image(top_path) {
            Ok(t) => t,
            Err(e) => {
                return Err(e);
            },
        };
        let mut bottom = match self.image(bottom_path) {
            Ok(t) => t,
            Err(e) => {
                return Err(e);
            },
        };
        let mut front = match self.image(front_path) {
            Ok(t) => t,
            Err(e) => {
                return Err(e);
            },
        };
        let mut back = match self.image(back_path) {
            Ok(t) => t,
            Err(e) => {
                return Err(e);
            },
        };
        right.data.append(&mut left.data);
        right.data.append(&mut top.data);
        right.data.append(&mut bottom.data);
        right.data.append(&mut front.data);
        right.data.append(&mut back.data);
        Ok(right)
    }
}

/// The image with its rows in reverse vertical order: row `n - 1` first,
/// row 0 last, each row `rowlen` values long.
pub open spec fn rows_reversed<T>(pixels: Seq<T>, rowlen: nat, n: nat) -> Seq<T>
    decreases n,
{
    if n == 0 {
        Seq::empty()
    } else {
        pixels.subrange((n - 1) * rowlen, ((n - 1) * rowlen + rowlen) as int) + rows_reversed(
            pixels,
            rowlen,
            (n - 1) as nat,
        )
    }
}

/// Writes images made of pixels back out.
pub struct Saver {}

impl Saver {
    /// Flips an image vertically: a graphics context hands pixel rows back
    /// bottom row first, while an image file stores the top row first.
    pub fn convert_from_opengl_coordinates<T: Copy>(
        pixels: &[T],
        width: usize,
        height: usize,
        channels: usize,
    ) -> (r: Vec<T>)
        requires
            height * (width * channels) <= pixels@.len(),
            width * channels <= usize::MAX,
        ensures
            r@ == rows_reversed(pixels@, (width * channels) as nat, height as nat),
            r@.len() == height * (width * channels),
    {
        let rowlen = width * channels;
        let total = pixels.len();
        let mut out: Vec<T> = Vec::new();
        let mut n: usize = height;
        // values past the first height rows are not part of the image
        let mut base: usize = height * rowlen;
        proof {
            assert(rows_reversed(pixels@, rowlen as nat, height as nat).len() == height * rowlen)
                by {
                lemma_rows_reversed_len(pixels@, rowlen as nat, height as nat);
            }
        }
        while n > 0
            invariant
                n <= height,
                base == n * rowlen,
                base <= total,
                total == pixels@.len(),
                rowlen == width * channels,
                height * rowlen <= pixels@.len(),
                out@ + rows_reversed(pixels@, rowlen as nat, n as nat) == rows_reversed(
                    pixels@,
                    rowlen as nat,
                    height as nat,
                ),
            decreases n,
        {
            proof {
                assert(base >= rowlen && base - rowlen == (n - 1) * rowlen) by (nonlinear_arith)
                    requires
                        base == n * rowlen,
                        n >= 1,
                ;
            }
            let src = base - rowlen;
            let ghost out_start = out@;
            let mut k: usize = 0;
            while k < rowlen
                invariant
                    k <= rowlen,
                    total == pixels@.len(),
                    src + rowlen <= total,
                    out@ == out_start + pixels@.subrange(src as int, src + k),
                decreases rowlen - k,
            {
                out.push(pixels[src + k]);
                k = k + 1;
                proof {
                    assert(out@ =~= out_start + pixels@.subrange(src as int, src + k));
                }
            }
            n = n - 1;
            base = src;
            proof {
                assert(out@ + rows_reversed(pixels@, rowlen as nat, n as nat) =~= rows_reversed(
                    pixels@,
                    rowlen as nat,
                    height as nat,
                ));
            }
        }
        proof {
            assert(out@ =~= rows_reversed(pixels@, rowlen as nat, height as nat));
        }
        out
    }
}

/// The reversed image has exactly as many values as the original rows it
/// reverses.
proof fn lemma_rows_reversed_len<T>(pixels: Seq<T>, rowlen: nat, n: nat)
    requires
        n * rowlen <= pixels.len(),
    ensures
        rows_reversed(pixels, rowlen, n).len() == (n as int) * (rowlen as int),
    decreases n,
{
    if n > 0 {
        let a = (n - 1) * rowlen;
        assert(a + rowlen == n * rowlen && 0 <= a && a <= n * rowlen) by (nonlinear_arith)
            requires
                n >= 1,
                rowlen >= 0,
                a == (n - 1) * rowlen,
        ;
        assert(0 <= a <= a + rowlen <= pixels.len());
        assert(rows_reversed(pixels, rowlen, n) == pixels.subrange(
            (n - 1) * rowlen,
            ((n - 1) * rowlen + rowlen) as int,
        ) + rows_reversed(pixels, rowlen, (n - 1) as nat));
        assert(pixels.subrange((n - 1) * rowlen, ((n - 1) * rowlen + rowlen) as int).len()
            == rowlen);
        lemma_rows_reversed_len(pixels, rowlen, (n - 1) as nat);
        assert(rows_reversed(pixels, rowlen, n).len() == rowlen + (n - 1) * rowlen);
    } else {
        assert(rows_reversed(pixels, rowlen, n) =~= Seq::<T>::empty());
        assert((n as int) * (rowlen as int) == 0) by (nonlinear_arith)
            requires
                n == 0,
        ;
    }
}

} // verus!
