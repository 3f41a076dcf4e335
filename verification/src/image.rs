//! Three-channel rasters: the source images and the composited outputs.

use vstd::prelude::*;

verus! {

/// Channel bytes per pixel of an image.
pub const CHANNELS: usize = 3;

/// A raster of `rows` by `cols` pixels with `CHANNELS` bytes each, stored row
/// by row, the channels of one pixel side by side.
#[derive(Debug)]
pub struct Image {
    rows: usize,
    cols: usize,
    data: Vec<u8>,
}

impl View for Image {
    type V = Seq<u8>;

    /// The channel bytes in storage order.
    closed spec fn view(&self) -> Seq<u8> {
        self.data@
    }
}

/// The place of channel `channel` of the pixel at (`row`, `col`) in the
/// storage of a raster with `cols` columns.
pub open spec fn channel_offset(cols: int, row: int, col: int, channel: int) -> int {
    (row * cols + col) * CHANNELS as int + channel
}

/// The number of bytes that the channels of `rows` by `cols` pixels take,
/// where that number fits the address space.
pub fn storage_len(rows: usize, cols: usize) -> (r: Option<usize>)
    ensures
        r is Some <==> rows * cols * CHANNELS <= usize::MAX,
        r matches Some(n) ==> n == rows * cols * CHANNELS,
{
    assert(rows * cols >= 0) by (nonlinear_arith)
        requires
            rows >= 0,
            cols >= 0,
    ;
    match rows.checked_mul(cols) {
        Some(pixels) => pixels.checked_mul(CHANNELS),
        None => None,
    }
}

impl Clone for Image {
    fn clone(&self) -> (r: Self)
        ensures
            r.spec_rows() == self.spec_rows(),
            r.spec_cols() == self.spec_cols(),
            r@ == self@,
    {
        proof {
            use_type_invariant(self);
        }
        let data = self.data.clone();
        assert(data@ =~= self.data@);
        Image { rows: self.rows, cols: self.cols, data }
    }
}

impl Image {
    /// The number of pixel rows.
    pub closed spec fn spec_rows(&self) -> usize {
        self.rows
    }

    /// The number of pixel columns.
    pub closed spec fn spec_cols(&self) -> usize {
        self.cols
    }

    /// The storage holds exactly the channels of `rows` by `cols` pixels, and
    /// its length is a machine length.
    #[verifier::type_invariant]
    closed spec fn well_formed(&self) -> bool {
        self.data@.len() == self.rows * self.cols * CHANNELS <= usize::MAX
    }

    /// Builds an image over `data`, which must hold exactly the channels of
    /// `rows` by `cols` pixels.
    pub fn new(rows: usize, cols: usize, data: Vec<u8>) -> (r: Option<Image>)
        ensures
            r is Some <==> data@.len() == rows * cols * CHANNELS,
            r matches Some(img) ==> img.spec_rows() == rows && img.spec_cols() == cols && img@
                == data@,
    {
        let given: usize = data.len();
        match storage_len(rows, cols) {
            Some(len) => if len == given {
                Some(Image { rows, cols, data })
            } else {
                None
            },
            None => None,
        }
    }

    /// Builds the image of `rows` by `cols` pixels with every channel zero,
    /// unless its storage would not fit the address space.
    pub fn zeros(rows: usize, cols: usize) -> (r: Option<Image>)
        ensures
            r is Some <==> rows * cols * CHANNELS <= usize::MAX,
            r matches Some(img) ==> img.spec_rows() == rows && img.spec_cols() == cols && img@
                == Seq::new((rows * cols * CHANNELS) as nat, |i: int| 0u8),
    {
        match storage_len(rows, cols) {
            Some(len) => {
                let data = vec![0u8; len];
                assert(data@ =~= Seq::new(len as nat, |i: int| 0u8));
                Some(Image { rows, cols, data })
            },
            None => None,
        }
    }

    /// The number of pixel rows.
    #[verifier::when_used_as_spec(spec_rows)]
    pub fn rows(&self) -> (r: usize)
        ensures
            r == self.spec_rows(),
    {
        self.rows
    }

    /// The number of pixel columns.
    #[verifier::when_used_as_spec(spec_cols)]
    pub fn cols(&self) -> (r: usize)
        ensures
            r == self.spec_cols(),
    {
        self.cols
    }

    /// The number of pixels.
    pub fn pixel_count(&self) -> (n: usize)
        ensures
            n == self.spec_rows() * self.spec_cols(),
            n * CHANNELS == self@.len(),
    {
        proof {
            use_type_invariant(self);
        }
        self.data.len() / CHANNELS
    }

    /// The channel bytes in storage order.
    pub fn data(&self) -> (d: &Vec<u8>)
        ensures
            d@ == self@,
            d@.len() == self.spec_rows() * self.spec_cols() * CHANNELS,
    {
        proof {
            use_type_invariant(self);
        }
        &self.data
    }

    /// Gives up the image for its channel bytes.
    pub fn into_data(self) -> (d: Vec<u8>)
        ensures
            d@ == self@,
            d@.len() == self.spec_rows() * self.spec_cols() * CHANNELS,
    {
        proof {
            use_type_invariant(&self);
        }
        self.data
    }

    /// The value of one channel of one pixel, where the pixel and the channel
    /// exist.
    pub fn get(&self, row: usize, col: usize, channel: usize) -> (r: Option<u8>)
        ensures
            r is Some <==> row < self.spec_rows() && col < self.spec_cols() && channel < CHANNELS,
            r matches Some(v) ==> {
                let at = channel_offset(self.spec_cols() as int, row as int, col as int, channel as int);
                0 <= at < self@.len() && v == self@[at]
            },
    {
        proof {
            use_type_invariant(self);
        }
        if row < self.rows && col < self.cols && channel < CHANNELS {
            proof {
                lemma_offset_in_range(
                    self.rows as int,
                    self.cols as int,
                    row as int,
                    col as int,
                    channel as int,
                );
            }
            let at: usize = (row * self.cols + col) * CHANNELS + channel;
            Some(self.data[at])
        } else {
            None
        }
    }
}

/// The place of an existing channel of an existing pixel lies within the
/// storage, and so do the intermediate products on the way to it.
pub proof fn lemma_offset_in_range(rows: int, cols: int, row: int, col: int, channel: int)
    requires
        0 <= row < rows,
        0 <= col < cols,
        0 <= channel < CHANNELS,
    ensures
        0 <= row * cols <= row * cols + col < rows * cols,
        0 <= channel_offset(cols, row, col, channel) < rows * cols * CHANNELS,
{
    assert(0 <= row * cols && row * cols + cols <= rows * cols) by (nonlinear_arith)
        requires
            0 <= row < rows,
            0 <= cols,
    ;
}

} // verus!
