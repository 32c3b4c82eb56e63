//! Reshaping of sample buffers: splitting an interleaved block into channels,
//! cutting a stream into fixed-size frames and widening mono into stereo.
use vstd::prelude::*;

verus! {

/// The contents of a list of buffers, each taken by its view.
pub open spec fn views_of<S>(bufs: Seq<Vec<S>>) -> Seq<Seq<S>> {
    bufs.map_values(|b: Vec<S>| b@)
}

/// Number of whole frames of `width` samples that `len` samples hold.
pub open spec fn whole_frames(len: nat, width: nat) -> nat {
    len / width
}

/// Channel `c` of an interleaved block holds sample `c` of every whole frame;
/// a trailing partial frame belongs to no channel.
pub open spec fn spec_deinterleave<S>(data: Seq<S>, channels: nat) -> Seq<Seq<S>> {
    Seq::new(
        channels,
        |c: int| Seq::new(whole_frames(data.len(), channels), |i: int| data[i * channels + c]),
    )
}

/// Samples that do not fill a whole frame of `width`: what stays behind.
pub open spec fn spec_leftover<S>(data: Seq<S>, width: nat) -> Seq<S> {
    data.subrange((whole_frames(data.len(), width) * width) as int, data.len() as int)
}

/// Puts per-channel buffers of `frames` samples back into one interleaved block.
pub open spec fn spec_interleave<S>(chans: Seq<Seq<S>>, frames: nat) -> Seq<S> {
    Seq::new(
        frames * chans.len(),
        |k: int| chans[k % (chans.len() as int)][k / (chans.len() as int)],
    )
}

/// Consecutive frames of `size` samples; a trailing partial frame is left out.
pub open spec fn spec_chunks<S>(data: Seq<S>, size: nat) -> Seq<Seq<S>> {
    Seq::new(
        whole_frames(data.len(), size),
        |k: int| data.subrange(k * size, k * size + size),
    )
}

/// Every sample of a mono stream, played on both channels of a stereo stream.
pub open spec fn spec_stereo<S>(mono: Seq<S>) -> Seq<S> {
    Seq::new(2 * mono.len(), |k: int| mono[k / 2])
}

proof fn lemma_frame_index(i: int, c: int, n: int, w: int)
    requires
        0 <= i < n,
        0 <= c < w,
    ensures
        0 <= i * w + c < n * w,
        i * w + c + 1 <= n * w,
{
    assert(0 <= i * w + c < n * w && i * w + c + 1 <= n * w) by (nonlinear_arith)
        requires
            0 <= i < n,
            0 <= c < w,
    ;
}

proof fn lemma_whole_frames_fit(len: nat, w: nat)
    requires
        w > 0,
    ensures
        whole_frames(len, w) * w <= len,
        len - whole_frames(len, w) * w < w,
{
    vstd::arithmetic::div_mod::lemma_fundamental_div_mod(len as int, w as int);
    vstd::arithmetic::div_mod::lemma_remainder(len as int, w as int);
}

/// What stays behind is shorter than a frame.
pub proof fn lemma_leftover_short<S>(data: Seq<S>, width: nat)
    requires
        width > 0,
    ensures
        spec_leftover(data, width).len() < width,
        whole_frames(data.len(), width) * width <= data.len(),
        data.len() >= width ==> whole_frames(data.len(), width) >= 1,
{
    lemma_whole_frames_fit(data.len(), width);
    if data.len() >= width {
        let q = whole_frames(data.len(), width);
        vstd::arithmetic::div_mod::lemma_fundamental_div_mod(data.len() as int, width as int);
        vstd::arithmetic::div_mod::lemma_remainder(data.len() as int, width as int);
        assert(q >= 1) by (nonlinear_arith)
            requires
                data.len() >= width,
                width > 0,
                data.len() == width * q + data.len() % width,
                data.len() % width < width,
        ;
    }
}

/// Channel `c` of a split block holds, in order, sample `c` of every whole
/// frame, and there is one buffer per channel.
pub proof fn law_deinterleave_elements<S>(data: Seq<S>, channels: nat, c: int, i: int)
    requires
        channels > 0,
        0 <= c < channels,
        0 <= i < whole_frames(data.len(), channels),
    ensures
        spec_deinterleave(data, channels).len() == channels,
        spec_deinterleave(data, channels)[c].len() == data.len() / channels,
        spec_deinterleave(data, channels)[c][i] == data[i * channels + c],
        spec_leftover(data, channels) == data.subrange(
            (whole_frames(data.len(), channels) * channels) as int,
            data.len() as int,
        ),
{
}

/// Frame `k` of a cut stream holds samples `k * size` up to `(k + 1) * size`.
pub proof fn law_chunk_elements<S>(data: Seq<S>, size: nat, k: int, j: int)
    requires
        size > 0,
        0 <= k < whole_frames(data.len(), size),
        0 <= j < size,
    ensures
        spec_chunks(data, size).len() == data.len() / size,
        spec_chunks(data, size)[k][j] == data[k * size + j],
{
    lemma_frame_index(k, j, whole_frames(data.len(), size) as int, size as int);
    lemma_frame_index(k, size - 1, whole_frames(data.len(), size) as int, size as int);
    lemma_whole_frames_fit(data.len(), size);
    assert(whole_frames(data.len(), size) * size <= data.len());
}

/// Splitting a block into channels loses nothing: putting the channels back
/// together and appending the leftover samples gives the block again.
pub proof fn law_deinterleave_roundtrip<S>(data: Seq<S>, channels: nat)
    requires
        channels > 0,
    ensures
        spec_interleave(spec_deinterleave(data, channels), whole_frames(data.len(), channels))
            + spec_leftover(data, channels) == data,
{
    let n = whole_frames(data.len(), channels);
    let chans = spec_deinterleave(data, channels);
    let joined = spec_interleave(chans, n);
    lemma_whole_frames_fit(data.len(), channels);
    assert forall|k: int| 0 <= k < n * channels implies #[trigger] joined[k] == data[k] by {
        let c = channels as int;
        vstd::arithmetic::div_mod::lemma_fundamental_div_mod(k, c);
        vstd::arithmetic::div_mod::lemma_remainder(k, c);
        let q = k / c;
        let r = k % c;
        assert(0 <= q < n) by (nonlinear_arith)
            requires
                0 <= k < n * c,
                k == c * q + r,
                0 <= r < c,
        ;
        assert(q * c + r == k) by (nonlinear_arith)
            requires
                k == c * q + r,
        ;
    }
    assert(spec_interleave(chans, n) + spec_leftover(data, channels) =~= data);
}

proof fn lemma_chunks_prefix<S>(data: Seq<S>, size: nat, m: nat)
    requires
        size > 0,
        m <= whole_frames(data.len(), size),
    ensures
        spec_chunks(data, size).take(m as int).flatten_alt() == data.take((m * size) as int),
    decreases m,
{
    lemma_whole_frames_fit(data.len(), size);
    let n = whole_frames(data.len(), size);
    assert(m * size <= n * size) by (nonlinear_arith)
        requires
            m <= n,
    ;
    if m == 0 {
        assert(spec_chunks(data, size).take(0) =~= Seq::<Seq<S>>::empty());
        assert(data.take(0) =~= Seq::<S>::empty());
    } else {
        let prev = (m - 1) as nat;
        lemma_chunks_prefix(data, size, prev);
        let cs = spec_chunks(data, size).take(m as int);
        assert(cs.drop_last() =~= spec_chunks(data, size).take(prev as int));
        assert(prev * size + size == m * size) by (nonlinear_arith)
            requires
                prev + 1 == m,
        ;
        assert(data.take((m * size) as int) =~= data.take((prev * size) as int) + data.subrange(
            (prev * size) as int,
            (prev * size + size) as int,
        ));
    }
}

/// Cutting a stream into frames loses nothing: the frames, one after the
/// other, followed by the leftover samples, give the stream again.
pub proof fn law_chunks_roundtrip<S>(data: Seq<S>, size: nat)
    requires
        size > 0,
    ensures
        spec_chunks(data, size).flatten() + spec_leftover(data, size) == data,
        forall|k: int|
            0 <= k < spec_chunks(data, size).len() ==> #[trigger] spec_chunks(data, size)[k].len()
                == size,
{
    let n = whole_frames(data.len(), size);
    lemma_whole_frames_fit(data.len(), size);
    lemma_chunks_prefix(data, size, n);
    assert(spec_chunks(data, size).take(n as int) =~= spec_chunks(data, size));
    spec_chunks(data, size).lemma_flatten_and_flatten_alt_are_equivalent();
    assert(data.take((n * size) as int) + spec_leftover(data, size) =~= data);
    assert forall|k: int| 0 <= k < spec_chunks(data, size).len() implies #[trigger] spec_chunks(
        data,
        size,
    )[k].len() == size by {
        lemma_frame_index(k, 0, n as int, size as int);
        lemma_frame_index(k, size - 1, n as int, size as int);
    }
}

/// Splits an interleaved block into its channels and returns the samples of the
/// trailing partial frame.
pub fn deinterleave<S: Copy>(data: &Vec<S>, channels: usize) -> (res: (Vec<Vec<S>>, Vec<S>))
    requires
        channels > 0,
    ensures
        views_of(res.0@) == spec_deinterleave(data@, channels as nat),
        res.1@ == spec_leftover(data@, channels as nat),
{
    let len = data.len();
    let n = len / channels;
    proof {
        lemma_whole_frames_fit(data@.len(), channels as nat);
    }
    let mut out: Vec<Vec<S>> = Vec::new();
    let mut c: usize = 0;
    while c < channels
        invariant
            channels > 0,
            len == data@.len(),
            c <= channels,
            n == whole_frames(data@.len(), channels as nat),
            n * channels <= data@.len(),
            out@.len() == c,
            forall|j: int|
                0 <= j < c ==> #[trigger] out@[j]@ == spec_deinterleave(data@, channels as nat)[j],
        decreases channels - c,
    {
        let mut chan: Vec<S> = Vec::new();
        let mut i: usize = 0;
        while i < n
            invariant
                channels > 0,
                len == data@.len(),
                c < channels,
                i <= n,
                n == whole_frames(data@.len(), channels as nat),
                n * channels <= data@.len(),
                chan@.len() == i,
                forall|k: int| 0 <= k < i ==> #[trigger] chan@[k] == data@[k * channels + c],
            decreases n - i,
        {
            proof {
                lemma_frame_index(i as int, c as int, n as int, channels as int);
            }
            chan.push(data[i * channels + c]);
            i = i + 1;
        }
        assert(chan@ == spec_deinterleave(data@, channels as nat)[c as int]);
        out.push(chan);
        c = c + 1;
    }
    assert(views_of(out@) == spec_deinterleave(data@, channels as nat));
    let mut rest: Vec<S> = Vec::new();
    let mut k: usize = n * channels;
    while k < data.len()
        invariant
            n * channels <= k <= data@.len(),
            rest@ == data@.subrange((n * channels) as int, k as int),
        decreases data@.len() - k,
    {
        rest.push(data[k]);
        k = k + 1;
    }
    (out, rest)
}

/// Cuts a stream into whole frames of `size` samples and returns the samples
/// of the trailing partial frame.
pub fn chunks<S: Copy>(data: &Vec<S>, size: usize) -> (res: (Vec<Vec<S>>, Vec<S>))
    requires
        size > 0,
    ensures
        views_of(res.0@) == spec_chunks(data@, size as nat),
        res.1@ == spec_leftover(data@, size as nat),
{
    let len = data.len();
    let n = len / size;
    proof {
        lemma_whole_frames_fit(data@.len(), size as nat);
    }
    let mut out: Vec<Vec<S>> = Vec::new();
    let mut k: usize = 0;
    while k < n
        invariant
            size > 0,
            len == data@.len(),
            k <= n,
            n == whole_frames(data@.len(), size as nat),
            n * size <= data@.len(),
            out@.len() == k,
            forall|j: int| 0 <= j < k ==> #[trigger] out@[j]@ == spec_chunks(data@, size as nat)[j],
        decreases n - k,
    {
        proof {
            lemma_frame_index(k as int, 0, n as int, size as int);
            lemma_frame_index(k as int, size - 1, n as int, size as int);
        }
        let start = k * size;
        let mut chunk: Vec<S> = Vec::new();
        let mut i: usize = 0;
        while i < size
            invariant
                size > 0,
                len == data@.len(),
                k < n,
                start == k * size,
                start + size <= data@.len(),
                i <= size,
                chunk@ == data@.subrange(start as int, start + i),
            decreases size - i,
        {
            chunk.push(data[start + i]);
            i = i + 1;
        }
        out.push(chunk);
        k = k + 1;
    }
    assert(views_of(out@) == spec_chunks(data@, size as nat));
    let mut rest: Vec<S> = Vec::new();
    let mut j: usize = n * size;
    while j < data.len()
        invariant
            n * size <= j <= data@.len(),
            rest@ == data@.subrange((n * size) as int, j as int),
        decreases data@.len() - j,
    {
        rest.push(data[j]);
        j = j + 1;
    }
    (out, rest)
}

/// Plays every mono sample on both channels: `[a, b]` becomes `[a, a, b, b]`.
pub fn to_stereo<S: Copy>(mono: &Vec<S>) -> (res: Vec<S>)
    ensures
        res@ == spec_stereo(mono@),
{
    let mut out: Vec<S> = Vec::new();
    let mut i: usize = 0;
    while i < mono.len()
        invariant
            i <= mono@.len(),
            out@.len() == 2 * i,
            forall|k: int| 0 <= k < 2 * i ==> #[trigger] out@[k] == mono@[k / 2],
        decreases mono@.len() - i,
    {
        let s = mono[i];
        out.push(s);
        out.push(s);
        i = i + 1;
    }
    assert(out@ == spec_stereo(mono@));
    out
}

} // verus!
