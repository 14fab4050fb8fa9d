use vstd::prelude::*;

verus! {

/// The samples of channel `c` in a stream interleaved over `k` channels:
/// every sample at offset `c` of a whole frame, in order. A trailing
/// incomplete frame (the last `s.len() % k` samples) contributes nothing.
pub open spec fn channel_of<T>(s: Seq<T>, k: nat, c: nat) -> Seq<T>
    recommends
        k > 0,
        c < k,
{
    Seq::new(s.len() / k, |j: int| s[j * k + c])
}

proof fn lemma_frame_index_in_bounds(n: int, k: int, c: int, j: int)
    requires
        k > 0,
        0 <= c < k,
        0 <= j < n / k,
        n >= 0,
    ensures
        0 <= j * k + c < n,
{
    assert(0 <= j * k) by (nonlinear_arith)
        requires
            0 <= j,
            k > 0,
    ;
    assert(j * k + k <= (n / k) * k) by (nonlinear_arith)
        requires
            j + 1 <= n / k,
            k > 0,
    ;
    assert((n / k) * k <= n) by (nonlinear_arith)
        requires
            k > 0,
            n >= 0,
    ;
}

/// Demultiplexing chunk by chunk gives what demultiplexing the whole stream
/// at once gives, as long as each chunk but the last holds whole frames.
pub proof fn lemma_channel_of_concat<T>(a: Seq<T>, b: Seq<T>, k: nat, c: nat)
    requires
        k > 0,
        c < k,
        a.len() % k == 0,
    ensures
        channel_of(a + b, k, c) == channel_of(a, k, c) + channel_of(b, k, c),
{
    let m = a.len() / k;
    let n = b.len() / k;
    assert(a.len() == m * k) by (nonlinear_arith)
        requires
            a.len() % k == 0,
            m == a.len() / k,
            k > 0,
    ;
    assert((a.len() + b.len()) / k == m + n) by (nonlinear_arith)
        requires
            a.len() == m * k,
            n == b.len() / k,
            k > 0,
    ;
    let lhs = channel_of(a + b, k, c);
    let rhs = channel_of(a, k, c) + channel_of(b, k, c);
    assert(lhs.len() == rhs.len());
    assert forall|j: int| 0 <= j < lhs.len() implies lhs[j] == rhs[j] by {
        if j < m {
            lemma_frame_index_in_bounds(a.len() as int, k as int, c as int, j);
        } else {
            let i = j - m;
            assert(j * k + c - a.len() == i * k + c) by (nonlinear_arith)
                requires
                    a.len() == m * k,
                    i == j - m,
            ;
            lemma_frame_index_in_bounds(b.len() as int, k as int, c as int, i);
            assert(0 <= i * k) by (nonlinear_arith)
                requires
                    0 <= i,
                    k > 0,
            ;
        }
    }
    assert(lhs =~= rhs);
}

/// Appends to `out` the samples of channel `channel` taken from the first
/// `len` samples of `block`, interleaved over `channels` channels.
pub fn append_channel<T: Copy>(out: &mut Vec<T>, block: &[T], len: usize, channels: usize, channel: usize)
    requires
        channels > 0,
        channel < channels,
        len <= block@.len(),
    ensures
        final(out)@ == old(out)@ + channel_of(block@.take(len as int), channels as nat, channel as nat),
{
    let ghost src = block@.take(len as int);
    let ghost start = old(out)@;
    let frames = len / channels;
    let mut f: usize = 0;
    while f < frames
        invariant
            f <= frames,
            frames == len / channels,
            channels > 0,
            channel < channels,
            len <= block@.len(),
            src == block@.take(len as int),
            out@.len() == start.len() + f,
            out@.take(start.len() as int) == start,
            forall|j: int| 0 <= j < f ==> #[trigger] out@[start.len() + j] == src[j * channels + channel],
        decreases frames - f,
    {
        proof {
            lemma_frame_index_in_bounds(len as int, channels as int, channel as int, f as int);
        }
        let i = f * channels + channel;
        out.push(block[i]);
        f = f + 1;
    }
    let ghost sel = channel_of(src, channels as nat, channel as nat);
    assert(src.len() == len);
    assert(sel.len() == frames);
    assert forall|i: int| 0 <= i < out@.len() implies out@[i] == (start + sel)[i] by {
        if i >= start.len() {
            let j = i - start.len();
            assert(out@[start.len() + j] == src[j * channels + channel]);
        } else {
            assert(out@.take(start.len() as int)[i] == start[i]);
        }
    }
    assert(out@ =~= start + sel);
}

/// Splits an interleaved sequence into one sequence per channel.
pub fn demux<T: Copy>(samples: &Vec<T>, channels: usize) -> (r: Vec<Vec<T>>)
    requires
        channels > 0,
    ensures
        r.len() == channels,
        forall|c: int|
            0 <= c < channels ==> #[trigger] r[c]@ == channel_of(samples@, channels as nat, c as nat),
{
    let mut r: Vec<Vec<T>> = Vec::new();
    let mut c: usize = 0;
    while c < channels
        invariant
            c <= channels,
            r.len() == c,
            forall|d: int|
                0 <= d < c ==> #[trigger] r[d]@ == channel_of(samples@, channels as nat, d as nat),
        decreases channels - c,
    {
        let mut out: Vec<T> = Vec::new();
        append_channel(&mut out, samples.as_slice(), samples.len(), channels, c);
        assert(samples@.take(samples@.len() as int) =~= samples@);
        assert(out@ =~= channel_of(samples@, channels as nat, c as nat));
        r.push(out);
        c = c + 1;
    }
    r
}

} // verus!

verus! {

/// `k` empty channel buffers.
pub fn empty_buffers<T>(k: usize) -> (r: Vec<Vec<T>>)
    ensures
        r.len() == k,
        forall|c: int| 0 <= c < k ==> #[trigger] r[c]@.len() == 0,
{
    let mut r: Vec<Vec<T>> = Vec::new();
    let mut c: usize = 0;
    while c < k
        invariant
            c <= k,
            r.len() == c,
            forall|d: int| 0 <= d < c ==> #[trigger] r[d]@.len() == 0,
        decreases k - c,
    {
        r.push(Vec::new());
        c = c + 1;
    }
    r
}

/// Deinterleaves the first `len` samples of `block` over the channel
/// buffers, appending channel `c`'s samples to `buffers[c]`.
pub fn append_demuxed<T: Copy>(buffers: &mut Vec<Vec<T>>, block: &[T], len: usize)
    requires
        old(buffers).len() > 0,
        len <= block@.len(),
    ensures
        final(buffers).len() == old(buffers).len(),
        forall|c: int|
            0 <= c < old(buffers).len() ==> #[trigger] final(buffers)[c]@ == old(buffers)[c]@
                + channel_of(block@.take(len as int), old(buffers).len() as nat, c as nat),
{
    let k = buffers.len();
    let ghost before = *buffers;
    let mut c: usize = 0;
    while c < k
        invariant
            k == buffers.len(),
            k == before.len(),
            k > 0,
            c <= k,
            len <= block@.len(),
            forall|d: int|
                0 <= d < c ==> #[trigger] buffers[d]@ == before[d]@ + channel_of(
                    block@.take(len as int),
                    k as nat,
                    d as nat,
                ),
            forall|d: int| c <= d < k ==> #[trigger] buffers[d] == before[d],
        decreases k - c,
    {
        append_channel(&mut buffers[c], block, len, k, c);
        c = c + 1;
    }
}

/// Channel `c` of a stream delivered as a sequence of interleaved blocks,
/// each block deinterleaved on its own and the results joined in order.
pub open spec fn joined_channel<T>(blocks: Seq<Seq<T>>, k: nat, c: nat) -> Seq<T>
    decreases blocks.len(),
{
    if blocks.len() == 0 {
        Seq::empty()
    } else {
        joined_channel(blocks.drop_last(), k, c) + channel_of(blocks.last(), k, c)
    }
}

/// The blocks joined end to end.
pub open spec fn concat_blocks<T>(blocks: Seq<Seq<T>>) -> Seq<T>
    decreases blocks.len(),
{
    if blocks.len() == 0 {
        Seq::empty()
    } else {
        concat_blocks(blocks.drop_last()) + blocks.last()
    }
}

/// Every channel joined from the same blocks has the same length.
pub proof fn lemma_joined_same_length<T>(blocks: Seq<Seq<T>>, k: nat, a: nat, b: nat)
    requires
        k > 0,
    ensures
        joined_channel(blocks, k, a).len() == joined_channel(blocks, k, b).len(),
    decreases blocks.len(),
{
    if blocks.len() > 0 {
        lemma_joined_same_length(blocks.drop_last(), k, a, b);
    }
}

/// When every block holds whole frames, deinterleaving block by block gives
/// what deinterleaving the joined stream at once gives.
pub proof fn lemma_joined_is_channel_of_concat<T>(blocks: Seq<Seq<T>>, k: nat, c: nat)
    requires
        k > 0,
        c < k,
        forall|i: int| 0 <= i < blocks.len() ==> #[trigger] blocks[i].len() % k == 0,
    ensures
        joined_channel(blocks, k, c) == channel_of(concat_blocks(blocks), k, c),
        concat_blocks(blocks).len() % k == 0,
    decreases blocks.len(),
{
    if blocks.len() == 0 {
        assert(channel_of(Seq::<T>::empty(), k, c) =~= Seq::<T>::empty());
        assert(concat_blocks(blocks).len() == 0);
        assert(0nat % k == 0) by (nonlinear_arith)
            requires
                k > 0,
        ;
    } else {
        let init = blocks.drop_last();
        assert forall|i: int| 0 <= i < init.len() implies #[trigger] init[i].len() % k == 0 by {
            assert(init[i] == blocks[i]);
        }
        lemma_joined_is_channel_of_concat(init, k, c);
        let a = concat_blocks(init);
        let b = blocks.last();
        assert(b.len() % k == 0);
        lemma_channel_of_concat(a, b, k, c);
        assert((a.len() + b.len()) % k == 0) by (nonlinear_arith)
            requires
                a.len() % k == 0,
                b.len() % k == 0,
                k > 0,
        ;
        assert(concat_blocks(blocks) == a + b);
    }
}

} // verus!
