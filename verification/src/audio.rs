//! Placement of PCM samples in the rendered soundtrack: the music is copied into a window of
//! the output, and the ending theme is repeated until the output is full. Samples are of any
//! copyable type; positions are sample indexes.
use vstd::prelude::*;

verus! {

/// `a - b`, or zero when `b` is larger.
pub open spec fn sat_sub(a: int, b: int) -> int {
    if a >= b {
        a - b
    } else {
        0
    }
}

/// `ending` repeated from its start until `output_len` samples are written; silence when
/// there is no ending.
pub open spec fn tiled<T>(ending: Seq<T>, output_len: nat, silence: T) -> Seq<T> {
    Seq::new(
        output_len,
        |i: int|
            if ending.len() == 0 {
                silence
            } else {
                ending[i % (ending.len() as int)]
            },
    )
}

/// How many music samples are copied: no more than the music holds after `position_read`,
/// nor than fit in the output after `position_write`, nor than the music's part of the chart.
pub open spec fn window_len(
    music_len_total: int,
    position_write: int,
    position_read: int,
    music_len: int,
    output_len: int,
) -> int {
    let a = sat_sub(music_len_total, position_read);
    let b = sat_sub(output_len, position_write);
    let c = sat_sub(music_len, position_write);
    let ab = if a <= b {
        a
    } else {
        b
    };
    if ab <= c {
        ab
    } else {
        c
    }
}

/// The output of `output_len` samples: silence, except that the music from `position_read`
/// on is copied to `position_write` on, as far as `window_len` allows.
pub open spec fn music_window<T>(
    music: Seq<T>,
    position_write: int,
    position_read: int,
    music_len: int,
    output_len: nat,
    silence: T,
) -> Seq<T> {
    let len = window_len(music.len() as int, position_write, position_read, music_len, output_len as int);
    Seq::new(
        output_len,
        |i: int|
            if position_write <= i < position_write + len {
                music[position_read + (i - position_write)]
            } else {
                silence
            },
    )
}

/// Repeats the ending theme until `output_len` samples are written.
pub fn tile_ending_pcm<T: Copy>(ending: &[T], output_len: usize, silence: T) -> (out: Vec<T>)
    ensures
        out@ == tiled(ending@, output_len as nat, silence),
{
    let n = ending.len();
    let mut out: Vec<T> = Vec::new();
    let mut i: usize = 0;
    let mut j: usize = 0;
    let ghost mut q: int = 0;
    while i < output_len
        invariant
            i <= output_len,
            n == ending@.len(),
            n > 0 ==> j < n && i == q * n + j && q >= 0,
            out@.len() == i,
            forall|k: int| 0 <= k < i ==> #[trigger] out@[k] == tiled(ending@, output_len as nat, silence)[k],
        decreases output_len - i,
    {
        if n == 0 {
            out.push(silence);
        } else {
            proof {
                vstd::arithmetic::div_mod::lemma_fundamental_div_mod_converse(i as int, n as int, q, j as int);
            }
            out.push(ending[j]);
            if j + 1 == n {
                j = 0;
                proof {
                    q = q + 1;
                    assert(i + 1 == q * n + j) by (nonlinear_arith)
                        requires
                            i == (q - 1) * n + (n - 1),
                            j == 0,
                    ;
                }
            } else {
                j = j + 1;
            }
        }
        i = i + 1;
    }
    assert(out@ =~= tiled(ending@, output_len as nat, silence));
    out
}

/// Copies the music into its window of an otherwise silent output.
pub fn place_music_samples<T: Copy>(
    music: &[T],
    position_write: usize,
    position_read: usize,
    music_len: usize,
    output_len: usize,
    silence: T,
) -> (out: Vec<T>)
    requires
        position_write <= output_len,
        position_read <= music@.len(),
    ensures
        out@ == music_window(
            music@,
            position_write as int,
            position_read as int,
            music_len as int,
            output_len as nat,
            silence,
        ),
{
    let a = music.len() - position_read;
    let b = output_len - position_write;
    let c = if music_len >= position_write {
        music_len - position_write
    } else {
        0
    };
    let ab = if a <= b {
        a
    } else {
        b
    };
    let len = if ab <= c {
        ab
    } else {
        c
    };
    let ghost spec_out = music_window(
        music@,
        position_write as int,
        position_read as int,
        music_len as int,
        output_len as nat,
        silence,
    );
    let mut out: Vec<T> = Vec::new();
    let mut i: usize = 0;
    while i < output_len
        invariant
            i <= output_len,
            position_write + len <= output_len,
            position_read + len <= music@.len(),
            music@.len() == music.len(),
            len == window_len(music@.len() as int, position_write as int, position_read as int, music_len as int, output_len as int),
            spec_out == music_window(
                music@,
                position_write as int,
                position_read as int,
                music_len as int,
                output_len as nat,
                silence,
            ),
            out@.len() == i,
            forall|k: int| 0 <= k < i ==> #[trigger] out@[k] == spec_out[k],
        decreases output_len - i,
    {
        if position_write <= i && i < position_write + len {
            out.push(music[position_read + (i - position_write)]);
        } else {
            out.push(silence);
        }
        i = i + 1;
    }
    assert(out@ =~= spec_out);
    out
}

} // verus!
