use vstd::prelude::*;

verus! {

/// Number of audio samples that the shader's uniform block holds.
pub const AUDIO_BUFFER_SIZE: usize = 1024;

/// What a window of `len` slots holds after it has been filled from `audio`:
/// the leading samples of `audio`, as many as fit, and `fill` in every slot
/// that no sample reaches.
pub open spec fn window_contents<T>(audio: Seq<T>, len: nat, fill: T) -> Seq<T> {
    Seq::new(len, |i: int| if i < audio.len() { audio[i] } else { fill })
}

/// Fills `window` from `audio`: the first `min(audio.len(), window.len())`
/// slots receive the leading samples, every later slot receives `fill`.
/// Samples that do not fit are dropped; nothing of the window's earlier
/// contents survives.
pub fn fill_window<T: Copy>(window: &mut [T], audio: &[T], fill: T)
    ensures
        final(window)@ == window_contents(audio@, old(window)@.len(), fill),
        final(window)@.len() == old(window)@.len(),
        forall|i: int|
            0 <= i < old(window)@.len() && i < audio@.len() ==> #[trigger] final(window)@[i]
                == audio@[i],
        forall|i: int|
            0 <= i < old(window)@.len() && audio@.len() <= i ==> #[trigger] final(window)@[i]
                == fill,
{
    let n = window.len();
    let mut i: usize = 0;
    while i < n
        invariant
            n == window@.len(),
            n == old(window)@.len(),
            i <= n,
            forall|j: int|
                0 <= j < i ==> #[trigger] window@[j] == (if j < audio@.len() {
                    audio@[j]
                } else {
                    fill
                }),
        decreases n - i,
    {
        if i < audio.len() {
            window[i] = audio[i];
        } else {
            window[i] = fill;
        }
        i = i + 1;
    }
    assert(window@ =~= window_contents(audio@, old(window)@.len(), fill));
}

/// A window filled from at least as many samples as it has slots holds
/// exactly the leading samples.
pub proof fn lemma_window_of_long_audio<T>(audio: Seq<T>, len: nat, fill: T)
    requires
        len <= audio.len(),
    ensures
        window_contents(audio, len, fill) == audio.take(len as int),
{
    assert(window_contents(audio, len, fill) =~= audio.take(len as int));
}

/// A window filled from fewer samples than it has slots holds all the
/// samples followed by `fill` up to its length.
pub proof fn lemma_window_of_short_audio<T>(audio: Seq<T>, len: nat, fill: T)
    requires
        audio.len() <= len,
    ensures
        window_contents(audio, len, fill) == audio + Seq::new(
            (len - audio.len()) as nat,
            |i: int| fill,
        ),
{
    assert(window_contents(audio, len, fill) =~= audio + Seq::new(
        (len - audio.len()) as nat,
        |i: int| fill,
    ));
}

/// Samples beyond the window's length have no effect on what it holds.
pub proof fn lemma_window_ignores_excess<T>(audio: Seq<T>, extra: Seq<T>, len: nat, fill: T)
    requires
        len <= audio.len(),
    ensures
        window_contents(audio + extra, len, fill) == window_contents(audio, len, fill),
{
    assert(window_contents(audio + extra, len, fill) =~= window_contents(audio, len, fill));
}

} // verus!
