//! Audio buffer storage for out-of-place processing.
//!
//! Buffers are indexed `[port][channel][sample]`. The hard invariant is
//! homogeneity: every channel of every input and output port holds the same
//! number of samples, the block size. Construction scans all channels and
//! refuses heterogeneous storage. The sample type is a parameter: the
//! validator's front end instantiates it with the 32-bit sample format the
//! plugin ABI processes, while this crate only reasons about shapes.

use vstd::prelude::*;

verus! {

/// An error in assembling audio buffers.
#[derive(Clone, Copy, PartialEq, Eq, Structural, Debug)]
pub enum BufferError {
    /// Two channels disagreed about the number of samples in the block.
    InconsistentSampleCount { expected: usize, found: usize },
}

/// Every channel of every port in `ports` holds exactly `n` samples.
pub open spec fn ports_consistent<S>(ports: Seq<Vec<Vec<S>>>, n: int) -> bool {
    forall|p: int, c: int|
        0 <= p < ports.len() && 0 <= c < ports[p]@.len() ==> #[trigger] ports[p]@[c]@.len() == n
}

/// No port in `ports` has any channel.
pub open spec fn ports_channelless<S>(ports: Seq<Vec<Vec<S>>>) -> bool {
    forall|p: int| 0 <= p < ports.len() ==> #[trigger] ports[p]@.len() == 0
}

/// Some channel in `ports` holds exactly `n` samples.
pub open spec fn some_channel_has_len<S>(ports: Seq<Vec<Vec<S>>>, n: int) -> bool {
    exists|p: int, c: int|
        0 <= p < ports.len() && 0 <= c < ports[p]@.len() && #[trigger] ports[p]@[c]@.len() == n
}

/// All channels across the input and output ports hold `n` samples each.
pub open spec fn buffers_consistent<S>(
    inputs: Seq<Vec<Vec<S>>>,
    outputs: Seq<Vec<Vec<S>>>,
    n: int,
) -> bool {
    ports_consistent(inputs, n) && ports_consistent(outputs, n)
}

/// Some single sample count fits every channel of every port: the
/// homogeneity condition under which buffer construction succeeds.
pub open spec fn buffers_homogeneous<S>(
    inputs: Seq<Vec<Vec<S>>>,
    outputs: Seq<Vec<Vec<S>>>,
) -> bool {
    exists|n: int| buffers_consistent(inputs, outputs, n)
}

/// Audio buffers for out-of-place processing: separate, non-aliasing input
/// and output storage, owned by this structure so the per-channel tables
/// handed to the plugin can be rebuilt from it at any time.
pub struct OutOfPlaceAudioBuffers<S> {
    /// Input samples, indexed `[port][channel][sample]`.
    pub inputs: Vec<Vec<Vec<S>>>,
    /// Output samples, indexed `[port][channel][sample]`.
    pub outputs: Vec<Vec<Vec<S>>>,
    /// The number of samples per channel, consistent across all ports.
    pub num_samples: usize,
}

impl<S> OutOfPlaceAudioBuffers<S> {
    /// The structure's invariant: every channel holds `num_samples` samples,
    /// and `num_samples` is zero when there is no channel at all.
    pub open spec fn wf(self) -> bool {
        &&& buffers_consistent(self.inputs@, self.outputs@, self.num_samples as int)
        &&& (ports_channelless(self.inputs@) && ports_channelless(self.outputs@)
            ==> self.num_samples == 0)
    }

    /// Construct buffers from per-port, per-channel sample storage.
    ///
    /// Succeeds exactly when the storage is homogeneous: one sample count
    /// fits every channel. Ports without channels are legal, and with no
    /// channels anywhere the block size is zero.
    pub fn new(inputs: Vec<Vec<Vec<S>>>, outputs: Vec<Vec<Vec<S>>>) -> (r: Result<
        Self,
        BufferError,
    >)
        ensures
            r.is_ok() <==> buffers_homogeneous(inputs@, outputs@),
            r matches Ok(b) ==> b.wf() && b.inputs == inputs && b.outputs == outputs,
            r matches Ok(b) ==> (!(ports_channelless(inputs@) && ports_channelless(outputs@))
                ==> (some_channel_has_len(inputs@, b.num_samples as int) || some_channel_has_len(
                outputs@,
                b.num_samples as int,
            ))),
            r matches Err(BufferError::InconsistentSampleCount { expected, found })
                ==> expected != found && (some_channel_has_len(inputs@, expected as int)
                || some_channel_has_len(outputs@, expected as int)) && (some_channel_has_len(
                inputs@,
                found as int,
            ) || some_channel_has_len(outputs@, found as int)),
    {
        let mut num_samples: Option<usize> = None;

        let mut p: usize = 0;
        while p < inputs.len()
            invariant
                0 <= p <= inputs@.len(),
                num_samples matches Option::None ==> forall|i: int|
                    0 <= i < p ==> #[trigger] inputs@[i]@.len() == 0,
                num_samples matches Option::Some(n) ==> {
                    &&& some_channel_has_len(inputs@.take(p as int), n as int)
                    &&& ports_consistent(inputs@.take(p as int), n as int)
                },
            decreases inputs@.len() - p,
        {
            let port = &inputs[p];
            let mut c: usize = 0;
            while c < port.len()
                invariant
                    0 <= c <= port@.len(),
                    port == &inputs[p as int],
                    0 <= p < inputs@.len(),
                    num_samples matches Option::None ==> c == 0 && forall|i: int|
                        0 <= i < p ==> #[trigger] inputs@[i]@.len() == 0,
                    num_samples matches Option::Some(n) ==> {
                        &&& some_channel_has_len(inputs@.take(p as int + 1), n as int)
                        &&& ports_consistent(inputs@.take(p as int), n as int)
                        &&& forall|j: int| 0 <= j < c ==> #[trigger] port@[j]@.len() == n
                    },
                decreases port@.len() - c,
            {
                let found = port[c].len();
                match num_samples {
                    Option::None => {
                        num_samples = Option::Some(found);
                        proof {
                            assert(inputs@.take(p as int + 1)[p as int]@[c as int]@.len()
                                == found as int);
                        }
                    },
                    Option::Some(expected) => {
                        if found != expected {
                            proof {
                                let (wp, wc) = choose|wp: int, wc: int|
                                    0 <= wp < inputs@.take(p as int + 1).len() && 0 <= wc
                                        < inputs@.take(p as int + 1)[wp]@.len()
                                        && #[trigger] inputs@.take(p as int + 1)[wp]@[wc]@.len()
                                        == expected as int;
                                assert(forall|n: int|
                                    buffers_consistent(inputs@, outputs@, n)
                                        ==> #[trigger] inputs@[wp]@[wc]@.len() == n
                                        && inputs@[p as int]@[c as int]@.len() == n);
                                assert(inputs@[wp]@[wc]@.len() == expected as int);
                                assert(inputs@[p as int]@[c as int]@.len() == found as int);
                            }
                            return Result::Err(
                                BufferError::InconsistentSampleCount { expected, found },
                            );
                        }
                    },
                }
                c += 1;
            }
            proof {
                match num_samples {
                    Option::Some(n) => {
                        assert(forall|i: int, j: int|
                            0 <= i < p + 1 && 0 <= j < inputs@.take(p as int + 1)[i]@.len()
                                ==> #[trigger] inputs@.take(p as int + 1)[i]@[j]@.len() == n as int)
                            by {
                            assert(forall|j: int|
                                0 <= j < inputs@[p as int]@.len()
                                    ==> #[trigger] inputs@[p as int]@[j]@.len() == n as int);
                        }
                    },
                    Option::None => {},
                }
            }
            p += 1;
        }

        proof {
            assert(inputs@.take(inputs@.len() as int) =~= inputs@);
        }

        let mut q: usize = 0;
        while q < outputs.len()
            invariant
                0 <= q <= outputs@.len(),
                num_samples matches Option::None ==> {
                    &&& ports_channelless(inputs@)
                    &&& forall|i: int| 0 <= i < q ==> #[trigger] outputs@[i]@.len() == 0
                },
                num_samples matches Option::Some(n) ==> {
                    &&& ports_consistent(inputs@, n as int)
                    &&& (some_channel_has_len(inputs@, n as int) || some_channel_has_len(
                        outputs@.take(q as int),
                        n as int,
                    ))
                    &&& ports_consistent(outputs@.take(q as int), n as int)
                },
            decreases outputs@.len() - q,
        {
            let port = &outputs[q];
            let mut c: usize = 0;
            while c < port.len()
                invariant
                    0 <= c <= port@.len(),
                    port == &outputs[q as int],
                    0 <= q < outputs@.len(),
                    num_samples matches Option::None ==> c == 0 && ports_channelless(inputs@)
                        && forall|i: int| 0 <= i < q ==> #[trigger] outputs@[i]@.len() == 0,
                    num_samples matches Option::Some(n) ==> {
                        &&& ports_consistent(inputs@, n as int)
                        &&& (some_channel_has_len(inputs@, n as int) || some_channel_has_len(
                            outputs@.take(q as int + 1),
                            n as int,
                        ))
                        &&& ports_consistent(outputs@.take(q as int), n as int)
                        &&& forall|j: int| 0 <= j < c ==> #[trigger] port@[j]@.len() == n
                    },
                decreases port@.len() - c,
            {
                let found = port[c].len();
                match num_samples {
                    Option::None => {
                        num_samples = Option::Some(found);
                        proof {
                            assert(outputs@.take(q as int + 1)[q as int]@[c as int]@.len()
                                == found as int);
                        }
                    },
                    Option::Some(expected) => {
                        if found != expected {
                            proof {
                                if some_channel_has_len(inputs@, expected as int) {
                                    let (wp, wc) = choose|wp: int, wc: int|
                                        0 <= wp < inputs@.len() && 0 <= wc < inputs@[wp]@.len()
                                            && #[trigger] inputs@[wp]@[wc]@.len()
                                            == expected as int;
                                    assert(forall|n: int|
                                        buffers_consistent(inputs@, outputs@, n)
                                            ==> #[trigger] inputs@[wp]@[wc]@.len() == n
                                            && outputs@[q as int]@[c as int]@.len() == n);
                                } else {
                                    let (wp, wc) = choose|wp: int, wc: int|
                                        0 <= wp < outputs@.take(q as int + 1).len() && 0 <= wc
                                            < outputs@.take(q as int + 1)[wp]@.len()
                                            && #[trigger] outputs@.take(
                                            q as int + 1,
                                        )[wp]@[wc]@.len() == expected as int;
                                    assert(forall|n: int|
                                        buffers_consistent(inputs@, outputs@, n)
                                            ==> #[trigger] outputs@[wp]@[wc]@.len() == n
                                            && outputs@[q as int]@[c as int]@.len() == n);
                                    assert(outputs@[wp]@[wc]@.len() == expected as int);
                                }
                                assert(outputs@[q as int]@[c as int]@.len() == found as int);
                            }
                            return Result::Err(
                                BufferError::InconsistentSampleCount { expected, found },
                            );
                        }
                    },
                }
                c += 1;
            }
            proof {
                match num_samples {
                    Option::Some(n) => {
                        assert(forall|i: int, j: int|
                            0 <= i < q + 1 && 0 <= j < outputs@.take(q as int + 1)[i]@.len()
                                ==> #[trigger] outputs@.take(q as int + 1)[i]@[j]@.len()
                                == n as int) by {
                            assert(forall|j: int|
                                0 <= j < outputs@[q as int]@.len()
                                    ==> #[trigger] outputs@[q as int]@[j]@.len() == n as int);
                        }
                    },
                    Option::None => {},
                }
            }
            q += 1;
        }

        proof {
            assert(outputs@.take(outputs@.len() as int) =~= outputs@);
        }

        let n = match num_samples {
            Option::Some(n) => n,
            Option::None => 0,
        };
        proof {
            assert(buffers_consistent(inputs@, outputs@, n as int));
        }
        Result::Ok(OutOfPlaceAudioBuffers { inputs, outputs, num_samples: n })
    }

    /// The number of samples per channel: the block size. Zero when the
    /// buffers hold no channel at all.
    pub fn len(&self) -> (r: usize)
        ensures
            r == self.num_samples,
    {
        self.num_samples
    }

    /// The input storage, per port and channel, from which the per-channel
    /// base-pointer table handed to the plugin is built.
    pub fn input_channel_pointers(&self) -> (r: &Vec<Vec<Vec<S>>>)
        ensures
            r == &self.inputs,
    {
        &self.inputs
    }

    /// The output storage, per port and channel, from which the per-channel
    /// base-pointer table handed to the plugin is built.
    pub fn output_channel_pointers(&self) -> (r: &Vec<Vec<Vec<S>>>)
        ensures
            r == &self.outputs,
    {
        &self.outputs
    }
}

/// Audio buffers for a process call. CLAP permits in-place as well as
/// out-of-place processing; the validator drives the out-of-place form.
pub enum AudioBuffers<S> {
    /// Out-of-place processing with separate, non-aliasing input and output
    /// buffers.
    OutOfPlace(OutOfPlaceAudioBuffers<S>),
}

impl<S> AudioBuffers<S> {
    /// The buffers' invariant, by variant.
    pub open spec fn wf(self) -> bool {
        match self {
            AudioBuffers::OutOfPlace(b) => b.wf(),
        }
    }

    /// The block size the buffers are laid out for.
    pub fn len(&self) -> (r: usize)
        ensures
            match self {
                AudioBuffers::OutOfPlace(b) => r == b.num_samples,
            },
    {
        match self {
            AudioBuffers::OutOfPlace(b) => b.len(),
        }
    }
}

} // verus!
