//! Dispatch of a unary kernel on a tensor.
use vstd::prelude::*;
use crate::cache::KernelSourceCache;
use crate::client::{
    BufferHandle, DeviceClient, EagerHandle, Exchange, HandleModel, LaunchError, OutOfMemoryError,
    Session, Submission, SubmissionModel, WorkgroupLaunch,
};
use crate::compiler::{Compiler, Generated, KernelCompilationError};
use crate::elem::JitElement;
use crate::kernel::{InplaceMapping, KernelVariant, UnaryKernel};
use crate::tensor::JitTensor;

verus! {

/// Why a dispatch failed. Every error of the generator and of the device
/// reaches the caller as it came; nothing is retried.
#[derive(Clone, Debug, PartialEq, Eq)]
pub enum DispatchError {
    KernelCompilation(KernelCompilationError),
    OutOfMemory(OutOfMemoryError),
    Launch(LaunchError),
}

/// What a dispatch does: the variant it runs, the bytes it allocates for
/// the output, where it allocates any, and the tensor that sizes the grid.
#[derive(Clone, Copy, Debug, PartialEq, Eq)]
pub struct DispatchPlan {
    pub variant: KernelVariant,
    pub allocation: Option<usize>,
    pub launch: WorkgroupLaunch,
}

/// The variant that a dispatch runs: the in-place one where the caller
/// allows it and the buffer may be overwritten, the plain one otherwise.
pub open spec fn spec_select_variant(inplace_enabled: bool, can_mutate: bool) -> KernelVariant {
    if inplace_enabled && can_mutate {
        KernelVariant::Inplace
    } else {
        KernelVariant::Plain
    }
}

/// The plan of a dispatch on `tensor`. The in-place variant allocates
/// nothing and is sized by input 0. The plain variant allocates the
/// element count times the size of an element, and is sized by output 0.
pub open spec fn spec_plan<E, const D: usize>(
    tensor: JitTensor<E, D>,
    inplace_enabled: bool,
    can_mutate: bool,
) -> DispatchPlan {
    match spec_select_variant(inplace_enabled, can_mutate) {
        KernelVariant::Inplace => DispatchPlan {
            variant: KernelVariant::Inplace,
            allocation: None,
            launch: WorkgroupLaunch::Input { pos: 0 },
        },
        KernelVariant::Plain => DispatchPlan {
            variant: KernelVariant::Plain,
            allocation: Some(
                (tensor.spec_shape().spec_num_elements() * vstd::layout::size_of::<E>()) as usize,
            ),
            launch: WorkgroupLaunch::Output { pos: 0 },
        },
    }
}

/// The run of the kernel with source `kernel` that reads `input` and
/// writes `output`, or writes `input` itself where there is no output.
pub open spec fn spec_submission<E>(
    kernel: Seq<char>,
    input: HandleModel,
    output: Option<HandleModel>,
    scalars: Option<Seq<E>>,
    launch: WorkgroupLaunch,
) -> SubmissionModel<E> {
    SubmissionModel {
        kernel,
        inputs: seq![input],
        outputs: match output {
            Some(handle) => seq![handle],
            None => Seq::empty(),
        },
        scalars,
        launch,
    }
}

/// What a dispatch of the in-place variant on `tensor` asks of the device
/// and returns, where `source` is what the cache gave for the variant and
/// `exchanged` is what the dispatch added to the trace. Without source
/// nothing is asked. With source the one request is the launch on the
/// buffer of `tensor` alone, sized by input 0, and `tensor` is returned
/// unless the device rejects the launch.
pub open spec fn inplace_outcome<E, const D: usize>(
    tensor: JitTensor<E, D>,
    scalars: Option<Seq<E>>,
    source: Generated,
    exchanged: Seq<Exchange<E>>,
    r: Result<JitTensor<E, D>, DispatchError>,
) -> bool {
    match source {
        Err(error) => exchanged.len() == 0 && r == Err::<JitTensor<E, D>, DispatchError>(
            DispatchError::KernelCompilation(error),
        ),
        Ok(text) => {
            &&& exchanged.len() == 1
            &&& exchanged[0] matches Exchange::Launch { submission, launched }
            &&& submission == spec_submission(
                text@,
                tensor.spec_as_handle(),
                None,
                scalars,
                WorkgroupLaunch::Input { pos: 0 },
            )
            &&& r == match launched {
                Ok(_) => Ok::<JitTensor<E, D>, DispatchError>(tensor),
                Err(error) => Err(DispatchError::Launch(error)),
            }
        },
    }
}

/// What a dispatch of the plain variant on `tensor` asks of the device and
/// returns. The first request is the allocation of as many bytes as
/// `tensor` has elements times the size of an element. Where it fails, or
/// where there is no source, nothing else is asked. Otherwise the second
/// request is the launch from the buffer of `tensor` into the new buffer,
/// laid out row-major in the shape of `tensor` and sized by output 0, and
/// the tensor in the new buffer is returned unless the device rejects the
/// launch.
pub open spec fn plain_outcome<E, const D: usize>(
    tensor: JitTensor<E, D>,
    scalars: Option<Seq<E>>,
    source: Generated,
    exchanged: Seq<Exchange<E>>,
    r: Result<JitTensor<E, D>, DispatchError>,
) -> bool {
    &&& exchanged.len() >= 1
    &&& exchanged[0] matches Exchange::Allocation { size_bytes, allocated }
    &&& size_bytes == tensor.spec_shape().spec_num_elements() * vstd::layout::size_of::<E>()
    &&& match allocated {
        Err(error) => exchanged.len() == 1 && r == Err::<JitTensor<E, D>, DispatchError>(
            DispatchError::OutOfMemory(error),
        ),
        Ok(buffer) => match source {
            Err(error) => exchanged.len() == 1 && r == Err::<JitTensor<E, D>, DispatchError>(
                DispatchError::KernelCompilation(error),
            ),
            Ok(text) => {
                &&& exchanged.len() == 2
                &&& exchanged[1] matches Exchange::Launch { submission, launched }
                &&& submission == spec_submission(
                    text@,
                    tensor.spec_as_handle(),
                    Some(tensor.spec_like(buffer)),
                    scalars,
                    WorkgroupLaunch::Output { pos: 0 },
                )
                &&& match launched {
                    Ok(_) => r matches Ok(output) && output.spec_shape() == tensor.spec_shape()
                        && output.spec_as_handle() == tensor.spec_like(buffer),
                    Err(error) => r == Err::<JitTensor<E, D>, DispatchError>(
                        DispatchError::Launch(error),
                    ),
                }
            },
        },
    }
}

/// The buffers of a submission are those of the bindings of the variant
/// that it runs, in their order: the buffer of the tensor for the one input
/// binding, and the new buffer for the one output binding unless the
/// settings declare that output to be input 0.
pub proof fn lemma_submission_matches_bindings<E: JitElement, const D: usize>(
    kernel: UnaryKernel<E>,
    text: Seq<char>,
    tensor: JitTensor<E, D>,
    buffer: BufferHandle,
    scalars: Option<Seq<E>>,
)
    requires
        kernel.wf(),
    ensures
        ({
            let info = kernel.spec_descriptor(KernelVariant::Inplace);
            let submission = spec_submission(
                text,
                tensor.spec_as_handle(),
                None,
                scalars,
                WorkgroupLaunch::Input { pos: 0 },
            );
            &&& info.settings.inplace == Some(InplaceMapping { pos_input: 0, pos_output: 0 })
            &&& submission.inputs.len() == info.inputs@.len()
            &&& submission.outputs.len() == info.outputs@.len() - 1
        }),
        ({
            let info = kernel.spec_descriptor(KernelVariant::Plain);
            let submission = spec_submission(
                text,
                tensor.spec_as_handle(),
                Some(tensor.spec_like(buffer)),
                scalars,
                WorkgroupLaunch::Output { pos: 0 },
            );
            &&& info.settings.inplace is None
            &&& submission.inputs.len() == info.inputs@.len()
            &&& submission.outputs.len() == info.outputs@.len()
        }),
{
    kernel.lemma_descriptor(KernelVariant::Inplace);
    kernel.lemma_descriptor(KernelVariant::Plain);
}

/// Decides how `tensor` is dispatched, given whether the caller allows
/// the in-place variant and whether the client lets the buffer be
/// overwritten.
pub fn plan<E, const D: usize>(
    tensor: &JitTensor<E, D>,
    inplace_enabled: bool,
    can_mutate: bool,
) -> (p: DispatchPlan)
    ensures
        p == spec_plan(*tensor, inplace_enabled, can_mutate),
        p.allocation matches Some(bytes) ==> bytes == tensor.spec_shape().spec_num_elements()
            * vstd::layout::size_of::<E>(),
{
    if inplace_enabled && can_mutate {
        DispatchPlan {
            variant: KernelVariant::Inplace,
            allocation: None,
            launch: WorkgroupLaunch::Input { pos: 0 },
        }
    } else {
        DispatchPlan {
            variant: KernelVariant::Plain,
            allocation: Some(tensor.size_bytes()),
            launch: WorkgroupLaunch::Output { pos: 0 },
        }
    }
}

/// The output of a plain dispatch on `tensor`, given what the device
/// answered to the allocation: a row-major tensor of the same shape in the
/// new buffer, or the error of the device.
pub fn output_for<E, const D: usize>(
    tensor: &JitTensor<E, D>,
    allocated: Result<BufferHandle, OutOfMemoryError>,
) -> (r: Result<JitTensor<E, D>, DispatchError>)
    ensures
        match allocated {
            Ok(buffer) => r matches Ok(output) && output.spec_shape() == tensor.spec_shape()
                && output.spec_as_handle() == tensor.spec_like(buffer),
            Err(error) => r == Err::<JitTensor<E, D>, DispatchError>(
                DispatchError::OutOfMemory(error),
            ),
        },
{
    match allocated {
        Ok(buffer) => Ok(tensor.like(buffer)),
        Err(error) => Err(DispatchError::OutOfMemory(error)),
    }
}

/// The run of the kernel with source `kernel` that reads `input` and
/// writes `output`, or writes `input` itself where there is no output.
pub fn submission<'a, E, const D: usize>(
    kernel: &'a str,
    input: &'a JitTensor<E, D>,
    output: Option<&'a JitTensor<E, D>>,
    scalars: Option<&'a [E]>,
    launch: WorkgroupLaunch,
) -> (s: Submission<'a, E>)
    ensures
        s@ == spec_submission(
            kernel@,
            input.spec_as_handle(),
            match output {
                Some(tensor) => Some(tensor.spec_as_handle()),
                None => None,
            },
            crate::client::scalars_view(scalars),
            launch,
        ),
{
    let mut inputs: Vec<EagerHandle<'a>> = Vec::new();
    inputs.push(input.as_handle());
    let mut outputs: Vec<EagerHandle<'a>> = Vec::new();
    match output {
        Some(tensor) => {
            outputs.push(tensor.as_handle());
        },
        None => {},
    }
    let s = Submission { kernel, inputs, outputs, scalars, launch };
    assert(s@.inputs =~= seq![input.spec_as_handle()]);
    assert(s@.outputs =~= match output {
        Some(tensor) => seq![tensor.spec_as_handle()],
        None => Seq::empty(),
    });
    s
}

/// What a dispatch returns once the launch has been answered: the tensor
/// that holds the result, or the error.
pub fn conclude<E, const D: usize>(
    launched: Result<(), DispatchError>,
    result: JitTensor<E, D>,
) -> (r: Result<JitTensor<E, D>, DispatchError>)
    ensures
        r == match launched {
            Ok(_) => Ok::<JitTensor<E, D>, DispatchError>(result),
            Err(error) => Err(error),
        },
{
    match launched {
        Ok(_) => Ok(result),
        Err(error) => Err(error),
    }
}

/// Submits one run of `variant` of `kernel` from `input` to `output`. The
/// source comes from the cache, which generates it on the first use of the
/// key. Where there is no source, nothing is asked of the device.
pub fn execute_static<C: Compiler, R: DeviceClient<E>, E: JitElement, const D: usize>(
    cache: &mut KernelSourceCache<C>,
    session: &mut Session<R, E>,
    kernel: &UnaryKernel<E>,
    variant: KernelVariant,
    input: &JitTensor<E, D>,
    output: Option<&JitTensor<E, D>>,
    scalars: Option<&[E]>,
    launch: WorkgroupLaunch,
) -> (r: Result<(), DispatchError>)
    ensures
        final(cache)@ == old(cache)@.resolve(
            kernel.spec_key(variant),
            old(cache).spec_compiler().source(&kernel.spec_descriptor(variant)),
        ).0,
        final(cache).spec_compiler() == old(cache).spec_compiler(),
        match old(cache)@.resolve(
            kernel.spec_key(variant),
            old(cache).spec_compiler().source(&kernel.spec_descriptor(variant)),
        ).1 {
            Err(error) => r == Err::<(), DispatchError>(DispatchError::KernelCompilation(error))
                && *final(session) == *old(session),
            Ok(text) => {
                &&& r is Ok || r is Err && r->Err_0 is Launch
                &&& final(session).trace() == old(session).trace().push(
                    Exchange::Launch {
                        submission: spec_submission(
                            text@,
                            input.spec_as_handle(),
                            match output {
                                Some(tensor) => Some(tensor.spec_as_handle()),
                                None => None,
                            },
                            crate::client::scalars_view(scalars),
                            launch,
                        ),
                        launched: match r {
                            Err(DispatchError::Launch(error)) => Err(error),
                            _ => Ok(()),
                        },
                    },
                )
            },
        },
{
    match cache.source_for(kernel, variant) {
        Ok(source) => {
            let request = submission(source.as_str(), input, output, scalars, launch);
            match session.launch(&request) {
                Ok(done) => {
                    assert(done == ());
                    Ok(())
                },
                Err(error) => Err(DispatchError::Launch(error)),
            }
        },
        Err(error) => Err(DispatchError::KernelCompilation(error)),
    }
}

/// Runs `kernel` on every element of `tensor`.
///
/// Where `inplace_enabled` holds and the client reports that the buffer of
/// `tensor` may be overwritten, the in-place variant runs on that buffer
/// and `tensor` itself is returned. Otherwise a buffer is allocated, the
/// plain variant runs from the buffer of `tensor` into it, and a row-major
/// tensor of the same shape in the new buffer is returned; the buffer of
/// `tensor` is bound as input only.
///
/// The contract gives the requests that the dispatch adds to the trace of
/// the session, and the result for each answer of the device. The source
/// is resolved after the allocation, so a failed allocation leaves the
/// cache as it was; in every other case the cache has served one request
/// for the key of the variant. The new buffer differs from the buffer of
/// `tensor` where the client holds the latter.
pub fn unary<C: Compiler, R: DeviceClient<E>, E: JitElement, const D: usize>(
    cache: &mut KernelSourceCache<C>,
    session: &mut Session<R, E>,
    kernel: &UnaryKernel<E>,
    tensor: JitTensor<E, D>,
    scalars: Option<&[E]>,
    inplace_enabled: bool,
) -> (r: Result<JitTensor<E, D>, DispatchError>)
    ensures
        final(cache).spec_compiler() == old(cache).spec_compiler(),
        ({
            let variant = spec_select_variant(
                inplace_enabled,
                old(session).spec_client().exclusive(tensor.spec_handle()),
            );
            let resolved = old(cache)@.resolve(
                kernel.spec_key(variant),
                old(cache).spec_compiler().source(&kernel.spec_descriptor(variant)),
            );
            let asked = old(session).trace().len() as int;
            let exchanged = final(session).trace().skip(asked);
            &&& final(session).trace().len() >= asked
            &&& final(session).trace().take(asked) == old(session).trace()
            &&& match variant {
                KernelVariant::Inplace => inplace_outcome(
                    tensor,
                    crate::client::scalars_view(scalars),
                    resolved.1,
                    exchanged,
                    r,
                ),
                KernelVariant::Plain => plain_outcome(
                    tensor,
                    crate::client::scalars_view(scalars),
                    resolved.1,
                    exchanged,
                    r,
                ),
            }
            &&& exchanged.len() == 0 ==> final(session).spec_client() == old(session).spec_client()
            &&& final(cache)@ == if r is Err && r->Err_0 is OutOfMemory {
                old(cache)@
            } else {
                resolved.0
            }
            &&& match r {
                Ok(output) => {
                    &&& output.spec_shape() == tensor.spec_shape()
                    &&& variant is Inplace ==> output.spec_handle() == tensor.spec_handle()
                    &&& variant is Plain && old(session).spec_client().holds(tensor.spec_handle())
                        ==> output.spec_handle() != tensor.spec_handle()
                },
                Err(_) => true,
            }
        }),
{
    let handle = tensor.handle();
    let can_mutate = inplace_enabled && session.can_mutate(&handle);
    let plan = plan(&tensor, inplace_enabled, can_mutate);
    let ghost before = session.trace();
    let ghost asked = before.len() as int;
    match plan.allocation {
        None => {
            let launched = execute_static(
                cache,
                session,
                kernel,
                plan.variant,
                &tensor,
                None,
                scalars,
                plan.launch,
            );
            proof {
                let after = session.trace();
                assert(after.take(asked) =~= before);
                if after.len() > asked {
                    assert(after.skip(asked) =~= seq![after.last()]);
                } else {
                    assert(after.skip(asked) =~= Seq::<Exchange<E>>::empty());
                }
            }
            conclude(launched, tensor)
        },
        Some(bytes) => {
            let allocated = session.allocate(bytes);
            let ghost between = session.trace();
            let output = match output_for(&tensor, allocated) {
                Ok(output) => output,
                Err(error) => {
                    proof {
                        assert(between.take(asked) =~= before);
                        assert(between.skip(asked) =~= seq![between.last()]);
                    }
                    return Err(error);
                },
            };
            let launched = execute_static(
                cache,
                session,
                kernel,
                plan.variant,
                &tensor,
                Some(&output),
                scalars,
                plan.launch,
            );
            proof {
                let after = session.trace();
                assert(after.take(asked) =~= before);
                if after.len() > between.len() {
                    assert(after.skip(asked) =~= seq![between.last(), after.last()]);
                } else {
                    assert(after.skip(asked) =~= seq![between.last()]);
                }
            }
            conclude(launched, output)
        },
    }
}

} // verus!
