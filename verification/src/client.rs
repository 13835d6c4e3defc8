//! The boundary to the device: buffers, submissions, the client that
//! carries them out, and the session that records what was asked of it.
use vstd::prelude::*;

verus! {

/// Identity of a buffer on the device.
#[derive(Clone, Copy, Debug, PartialEq, Eq, Structural)]
pub struct BufferHandle {
    pub id: u64,
}

/// One tensor as a launch sees it: the buffer, and how the elements lie in
/// it. Borrowed from the tensor for the time of the call.
#[derive(Clone, Copy, Debug)]
pub struct EagerHandle<'a> {
    pub handle: &'a BufferHandle,
    pub strides: &'a [usize],
    pub shape: &'a [usize],
}

/// What an `EagerHandle` holds.
pub struct HandleModel {
    pub handle: BufferHandle,
    pub strides: Seq<usize>,
    pub shape: Seq<usize>,
}

impl<'a> EagerHandle<'a> {
    pub open spec fn view(&self) -> HandleModel {
        HandleModel { handle: *self.handle, strides: self.strides@, shape: self.shape@ }
    }

    pub fn new(handle: &'a BufferHandle, strides: &'a [usize], shape: &'a [usize]) -> (h: Self)
        ensures
            h@ == (HandleModel { handle: *handle, strides: strides@, shape: shape@ }),
    {
        EagerHandle { handle, strides, shape }
    }
}

/// The tensor whose element count sizes the launch grid.
#[derive(Clone, Copy, Debug, PartialEq, Eq, Structural)]
pub enum WorkgroupLaunch {
    Input { pos: usize },
    Output { pos: usize },
}

/// One run of a kernel as the device is asked for it: the source of the
/// kernel, the buffers it reads and writes in the order of its bindings,
/// the launch constants, and the tensor that sizes the grid.
#[derive(Debug)]
pub struct Submission<'a, E> {
    pub kernel: &'a str,
    pub inputs: Vec<EagerHandle<'a>>,
    pub outputs: Vec<EagerHandle<'a>>,
    pub scalars: Option<&'a [E]>,
    pub launch: WorkgroupLaunch,
}

/// What a `Submission` holds.
pub struct SubmissionModel<E> {
    pub kernel: Seq<char>,
    pub inputs: Seq<HandleModel>,
    pub outputs: Seq<HandleModel>,
    pub scalars: Option<Seq<E>>,
    pub launch: WorkgroupLaunch,
}

/// The launch constants as a sequence.
pub open spec fn scalars_view<E>(scalars: Option<&[E]>) -> Option<Seq<E>> {
    match scalars {
        Some(values) => Some(values@),
        None => None,
    }
}

impl<'a, E> Submission<'a, E> {
    pub open spec fn view(&self) -> SubmissionModel<E> {
        SubmissionModel {
            kernel: self.kernel@,
            inputs: self.inputs@.map_values(|h: EagerHandle<'a>| h@),
            outputs: self.outputs@.map_values(|h: EagerHandle<'a>| h@),
            scalars: scalars_view(self.scalars),
            launch: self.launch,
        }
    }
}

/// The device could not provide a buffer of the requested size.
#[derive(Clone, Copy, Debug, PartialEq, Eq, Structural)]
pub struct OutOfMemoryError {
    pub requested: usize,
}

/// The device rejected a launch.
#[derive(Clone, Debug, PartialEq, Eq)]
pub struct LaunchError {
    pub message: String,
}

/// The client of a device, for elements of type `E`.
///
/// The two spec functions name what the client knows of a buffer. The
/// contracts say no more of an implementation than that `can_mutate`
/// answers by `exclusive`, and that `allocate` hands out a buffer which
/// the device did not hold before.
pub trait DeviceClient<E> {
    /// Whether the device holds `buffer`.
    spec fn holds(&self, buffer: BufferHandle) -> bool;

    /// Whether nothing but its one owner can observe a write to `buffer`.
    spec fn exclusive(&self, buffer: BufferHandle) -> bool;

    /// Whether `buffer` may be overwritten in place.
    fn can_mutate(&self, buffer: &BufferHandle) -> (b: bool)
        ensures
            b == self.exclusive(*buffer),
    ;

    /// A fresh buffer of `size_bytes` bytes.
    fn allocate(&mut self, size_bytes: usize) -> (r: Result<BufferHandle, OutOfMemoryError>)
        ensures
            r matches Ok(buffer) ==> !old(self).holds(buffer),
    ;

    /// Enqueues one run of a kernel and returns without waiting for it.
    fn launch(&mut self, submission: &Submission<'_, E>) -> (r: Result<(), LaunchError>)
    ;
}

/// One request that changed the device, with the answer to it.
pub enum Exchange<E> {
    Allocation { size_bytes: usize, allocated: Result<BufferHandle, OutOfMemoryError> },
    Launch { submission: SubmissionModel<E>, launched: Result<(), LaunchError> },
}

/// A client together with the record of what was asked of it.
///
/// Every allocation and every launch goes through the session, which
/// appends the request and the answer to its trace. The trace is ghost:
/// contracts speak of it, and nothing of it remains in the compiled code.
pub struct Session<R: DeviceClient<E>, E> {
    client: R,
    trace: Ghost<Seq<Exchange<E>>>,
}

impl<R: DeviceClient<E>, E> Session<R, E> {
    /// The client.
    pub closed spec fn spec_client(&self) -> R {
        self.client
    }

    /// The allocations and launches so far, oldest first.
    pub closed spec fn trace(&self) -> Seq<Exchange<E>> {
        self.trace@
    }

    /// A session with `client`, of which nothing was asked yet.
    pub fn new(client: R) -> (session: Self)
        ensures
            session.spec_client() == client,
            session.trace() == Seq::<Exchange<E>>::empty(),
    {
        Session { client, trace: Ghost(Seq::empty()) }
    }

    /// The client.
    pub fn client(&self) -> (client: &R)
        ensures
            *client == self.spec_client(),
    {
        &self.client
    }

    /// Ends the session.
    pub fn into_client(self) -> (client: R)
        ensures
            client == self.spec_client(),
    {
        self.client
    }

    /// Whether `buffer` may be overwritten in place.
    pub fn can_mutate(&self, buffer: &BufferHandle) -> (b: bool)
        ensures
            b == self.spec_client().exclusive(*buffer),
    {
        self.client.can_mutate(buffer)
    }

    /// Asks the client for a buffer of `size_bytes` bytes.
    pub fn allocate(&mut self, size_bytes: usize) -> (r: Result<BufferHandle, OutOfMemoryError>)
        ensures
            final(self).trace() == old(self).trace().push(
                Exchange::Allocation { size_bytes, allocated: r },
            ),
            r matches Ok(buffer) ==> !old(self).spec_client().holds(buffer),
    {
        let r = self.client.allocate(size_bytes);
        proof {
            self.trace@ = self.trace@.push(Exchange::Allocation { size_bytes, allocated: r });
        }
        r
    }

    /// Hands `submission` to the client.
    pub fn launch(&mut self, submission: &Submission<'_, E>) -> (r: Result<(), LaunchError>)
        ensures
            final(self).trace() == old(self).trace().push(
                Exchange::Launch { submission: submission@, launched: r },
            ),
    {
        let r = self.client.launch(submission);
        proof {
            self.trace@ = self.trace@.push(Exchange::Launch { submission: submission@, launched: r });
        }
        r
    }
}

} // verus!
