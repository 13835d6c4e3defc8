//! Compilation descriptors, and the two variants of a unary kernel.
//!
//! A unary kernel reads one array, runs the instruction graph of its
//! operation on each element and writes one array. It is compiled in two
//! variants that differ in their settings alone: the plain one writes to a
//! buffer of its own, the in-place one writes to the buffer it reads.
use vstd::prelude::*;
use core::marker::PhantomData;
use crate::elem::{Elem, JitElement};
use crate::graph::{GraphIncompleteError, Node, ScalarSlot, Scope};

verus! {

/// How a kernel accesses a bound buffer.
#[derive(Clone, Copy, Debug, PartialEq, Eq, Structural)]
pub enum Visibility {
    Read,
    ReadWrite,
}

/// Layout of one element of a bound buffer.
#[derive(Clone, Copy, Debug, PartialEq, Eq, Structural)]
pub enum Item {
    Scalar(Elem),
}

/// Binding of an input array. Its place in the list of inputs is the
/// place of its buffer in a launch.
#[derive(Clone, Copy, Debug, PartialEq, Eq, Structural)]
pub struct InputInfo {
    pub item: Item,
    pub visibility: Visibility,
}

/// Binding of an output array, written from the slot `local`. Its place in
/// the list of outputs is the place of its buffer in a launch.
#[derive(Clone, Copy, Debug, PartialEq, Eq, Structural)]
pub struct OutputInfo {
    pub item: Item,
    pub local: ScalarSlot,
}

/// Binding of the block of `size` launch constants of type `elem`.
#[derive(Clone, Copy, Debug, PartialEq, Eq, Structural)]
pub struct ScalarInfo {
    pub elem: Elem,
    pub size: usize,
}

/// Declares that the output at `pos_output` and the input at `pos_input`
/// are one buffer.
#[derive(Clone, Copy, Debug, PartialEq, Eq, Structural)]
pub struct InplaceMapping {
    pub pos_input: usize,
    pub pos_output: usize,
}

/// Settings of one compilation.
#[derive(Clone, Copy, Debug, PartialEq, Eq)]
pub struct CompilationSettings {
    pub inplace: Option<InplaceMapping>,
}

/// The two ways a unary kernel is compiled.
#[derive(Clone, Copy, Debug, PartialEq, Eq, Structural)]
pub enum KernelVariant {
    Plain,
    Inplace,
}

impl KernelVariant {
    /// Number that stands for the variant inside a cache key.
    pub open spec fn spec_code(self) -> u64 {
        match self {
            KernelVariant::Plain => 0,
            KernelVariant::Inplace => 1,
        }
    }

    #[verifier::when_used_as_spec(spec_code)]
    pub fn code(self) -> (c: u64)
        ensures
            c == self.spec_code(),
    {
        match self {
            KernelVariant::Plain => 0,
            KernelVariant::Inplace => 1,
        }
    }

    /// The settings of the variant: none for the plain one, input 0 as
    /// output 0 for the in-place one.
    pub open spec fn spec_settings(self) -> CompilationSettings {
        match self {
            KernelVariant::Plain => CompilationSettings { inplace: None },
            KernelVariant::Inplace => CompilationSettings {
                inplace: Some(InplaceMapping { pos_input: 0, pos_output: 0 }),
            },
        }
    }

    #[verifier::when_used_as_spec(spec_settings)]
    pub fn settings(self) -> (s: CompilationSettings)
        ensures
            s == self.spec_settings(),
    {
        match self {
            KernelVariant::Plain => CompilationSettings { inplace: None },
            KernelVariant::Inplace => CompilationSettings {
                inplace: Some(InplaceMapping { pos_input: 0, pos_output: 0 }),
            },
        }
    }
}

/// What generated source is cached under: the kernel definition that it
/// was generated from, the element type and the variant.
#[derive(Clone, Copy, Debug, PartialEq, Eq, Structural)]
pub struct KernelKey {
    pub generator: u32,
    pub elem: Elem,
    pub variant: KernelVariant,
}

impl KernelKey {
    /// The key as one number. Distinct keys have distinct numbers.
    pub open spec fn spec_code(self) -> u64 {
        (self.generator * 8 + self.elem.spec_code() * 2 + self.variant.spec_code()) as u64
    }

    #[verifier::when_used_as_spec(spec_code)]
    pub fn code(self) -> (c: u64)
        ensures
            c == self.spec_code(),
    {
        let generator: u64 = self.generator as u64;
        generator * 8 + self.elem.code() * 2 + self.variant.code()
    }

    /// Keys with the same number are the same key.
    pub proof fn lemma_code_names_key(a: KernelKey, b: KernelKey)
        requires
            a.spec_code() == b.spec_code(),
        ensures
            a == b,
    {
    }
}

/// Everything that determines one compiled kernel: the bindings in launch
/// order, the instruction graph and the settings.
#[derive(Debug)]
pub struct CompilationInfo<'a> {
    pub inputs: &'a Vec<InputInfo>,
    pub outputs: &'a Vec<OutputInfo>,
    pub scalars: Option<ScalarInfo>,
    pub scope: &'a Scope,
    pub settings: CompilationSettings,
}

/// A unary kernel for elements of type `E`: the single place from which
/// the descriptors of both variants are derived.
pub struct UnaryKernel<E: JitElement> {
    generator: u32,
    inputs: Vec<InputInfo>,
    outputs: Vec<OutputInfo>,
    scalars: Option<ScalarInfo>,
    scope: Scope,
    elem: PhantomData<E>,
}

impl<E: JitElement> UnaryKernel<E> {
    /// What every kernel satisfies: one read-only input array, one output
    /// array written from the result of the graph, and the launch
    /// constants bound where there are any.
    #[verifier::type_invariant]
    pub closed spec fn wf(&self) -> bool {
        &&& self.scope.wf()
        &&& self.inputs@ == seq![
            InputInfo { item: Item::Scalar(E::spec_gpu_elem()), visibility: Visibility::Read },
        ]
        &&& self.outputs@.len() == 1
        &&& self.outputs@[0].item == Item::Scalar(E::spec_gpu_elem())
        &&& crate::graph::terminal(self.scope@) == Some(self.outputs@[0].local.index() as int)
        &&& match self.scalars {
            Some(info) => info.elem == E::spec_gpu_elem() && info.size > 0,
            None => true,
        }
    }

    /// Number of the kernel definition, the first part of its cache keys.
    pub closed spec fn spec_generator(&self) -> u32 {
        self.generator
    }

    /// The instruction graph of the operation.
    pub closed spec fn spec_scope(&self) -> Scope {
        self.scope
    }

    /// The slot that holds the result of the operation.
    pub closed spec fn spec_terminal(&self) -> ScalarSlot {
        self.outputs@[0].local
    }

    /// Number of launch constants that the operation takes.
    pub closed spec fn spec_arity(&self) -> usize {
        match self.scalars {
            Some(info) => info.size,
            None => 0,
        }
    }

    /// The cache key of a variant.
    pub open spec fn spec_key(&self, variant: KernelVariant) -> KernelKey {
        KernelKey { generator: self.spec_generator(), elem: E::spec_gpu_elem(), variant }
    }

    /// The descriptor of a variant.
    pub closed spec fn spec_descriptor(&self, variant: KernelVariant) -> CompilationInfo<'_> {
        CompilationInfo {
            inputs: &self.inputs,
            outputs: &self.outputs,
            scalars: self.scalars,
            scope: &self.scope,
            settings: variant.spec_settings(),
        }
    }

    /// What the descriptor of a variant holds: one input array of the
    /// element type, read only; one output array of the element type,
    /// written from the result of the graph; the launch constants, where
    /// the operation takes any; the graph; and the settings of the variant.
    pub proof fn lemma_descriptor(&self, variant: KernelVariant)
        requires
            self.wf(),
        ensures
            self.spec_descriptor(variant).inputs@ == seq![
                InputInfo { item: Item::Scalar(E::spec_gpu_elem()), visibility: Visibility::Read },
            ],
            self.spec_descriptor(variant).outputs@ == seq![
                OutputInfo { item: Item::Scalar(E::spec_gpu_elem()), local: self.spec_terminal() },
            ],
            self.spec_descriptor(variant).scalars == if self.spec_arity() == 0 {
                None
            } else {
                Some(ScalarInfo { elem: E::spec_gpu_elem(), size: self.spec_arity() })
            },
            *self.spec_descriptor(variant).scope == self.spec_scope(),
            self.spec_descriptor(variant).settings == variant.spec_settings(),
            crate::graph::terminal(self.spec_scope()@) == Some(self.spec_terminal().index() as int),
            self.spec_scope().wf(),
    {
        assert(self.outputs@ =~= seq![
            OutputInfo { item: Item::Scalar(E::spec_gpu_elem()), local: self.spec_terminal() },
        ]);
    }

    /// The two variants are compiled from the same bindings and the same
    /// graph: their descriptors differ in the settings alone.
    pub proof fn lemma_variants_share_computation(&self)
        ensures
            self.spec_descriptor(KernelVariant::Plain).inputs == self.spec_descriptor(
                KernelVariant::Inplace,
            ).inputs,
            self.spec_descriptor(KernelVariant::Plain).outputs == self.spec_descriptor(
                KernelVariant::Inplace,
            ).outputs,
            self.spec_descriptor(KernelVariant::Plain).scalars == self.spec_descriptor(
                KernelVariant::Inplace,
            ).scalars,
            self.spec_descriptor(KernelVariant::Plain).scope == self.spec_descriptor(
                KernelVariant::Inplace,
            ).scope,
            self.spec_descriptor(KernelVariant::Plain).settings.inplace is None,
            self.spec_descriptor(KernelVariant::Inplace).settings.inplace == Some(
                InplaceMapping { pos_input: 0, pos_output: 0 },
            ),
    {
    }

    /// The kernel whose operation is the graph `scope` with the result in
    /// `terminal`, and which takes `scalars` launch constants. Fails unless
    /// `terminal` is the slot of the last instruction of the graph.
    pub fn from_graph(
        generator: u32,
        scope: Scope,
        terminal: ScalarSlot,
        scalars: usize,
    ) -> (r: Result<Self, GraphIncompleteError>)
        ensures
            match r {
                Ok(kernel) => {
                    &&& crate::graph::terminal(scope@) == Some(terminal.index() as int)
                    &&& kernel.spec_generator() == generator
                    &&& kernel.spec_scope() == scope
                    &&& kernel.spec_terminal() == terminal
                    &&& kernel.spec_arity() == scalars
                    &&& kernel.wf()
                },
                Err(_) => crate::graph::terminal(scope@) != Some(terminal.index() as int),
            },
    {
        proof {
            use_type_invariant(&scope);
        }
        match scope.last_local() {
            Ok(last) => {
                if last.index() != terminal.index() {
                    return Err(GraphIncompleteError {  });
                }
            },
            Err(e) => {
                return Err(e);
            },
        }
        let elem = E::gpu_elem();
        let item = Item::Scalar(elem);
        let mut inputs: Vec<InputInfo> = Vec::new();
        inputs.push(InputInfo { item, visibility: Visibility::Read });
        let mut outputs: Vec<OutputInfo> = Vec::new();
        outputs.push(OutputInfo { item, local: terminal });
        let bound = if scalars > 0 {
            Some(ScalarInfo { elem, size: scalars })
        } else {
            None
        };
        assert(inputs@ =~= seq![InputInfo { item, visibility: Visibility::Read }]);
        Ok(UnaryKernel { generator, inputs, outputs, scalars: bound, scope, elem: PhantomData })
    }

    /// The kernel of `operation`, which takes the empty graph and the
    /// element type, registers its instructions and returns the graph with
    /// the slot of its result. Fails unless that slot is the slot of the
    /// last instruction of the graph.
    pub fn define<F: Fn(Scope, Elem) -> (Scope, ScalarSlot)>(
        generator: u32,
        operation: F,
        scalars: usize,
    ) -> (r: Result<Self, GraphIncompleteError>)
        requires
            forall|root: Scope|
                root@ == Seq::<Node>::empty() ==> #[trigger] operation.requires(
                    (root, E::spec_gpu_elem()),
                ),
        ensures
            match r {
                Ok(kernel) => {
                    &&& exists|root: Scope|
                        root@ == Seq::<Node>::empty() && #[trigger] operation.ensures(
                            (root, E::spec_gpu_elem()),
                            (kernel.spec_scope(), kernel.spec_terminal()),
                        )
                    &&& crate::graph::terminal(kernel.spec_scope()@) == Some(
                        kernel.spec_terminal().index() as int,
                    )
                    &&& kernel.spec_generator() == generator
                    &&& kernel.spec_arity() == scalars
                    &&& kernel.wf()
                },
                Err(_) => exists|root: Scope, built: (Scope, ScalarSlot)|
                    root@ == Seq::<Node>::empty() && #[trigger] operation.ensures(
                        (root, E::spec_gpu_elem()),
                        built,
                    ) && crate::graph::terminal(built.0@) != Some(built.1.index() as int),
            },
    {
        let root = Scope::root();
        let (scope, terminal) = operation(root, E::gpu_elem());
        Self::from_graph(generator, scope, terminal, scalars)
    }

    /// Number of the kernel definition.
    #[verifier::when_used_as_spec(spec_generator)]
    pub fn generator(&self) -> (g: u32)
        ensures
            g == self.spec_generator(),
    {
        self.generator
    }

    /// The cache key of a variant.
    #[verifier::when_used_as_spec(spec_key)]
    pub fn key(&self, variant: KernelVariant) -> (key: KernelKey)
        ensures
            key == self.spec_key(variant),
    {
        KernelKey { generator: self.generator, elem: E::gpu_elem(), variant }
    }

    /// The descriptor of a variant.
    pub fn descriptor(&self, variant: KernelVariant) -> (info: CompilationInfo<'_>)
        ensures
            info == self.spec_descriptor(variant),
    {
        CompilationInfo {
            inputs: &self.inputs,
            outputs: &self.outputs,
            scalars: self.scalars,
            scope: &self.scope,
            settings: variant.settings(),
        }
    }

    /// The descriptors of the two variants, the plain one first.
    pub fn variants(&self) -> (pair: (CompilationInfo<'_>, CompilationInfo<'_>))
        ensures
            pair.0 == self.spec_descriptor(KernelVariant::Plain),
            pair.1 == self.spec_descriptor(KernelVariant::Inplace),
    {
        (self.descriptor(KernelVariant::Plain), self.descriptor(KernelVariant::Inplace))
    }
}

} // verus!
