//! The instruction graph of an elementwise operation.
//!
//! A graph is a list of producers. Each producer yields one scalar slot,
//! and the slot is named by the producer's place in the list. A producer
//! either reads the element of an input, reads a launch constant, or
//! applies an instruction to slots produced before it.
use vstd::prelude::*;
use crate::elem::Elem;

verus! {

/// Names the value that one producer of a graph yields.
#[derive(Clone, Copy, Debug, PartialEq, Eq, Structural)]
pub struct ScalarSlot {
    index: usize,
}

impl ScalarSlot {
    /// Place of the producer in its graph.
    pub closed spec fn spec_index(self) -> usize {
        self.index
    }

    #[verifier::when_used_as_spec(spec_index)]
    pub fn index(self) -> (i: usize)
        ensures
            i == self.spec_index(),
    {
        self.index
    }

    /// Two slots with the same place are the same slot.
    pub proof fn lemma_index_names_slot(a: ScalarSlot, b: ScalarSlot)
        requires
            a.index() == b.index(),
        ensures
            a == b,
    {
    }
}

/// One elementwise operation: `opcode` applied to the values in `operands`,
/// yielding a value of type `elem`. The opcode is not interpreted here.
#[derive(Clone, Debug, PartialEq, Eq)]
pub struct Instruction {
    pub opcode: u32,
    pub operands: Vec<ScalarSlot>,
    pub elem: Elem,
}

/// What yields a slot.
#[derive(Clone, Debug, PartialEq, Eq)]
pub enum Node {
    /// The element of the input at `position`.
    Input { position: usize, elem: Elem },
    /// The launch constant at `position`.
    Scalar { position: usize, elem: Elem },
    /// The result of a registered instruction.
    Operation { instruction: Instruction },
}

/// A graph has no result: it holds no instruction, or the slot named as
/// its result is not the slot of its last instruction.
#[derive(Clone, Copy, Debug, PartialEq, Eq, Structural)]
pub struct GraphIncompleteError {}

/// Every instruction consumes only slots produced before it.
pub open spec fn acyclic(nodes: Seq<Node>) -> bool {
    forall|i: int, j: int|
        0 <= i < nodes.len() && nodes[i] is Operation && 0 <= j
            < nodes[i]->instruction.operands@.len()
            ==> (#[trigger] nodes[i]->instruction.operands@[j]).index() < i
}

/// No input and no launch constant is read by two producers.
pub open spec fn reads_once(nodes: Seq<Node>) -> bool {
    forall|i: int, j: int|
        0 <= i < j < nodes.len() && !(nodes[i] is Operation) ==> #[trigger] nodes[i]
            != #[trigger] nodes[j]
}

/// Place of the instruction registered last, if there is one.
pub open spec fn terminal(nodes: Seq<Node>) -> Option<int>
    decreases nodes.len(),
{
    if nodes.len() == 0 {
        None
    } else if nodes.last() is Operation {
        Some(nodes.len() - 1)
    } else {
        terminal(nodes.drop_last())
    }
}

/// `terminal` finds an instruction that no instruction follows, and finds
/// none only where there is none.
pub proof fn lemma_terminal_is_last_instruction(nodes: Seq<Node>)
    ensures
        match terminal(nodes) {
            Some(k) => 0 <= k < nodes.len() && nodes[k] is Operation && forall|j: int|
                k < j < nodes.len() ==> !(#[trigger] nodes[j] is Operation),
            None => forall|j: int| 0 <= j < nodes.len() ==> !(#[trigger] nodes[j] is Operation),
        },
    decreases nodes.len(),
{
    if nodes.len() > 0 && !(nodes.last() is Operation) {
        let front = nodes.drop_last();
        lemma_terminal_is_last_instruction(front);
        assert forall|j: int| 0 <= j < nodes.len() && #[trigger] nodes[j] is Operation implies j
            < front.len() && front[j] is Operation by {
            if j < front.len() {
                assert(front[j] == nodes[j]);
            }
        }
    }
}

/// A graph stays acyclic and keeps reading nothing twice when a producer
/// is appended that consumes only slots of the graph and that, if it is a
/// read, the graph does not hold yet.
pub proof fn lemma_push_keeps_invariants(nodes: Seq<Node>, node: Node)
    requires
        acyclic(nodes),
        reads_once(nodes),
        !(node is Operation) ==> !nodes.contains(node),
        node is Operation ==> forall|j: int|
            0 <= j < node->instruction.operands@.len()
                ==> (#[trigger] node->instruction.operands@[j]).index() < nodes.len(),
    ensures
        acyclic(nodes.push(node)),
        reads_once(nodes.push(node)),
{
    let after = nodes.push(node);
    assert forall|a: int, b: int|
        0 <= a < b < after.len() && !(after[a] is Operation) implies #[trigger] after[a]
        != #[trigger] after[b] by {
        if b < nodes.len() {
            assert(nodes[a] != nodes[b]);
        } else if !(node is Operation) {
            assert(nodes.contains(nodes[a]));
        }
    }
    assert forall|a: int, b: int|
        0 <= a < after.len() && after[a] is Operation && 0 <= b
            < after[a]->instruction.operands@.len()
        implies (#[trigger] after[a]->instruction.operands@[b]).index() < a by {
        if a < nodes.len() {
            assert(after[a] == nodes[a]);
        }
    }
}

/// The instruction graph under construction.
#[derive(Debug)]
pub struct Scope {
    nodes: Vec<Node>,
}

impl Scope {
    /// What every graph satisfies: it is acyclic and reads nothing twice.
    #[verifier::type_invariant]
    pub closed spec fn wf(&self) -> bool {
        acyclic(self.nodes@) && reads_once(self.nodes@)
    }

    /// The producers, in the order of the slots they yield.
    pub closed spec fn view(&self) -> Seq<Node> {
        self.nodes@
    }

    /// A well-formed graph is acyclic and reads nothing twice.
    pub proof fn lemma_well_formed(&self)
        requires
            self.wf(),
        ensures
            acyclic(self@),
            reads_once(self@),
    {
    }

    /// The empty graph.
    pub fn root() -> (scope: Scope)
        ensures
            scope@ == Seq::<Node>::empty(),
            scope.wf(),
    {
        Scope { nodes: Vec::new() }
    }

    /// Number of slots produced so far.
    pub fn len(&self) -> (n: usize)
        ensures
            n == self@.len(),
    {
        self.nodes.len()
    }

    /// Whether `slot` names a producer of this graph.
    pub fn is_produced(&self, slot: ScalarSlot) -> (b: bool)
        ensures
            b == (slot.index() < self@.len()),
    {
        slot.index < self.nodes.len()
    }

    /// The producers, in the order of the slots they yield.
    pub fn nodes(&self) -> (nodes: &[Node])
        ensures
            nodes@ == self@,
    {
        self.nodes.as_slice()
    }

    /// Place of the producer equal to `node`, among the first `self.len()`.
    fn find(&self, node: &Node) -> (found: Option<usize>)
        requires
            !(*node is Operation),
        ensures
            match found {
                Some(i) => i < self@.len() && self@[i as int] == *node,
                None => !self@.contains(*node),
            },
    {
        let mut i: usize = 0;
        while i < self.nodes.len()
            invariant
                i <= self.nodes@.len(),
                !(*node is Operation),
                forall|k: int| 0 <= k < i ==> self.nodes@[k] != *node,
            decreases self.nodes@.len() - i,
        {
            let same = match (&self.nodes[i], node) {
                (Node::Input { position: p, elem: e }, Node::Input { position: q, elem: f }) => *p == *q
                    && *e == *f,
                (Node::Scalar { position: p, elem: e }, Node::Scalar { position: q, elem: f }) => *p
                    == *q && *e == *f,
                _ => false,
            };
            if same {
                return Some(i);
            }
            i = i + 1;
        }
        None
    }

    /// The slot of the producer `node`, which is added if the graph lacks it.
    fn read(&mut self, node: Node) -> (slot: ScalarSlot)
        requires
            !(node is Operation),
        ensures
            final(self)@ == if old(self)@.contains(node) {
                old(self)@
            } else {
                old(self)@.push(node)
            },
            slot.index() < final(self)@.len(),
            final(self)@[slot.index() as int] == node,
            final(self).wf(),
    {
        proof {
            use_type_invariant(&*self);
        }
        match self.find(&node) {
            Some(i) => ScalarSlot { index: i },
            None => {
                let i: usize = self.nodes.len();
                proof {
                    lemma_push_keeps_invariants(self.nodes@, node);
                }
                let mut nodes: Vec<Node> = Vec::new();
                core::mem::swap(&mut nodes, &mut self.nodes);
                nodes.push(node);
                self.nodes = nodes;
                ScalarSlot { index: i }
            },
        }
    }

    /// The slot that holds the element of the input at `position`. The
    /// first reference to an input adds its producer; later ones find it.
    pub fn read_input(&mut self, position: usize, elem: Elem) -> (slot: ScalarSlot)
        ensures
            final(self)@ == if old(self)@.contains(Node::Input { position, elem }) {
                old(self)@
            } else {
                old(self)@.push(Node::Input { position, elem })
            },
            slot.index() < final(self)@.len(),
            final(self)@[slot.index() as int] == (Node::Input { position, elem }),
            final(self).wf(),
    {
        self.read(Node::Input { position, elem })
    }

    /// The slot that holds the launch constant at `position`. The first
    /// reference to a constant adds its producer; later ones find it.
    pub fn read_scalar(&mut self, position: usize, elem: Elem) -> (slot: ScalarSlot)
        ensures
            final(self)@ == if old(self)@.contains(Node::Scalar { position, elem }) {
                old(self)@
            } else {
                old(self)@.push(Node::Scalar { position, elem })
            },
            slot.index() < final(self)@.len(),
            final(self)@[slot.index() as int] == (Node::Scalar { position, elem }),
            final(self).wf(),
    {
        self.read(Node::Scalar { position, elem })
    }

    /// Appends `instruction` and returns the slot of its result. The
    /// operands must be slots of this graph.
    pub fn register(&mut self, instruction: Instruction) -> (slot: ScalarSlot)
        requires
            forall|j: int|
                0 <= j < instruction.operands@.len()
                    ==> (#[trigger] instruction.operands@[j]).index() < old(self)@.len(),
        ensures
            final(self)@ == old(self)@.push(Node::Operation { instruction }),
            slot.index() == old(self)@.len(),
            final(self).wf(),
    {
        proof {
            use_type_invariant(&*self);
        }
        let i: usize = self.nodes.len();
        proof {
            lemma_push_keeps_invariants(self.nodes@, Node::Operation { instruction });
        }
        let mut nodes: Vec<Node> = Vec::new();
        core::mem::swap(&mut nodes, &mut self.nodes);
        nodes.push(Node::Operation { instruction });
        self.nodes = nodes;
        ScalarSlot { index: i }
    }

    /// The slot of the instruction registered last: the result of the
    /// graph. Fails where no instruction was registered.
    pub fn last_local(&self) -> (r: Result<ScalarSlot, GraphIncompleteError>)
        ensures
            match r {
                Ok(slot) => terminal(self@) == Some(slot.index() as int),
                Err(_) => terminal(self@) is None,
            },
    {
        let mut i: usize = self.nodes.len();
        assert(self.nodes@.take(i as int) == self.nodes@);
        while i > 0
            invariant
                i <= self.nodes@.len(),
                terminal(self.nodes@) == terminal(self.nodes@.take(i as int)),
            decreases i,
        {
            let ghost prefix = self.nodes@.take(i as int);
            assert(prefix.last() == self.nodes@[i - 1]);
            assert(prefix.drop_last() == self.nodes@.take(i - 1));
            match &self.nodes[i - 1] {
                Node::Operation { .. } => {
                    return Ok(ScalarSlot { index: i - 1 });
                },
                _ => {},
            }
            i = i - 1;
        }
        assert(self.nodes@.take(0).len() == 0);
        Err(GraphIncompleteError {  })
    }
}

} // verus!
