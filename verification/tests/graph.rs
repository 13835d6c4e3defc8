use unary_jit::elem::Elem;
use unary_jit::graph::{GraphIncompleteError, Instruction, Node, Scope};

const EXP: u32 = 7;
const NEG: u32 = 8;

#[test]
fn root_is_empty() {
    let scope = Scope::root();
    assert_eq!(scope.len(), 0);
    assert!(scope.nodes().is_empty());
}

#[test]
fn last_local_fails_on_the_empty_graph() {
    let scope = Scope::root();
    assert_eq!(scope.last_local(), Err(GraphIncompleteError {}));
}

#[test]
fn last_local_fails_where_only_reads_were_made() {
    let mut scope = Scope::root();
    scope.read_input(0, Elem::Float);
    scope.read_scalar(0, Elem::Float);
    assert_eq!(scope.len(), 2);
    assert_eq!(scope.last_local(), Err(GraphIncompleteError {}));
}

#[test]
fn register_appends_and_returns_the_new_slot() {
    let mut scope = Scope::root();
    let input = scope.read_input(0, Elem::Float);
    assert_eq!(input.index(), 0);

    let exp = scope.register(Instruction { opcode: EXP, operands: vec![input], elem: Elem::Float });
    assert_eq!(exp.index(), 1);
    let neg = scope.register(Instruction { opcode: NEG, operands: vec![exp], elem: Elem::Float });
    assert_eq!(neg.index(), 2);

    assert_eq!(
        scope.nodes(),
        &[
            Node::Input { position: 0, elem: Elem::Float },
            Node::Operation {
                instruction: Instruction { opcode: EXP, operands: vec![input], elem: Elem::Float }
            },
            Node::Operation {
                instruction: Instruction { opcode: NEG, operands: vec![exp], elem: Elem::Float }
            },
        ]
    );
}

#[test]
fn instruction_without_operands_is_registered() {
    let mut scope = Scope::root();
    let slot = scope.register(Instruction { opcode: EXP, operands: vec![], elem: Elem::Int });
    assert_eq!(slot.index(), 0);
    assert_eq!(scope.last_local(), Ok(slot));
}

#[test]
fn last_local_is_the_slot_of_the_last_instruction() {
    let mut scope = Scope::root();
    let input = scope.read_input(0, Elem::Int);
    let first = scope.register(Instruction { opcode: EXP, operands: vec![input], elem: Elem::Int });
    assert_eq!(scope.last_local(), Ok(first));

    let second = scope.register(Instruction { opcode: NEG, operands: vec![first], elem: Elem::Int });
    assert_eq!(scope.last_local(), Ok(second));

    let later_read = scope.read_input(1, Elem::Int);
    assert_eq!(later_read.index(), 3);
    assert_eq!(scope.last_local(), Ok(second));
}

#[test]
fn an_input_is_read_by_one_producer() {
    let mut scope = Scope::root();
    let first = scope.read_input(0, Elem::Float);
    let other = scope.read_input(1, Elem::Float);
    let again = scope.read_input(0, Elem::Float);

    assert_eq!(first, again);
    assert_ne!(first, other);
    assert_eq!(scope.len(), 2);
}

#[test]
fn reads_of_another_type_get_a_producer_of_their_own() {
    let mut scope = Scope::root();
    let float = scope.read_input(0, Elem::Float);
    let int = scope.read_input(0, Elem::Int);

    assert_ne!(float, int);
    assert_eq!(
        scope.nodes(),
        &[
            Node::Input { position: 0, elem: Elem::Float },
            Node::Input { position: 0, elem: Elem::Int }
        ]
    );
}

#[test]
fn a_scalar_is_read_by_one_producer() {
    let mut scope = Scope::root();
    let input = scope.read_input(0, Elem::UInt);
    let constant = scope.read_scalar(0, Elem::UInt);
    let again = scope.read_scalar(0, Elem::UInt);

    assert_ne!(input, constant);
    assert_eq!(constant, again);
    assert_eq!(
        scope.nodes(),
        &[
            Node::Input { position: 0, elem: Elem::UInt },
            Node::Scalar { position: 0, elem: Elem::UInt }
        ]
    );
}

#[test]
fn slots_of_a_graph_are_produced() {
    let mut scope = Scope::root();
    let input = scope.read_input(0, Elem::Bool);
    assert!(scope.is_produced(input));

    let mut longer = Scope::root();
    longer.read_input(0, Elem::Bool);
    let second = longer.read_input(1, Elem::Bool);
    assert!(longer.is_produced(second));
    assert!(!scope.is_produced(second));
}

#[test]
fn element_tags_have_their_codes() {
    assert_eq!(Elem::Float.code(), 0);
    assert_eq!(Elem::Int.code(), 1);
    assert_eq!(Elem::UInt.code(), 2);
    assert_eq!(Elem::Bool.code(), 3);
}
