use gcc_rust::gcc_api::{Backend, Function, Location, Payload, StatementList, Tree, TreeRef};
use gcc_rust::tree_codes::{IntegerTypeKind, TreeCode, TreeIndex};

fn at(i: usize) -> Tree {
    Tree(TreeRef::Node(i))
}

fn void_type() -> Tree {
    Tree(TreeRef::Global(TreeIndex::VoidType))
}

fn int_type() -> Tree {
    Tree::from_integer_kind(IntegerTypeKind::Int)
}

#[test]
fn new_arena_is_empty() {
    let backend = Backend::new();
    assert_eq!(backend.len(), 0);
    assert!(backend.nodes.is_empty());
    assert!(backend.node(at(0)).is_none());
}

#[test]
fn locations_are_numbered() {
    assert_eq!(Location::unknown(), Location(0));
    assert_eq!(Location::builtins(), Location(1));
}

#[test]
fn interned_handles_name_their_table_entry() {
    assert_eq!(Tree::null(), Tree(TreeRef::Null));
    assert_eq!(Tree::from_index(TreeIndex::VoidType), Tree(TreeRef::Global(TreeIndex::VoidType)));
    assert_eq!(
        Tree::from_index(TreeIndex::IntegerZero),
        Tree(TreeRef::Global(TreeIndex::IntegerZero))
    );
    assert_eq!(
        Tree::from_integer_kind(IntegerTypeKind::UnsignedLong),
        Tree(TreeRef::Integer(IntegerTypeKind::UnsignedLong))
    );
    assert_ne!(
        Tree::from_integer_kind(IntegerTypeKind::Long),
        Tree::from_integer_kind(IntegerTypeKind::LongLong)
    );
}

#[test]
fn node_is_found_by_its_handle_only() {
    let mut backend = Backend::new();
    let label = Tree::new_artificial_label(&mut backend, Location::unknown());
    assert_eq!(label, at(0));
    assert_eq!(backend.node(label).unwrap().code, TreeCode::LabelDecl);
    assert!(backend.node(at(1)).is_none());
    assert!(backend.node(Tree::null()).is_none());
    assert!(backend.node(void_type()).is_none());
    assert!(backend.node(int_type()).is_none());
}

#[test]
fn handles_are_handed_out_in_order_of_request() {
    let mut backend = Backend::new();
    let a = Tree::new_artificial_label(&mut backend, Location::unknown());
    let b = Tree::new_result_decl(&mut backend, Location::builtins(), int_type());
    let c = Tree::new_int_constant(&mut backend, int_type(), -5);
    let d = Tree::new_init_expr(&mut backend, b, c);
    let e = Tree::new_return_expr(&mut backend, b);
    assert_eq!(vec![a, b, c, d, e], vec![at(0), at(1), at(2), at(3), at(4)]);
    assert_eq!(backend.len(), 5);
}

#[test]
fn function_type_keeps_result_and_arguments() {
    let mut backend = Backend::new();
    let args = [int_type(), Tree::from_integer_kind(IntegerTypeKind::UnsignedChar)];
    let ty = Tree::new_function_type(&mut backend, void_type(), &args);
    let node = backend.node(ty).unwrap();
    assert_eq!(node.code, TreeCode::FunctionType);
    assert_eq!(node.type_, void_type());
    assert_eq!(node.operands, args.to_vec());
    assert!(matches!(node.payload, Payload::Plain));

    let none = Tree::new_function_type(&mut backend, int_type(), &[]);
    assert_eq!(none, at(1));
    assert!(backend.node(none).unwrap().operands.is_empty());
}

#[test]
fn init_expr_binds_variable_to_value_as_void() {
    let mut backend = Backend::new();
    let var = Tree::new_result_decl(&mut backend, Location::unknown(), int_type());
    let value = Tree::new_int_constant(&mut backend, int_type(), 9);
    let init = Tree::new_init_expr(&mut backend, var, value);
    let node = backend.node(init).unwrap();
    assert_eq!(node.code, TreeCode::InitExpr);
    assert_eq!(node.type_, void_type());
    assert_eq!(node.operands, vec![var, value]);
    assert!(matches!(node.payload, Payload::Plain));
}

#[test]
fn int_constant_keeps_type_and_value() {
    let mut backend = Backend::new();
    for value in [0, 1, -1, 42, i64::MAX, i64::MIN] {
        let tree = Tree::new_int_constant(&mut backend, int_type(), value);
        let node = backend.node(tree).unwrap();
        assert_eq!(node.code, TreeCode::IntegerCst);
        assert_eq!(node.type_, int_type());
        assert!(node.operands.is_empty());
        match node.payload {
            Payload::Integer(kept) => assert_eq!(kept, value),
            _ => panic!("the literal keeps no value"),
        }
    }
}

#[test]
fn return_expr_wraps_its_value_as_void() {
    let mut backend = Backend::new();
    let result = Tree::new_result_decl(&mut backend, Location::unknown(), int_type());
    let ret = Tree::new_return_expr(&mut backend, result);
    let node = backend.node(ret).unwrap();
    assert_eq!(node.code, TreeCode::ReturnExpr);
    assert_eq!(node.type_, void_type());
    assert_eq!(node.operands, vec![result]);
}

#[test]
fn block_keeps_its_four_links_in_order() {
    let mut backend = Backend::new();
    let a = Tree::new_artificial_label(&mut backend, Location::unknown());
    let b = Tree::new_artificial_label(&mut backend, Location::unknown());
    let c = Tree::new_artificial_label(&mut backend, Location::unknown());
    let block = Tree::new_block(&mut backend, a, Tree::null(), b, c);
    let node = backend.node(block).unwrap();
    assert_eq!(node.code, TreeCode::Block);
    assert_eq!(node.type_, Tree::null());
    assert_eq!(node.operands, vec![a, Tree::null(), b, c]);
}

#[test]
fn bind_expr_keeps_vars_body_and_block_as_void() {
    let mut backend = Backend::new();
    let list = StatementList::new(&mut backend);
    let null = Tree::null();
    let block = Tree::new_block(&mut backend, null, null, null, null);
    let var = Tree::new_result_decl(&mut backend, Location::unknown(), int_type());
    let bind = Tree::new_bind_expr(&mut backend, var, list.0, block);
    let node = backend.node(bind).unwrap();
    assert_eq!(node.code, TreeCode::BindExpr);
    assert_eq!(node.type_, void_type());
    assert_eq!(node.operands, vec![var, list.0, block]);
}

#[test]
fn declarations_keep_location_and_type() {
    let mut backend = Backend::new();
    let result = Tree::new_result_decl(&mut backend, Location::builtins(), int_type());
    let node = backend.node(result).unwrap();
    assert_eq!(node.code, TreeCode::ResultDecl);
    assert_eq!(node.type_, int_type());
    assert!(node.operands.is_empty());
    assert!(matches!(node.payload, Payload::Decl(Location(1))));

    let label = Tree::new_artificial_label(&mut backend, Location(7));
    let node = backend.node(label).unwrap();
    assert_eq!(node.code, TreeCode::LabelDecl);
    assert_eq!(node.type_, Tree::null());
    assert!(matches!(node.payload, Payload::Decl(Location(7))));
}

#[test]
fn statement_list_keeps_statements_in_order_of_appending() {
    let mut backend = Backend::new();
    let mut list = StatementList::new(&mut backend);
    let other = StatementList::new(&mut backend);
    assert_eq!(backend.node(list.0).unwrap().code, TreeCode::StatementList);
    assert!(backend.node(list.0).unwrap().operands.is_empty());

    let a = Tree::new_artificial_label(&mut backend, Location::unknown());
    let b = Tree::new_return_expr(&mut backend, Tree::null());
    list.push(&mut backend, b);
    list.push(&mut backend, a);
    list.push(&mut backend, b);
    assert_eq!(list.0, at(0));
    assert_eq!(backend.node(list.0).unwrap().operands, vec![b, a, b]);
    assert!(backend.node(other.0).unwrap().operands.is_empty());
    assert_eq!(backend.len(), 4);
}

#[test]
fn function_starts_with_nothing_attached() {
    let mut backend = Backend::new();
    let ty = Tree::new_function_type(&mut backend, void_type(), &[]);
    let function = Function::new(&mut backend, "main", ty);
    let node = backend.node(function.0).unwrap();
    assert_eq!(node.code, TreeCode::FunctionDecl);
    assert_eq!(node.type_, ty);
    assert!(node.operands.is_empty());
    match &node.payload {
        Payload::Function(data) => {
            assert_eq!(data.name, "main");
            assert_eq!(data.result, Tree::null());
            assert_eq!(data.initial, Tree::null());
            assert_eq!(data.saved_tree, Tree::null());
            assert!(data.arguments.is_empty());
            assert_eq!(data.external, None);
            assert_eq!(data.preserve_p, None);
            assert!(!data.gimplified);
            assert!(!data.finalized);
        }
        _ => panic!("the declaration keeps no function data"),
    }
}

#[test]
fn function_setters_change_one_thing_each() {
    let mut backend = Backend::new();
    let ty = Tree::new_function_type(&mut backend, int_type(), &[]);
    let mut function = Function::new(&mut backend, "f", ty);
    let result = Tree::new_result_decl(&mut backend, Location::unknown(), int_type());
    let block = Tree::new_block(&mut backend, Tree::null(), Tree::null(), function.0, Tree::null());
    let body = Tree::new_bind_expr(&mut backend, Tree::null(), Tree::null(), block);
    let snapshot = |backend: &Backend| match &backend.node(at(1)).unwrap().payload {
        Payload::Function(d) => (
            d.name.clone(),
            d.result,
            d.initial,
            d.saved_tree,
            d.arguments.clone(),
            d.external,
            d.preserve_p,
            d.gimplified,
            d.finalized,
        ),
        _ => panic!("the declaration keeps no function data"),
    };
    let mut expected = snapshot(&backend);

    function.set_result(&mut backend, result);
    expected.1 = result;
    assert_eq!(snapshot(&backend), expected);

    function.set_initial(&mut backend, block);
    expected.2 = block;
    assert_eq!(snapshot(&backend), expected);

    function.set_saved_tree(&mut backend, body);
    expected.3 = body;
    assert_eq!(snapshot(&backend), expected);

    function.set_external(&mut backend, false);
    expected.5 = Some(false);
    assert_eq!(snapshot(&backend), expected);
    function.set_external(&mut backend, true);
    expected.5 = Some(true);
    assert_eq!(snapshot(&backend), expected);

    function.set_preserve_p(&mut backend, true);
    expected.6 = Some(true);
    assert_eq!(snapshot(&backend), expected);

    function.gimplify(&mut backend);
    expected.7 = true;
    assert_eq!(snapshot(&backend), expected);

    function.finalize(&mut backend);
    expected.8 = true;
    assert_eq!(snapshot(&backend), expected);

    assert_eq!(function.0, at(1));
    assert_eq!(backend.len(), 5);
    assert_eq!(backend.node(at(1)).unwrap().code, TreeCode::FunctionDecl);
    assert_eq!(backend.node(at(1)).unwrap().type_, ty);
}

#[test]
fn parameters_are_declared_in_order_of_their_types() {
    let mut backend = Backend::new();
    let types = [
        Tree::from_integer_kind(IntegerTypeKind::Short),
        Tree::from_integer_kind(IntegerTypeKind::UnsignedInt),
        Tree::from_integer_kind(IntegerTypeKind::Short),
    ];
    let ty = Tree::new_function_type(&mut backend, void_type(), &types);
    let mut function = Function::new(&mut backend, "f", ty);
    let decls = function.add_parm_decls(&mut backend, &types);
    assert_eq!(decls, vec![at(2), at(3), at(4)]);
    assert_eq!(backend.len(), 5);
    for i in 0..3 {
        let node = backend.node(decls[i]).unwrap();
        assert_eq!(node.code, TreeCode::ParmDecl);
        assert_eq!(node.type_, types[i]);
        assert_eq!(node.operands, vec![function.0]);
    }
    match &backend.node(function.0).unwrap().payload {
        Payload::Function(data) => assert_eq!(data.arguments, decls),
        _ => panic!("the declaration keeps no function data"),
    }

    let mut lone = Function::new(&mut backend, "g", ty);
    assert!(lone.add_parm_decls(&mut backend, &[]).is_empty());
    assert_eq!(backend.len(), 6);
}
