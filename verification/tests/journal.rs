use gcc_rust::gcc_api::{Backend, Function, Location, Request, StatementList, Tree, TreeRef};
use gcc_rust::mir::{
    BasicBlockData, Body, ConstKind, Constant, IntTy, LocalDecl, Operand, Place, Rvalue,
    Statement, StatementKind, Terminator, TerminatorKind, TyKind,
};
use gcc_rust::mir2gimple::{func_mir_to_gcc, Unimplemented};
use gcc_rust::tree_codes::{IntegerTypeKind, TreeCode};

fn n(i: usize) -> Tree {
    Tree(TreeRef::Node(i))
}

fn place(local: usize) -> Place {
    Place { local, projection: vec![] }
}

fn i32_body(args: usize, statements: Vec<Statement>, kind: TerminatorKind) -> Body {
    Body {
        local_decls: vec![LocalDecl { ty: TyKind::Int(IntTy::I32) }; args + 1],
        arg_count: args,
        basic_blocks: vec![BasicBlockData { statements, terminator: Terminator { kind } }],
    }
}

fn copy_first_parameter() -> Statement {
    Statement {
        kind: StatementKind::Assign(place(0), Rvalue::Use(Operand::Copy(place(1)))),
    }
}

fn assign_constant(data: u128) -> Statement {
    Statement {
        kind: StatementKind::Assign(
            place(0),
            Rvalue::Use(Operand::Constant(Constant {
                ty: TyKind::Int(IntTy::I32),
                val: ConstKind::Scalar { data, size: 4 },
            })),
        ),
    }
}

#[test]
fn requests_of_identity_in_their_order() {
    let mut backend = Backend::new();
    let body = i32_body(1, vec![copy_first_parameter()], TerminatorKind::Return);
    assert_eq!(func_mir_to_gcc(&mut backend, "identity", &body), Ok(()));
    let function = n(1);
    assert_eq!(
        backend.requests,
        vec![
            Request::Build(n(0)),
            Request::Build(function),
            Request::SetExternal { function, value: false },
            Request::SetPreserveP { function, value: true },
            Request::Build(n(2)),
            Request::SetInitial { function, tree: n(2) },
            Request::Build(n(3)),
            Request::SetResult { function, result: n(3) },
            Request::ParmDecls { function, first: n(4), count: 1 },
            Request::Build(n(5)),
            Request::Build(n(6)),
            Request::Append { list: n(6), stmt: n(5) },
            Request::Build(n(7)),
            Request::Append { list: n(6), stmt: n(7) },
            Request::Build(n(8)),
            Request::Append { list: n(6), stmt: n(8) },
            Request::Build(n(9)),
            Request::SetSavedTree { function, tree: n(9) },
            Request::Gimplify { function },
            Request::Finalize { function },
        ]
    );
}

#[test]
fn requests_of_a_constant_assignment_in_their_order() {
    let mut backend = Backend::new();
    let body = i32_body(0, vec![assign_constant(42)], TerminatorKind::Return);
    assert_eq!(func_mir_to_gcc(&mut backend, "answer", &body), Ok(()));
    let function = n(1);
    assert_eq!(
        backend.requests[8..],
        [
            Request::ParmDecls { function, first: n(4), count: 0 },
            Request::Build(n(4)),
            Request::Build(n(5)),
            Request::Append { list: n(5), stmt: n(4) },
            Request::Build(n(6)),
            Request::Build(n(7)),
            Request::Append { list: n(5), stmt: n(7) },
            Request::Build(n(8)),
            Request::Append { list: n(5), stmt: n(8) },
            Request::Build(n(9)),
            Request::SetSavedTree { function, tree: n(9) },
            Request::Gimplify { function },
            Request::Finalize { function },
        ]
    );
    assert_eq!(backend.node(n(6)).unwrap().code, TreeCode::IntegerCst);
    assert_eq!(backend.node(n(7)).unwrap().code, TreeCode::InitExpr);
}

#[test]
fn failed_function_is_never_handed_over() {
    let mut backend = Backend::new();
    let body = i32_body(
        1,
        vec![copy_first_parameter(), assign_constant(1)],
        TerminatorKind::Goto { target: 0 },
    );
    assert_eq!(func_mir_to_gcc(&mut backend, "f", &body), Err(Unimplemented::Terminator));
    assert!(!backend.requests.is_empty());
    for request in &backend.requests {
        assert!(!matches!(
            request,
            Request::SetSavedTree { .. } | Request::Gimplify { .. } | Request::Finalize { .. }
        ));
    }
    // what the statements requested before the failure stays requested
    assert_eq!(
        backend.requests[9..],
        [
            Request::Build(n(5)),
            Request::Build(n(6)),
            Request::Append { list: n(6), stmt: n(5) },
            Request::Build(n(7)),
            Request::Append { list: n(6), stmt: n(7) },
            Request::Build(n(8)),
            Request::Build(n(9)),
            Request::Append { list: n(6), stmt: n(9) },
        ]
    );
}

#[test]
fn second_run_requests_a_declaration_of_its_own() {
    let mut backend = Backend::new();
    let body = i32_body(1, vec![copy_first_parameter()], TerminatorKind::Return);
    assert_eq!(func_mir_to_gcc(&mut backend, "identity", &body), Ok(()));
    let first_run = backend.requests.clone();
    let nodes = backend.len();
    assert_eq!(func_mir_to_gcc(&mut backend, "identity", &body), Ok(()));

    assert_eq!(backend.requests.len(), 2 * first_run.len());
    assert_eq!(backend.requests[..first_run.len()], first_run[..]);
    assert_eq!(backend.requests[1], Request::Build(n(1)));
    assert_eq!(backend.requests[first_run.len() + 1], Request::Build(n(nodes + 1)));
    assert_eq!(backend.node(n(nodes + 1)).unwrap().code, TreeCode::FunctionDecl);
    let declared = backend
        .requests
        .iter()
        .filter(|r| match r {
            Request::Build(tree) => backend.node(*tree).unwrap().code == TreeCode::FunctionDecl,
            _ => false,
        })
        .count();
    assert_eq!(declared, 2);
}

#[test]
fn each_entry_point_journals_its_request() {
    let mut backend = Backend::new();
    let int = Tree::from_integer_kind(IntegerTypeKind::Int);
    let ty = Tree::new_function_type(&mut backend, int, &[int, int]);
    let mut function = Function::new(&mut backend, "f", ty);
    let f = function.0;
    let block = Tree::new_block(&mut backend, Tree::null(), Tree::null(), f, Tree::null());
    let result = Tree::new_result_decl(&mut backend, Location::unknown(), int);
    let label = Tree::new_artificial_label(&mut backend, Location::unknown());
    let literal = Tree::new_int_constant(&mut backend, int, 3);
    let init = Tree::new_init_expr(&mut backend, result, literal);
    let ret = Tree::new_return_expr(&mut backend, result);
    let mut list = StatementList::new(&mut backend);
    let bind = Tree::new_bind_expr(&mut backend, Tree::null(), list.0, block);
    let built: Vec<Request> = (0..10).map(|i| Request::Build(n(i))).collect();
    assert_eq!(backend.requests, built);
    assert_eq!(bind, n(9));

    list.push(&mut backend, label);
    list.push(&mut backend, init);
    list.push(&mut backend, ret);
    function.set_external(&mut backend, true);
    function.set_preserve_p(&mut backend, false);
    function.set_initial(&mut backend, block);
    function.set_result(&mut backend, result);
    let decls = function.add_parm_decls(&mut backend, &[int, int]);
    function.set_saved_tree(&mut backend, bind);
    function.finalize(&mut backend);
    function.gimplify(&mut backend);
    assert_eq!(decls, vec![n(10), n(11)]);
    assert_eq!(
        backend.requests[10..],
        [
            Request::Append { list: list.0, stmt: label },
            Request::Append { list: list.0, stmt: init },
            Request::Append { list: list.0, stmt: ret },
            Request::SetExternal { function: f, value: true },
            Request::SetPreserveP { function: f, value: false },
            Request::SetInitial { function: f, tree: block },
            Request::SetResult { function: f, result },
            Request::ParmDecls { function: f, first: n(10), count: 2 },
            Request::SetSavedTree { function: f, tree: bind },
            Request::Finalize { function: f },
            Request::Gimplify { function: f },
        ]
    );
    assert!(Backend::new().requests.is_empty());
}
