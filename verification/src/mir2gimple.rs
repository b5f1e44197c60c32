use crate::gcc_api::{
    bind_expr_node, block_node, function_type_node, handle_valid, handles_from, handles_valid,
    init_expr_node, int_constant_node, label_node, node_has_code, parm_decl_nodes,
    result_decl_node, return_expr_node, statement_list_node, Backend, BackendView, Function,
    FunctionDataView, Location, PayloadView, Request, StatementList, Tree, TreeNodeView, TreeRef,
};
use crate::mir::{
    BasicBlockData, Body, ConstKind, Constant, IntTy, Item, Operand, Place, Rvalue, Statement,
    StatementKind, TerminatorKind, TyKind, UintTy,
};
use crate::tree_codes::{IntegerTypeKind, TreeCode, TreeIndex};
use vstd::prelude::*;

verus! {

/// Why a function body could not be lowered: the first construct met that
/// lies outside the supported subset.
#[derive(Clone, Copy, Debug, PartialEq, Eq, Structural)]
pub enum Unimplemented {
    /// A type other than unit and the integers of up to 64 bits.
    Type,
    /// A place that steps into the value of its slot.
    Projection,
    /// A slot after the result and the parameters.
    Local,
    /// A statement other than an assignment, a storage marker or a no-op.
    Statement,
    /// A terminator other than `Return`.
    Terminator,
    /// A right-hand side other than the use of an operand.
    Rvalue,
    /// A constant that is no plain integer scalar, or whose bits do not fit
    /// a signed 64-bit literal.
    Constant,
}

/// What lowering leaves behind: the backend as it stands, and what came out.
pub type Lowered<T> = (BackendView, Result<T, Unimplemented>);

/// The backend's integer kind for a signed source integer.
pub open spec fn int_kind(ity: IntTy) -> Option<IntegerTypeKind> {
    match ity {
        IntTy::Isize => Some(IntegerTypeKind::Long),
        IntTy::I8 => Some(IntegerTypeKind::SignedChar),
        IntTy::I16 => Some(IntegerTypeKind::Short),
        IntTy::I32 => Some(IntegerTypeKind::Int),
        IntTy::I64 => Some(IntegerTypeKind::LongLong),
        IntTy::I128 => None,
    }
}

/// The backend's integer kind for an unsigned source integer.
pub open spec fn uint_kind(uty: UintTy) -> Option<IntegerTypeKind> {
    match uty {
        UintTy::Usize => Some(IntegerTypeKind::UnsignedLong),
        UintTy::U8 => Some(IntegerTypeKind::UnsignedChar),
        UintTy::U16 => Some(IntegerTypeKind::UnsignedShort),
        UintTy::U32 => Some(IntegerTypeKind::UnsignedInt),
        UintTy::U64 => Some(IntegerTypeKind::UnsignedLongLong),
        UintTy::U128 => None,
    }
}

/// The backend type of a source type: `void` for unit, the integer kind of
/// the same width and sign for an integer, and nothing else.
pub open spec fn lower_type(ty: TyKind) -> Result<Tree, Unimplemented> {
    match ty {
        TyKind::Tuple(fields) => if fields == 0 {
            Ok(Tree(TreeRef::Global(TreeIndex::VoidType)))
        } else {
            Err(Unimplemented::Type)
        },
        TyKind::Int(ity) => match int_kind(ity) {
            Some(itk) => Ok(Tree(TreeRef::Integer(itk))),
            None => Err(Unimplemented::Type),
        },
        TyKind::Uint(uty) => match uint_kind(uty) {
            Some(itk) => Ok(Tree(TreeRef::Integer(itk))),
            None => Err(Unimplemented::Type),
        },
        _ => Err(Unimplemented::Type),
    }
}

/// Whether every type of `tys` has a backend type.
pub open spec fn types_supported(tys: Seq<TyKind>) -> bool {
    forall|i: int| 0 <= i < tys.len() ==> lower_type(#[trigger] tys[i]) is Ok
}

/// The backend types of `tys`, in order.
pub open spec fn lower_types(tys: Seq<TyKind>) -> Seq<Tree> {
    Seq::new(tys.len(), |i: int| lower_type(tys[i])->Ok_0)
}

/// Lowers a source type to the backend type that stands for it.
pub fn convert_type(ty: TyKind) -> (tree: Result<Tree, Unimplemented>)
    ensures
        tree == lower_type(ty),
        tree is Ok ==> tree->Ok_0.is_interned(),
{
    match ty {
        TyKind::Tuple(fields) => {
            if fields == 0 {
                Ok(Tree::from_index(TreeIndex::VoidType))
            } else {
                Err(Unimplemented::Type)
            }
        },
        TyKind::Int(IntTy::Isize) => Ok(Tree::from_integer_kind(IntegerTypeKind::Long)),
        TyKind::Int(IntTy::I8) => Ok(Tree::from_integer_kind(IntegerTypeKind::SignedChar)),
        TyKind::Int(IntTy::I16) => Ok(Tree::from_integer_kind(IntegerTypeKind::Short)),
        TyKind::Int(IntTy::I32) => Ok(Tree::from_integer_kind(IntegerTypeKind::Int)),
        TyKind::Int(IntTy::I64) => Ok(Tree::from_integer_kind(IntegerTypeKind::LongLong)),
        TyKind::Uint(UintTy::Usize) => Ok(Tree::from_integer_kind(IntegerTypeKind::UnsignedLong)),
        TyKind::Uint(UintTy::U8) => Ok(Tree::from_integer_kind(IntegerTypeKind::UnsignedChar)),
        TyKind::Uint(UintTy::U16) => Ok(Tree::from_integer_kind(IntegerTypeKind::UnsignedShort)),
        TyKind::Uint(UintTy::U32) => Ok(Tree::from_integer_kind(IntegerTypeKind::UnsignedInt)),
        TyKind::Uint(UintTy::U64) => Ok(
            Tree::from_integer_kind(IntegerTypeKind::UnsignedLongLong),
        ),
        _ => Err(Unimplemented::Type),
    }
}

/// Lowers the type of the function's result.
pub fn make_function_return_type(body: &Body) -> (tree: Result<Tree, Unimplemented>)
    requires
        body.wf(),
    ensures
        tree == lower_type(body.return_ty()),
{
    convert_type(body.return_ty())
}

/// Lowers the types of the function's parameters, in order.
pub fn make_function_arg_types(body: &Body) -> (trees: Result<Vec<Tree>, Unimplemented>)
    requires
        body.wf(),
    ensures
        trees is Ok <==> types_supported(body.spec_arg_tys()),
        trees is Ok ==> trees->Ok_0@ == lower_types(body.spec_arg_tys()),
        trees is Err ==> trees->Err_0 == Unimplemented::Type,
{
    let ghost tys = body.spec_arg_tys();
    let mut trees: Vec<Tree> = Vec::new();
    let mut arg: usize = 0;
    while arg < body.arg_count
        invariant
            body.wf(),
            tys == body.spec_arg_tys(),
            arg <= body.arg_count,
            types_supported(tys.take(arg as int)),
            trees@ == lower_types(tys.take(arg as int)),
        decreases body.arg_count - arg,
    {
        match convert_type(body.local_decls[arg + 1].ty) {
            Ok(tree) => {
                trees.push(tree);
            },
            Err(e) => {
                assert(tys[arg as int] == body.local_decls@[arg + 1].ty);
                return Err(e);
            },
        }
        arg += 1;
        proof {
            assert(tys.take(arg as int) =~= tys.take(arg - 1).push(tys[arg - 1]));
            assert(trees@ =~= lower_types(tys.take(arg as int)));
        }
    }
    proof {
        assert(tys.take(arg as int) =~= tys);
    }
    Ok(trees)
}

/// The declarations of one function under lowering: what the backend
/// handed out when the function was declared.
pub struct FunctionConversion {
    pub fn_decl: Function,
    pub res_decl: Tree,
    pub parm_decls: Vec<Tree>,
    pub vars: Vec<Tree>,
    pub block_labels: Vec<Tree>,
    pub main_gcc_block: Tree,
    pub stmt_list: StatementList,
}

pub ghost struct FunctionConversionView {
    pub fn_decl: Tree,
    pub res_decl: Tree,
    pub parm_decls: Seq<Tree>,
    pub vars: Seq<Tree>,
    pub block_labels: Seq<Tree>,
    pub main_gcc_block: Tree,
    pub stmt_list: Tree,
}

impl View for FunctionConversion {
    type V = FunctionConversionView;

    open spec fn view(&self) -> FunctionConversionView {
        FunctionConversionView {
            fn_decl: self.fn_decl.0,
            res_decl: self.res_decl,
            parm_decls: self.parm_decls@,
            vars: self.vars@,
            block_labels: self.block_labels@,
            main_gcc_block: self.main_gcc_block,
            stmt_list: self.stmt_list.0,
        }
    }
}

/// Whether the declarations of `conv` belong to `arena`: the function and
/// the statement list are nodes of it, of their kinds, and no other handle
/// dangles.
pub open spec fn conversion_fits(conv: FunctionConversionView, arena: Seq<TreeNodeView>) -> bool {
    &&& node_has_code(arena, conv.fn_decl, TreeCode::FunctionDecl)
    &&& node_has_code(arena, conv.stmt_list, TreeCode::StatementList)
    &&& handle_valid(arena.len(), conv.res_decl)
    &&& handle_valid(arena.len(), conv.main_gcc_block)
    &&& handles_valid(arena.len(), conv.parm_decls)
    &&& handles_valid(arena.len(), conv.vars)
    &&& handles_valid(arena.len(), conv.block_labels)
}

/// The declaration that stands for the storage of `place`: the result for
/// slot 0, the parameter in turn for the slots after it.
pub open spec fn resolve_place(conv: FunctionConversionView, place: Place) -> Result<
    Tree,
    Unimplemented,
> {
    if place.projection@.len() != 0 {
        Err(Unimplemented::Projection)
    } else if place.local == 0 {
        Ok(conv.res_decl)
    } else if place.local <= conv.parm_decls.len() {
        Ok(conv.parm_decls[place.local - 1])
    } else {
        Err(Unimplemented::Local)
    }
}

/// The type and the value of the integer literal that stands for `constant`.
/// The scalar's bits are read as an unsigned number; one above the largest
/// signed 64-bit value is refused rather than wrapped.
pub open spec fn constant_literal(constant: Constant) -> Result<(Tree, i64), Unimplemented> {
    match constant.val {
        ConstKind::Scalar { data, size } => match constant.ty {
            TyKind::Int(_) | TyKind::Uint(_) => match lower_type(constant.ty) {
                Ok(int_type) => if data <= i64::MAX {
                    Ok((int_type, data as i64))
                } else {
                    Err(Unimplemented::Constant)
                },
                Err(e) => Err(e),
            },
            _ => Err(Unimplemented::Constant),
        },
        ConstKind::Other => Err(Unimplemented::Constant),
    }
}

/// Lowering of a right-hand side. A place is read where it stands, so
/// nothing is requested; a constant requests its literal.
pub open spec fn lower_rvalue(backend: BackendView, conv: FunctionConversionView, rv: Rvalue)
    -> Lowered<Tree> {
    match rv {
        Rvalue::Use(Operand::Copy(place)) => (backend, resolve_place(conv, place)),
        Rvalue::Use(Operand::Move(place)) => (backend, resolve_place(conv, place)),
        Rvalue::Use(Operand::Constant(constant)) => match constant_literal(constant) {
            Ok((int_type, value)) => (
                backend.built(int_constant_node(int_type, value)),
                Ok(backend.next()),
            ),
            Err(e) => (backend, Err(e)),
        },
        _ => (backend, Err(Unimplemented::Rvalue)),
    }
}

/// Lowering of one statement. Storage markers and no-ops request nothing.
/// An assignment resolves its destination, lowers its right-hand side,
/// requests the node that initialises the one with the other and appends
/// that node to the statement list. Where either fails, nothing is appended.
pub open spec fn lower_statement(
    backend: BackendView,
    conv: FunctionConversionView,
    stmt: Statement,
) -> Lowered<()> {
    match stmt.kind {
        StatementKind::StorageLive(_) | StatementKind::StorageDead(_) | StatementKind::Nop => (
            backend,
            Ok(()),
        ),
        StatementKind::Assign(place, rv) => match resolve_place(conv, place) {
            Ok(dest) => {
                let (valued, value) = lower_rvalue(backend, conv, rv);
                match value {
                    Ok(value) => (
                        valued.built(init_expr_node(dest, value)).appended(
                            conv.stmt_list,
                            valued.next(),
                        ),
                        Ok(()),
                    ),
                    Err(e) => (valued, Err(e)),
                }
            },
            Err(e) => (backend, Err(e)),
        },
        _ => (backend, Err(Unimplemented::Statement)),
    }
}

/// Lowering of the first `count` statements of `stmts`, in order, up to and
/// including the first that fails.
pub open spec fn lower_statements(
    backend: BackendView,
    conv: FunctionConversionView,
    stmts: Seq<Statement>,
    count: nat,
) -> Lowered<()>
    decreases count,
{
    if count == 0 {
        (backend, Ok(()))
    } else {
        let before = lower_statements(backend, conv, stmts, (count - 1) as nat);
        match before.1 {
            Ok(()) => lower_statement(before.0, conv, stmts[count - 1]),
            Err(_) => before,
        }
    }
}

/// Lowering of a terminator: `Return` requests the node that returns the
/// result declaration and appends it to the statement list.
pub open spec fn lower_terminator(
    backend: BackendView,
    conv: FunctionConversionView,
    kind: TerminatorKind,
) -> Lowered<()> {
    match kind {
        TerminatorKind::Return => (
            backend.built(return_expr_node(conv.res_decl)).appended(
                conv.stmt_list,
                backend.next(),
            ),
            Ok(()),
        ),
        _ => (backend, Err(Unimplemented::Terminator)),
    }
}

/// Lowering of the block at `block_index`: its label is appended first, then
/// its statements are lowered in order, then its terminator.
pub open spec fn lower_block(
    backend: BackendView,
    conv: FunctionConversionView,
    block_index: int,
    block: BasicBlockData,
) -> Lowered<()> {
    let labelled = backend.appended(conv.stmt_list, conv.block_labels[block_index]);
    let body = lower_statements(labelled, conv, block.statements@, block.statements@.len());
    match body.1 {
        Ok(()) => lower_terminator(body.0, conv, block.terminator.kind),
        Err(_) => body,
    }
}

/// Lowering of the first `count` blocks of `blocks`, in order, up to and
/// including the first that fails.
pub open spec fn lower_blocks(
    backend: BackendView,
    conv: FunctionConversionView,
    blocks: Seq<BasicBlockData>,
    count: nat,
) -> Lowered<()>
    decreases count,
{
    if count == 0 {
        (backend, Ok(()))
    } else {
        let before = lower_blocks(backend, conv, blocks, (count - 1) as nat);
        match before.1 {
            Ok(()) => lower_block(before.0, conv, count - 1, blocks[count - 1]),
            Err(_) => before,
        }
    }
}

/// Once a statement has failed, the statements after it add nothing.
pub proof fn lemma_statements_stop(
    backend: BackendView,
    conv: FunctionConversionView,
    stmts: Seq<Statement>,
    failed: nat,
    count: nat,
)
    requires
        failed <= count,
        lower_statements(backend, conv, stmts, failed).1 is Err,
    ensures
        lower_statements(backend, conv, stmts, count) == lower_statements(
            backend,
            conv,
            stmts,
            failed,
        ),
    decreases count,
{
    if failed < count {
        lemma_statements_stop(backend, conv, stmts, failed, (count - 1) as nat);
    }
}

/// Once a block has failed, the blocks after it add nothing.
pub proof fn lemma_blocks_stop(
    backend: BackendView,
    conv: FunctionConversionView,
    blocks: Seq<BasicBlockData>,
    failed: nat,
    count: nat,
)
    requires
        failed <= count,
        lower_blocks(backend, conv, blocks, failed).1 is Err,
    ensures
        lower_blocks(backend, conv, blocks, count) == lower_blocks(backend, conv, blocks, failed),
    decreases count,
{
    if failed < count {
        lemma_blocks_stop(backend, conv, blocks, failed, (count - 1) as nat);
    }
}

/// The backend types of the result and of the parameters of `body`, where
/// each of them has one.
pub open spec fn lower_signature(body: Body) -> Result<(Tree, Seq<Tree>), Unimplemented> {
    if lower_type(body.spec_return_ty()) is Ok && types_supported(body.spec_arg_tys()) {
        Ok((lower_type(body.spec_return_ty())->Ok_0, lower_types(body.spec_arg_tys())))
    } else {
        Err(Unimplemented::Type)
    }
}

/// The declaration of a function right after it was assembled at `base`:
/// defined here, to be kept, with its scope, its result and its `params`
/// parameters attached, and no body yet.
pub open spec fn declared_function(name: Seq<char>, base: nat, params: nat) -> TreeNodeView {
    TreeNodeView {
        code: TreeCode::FunctionDecl,
        type_: Tree::at(base),
        operands: Seq::empty(),
        payload: PayloadView::Function(
            FunctionDataView {
                name,
                result: Tree::at(base + 3),
                initial: Tree::at(base + 2),
                saved_tree: Tree::null(),
                arguments: handles_from(base + 4, params),
                external: Some(false),
                preserve_p: Some(true),
                gimplified: false,
                finalized: false,
            },
        ),
    }
}

/// The handles that assembling a function at `base` hands out, for a
/// function of `params` parameters and `blocks` blocks.
pub open spec fn declared_conversion(base: nat, params: nat, blocks: nat)
    -> FunctionConversionView {
    FunctionConversionView {
        fn_decl: Tree::at(base + 1),
        res_decl: Tree::at(base + 3),
        parm_decls: handles_from(base + 4, params),
        vars: Seq::empty(),
        block_labels: handles_from(base + 4 + params, blocks),
        main_gcc_block: Tree::at(base + 2),
        stmt_list: Tree::at(base + 4 + params + blocks),
    }
}

/// The requests that assemble a function at `base`, in their order: the
/// function's type and its declaration, marked as defined here and to be
/// kept; its outermost scope, attached; its result, attached; its
/// parameters, in one call; one label per block; the statement list.
pub open spec fn declare_requests(base: nat, params: nat, blocks: nat) -> Seq<Request> {
    let function = Tree::at(base + 1);
    seq![
        Request::Build(Tree::at(base)),
        Request::Build(function),
        Request::SetExternal { function, value: false },
        Request::SetPreserveP { function, value: true },
        Request::Build(Tree::at(base + 2)),
        Request::SetInitial { function, tree: Tree::at(base + 2) },
        Request::Build(Tree::at(base + 3)),
        Request::SetResult { function, result: Tree::at(base + 3) },
        Request::ParmDecls { function, first: Tree::at(base + 4), count: params as usize },
    ] + Seq::new(blocks, |k: int| Request::Build(Tree::at((base + 4 + params + k) as nat)))
        + seq![Request::Build(Tree::at(base + 4 + params + blocks))]
}

/// The backend after a function was assembled: at the end of the arena
/// stand the function's type, its declaration, its outermost scope, its
/// result, one parameter per argument type, one label per block, and an
/// empty statement list.
pub open spec fn declare_function(
    backend: BackendView,
    name: Seq<char>,
    return_type: Tree,
    arg_types: Seq<Tree>,
    blocks: nat,
) -> BackendView {
    let base = backend.nodes.len();
    let function = Tree::at(base + 1);
    BackendView {
        nodes: backend.nodes + seq![
            function_type_node(return_type, arg_types),
            declared_function(name, base, arg_types.len()),
            block_node(Tree::null(), Tree::null(), function, Tree::null()),
            result_decl_node(Location(0), return_type),
        ] + parm_decl_nodes(arg_types, function) + Seq::new(
            blocks,
            |i: int| label_node(Location(0)),
        ) + seq![statement_list_node()],
        requests: backend.requests + declare_requests(base, arg_types.len(), blocks),
    }
}

/// Assembly of the function `name` with the body `body`. Where a type of
/// its signature has no backend type, nothing is requested of the backend.
pub open spec fn begin_function(backend: BackendView, name: Seq<char>, body: Body) -> Lowered<
    FunctionConversionView,
> {
    match lower_signature(body) {
        Ok((return_type, arg_types)) => (
            declare_function(backend, name, return_type, arg_types, body.basic_blocks@.len()),
            Ok(
                declared_conversion(
                    backend.nodes.len(),
                    arg_types.len(),
                    body.basic_blocks@.len(),
                ),
            ),
        ),
        Err(e) => (backend, Err(e)),
    }
}

/// The backend after the statement list of `conv` was bound into the scope
/// of its function and attached as the function's body, and the function
/// was gimplified and then finalized.
pub open spec fn finish_function(backend: BackendView, conv: FunctionConversionView)
    -> BackendView {
    let function = conv.fn_decl;
    let bound = backend.built(bind_expr_node(Tree::null(), conv.stmt_list, conv.main_gcc_block));
    let attached = bound.function_set(
        function,
        FunctionDataView { saved_tree: backend.next(), ..bound.data(function) },
        Request::SetSavedTree { function, tree: backend.next() },
    );
    let gimplified = attached.function_set(
        function,
        FunctionDataView { gimplified: true, ..attached.data(function) },
        Request::Gimplify { function },
    );
    gimplified.function_set(
        function,
        FunctionDataView { finalized: true, ..gimplified.data(function) },
        Request::Finalize { function },
    )
}

/// Lowering of one function, from its declaration to its handing over. A
/// function that fails is left as it stood at the failure: never bound,
/// never handed over.
pub open spec fn lower_function(backend: BackendView, name: Seq<char>, body: Body) -> Lowered<()> {
    let (declared, conv) = begin_function(backend, name, body);
    match conv {
        Ok(conv) => {
            let (emitted, done) = lower_blocks(
                declared,
                conv,
                body.basic_blocks@,
                body.basic_blocks@.len(),
            );
            match done {
                Ok(()) => (finish_function(emitted, conv), Ok(())),
                Err(e) => (emitted, Err(e)),
            }
        },
        Err(e) => (declared, Err(e)),
    }
}

/// Lowering of the first `count` functions of `items`, in order, up to and
/// including the first that fails.
pub open spec fn lower_unit(backend: BackendView, items: Seq<Item>, count: nat) -> Lowered<()>
    decreases count,
{
    if count == 0 {
        (backend, Ok(()))
    } else {
        let before = lower_unit(backend, items, (count - 1) as nat);
        match before.1 {
            Ok(()) => lower_function(before.0, items[count - 1].name@, items[count - 1].body),
            Err(_) => before,
        }
    }
}

/// Once a function has failed, the functions after it add nothing.
pub proof fn lemma_unit_stops(backend: BackendView, items: Seq<Item>, failed: nat, count: nat)
    requires
        failed <= count,
        lower_unit(backend, items, failed).1 is Err,
    ensures
        lower_unit(backend, items, count) == lower_unit(backend, items, failed),
    decreases count,
{
    if failed < count {
        lemma_unit_stops(backend, items, failed, (count - 1) as nat);
    }
}

impl FunctionConversion {
    /// The declarations belong to `backend`.
    pub open spec fn wf(&self, backend: &Backend) -> bool {
        conversion_fits(self@, backend@.nodes)
    }

    /// Resolves `place` to the declaration that stands for its storage.
    pub fn get_place(&self, place: &Place) -> (tree: Result<Tree, Unimplemented>)
        ensures
            tree == resolve_place(self@, *place),
    {
        if place.projection.len() != 0 {
            return Err(Unimplemented::Projection);
        }
        let n = place.local;
        if n == 0 {
            Ok(self.res_decl)
        } else if n <= self.parm_decls.len() {
            Ok(self.parm_decls[n - 1])
        } else {
            Err(Unimplemented::Local)
        }
    }

    /// Lowers the right-hand side `rv` and hands out the node that holds
    /// its value.
    pub fn convert_rvalue(&self, backend: &mut Backend, rv: &Rvalue) -> (tree: Result<
        Tree,
        Unimplemented,
    >)
        requires
            old(backend).wf(),
            self.wf(old(backend)),
        ensures
            (final(backend)@, tree) == lower_rvalue(old(backend)@, self@, *rv),
            final(backend).wf(),
            self.wf(final(backend)),
            tree is Ok ==> final(backend).holds(tree->Ok_0),
    {
        match rv {
            Rvalue::Use(Operand::Copy(place)) => self.get_place(place),
            Rvalue::Use(Operand::Move(place)) => self.get_place(place),
            Rvalue::Use(Operand::Constant(constant)) => {
                match constant.val {
                    ConstKind::Scalar { data, size: _ } => match constant.ty {
                        TyKind::Int(_) | TyKind::Uint(_) => {
                            let int_type = match convert_type(constant.ty) {
                                Ok(int_type) => int_type,
                                Err(e) => {
                                    return Err(e);
                                },
                            };
                            if data <= 0x7fff_ffff_ffff_ffffu128 {
                                Ok(Tree::new_int_constant(backend, int_type, data as i64))
                            } else {
                                Err(Unimplemented::Constant)
                            }
                        },
                        _ => Err(Unimplemented::Constant),
                    },
                    ConstKind::Other => Err(Unimplemented::Constant),
                }
            },
            _ => Err(Unimplemented::Rvalue),
        }
    }

    /// Lowers the block at `block_index` into the statement list: its label,
    /// its statements in order, its terminator. Stops at the first construct
    /// that is not supported, with what was emitted before it in place.
    pub fn convert_basic_block(
        &mut self,
        backend: &mut Backend,
        block_index: usize,
        block: &BasicBlockData,
    ) -> (done: Result<(), Unimplemented>)
        requires
            old(backend).wf(),
            old(self).wf(old(backend)),
            block_index < old(self).block_labels@.len(),
        ensures
            (final(backend)@, done) == lower_block(
                old(backend)@,
                old(self)@,
                block_index as int,
                *block,
            ),
            final(backend).wf(),
            final(self)@ == old(self)@,
            final(self).wf(final(backend)),
    {
        let ghost conv = self@;
        let ghost stmts = block.statements@;
        let label = self.block_labels[block_index];
        self.stmt_list.push(backend, label);
        let ghost labelled = backend@;

        let mut i: usize = 0;
        while i < block.statements.len()
            invariant
                i <= stmts.len(),
                stmts == block.statements@,
                self@ == conv,
                conv == old(self)@,
                labelled == old(backend)@.appended(
                    conv.stmt_list,
                    conv.block_labels[block_index as int],
                ),
                backend.wf(),
                self.wf(backend),
                lower_statements(labelled, conv, stmts, i as nat) == (backend@, Ok::<
                    (),
                    Unimplemented,
                >(())),
            decreases stmts.len() - i,
        {
            let ghost before = backend@;
            let done = match &block.statements[i].kind {
                StatementKind::StorageLive(_) | StatementKind::StorageDead(_) => Ok(()),
                StatementKind::Nop => Ok(()),
                StatementKind::Assign(place, rvalue) => {
                    match self.get_place(place) {
                        Ok(dest) => match self.convert_rvalue(backend, rvalue) {
                            Ok(value) => {
                                let init = Tree::new_init_expr(backend, dest, value);
                                self.stmt_list.push(backend, init);
                                Ok(())
                            },
                            Err(e) => Err(e),
                        },
                        Err(e) => Err(e),
                    }
                },
                _ => Err(Unimplemented::Statement),
            };
            assert((backend@, done) == lower_statement(before, conv, stmts[i as int]));
            assert(lower_statements(labelled, conv, stmts, (i + 1) as nat) == (backend@, done));
            if let Err(e) = done {
                proof {
                    lemma_statements_stop(labelled, conv, stmts, (i + 1) as nat, stmts.len());
                }
                return Err(e);
            }
            i += 1;
        }

        match block.terminator.kind {
            TerminatorKind::Return => {
                let ret = Tree::new_return_expr(backend, self.res_decl);
                self.stmt_list.push(backend, ret);
                Ok(())
            },
            _ => Err(Unimplemented::Terminator),
        }
    }

    /// Assembles the function `name`: lowers its signature, then requests
    /// its type, its declaration (defined here, to be kept), its outermost
    /// scope, its result, its parameters, one label per block and an empty
    /// statement list.
    pub fn new(backend: &mut Backend, name: &str, body: &Body) -> (conv: Result<
        FunctionConversion,
        Unimplemented,
    >)
        requires
            old(backend).wf(),
            body.wf(),
        ensures
            final(backend)@ == begin_function(old(backend)@, name@, *body).0,
            match conv {
                Ok(conv) => begin_function(old(backend)@, name@, *body).1 == Ok::<
                    FunctionConversionView,
                    Unimplemented,
                >(conv@),
                Err(e) => begin_function(old(backend)@, name@, *body).1 == Err::<
                    FunctionConversionView,
                    Unimplemented,
                >(e),
            },
            final(backend).wf(),
            conv is Ok ==> conv->Ok_0.wf(final(backend)),
    {
        let ghost before = backend@;
        let ghost base = before.nodes.len();
        let return_type = match make_function_return_type(body) {
            Ok(tree) => tree,
            Err(e) => {
                return Err(e);
            },
        };
        let arg_types = match make_function_arg_types(body) {
            Ok(trees) => trees,
            Err(e) => {
                return Err(e);
            },
        };
        let ghost params = arg_types@.len();
        let ghost blocks = body.basic_blocks@.len();
        proof {
            lemma_lowered_types_interned(body.spec_arg_tys());
        }
        let fn_type = Tree::new_function_type(backend, return_type, arg_types.as_slice());

        let mut fn_decl = Function::new(backend, name, fn_type);
        fn_decl.set_external(backend, false);
        fn_decl.set_preserve_p(backend, true);

        let main_gcc_block = Tree::new_block(
            backend,
            Tree::null(),
            Tree::null(),
            fn_decl.0,
            Tree::null(),
        );
        fn_decl.set_initial(backend, main_gcc_block);

        let res_decl = Tree::new_result_decl(backend, Location::unknown(), return_type);
        fn_decl.set_result(backend, res_decl);

        let parm_decls = fn_decl.add_parm_decls(backend, arg_types.as_slice());

        let vars: Vec<Tree> = Vec::new();

        let ghost with_parms = backend@;
        let mut block_labels: Vec<Tree> = Vec::new();
        let mut k: usize = 0;
        while k < body.basic_blocks.len()
            invariant
                k <= blocks,
                blocks == body.basic_blocks@.len(),
                backend.wf(),
                backend@.nodes == with_parms.nodes + Seq::new(
                    k as nat,
                    |i: int| label_node(Location(0)),
                ),
                backend@.requests == with_parms.requests + Seq::new(
                    k as nat,
                    |i: int| Request::Build(Tree::at((with_parms.nodes.len() + i) as nat)),
                ),
                block_labels@ == handles_from(with_parms.nodes.len(), k as nat),
            decreases blocks - k,
        {
            let label = Tree::new_artificial_label(backend, Location::unknown());
            block_labels.push(label);
            k += 1;
            proof {
                assert(backend@.nodes =~= with_parms.nodes + Seq::new(
                    k as nat,
                    |i: int| label_node(Location(0)),
                ));
                assert(backend@.requests =~= with_parms.requests + Seq::new(
                    k as nat,
                    |i: int| Request::Build(Tree::at((with_parms.nodes.len() + i) as nat)),
                ));
                assert(block_labels@ =~= handles_from(with_parms.nodes.len(), k as nat));
            }
        }

        let stmt_list = StatementList::new(backend);

        let conv = FunctionConversion {
            fn_decl,
            res_decl,
            parm_decls,
            vars,
            block_labels,
            main_gcc_block,
            stmt_list,
        };
        proof {
            let declared = declare_function(before, name@, return_type, arg_types@, blocks);
            assert(with_parms.nodes.len() == base + 4 + params);
            assert(backend@.nodes =~= declared.nodes);
            assert(backend@.requests =~= declared.requests);
            assert(conv@.block_labels =~= handles_from(base + 4 + params, blocks));
            assert(conv@.vars =~= Seq::<Tree>::empty());
            assert(conv@ == declared_conversion(base, params, blocks));
        }
        Ok(conv)
    }

    /// Binds the statement list into the function's scope, attaches it as
    /// the function's body, and hands the function over to the backend.
    pub fn finalize(self, backend: &mut Backend)
        requires
            old(backend).wf(),
            self.wf(old(backend)),
        ensures
            final(backend)@ == finish_function(old(backend)@, self@),
            final(backend).wf(),
    {
        let mut fn_decl = self.fn_decl;
        let bind_expr = Tree::new_bind_expr(
            backend,
            Tree::null(),
            self.stmt_list.0,
            self.main_gcc_block,
        );
        fn_decl.set_saved_tree(backend, bind_expr);

        fn_decl.gimplify(backend);
        fn_decl.finalize(backend);
    }
}

/// Every lowered type is one of the backend's interned nodes, and so may be
/// stored in a node of any arena.
pub proof fn lemma_lowered_types_interned(tys: Seq<TyKind>)
    requires
        types_supported(tys),
    ensures
        forall|i: int|
            0 <= i < tys.len() ==> (#[trigger] lower_types(tys)[i]).is_interned(),
        forall|len: nat| handles_valid(len, lower_types(tys)),
{
    assert forall|i: int| 0 <= i < tys.len() implies (#[trigger] lower_types(
        tys,
    )[i]).is_interned() by {
        assert(lower_type(tys[i]) is Ok);
    }
}

/// Lowers the function `name` with the body `body`: assembles it, lowers its
/// blocks in order, and hands it over. Stops at the first construct that is
/// not supported; the function is then never bound nor handed over.
pub fn func_mir_to_gcc(backend: &mut Backend, name: &str, body: &Body) -> (done: Result<
    (),
    Unimplemented,
>)
    requires
        old(backend).wf(),
        body.wf(),
    ensures
        (final(backend)@, done) == lower_function(old(backend)@, name@, *body),
        final(backend).wf(),
{
    let mut fn_conv = match FunctionConversion::new(backend, name, body) {
        Ok(conv) => conv,
        Err(e) => {
            return Err(e);
        },
    };
    let ghost conv = fn_conv@;
    let ghost declared = backend@;
    let ghost blocks = body.basic_blocks@;

    let mut bb_idx: usize = 0;
    while bb_idx < body.basic_blocks.len()
        invariant
            bb_idx <= blocks.len(),
            blocks == body.basic_blocks@,
            conv.block_labels.len() == blocks.len(),
            fn_conv@ == conv,
            backend.wf(),
            fn_conv.wf(backend),
            lower_blocks(declared, conv, blocks, bb_idx as nat) == (backend@, Ok::<
                (),
                Unimplemented,
            >(())),
            begin_function(old(backend)@, name@, *body) == (declared, Ok::<
                FunctionConversionView,
                Unimplemented,
            >(conv)),
        decreases blocks.len() - bb_idx,
    {
        let done = fn_conv.convert_basic_block(backend, bb_idx, &body.basic_blocks[bb_idx]);
        assert(lower_blocks(declared, conv, blocks, (bb_idx + 1) as nat) == (backend@, done));
        if let Err(e) = done {
            proof {
                lemma_blocks_stop(declared, conv, blocks, (bb_idx + 1) as nat, blocks.len());
            }
            return Err(e);
        }
        bb_idx += 1;
    }

    fn_conv.finalize(backend);
    Ok(())
}

/// Lowers the functions of a compilation unit, one after the other, each to
/// its end before the next begins. Stops at the first function that fails.
pub fn mir2gimple(backend: &mut Backend, items: &Vec<Item>) -> (done: Result<(), Unimplemented>)
    requires
        old(backend).wf(),
        forall|i: int| 0 <= i < items@.len() ==> (#[trigger] items@[i]).body.wf(),
    ensures
        (final(backend)@, done) == lower_unit(old(backend)@, items@, items@.len()),
        final(backend).wf(),
{
    let mut i: usize = 0;
    while i < items.len()
        invariant
            i <= items@.len(),
            forall|i: int| 0 <= i < items@.len() ==> (#[trigger] items@[i]).body.wf(),
            backend.wf(),
            lower_unit(old(backend)@, items@, i as nat) == (backend@, Ok::<(), Unimplemented>(())),
        decreases items@.len() - i,
    {
        let done = func_mir_to_gcc(backend, items[i].name.as_str(), &items[i].body);
        assert(lower_unit(old(backend)@, items@, (i + 1) as nat) == (backend@, done));
        if let Err(e) = done {
            proof {
                lemma_unit_stops(old(backend)@, items@, (i + 1) as nat, items@.len());
            }
            return Err(e);
        }
        i += 1;
    }
    Ok(())
}

} // verus!
