use crate::tree_codes::{IntegerTypeKind, TreeCode, TreeIndex};
use vstd::prelude::*;

verus! {

/// A source position, as the backend numbers them.
#[derive(Clone, Copy, Debug, PartialEq, Eq, Structural)]
pub struct Location(pub u32);

impl Location {
    /// The position of a node that has none.
    pub fn unknown() -> (loc: Location)
        ensures
            loc == Location(0u32),
    {
        Location(0)
    }

    /// The position of the backend's built-in declarations.
    pub fn builtins() -> (loc: Location)
        ensures
            loc == Location(1u32),
    {
        Location(1)
    }
}

/// What a handle names: nothing, one of the nodes that the backend interns
/// once per process, or a node of an arena by its position.
#[derive(Clone, Copy, Debug, PartialEq, Eq, Structural)]
pub enum TreeRef {
    Null,
    Global(TreeIndex),
    Integer(IntegerTypeKind),
    Node(usize),
}

/// A handle to a backend node. Handles are copied freely; the node itself
/// belongs to the backend.
#[derive(Clone, Copy, Debug, PartialEq, Eq, Structural)]
pub struct Tree(pub TreeRef);

/// What the backend keeps of a function declaration besides its type.
pub struct FunctionData {
    pub name: String,
    pub result: Tree,
    pub initial: Tree,
    pub saved_tree: Tree,
    pub arguments: Vec<Tree>,
    pub external: Option<bool>,
    pub preserve_p: Option<bool>,
    pub gimplified: bool,
    pub finalized: bool,
}

/// What a node holds besides its code, type and operands.
pub enum Payload {
    Plain,
    Integer(i64),
    Decl(Location),
    Function(FunctionData),
}

/// One node of the arena.
pub struct TreeNode {
    pub code: TreeCode,
    pub type_: Tree,
    pub operands: Vec<Tree>,
    pub payload: Payload,
}

pub ghost struct FunctionDataView {
    pub name: Seq<char>,
    pub result: Tree,
    pub initial: Tree,
    pub saved_tree: Tree,
    pub arguments: Seq<Tree>,
    pub external: Option<bool>,
    pub preserve_p: Option<bool>,
    pub gimplified: bool,
    pub finalized: bool,
}

pub ghost enum PayloadView {
    Plain,
    Integer(i64),
    Decl(Location),
    Function(FunctionDataView),
}

pub ghost struct TreeNodeView {
    pub code: TreeCode,
    pub type_: Tree,
    pub operands: Seq<Tree>,
    pub payload: PayloadView,
}

impl View for FunctionData {
    type V = FunctionDataView;

    open spec fn view(&self) -> FunctionDataView {
        FunctionDataView {
            name: self.name@,
            result: self.result,
            initial: self.initial,
            saved_tree: self.saved_tree,
            arguments: self.arguments@,
            external: self.external,
            preserve_p: self.preserve_p,
            gimplified: self.gimplified,
            finalized: self.finalized,
        }
    }
}

impl View for Payload {
    type V = PayloadView;

    open spec fn view(&self) -> PayloadView {
        match *self {
            Payload::Plain => PayloadView::Plain,
            Payload::Integer(value) => PayloadView::Integer(value),
            Payload::Decl(loc) => PayloadView::Decl(loc),
            Payload::Function(data) => PayloadView::Function(data@),
        }
    }
}

impl View for TreeNode {
    type V = TreeNodeView;

    open spec fn view(&self) -> TreeNodeView {
        TreeNodeView {
            code: self.code,
            type_: self.type_,
            operands: self.operands@,
            payload: self.payload@,
        }
    }
}

/// One request made of the backend, as the journal keeps it.
#[derive(Clone, Copy, Debug, PartialEq, Eq, Structural)]
pub enum Request {
    /// A node was requested; the backend handed out this handle for it.
    Build(Tree),
    /// `count` parameter declarations were requested for `function` in one
    /// call; the backend handed out `count` handles in a row from `first`.
    ParmDecls { function: Tree, first: Tree, count: usize },
    /// `stmt` was appended to the statement list `list`.
    Append { list: Tree, stmt: Tree },
    SetResult { function: Tree, result: Tree },
    SetInitial { function: Tree, tree: Tree },
    SetSavedTree { function: Tree, tree: Tree },
    SetExternal { function: Tree, value: bool },
    SetPreserveP { function: Tree, value: bool },
    Gimplify { function: Tree },
    /// `function` was finalized, in the mode that keeps the backend from
    /// collecting it.
    Finalize { function: Tree },
}

/// The backend as the construction entry points see it: the arena of nodes
/// that they fill, and the journal of the requests made, in the order in
/// which they were made. A node's handle is its position in the arena;
/// nodes are never removed or moved.
pub struct Backend {
    pub nodes: Vec<TreeNode>,
    pub requests: Vec<Request>,
}

pub ghost struct BackendView {
    pub nodes: Seq<TreeNodeView>,
    pub requests: Seq<Request>,
}

impl View for Backend {
    type V = BackendView;

    open spec fn view(&self) -> BackendView {
        BackendView {
            nodes: Seq::new(self.nodes@.len(), |i: int| self.nodes@[i]@),
            requests: self.requests@,
        }
    }
}

/// The backend's `void` type, one of its interned nodes.
pub open spec fn void_type() -> Tree {
    Tree(TreeRef::Global(TreeIndex::VoidType))
}

/// Whether `tree` names nothing, an interned node, or one of the first `len`
/// nodes of an arena.
pub open spec fn handle_valid(len: nat, tree: Tree) -> bool {
    match tree.0 {
        TreeRef::Null => true,
        TreeRef::Global(index) => index != TreeIndex::Max,
        TreeRef::Integer(itk) => itk != IntegerTypeKind::NoKind,
        TreeRef::Node(i) => i < len,
    }
}

pub open spec fn handles_valid(len: nat, trees: Seq<Tree>) -> bool {
    forall|k: int| 0 <= k < trees.len() ==> handle_valid(len, #[trigger] trees[k])
}

/// Whether every handle that `node` stores is valid in an arena of `len`
/// nodes, and the node keeps function data exactly when it declares a
/// function.
pub open spec fn node_closed(len: nat, node: TreeNodeView) -> bool {
    &&& handle_valid(len, node.type_)
    &&& handles_valid(len, node.operands)
    &&& (node.code == TreeCode::FunctionDecl <==> node.payload is Function)
    &&& match node.payload {
        PayloadView::Function(data) => {
            &&& handle_valid(len, data.result)
            &&& handle_valid(len, data.initial)
            &&& handle_valid(len, data.saved_tree)
            &&& handles_valid(len, data.arguments)
        },
        _ => true,
    }
}

/// Whether the node at `position` was built from what stood in the arena
/// before it: its type, and its operands unless it is a statement list,
/// which takes its statements after it was built.
pub open spec fn built_from_earlier(position: nat, node: TreeNodeView) -> bool {
    &&& handle_valid(position, node.type_)
    &&& node.code != TreeCode::StatementList ==> handles_valid(position, node.operands)
}

/// An arena is closed when no node of it stores a handle that dangles, and
/// every node was built from nodes that stood before it.
pub open spec fn arena_closed(arena: Seq<TreeNodeView>) -> bool {
    forall|i: int|
        0 <= i < arena.len() ==> {
            &&& node_closed(arena.len(), #[trigger] arena[i])
            &&& built_from_earlier(i as nat, arena[i])
        }
}

/// The number of handles that the backend hands out for `request`.
pub open spec fn handed_out(request: Request) -> nat {
    match request {
        Request::Build(_) => 1,
        Request::ParmDecls { count, .. } => count as nat,
        _ => 0,
    }
}

/// The number of handles that the backend handed out for `requests`.
pub open spec fn nodes_requested(requests: Seq<Request>) -> nat
    decreases requests.len(),
{
    if requests.len() == 0 {
        0
    } else {
        nodes_requested(requests.drop_last()) + handed_out(requests.last())
    }
}

/// Whether `request`, made when `before` handles were handed out, names the
/// handle that the backend hands out next.
pub open spec fn names_next_handle(request: Request, before: nat) -> bool {
    match request {
        Request::Build(tree) => tree == Tree::at(before),
        Request::ParmDecls { first, .. } => first == Tree::at(before),
        _ => true,
    }
}

/// The journal matches the arena when the requests account for every node,
/// each at the position that the backend handed out for it: performed in
/// their order on a backend that numbers its nodes as it makes them, the
/// requests give every node the handle that it has in the arena.
#[verifier::opaque]
pub open spec fn journal_matches(backend: BackendView) -> bool {
    &&& nodes_requested(backend.requests) == backend.nodes.len()
    &&& forall|k: int|
        0 <= k < backend.requests.len() ==> names_next_handle(
            #[trigger] backend.requests[k],
            nodes_requested(backend.requests.take(k)),
        )
}

/// A request that names the next handle, for as many nodes as were added,
/// keeps the journal matching the arena.
pub proof fn lemma_journal_grows(before: BackendView, request: Request, after: BackendView)
    requires
        journal_matches(before),
        after.requests == before.requests.push(request),
        after.nodes.len() == before.nodes.len() + handed_out(request),
        names_next_handle(request, before.nodes.len()),
    ensures
        journal_matches(after),
{
    reveal(journal_matches);
    assert(after.requests.drop_last() =~= before.requests);
    assert forall|k: int| 0 <= k < after.requests.len() implies names_next_handle(
        #[trigger] after.requests[k],
        nodes_requested(after.requests.take(k)),
    ) by {
        if k < before.requests.len() {
            assert(after.requests.take(k) =~= before.requests.take(k));
        } else {
            assert(after.requests.take(k) =~= before.requests);
        }
    }
}

/// Whether `tree` names a node of `arena` with the code `code`.
pub open spec fn node_has_code(arena: Seq<TreeNodeView>, tree: Tree, code: TreeCode) -> bool {
    &&& tree.0 is Node
    &&& tree.position() < arena.len()
    &&& arena[tree.position()].code == code
}

/// A node without payload.
pub open spec fn plain_node(code: TreeCode, type_: Tree, operands: Seq<Tree>) -> TreeNodeView {
    TreeNodeView { code, type_, operands, payload: PayloadView::Plain }
}

pub open spec fn function_type_node(return_type: Tree, arg_types: Seq<Tree>) -> TreeNodeView {
    plain_node(TreeCode::FunctionType, return_type, arg_types)
}

pub open spec fn init_expr_node(var: Tree, value: Tree) -> TreeNodeView {
    plain_node(TreeCode::InitExpr, void_type(), seq![var, value])
}

pub open spec fn int_constant_node(int_type: Tree, value: i64) -> TreeNodeView {
    TreeNodeView {
        code: TreeCode::IntegerCst,
        type_: int_type,
        operands: Seq::empty(),
        payload: PayloadView::Integer(value),
    }
}

pub open spec fn return_expr_node(value: Tree) -> TreeNodeView {
    plain_node(TreeCode::ReturnExpr, void_type(), seq![value])
}

pub open spec fn block_node(vars: Tree, subblocks: Tree, supercontext: Tree, chain: Tree)
    -> TreeNodeView {
    plain_node(TreeCode::Block, Tree::null(), seq![vars, subblocks, supercontext, chain])
}

pub open spec fn bind_expr_node(vars: Tree, body: Tree, block: Tree) -> TreeNodeView {
    plain_node(TreeCode::BindExpr, void_type(), seq![vars, body, block])
}

pub open spec fn result_decl_node(loc: Location, type_: Tree) -> TreeNodeView {
    TreeNodeView {
        code: TreeCode::ResultDecl,
        type_,
        operands: Seq::empty(),
        payload: PayloadView::Decl(loc),
    }
}

pub open spec fn label_node(loc: Location) -> TreeNodeView {
    TreeNodeView {
        code: TreeCode::LabelDecl,
        type_: Tree::null(),
        operands: Seq::empty(),
        payload: PayloadView::Decl(loc),
    }
}

/// A parameter declaration of type `type_`, bound to `function`.
pub open spec fn parm_decl_node(type_: Tree, function: Tree) -> TreeNodeView {
    plain_node(TreeCode::ParmDecl, type_, seq![function])
}

pub open spec fn statement_list_node() -> TreeNodeView {
    plain_node(TreeCode::StatementList, Tree::null(), Seq::empty())
}

/// A function declaration as the backend first makes it: named and typed,
/// with nothing attached and no flag set.
pub open spec fn function_decl_node(name: Seq<char>, type_: Tree) -> TreeNodeView {
    TreeNodeView {
        code: TreeCode::FunctionDecl,
        type_,
        operands: Seq::empty(),
        payload: PayloadView::Function(
            FunctionDataView {
                name,
                result: Tree::null(),
                initial: Tree::null(),
                saved_tree: Tree::null(),
                arguments: Seq::empty(),
                external: None,
                preserve_p: None,
                gimplified: false,
                finalized: false,
            },
        ),
    }
}

/// The handles of `count` nodes in a row, the first at position `base`.
pub open spec fn handles_from(base: nat, count: nat) -> Seq<Tree> {
    Seq::new(count, |i: int| Tree::at((base + i) as nat))
}

/// One parameter declaration per type, in the order of the types.
pub open spec fn parm_decl_nodes(arg_types: Seq<Tree>, function: Tree) -> Seq<TreeNodeView> {
    Seq::new(arg_types.len(), |i: int| parm_decl_node(arg_types[i], function))
}

/// The arena after `stmt` is appended to the statement list at `list`; the
/// arena itself where it has no such position.
pub open spec fn with_statement(arena: Seq<TreeNodeView>, list: int, stmt: Tree) -> Seq<
    TreeNodeView,
> {
    if 0 <= list < arena.len() {
        arena.update(
            list,
            TreeNodeView { operands: arena[list].operands.push(stmt), ..arena[list] },
        )
    } else {
        arena
    }
}

/// The function data of the declaration at `function`.
pub open spec fn function_data(arena: Seq<TreeNodeView>, function: int) -> FunctionDataView {
    arena[function].payload->Function_0
}

/// The arena after the declaration at `function` has its data replaced; the
/// arena itself where it has no such position.
pub open spec fn with_function_data(
    arena: Seq<TreeNodeView>,
    function: int,
    data: FunctionDataView,
) -> Seq<TreeNodeView> {
    if 0 <= function < arena.len() {
        arena.update(
            function,
            TreeNodeView { payload: PayloadView::Function(data), ..arena[function] },
        )
    } else {
        arena
    }
}

impl BackendView {
    /// The handle that the next node requested will get.
    pub open spec fn next(self) -> Tree {
        Tree::at(self.nodes.len())
    }

    /// The backend after `node` was requested.
    pub open spec fn built(self, node: TreeNodeView) -> BackendView {
        BackendView {
            nodes: self.nodes.push(node),
            requests: self.requests.push(Request::Build(self.next())),
        }
    }

    /// The backend after `stmt` was appended to the statement list `list`.
    pub open spec fn appended(self, list: Tree, stmt: Tree) -> BackendView {
        BackendView {
            nodes: with_statement(self.nodes, list.position(), stmt),
            requests: self.requests.push(Request::Append { list, stmt }),
        }
    }

    /// The function data of the declaration `function`.
    pub open spec fn data(self, function: Tree) -> FunctionDataView {
        function_data(self.nodes, function.position())
    }

    /// The backend after `request` replaced the data of the declaration
    /// `function` by `data`.
    pub open spec fn function_set(self, function: Tree, data: FunctionDataView, request: Request)
        -> BackendView {
        BackendView {
            nodes: with_function_data(self.nodes, function.position(), data),
            requests: self.requests.push(request),
        }
    }

    /// The backend after one parameter declaration per type of `arg_types`
    /// was requested for `function`, in one call.
    pub open spec fn with_parm_decls(self, function: Tree, arg_types: Seq<Tree>) -> BackendView {
        BackendView {
            nodes: with_function_data(
                self.nodes + parm_decl_nodes(arg_types, function),
                function.position(),
                FunctionDataView {
                    arguments: handles_from(self.nodes.len(), arg_types.len()),
                    ..self.data(function)
                },
            ),
            requests: self.requests.push(
                Request::ParmDecls {
                    function,
                    first: self.next(),
                    count: arg_types.len() as usize,
                },
            ),
        }
    }
}

impl Tree {
    /// The handle that names no node.
    #[verifier::when_used_as_spec(spec_null)]
    pub fn null() -> (tree: Tree)
        ensures
            tree == Tree::spec_null(),
    {
        Tree(TreeRef::Null)
    }

    pub open spec fn spec_null() -> Tree {
        Tree(TreeRef::Null)
    }

    /// The handle of the arena node at position `i`.
    pub open spec fn at(i: nat) -> Tree {
        Tree(TreeRef::Node(i as usize))
    }

    /// The arena position that the handle names, or -1 where it names none.
    pub open spec fn position(self) -> int {
        match self.0 {
            TreeRef::Node(i) => i as int,
            _ => -1,
        }
    }

    /// Whether the handle names a node that the backend interns once per
    /// process, which is the same node whatever an arena holds.
    pub open spec fn is_interned(self) -> bool {
        match self.0 {
            TreeRef::Global(index) => index != TreeIndex::Max,
            TreeRef::Integer(itk) => itk != IntegerTypeKind::NoKind,
            _ => false,
        }
    }

    /// The interned node at `index` of the table of global trees.
    pub fn from_index(index: TreeIndex) -> (tree: Tree)
        requires
            index != TreeIndex::Max,
        ensures
            tree == Tree(TreeRef::Global(index)),
            tree.is_interned(),
    {
        Tree(TreeRef::Global(index))
    }

    /// The interned type of the integer kind `itk`.
    pub fn from_integer_kind(itk: IntegerTypeKind) -> (tree: Tree)
        requires
            itk != IntegerTypeKind::NoKind,
        ensures
            tree == Tree(TreeRef::Integer(itk)),
            tree.is_interned(),
    {
        Tree(TreeRef::Integer(itk))
    }
}

impl Backend {
    /// No node dangles, function declarations alone keep function data,
    /// every position fits a handle, and the journal accounts for every
    /// node.
    pub open spec fn wf(&self) -> bool {
        &&& arena_closed(self@.nodes)
        &&& self@.nodes.len() <= usize::MAX
        &&& journal_matches(self@)
    }

    /// Whether `tree` may be stored in a node of this arena.
    pub open spec fn holds(&self, tree: Tree) -> bool {
        handle_valid(self@.nodes.len(), tree)
    }

    /// Whether every handle of `trees` may be stored in a node of this arena.
    pub open spec fn holds_all(&self, trees: Seq<Tree>) -> bool {
        handles_valid(self@.nodes.len(), trees)
    }

    /// Whether `tree` names a node of this arena with the code `code`.
    pub open spec fn has_code(&self, tree: Tree, code: TreeCode) -> bool {
        node_has_code(self@.nodes, tree, code)
    }

    /// An arena without nodes.
    pub fn new() -> (backend: Backend)
        ensures
            backend@.nodes == Seq::<TreeNodeView>::empty(),
            backend@.requests == Seq::<Request>::empty(),
            backend.wf(),
    {
        let backend = Backend { nodes: Vec::new(), requests: Vec::new() };
        assert(backend@.nodes =~= Seq::<TreeNodeView>::empty());
        proof {
            reveal(journal_matches);
            assert(nodes_requested(backend@.requests) == 0);
        }
        backend
    }

    /// The number of nodes.
    pub fn len(&self) -> (len: usize)
        ensures
            len == self@.nodes.len(),
    {
        self.nodes.len()
    }

    /// The node that `tree` names, where it names one of this arena.
    pub fn node(&self, tree: Tree) -> (node: Option<&TreeNode>)
        ensures
            match node {
                Some(n) => tree.0 is Node && tree.position() < self@.nodes.len() && n@
                    == self@.nodes[tree.position()],
                None => !(tree.0 is Node && tree.position() < self@.nodes.len()),
            },
    {
        match tree.0 {
            TreeRef::Node(i) => {
                if i < self.nodes.len() {
                    Some(&self.nodes[i])
                } else {
                    None
                }
            },
            _ => None,
        }
    }

    /// Adds `node` at the end of the arena and hands out its handle.
    fn add_node(&mut self, node: TreeNode) -> (tree: Tree)
        requires
            old(self).wf(),
            node_closed(old(self)@.nodes.len() + 1, node@),
            built_from_earlier(old(self)@.nodes.len(), node@),
        ensures
            final(self)@ == old(self)@.built(node@),
            final(self).wf(),
            tree == old(self)@.next(),
            final(self).holds(tree),
    {
        let index = self.nodes.len();
        self.nodes.push(node);
        self.requests.push(Request::Build(Tree(TreeRef::Node(index))));
        assert(self@.nodes =~= old(self)@.nodes.push(node@));
        assert(self.nodes.len() == self.nodes@.len());
        proof {
            lemma_journal_grows(old(self)@, Request::Build(Tree(TreeRef::Node(index))), self@);
        }
        Tree(TreeRef::Node(index))
    }
}

impl Tree {
    /// Requests the type of functions from `arg_types`, in that order, to
    /// `return_type`.
    pub fn new_function_type(backend: &mut Backend, return_type: Tree, arg_types: &[Tree]) -> (tree:
        Tree)
        requires
            old(backend).wf(),
            old(backend).holds(return_type),
            old(backend).holds_all(arg_types@),
        ensures
            final(backend)@ == old(backend)@.built(function_type_node(return_type, arg_types@)),
            final(backend).wf(),
            tree == old(backend)@.next(),
    {
        let operands = vstd::slice::slice_to_vec(arg_types);
        backend.add_node(
            TreeNode {
                code: TreeCode::FunctionType,
                type_: return_type,
                operands,
                payload: Payload::Plain,
            },
        )
    }

    /// Requests the node that initialises `var` with `value`; a statement,
    /// so of type `void`.
    pub fn new_init_expr(backend: &mut Backend, var: Tree, value: Tree) -> (tree: Tree)
        requires
            old(backend).wf(),
            old(backend).holds(var),
            old(backend).holds(value),
        ensures
            final(backend)@ == old(backend)@.built(init_expr_node(var, value)),
            final(backend).wf(),
            tree == old(backend)@.next(),
    {
        let mut operands: Vec<Tree> = Vec::new();
        operands.push(var);
        operands.push(value);
        assert(operands@ =~= seq![var, value]);
        backend.add_node(
            TreeNode {
                code: TreeCode::InitExpr,
                type_: Tree::from_index(TreeIndex::VoidType),
                operands,
                payload: Payload::Plain,
            },
        )
    }

    /// Requests the integer literal `value` of type `int_type`.
    pub fn new_int_constant(backend: &mut Backend, int_type: Tree, value: i64) -> (tree: Tree)
        requires
            old(backend).wf(),
            old(backend).holds(int_type),
        ensures
            final(backend)@ == old(backend)@.built(int_constant_node(int_type, value)),
            final(backend).wf(),
            tree == old(backend)@.next(),
    {
        backend.add_node(
            TreeNode {
                code: TreeCode::IntegerCst,
                type_: int_type,
                operands: Vec::new(),
                payload: Payload::Integer(value),
            },
        )
    }

    /// Requests the node that returns `value` from the function; a
    /// statement, so of type `void`.
    pub fn new_return_expr(backend: &mut Backend, value: Tree) -> (tree: Tree)
        requires
            old(backend).wf(),
            old(backend).holds(value),
        ensures
            final(backend)@ == old(backend)@.built(return_expr_node(value)),
            final(backend).wf(),
            tree == old(backend)@.next(),
    {
        let mut operands: Vec<Tree> = Vec::new();
        operands.push(value);
        assert(operands@ =~= seq![value]);
        backend.add_node(
            TreeNode {
                code: TreeCode::ReturnExpr,
                type_: Tree::from_index(TreeIndex::VoidType),
                operands,
                payload: Payload::Plain,
            },
        )
    }

    /// Requests a lexical scope.
    pub fn new_block(
        backend: &mut Backend,
        vars: Tree,
        subblocks: Tree,
        supercontext: Tree,
        chain: Tree,
    ) -> (tree: Tree)
        requires
            old(backend).wf(),
            old(backend).holds(vars),
            old(backend).holds(subblocks),
            old(backend).holds(supercontext),
            old(backend).holds(chain),
        ensures
            final(backend)@ == old(backend)@.built(
                block_node(vars, subblocks, supercontext, chain),
            ),
            final(backend).wf(),
            tree == old(backend)@.next(),
    {
        let mut operands: Vec<Tree> = Vec::new();
        operands.push(vars);
        operands.push(subblocks);
        operands.push(supercontext);
        operands.push(chain);
        assert(operands@ =~= seq![vars, subblocks, supercontext, chain]);
        backend.add_node(
            TreeNode {
                code: TreeCode::Block,
                type_: Tree::null(),
                operands,
                payload: Payload::Plain,
            },
        )
    }

    /// Requests the scope that binds `vars` around `body` within `block`; of
    /// type `void`.
    pub fn new_bind_expr(backend: &mut Backend, vars: Tree, body: Tree, block: Tree) -> (tree:
        Tree)
        requires
            old(backend).wf(),
            old(backend).holds(vars),
            old(backend).holds(body),
            old(backend).holds(block),
        ensures
            final(backend)@ == old(backend)@.built(bind_expr_node(vars, body, block)),
            final(backend).wf(),
            tree == old(backend)@.next(),
    {
        let mut operands: Vec<Tree> = Vec::new();
        operands.push(vars);
        operands.push(body);
        operands.push(block);
        assert(operands@ =~= seq![vars, body, block]);
        backend.add_node(
            TreeNode {
                code: TreeCode::BindExpr,
                type_: Tree::from_index(TreeIndex::VoidType),
                operands,
                payload: Payload::Plain,
            },
        )
    }

    /// Requests the declaration of a function's result, of type `type_`.
    pub fn new_result_decl(backend: &mut Backend, loc: Location, type_: Tree) -> (tree: Tree)
        requires
            old(backend).wf(),
            old(backend).holds(type_),
        ensures
            final(backend)@ == old(backend)@.built(result_decl_node(loc, type_)),
            final(backend).wf(),
            tree == old(backend)@.next(),
    {
        backend.add_node(
            TreeNode {
                code: TreeCode::ResultDecl,
                type_,
                operands: Vec::new(),
                payload: Payload::Decl(loc),
            },
        )
    }

    /// Requests a label that no source text names.
    pub fn new_artificial_label(backend: &mut Backend, loc: Location) -> (tree: Tree)
        requires
            old(backend).wf(),
        ensures
            final(backend)@ == old(backend)@.built(label_node(loc)),
            final(backend).wf(),
            tree == old(backend)@.next(),
    {
        backend.add_node(
            TreeNode {
                code: TreeCode::LabelDecl,
                type_: Tree::null(),
                operands: Vec::new(),
                payload: Payload::Decl(loc),
            },
        )
    }
}

/// A statement list of the backend: statements in the order in which they
/// were appended.
pub struct StatementList(pub Tree);

impl StatementList {
    /// Requests an empty statement list.
    pub fn new(backend: &mut Backend) -> (list: StatementList)
        requires
            old(backend).wf(),
        ensures
            final(backend)@ == old(backend)@.built(statement_list_node()),
            final(backend).wf(),
            list.0 == old(backend)@.next(),
    {
        StatementList(
            backend.add_node(
                TreeNode {
                    code: TreeCode::StatementList,
                    type_: Tree::null(),
                    operands: Vec::new(),
                    payload: Payload::Plain,
                },
            ),
        )
    }

    /// Appends `stmt` to the list; the list keeps its handle.
    pub fn push(&mut self, backend: &mut Backend, stmt: Tree)
        requires
            old(backend).wf(),
            old(backend).has_code(old(self).0, TreeCode::StatementList),
            old(backend).holds(stmt),
        ensures
            final(backend)@ == old(backend)@.appended(old(self).0, stmt),
            final(backend).wf(),
            final(self).0 == old(self).0,
    {
        match self.0.0 {
            TreeRef::Node(i) => {
                backend.nodes[i].operands.push(stmt);
                backend.requests.push(Request::Append { list: self.0, stmt });
                assert(backend@.nodes =~= with_statement(old(backend)@.nodes, i as int, stmt));
                proof {
                    lemma_journal_grows(
                        old(backend)@,
                        Request::Append { list: self.0, stmt },
                        backend@,
                    );
                }
            },
            _ => {},
        }
    }
}

/// A function declaration of the backend.
pub struct Function(pub Tree);

impl Function {
    /// Requests the declaration of a function called `name`, of type `type_`.
    pub fn new(backend: &mut Backend, name: &str, type_: Tree) -> (function: Function)
        requires
            old(backend).wf(),
            old(backend).holds(type_),
        ensures
            final(backend)@ == old(backend)@.built(function_decl_node(name@, type_)),
            final(backend).wf(),
            function.0 == old(backend)@.next(),
    {
        let data = FunctionData {
            name: name.to_owned(),
            result: Tree::null(),
            initial: Tree::null(),
            saved_tree: Tree::null(),
            arguments: Vec::new(),
            external: None,
            preserve_p: None,
            gimplified: false,
            finalized: false,
        };
        Function(
            backend.add_node(
                TreeNode {
                    code: TreeCode::FunctionDecl,
                    type_,
                    operands: Vec::new(),
                    payload: Payload::Function(data),
                },
            ),
        )
    }

    /// Attaches `result` as the declaration of the function's result.
    pub fn set_result(&mut self, backend: &mut Backend, result: Tree)
        requires
            old(backend).wf(),
            old(backend).has_code(old(self).0, TreeCode::FunctionDecl),
            old(backend).holds(result),
        ensures
            final(backend)@ == old(backend)@.function_set(
                old(self).0,
                FunctionDataView { result, ..old(backend)@.data(old(self).0) },
                Request::SetResult { function: old(self).0, result },
            ),
            final(backend).wf(),
            final(self).0 == old(self).0,
    {
        match self.0.0 {
            TreeRef::Node(i) => {
                assert(old(backend)@.nodes[i as int].payload is Function);
                match &mut backend.nodes[i].payload {
                    Payload::Function(data) => {
                        data.result = result;
                    },
                    _ => {},
                }
                backend.requests.push(Request::SetResult { function: self.0, result });
                assert(backend@.nodes =~= with_function_data(
                    old(backend)@.nodes,
                    i as int,
                    FunctionDataView { result, ..old(backend)@.data(self.0) },
                ));
                proof {
                    lemma_journal_grows(
                        old(backend)@,
                        Request::SetResult { function: self.0, result },
                        backend@,
                    );
                }
            },
            _ => {},
        }
    }

    /// Attaches `tree` as the function's outermost lexical scope.
    pub fn set_initial(&mut self, backend: &mut Backend, tree: Tree)
        requires
            old(backend).wf(),
            old(backend).has_code(old(self).0, TreeCode::FunctionDecl),
            old(backend).holds(tree),
        ensures
            final(backend)@ == old(backend)@.function_set(
                old(self).0,
                FunctionDataView { initial: tree, ..old(backend)@.data(old(self).0) },
                Request::SetInitial { function: old(self).0, tree },
            ),
            final(backend).wf(),
            final(self).0 == old(self).0,
    {
        match self.0.0 {
            TreeRef::Node(i) => {
                assert(old(backend)@.nodes[i as int].payload is Function);
                match &mut backend.nodes[i].payload {
                    Payload::Function(data) => {
                        data.initial = tree;
                    },
                    _ => {},
                }
                backend.requests.push(Request::SetInitial { function: self.0, tree });
                assert(backend@.nodes =~= with_function_data(
                    old(backend)@.nodes,
                    i as int,
                    FunctionDataView { initial: tree, ..old(backend)@.data(self.0) },
                ));
                proof {
                    lemma_journal_grows(
                        old(backend)@,
                        Request::SetInitial { function: self.0, tree },
                        backend@,
                    );
                }
            },
            _ => {},
        }
    }

    /// Attaches `tree` as the function's body.
    pub fn set_saved_tree(&mut self, backend: &mut Backend, tree: Tree)
        requires
            old(backend).wf(),
            old(backend).has_code(old(self).0, TreeCode::FunctionDecl),
            old(backend).holds(tree),
        ensures
            final(backend)@ == old(backend)@.function_set(
                old(self).0,
                FunctionDataView { saved_tree: tree, ..old(backend)@.data(old(self).0) },
                Request::SetSavedTree { function: old(self).0, tree },
            ),
            final(backend).wf(),
            final(self).0 == old(self).0,
    {
        match self.0.0 {
            TreeRef::Node(i) => {
                assert(old(backend)@.nodes[i as int].payload is Function);
                match &mut backend.nodes[i].payload {
                    Payload::Function(data) => {
                        data.saved_tree = tree;
                    },
                    _ => {},
                }
                backend.requests.push(Request::SetSavedTree { function: self.0, tree });
                assert(backend@.nodes =~= with_function_data(
                    old(backend)@.nodes,
                    i as int,
                    FunctionDataView { saved_tree: tree, ..old(backend)@.data(self.0) },
                ));
                proof {
                    lemma_journal_grows(
                        old(backend)@,
                        Request::SetSavedTree { function: self.0, tree },
                        backend@,
                    );
                }
            },
            _ => {},
        }
    }

    /// Marks the function as defined elsewhere (`true`) or here (`false`).
    pub fn set_external(&mut self, backend: &mut Backend, value: bool)
        requires
            old(backend).wf(),
            old(backend).has_code(old(self).0, TreeCode::FunctionDecl),
        ensures
            final(backend)@ == old(backend)@.function_set(
                old(self).0,
                FunctionDataView { external: Some(value), ..old(backend)@.data(old(self).0) },
                Request::SetExternal { function: old(self).0, value },
            ),
            final(backend).wf(),
            final(self).0 == old(self).0,
    {
        match self.0.0 {
            TreeRef::Node(i) => {
                assert(old(backend)@.nodes[i as int].payload is Function);
                match &mut backend.nodes[i].payload {
                    Payload::Function(data) => {
                        data.external = Some(value);
                    },
                    _ => {},
                }
                backend.requests.push(Request::SetExternal { function: self.0, value });
                assert(backend@.nodes =~= with_function_data(
                    old(backend)@.nodes,
                    i as int,
                    FunctionDataView { external: Some(value), ..old(backend)@.data(self.0) },
                ));
                proof {
                    lemma_journal_grows(
                        old(backend)@,
                        Request::SetExternal { function: self.0, value },
                        backend@,
                    );
                }
            },
            _ => {},
        }
    }

    /// Marks whether the backend must keep the function although nothing
    /// refers to it.
    pub fn set_preserve_p(&mut self, backend: &mut Backend, value: bool)
        requires
            old(backend).wf(),
            old(backend).has_code(old(self).0, TreeCode::FunctionDecl),
        ensures
            final(backend)@ == old(backend)@.function_set(
                old(self).0,
                FunctionDataView { preserve_p: Some(value), ..old(backend)@.data(old(self).0) },
                Request::SetPreserveP { function: old(self).0, value },
            ),
            final(backend).wf(),
            final(self).0 == old(self).0,
    {
        match self.0.0 {
            TreeRef::Node(i) => {
                assert(old(backend)@.nodes[i as int].payload is Function);
                match &mut backend.nodes[i].payload {
                    Payload::Function(data) => {
                        data.preserve_p = Some(value);
                    },
                    _ => {},
                }
                backend.requests.push(Request::SetPreserveP { function: self.0, value });
                assert(backend@.nodes =~= with_function_data(
                    old(backend)@.nodes,
                    i as int,
                    FunctionDataView { preserve_p: Some(value), ..old(backend)@.data(self.0) },
                ));
                proof {
                    lemma_journal_grows(
                        old(backend)@,
                        Request::SetPreserveP { function: self.0, value },
                        backend@,
                    );
                }
            },
            _ => {},
        }
    }

    /// Asks the backend to bring the attached body into its lower statement
    /// form.
    pub fn gimplify(&mut self, backend: &mut Backend)
        requires
            old(backend).wf(),
            old(backend).has_code(old(self).0, TreeCode::FunctionDecl),
        ensures
            final(backend)@ == old(backend)@.function_set(
                old(self).0,
                FunctionDataView { gimplified: true, ..old(backend)@.data(old(self).0) },
                Request::Gimplify { function: old(self).0 },
            ),
            final(backend).wf(),
            final(self).0 == old(self).0,
    {
        match self.0.0 {
            TreeRef::Node(i) => {
                assert(old(backend)@.nodes[i as int].payload is Function);
                match &mut backend.nodes[i].payload {
                    Payload::Function(data) => {
                        data.gimplified = true;
                    },
                    _ => {},
                }
                backend.requests.push(Request::Gimplify { function: self.0 });
                assert(backend@.nodes =~= with_function_data(
                    old(backend)@.nodes,
                    i as int,
                    FunctionDataView { gimplified: true, ..old(backend)@.data(self.0) },
                ));
                proof {
                    lemma_journal_grows(
                        old(backend)@,
                        Request::Gimplify { function: self.0 },
                        backend@,
                    );
                }
            },
            _ => {},
        }
    }

    /// Hands the function over to the backend for good, in the mode that
    /// keeps the backend from collecting it.
    pub fn finalize(&mut self, backend: &mut Backend)
        requires
            old(backend).wf(),
            old(backend).has_code(old(self).0, TreeCode::FunctionDecl),
        ensures
            final(backend)@ == old(backend)@.function_set(
                old(self).0,
                FunctionDataView { finalized: true, ..old(backend)@.data(old(self).0) },
                Request::Finalize { function: old(self).0 },
            ),
            final(backend).wf(),
            final(self).0 == old(self).0,
    {
        match self.0.0 {
            TreeRef::Node(i) => {
                assert(old(backend)@.nodes[i as int].payload is Function);
                match &mut backend.nodes[i].payload {
                    Payload::Function(data) => {
                        data.finalized = true;
                    },
                    _ => {},
                }
                backend.requests.push(Request::Finalize { function: self.0 });
                assert(backend@.nodes =~= with_function_data(
                    old(backend)@.nodes,
                    i as int,
                    FunctionDataView { finalized: true, ..old(backend)@.data(self.0) },
                ));
                proof {
                    lemma_journal_grows(
                        old(backend)@,
                        Request::Finalize { function: self.0 },
                        backend@,
                    );
                }
            },
            _ => {},
        }
    }

    /// Requests one parameter declaration per type of `arg_types`, bound to
    /// the function in that order, and hands them out in that order.
    pub fn add_parm_decls(&mut self, backend: &mut Backend, arg_types: &[Tree]) -> (decls: Vec<
        Tree,
    >)
        requires
            old(backend).wf(),
            old(backend).has_code(old(self).0, TreeCode::FunctionDecl),
            old(backend).holds_all(arg_types@),
        ensures
            decls@ == handles_from(old(backend)@.nodes.len(), arg_types@.len()),
            final(backend)@ == old(backend)@.with_parm_decls(old(self).0, arg_types@),
            final(backend).wf(),
            final(self).0 == old(self).0,
    {
        let function = self.0;
        let first = Tree(TreeRef::Node(backend.nodes.len()));
        let ghost before = backend@.nodes;
        let mut decls: Vec<Tree> = Vec::new();
        let mut arguments: Vec<Tree> = Vec::new();
        let mut k: usize = 0;
        while k < arg_types.len()
            invariant
                k <= arg_types@.len(),
                arena_closed(backend@.nodes),
                backend@.nodes.len() <= usize::MAX,
                backend.holds_all(arg_types@),
                handles_valid(before.len(), arg_types@),
                before.len() <= backend@.nodes.len(),
                node_has_code(before, function, TreeCode::FunctionDecl),
                backend.has_code(function, TreeCode::FunctionDecl),
                journal_matches(old(backend)@),
                before == old(backend)@.nodes,
                backend@.nodes == before + parm_decl_nodes(arg_types@, function).take(k as int),
                backend@.requests == old(backend)@.requests,
                decls@ == handles_from(before.len(), k as nat),
                arguments@ == decls@,
            decreases arg_types@.len() - k,
        {
            let ghost grown = backend@.nodes;
            let mut operands: Vec<Tree> = Vec::new();
            operands.push(function);
            assert(operands@ =~= seq![function]);
            let index = backend.nodes.len();
            backend.nodes.push(
                TreeNode {
                    code: TreeCode::ParmDecl,
                    type_: arg_types[k],
                    operands,
                    payload: Payload::Plain,
                },
            );
            let decl = Tree(TreeRef::Node(index));
            decls.push(decl);
            arguments.push(decl);
            k += 1;
            proof {
                let nodes = parm_decl_nodes(arg_types@, function);
                assert(backend.nodes.len() == backend.nodes@.len());
                assert(nodes.take(k as int) =~= nodes.take(k - 1).push(nodes[k - 1]));
                assert(backend@.nodes =~= grown.push(nodes[k - 1]));
                assert(backend@.nodes =~= before + nodes.take(k as int));
                assert(decls@ =~= handles_from(before.len(), k as nat));
                assert forall|j: int| 0 <= j < arg_types@.len() implies handle_valid(
                    backend@.nodes.len(),
                    #[trigger] arg_types@[j],
                ) by {
                    assert(handle_valid(grown.len(), arg_types@[j]));
                }
            }
        }
        proof {
            let nodes = parm_decl_nodes(arg_types@, function);
            assert(nodes.take(k as int) =~= nodes);
        }
        let ghost grown = backend@.nodes;
        match function.0 {
            TreeRef::Node(i) => {
                assert(grown[i as int] == before[i as int]);
                match &mut backend.nodes[i].payload {
                    Payload::Function(data) => {
                        data.arguments = arguments;
                    },
                    _ => {},
                }
                backend.requests.push(
                    Request::ParmDecls { function, first, count: arg_types.len() },
                );
                assert(backend@.nodes =~= with_function_data(
                    grown,
                    i as int,
                    FunctionDataView { arguments: decls@, ..function_data(before, i as int) },
                ));
                proof {
                    lemma_journal_grows(
                        old(backend)@,
                        Request::ParmDecls { function, first, count: arg_types.len() },
                        backend@,
                    );
                }
            },
            _ => {},
        }
        decls
    }
}

} // verus!
