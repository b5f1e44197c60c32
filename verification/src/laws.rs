//! What holds of every lowering, stated over the functions that the
//! contracts of [`crate::mir2gimple`] speak of.

use crate::gcc_api::{
    bind_expr_node, node_has_code, parm_decl_node, result_decl_node, Backend, BackendView,
    Location, Request, Tree,
};
use crate::mir::{BasicBlockData, Body, IntTy, Place, Statement, TerminatorKind, TyKind, UintTy};
use crate::mir2gimple::{
    begin_function, declare_requests, finish_function, lemma_blocks_stop, lower_block,
    lower_blocks, lower_function, lower_signature, lower_statement, lower_statements,
    lower_terminator, lower_type, resolve_place, FunctionConversionView, Unimplemented,
};
use crate::tree_codes::TreeCode;
use vstd::prelude::*;

verus! {

/// The scalar types that have a backend type: unit, and the signed and
/// unsigned integers of 8, 16, 32 and 64 bits and of pointer width.
pub open spec fn supported_scalar(ty: TyKind) -> bool {
    match ty {
        TyKind::Tuple(fields) => fields == 0,
        TyKind::Int(ity) => ity != IntTy::I128,
        TyKind::Uint(uty) => uty != UintTy::U128,
        _ => false,
    }
}

/// A type is lowered exactly when it is a supported scalar; any other is
/// refused as an unimplemented type.
pub proof fn type_lowering_covers_supported_scalars(ty: TyKind)
    ensures
        lower_type(ty) is Ok <==> supported_scalar(ty),
        lower_type(ty) is Err ==> lower_type(ty) == Err::<Tree, Unimplemented>(
            Unimplemented::Type,
        ),
{
}

/// Lowering a supported scalar twice gives the same handle both times, and
/// that handle names a node that the backend interns: it belongs to every
/// arena, whatever the arena holds.
pub proof fn type_lowering_is_stable(
    ty: TyKind,
    first: Tree,
    second: Tree,
    one: Backend,
    other: Backend,
)
    requires
        supported_scalar(ty),
        lower_type(ty) == Ok::<Tree, Unimplemented>(first),
        lower_type(ty) == Ok::<Tree, Unimplemented>(second),
    ensures
        first == second,
        first.is_interned(),
        one.holds(first),
        other.holds(first),
{
}

/// A place without projection resolves by its slot alone: slot 0 to the
/// result declaration, the slots 1 to K, for K parameters, to the parameter
/// declarations in their order, and every slot after them to nothing.
pub proof fn place_resolution_follows_slots(conv: FunctionConversionView, place: Place)
    requires
        place.projection@.len() == 0,
    ensures
        place.local == 0 ==> resolve_place(conv, place) == Ok::<Tree, Unimplemented>(
            conv.res_decl,
        ),
        1 <= place.local <= conv.parm_decls.len() ==> resolve_place(conv, place) == Ok::<
            Tree,
            Unimplemented,
        >(conv.parm_decls[place.local - 1]),
        place.local > conv.parm_decls.len() ==> resolve_place(conv, place) == Err::<
            Tree,
            Unimplemented,
        >(Unimplemented::Local),
{
}

/// A place with a projection never resolves, whatever its slot.
pub proof fn projection_is_refused(conv: FunctionConversionView, place: Place)
    requires
        place.projection@.len() > 0,
    ensures
        resolve_place(conv, place) == Err::<Tree, Unimplemented>(Unimplemented::Projection),
{
}

/// Whether `request` is one that emission makes: for a node, or to append a
/// statement to a list.
pub open spec fn emission_request(request: Request) -> bool {
    request is Build || request is Append
}

/// Whether `after` is `before` with nodes added at its end, statements
/// appended to the list at `list`, and requests for these added to the
/// journal; and nothing else changed.
pub open spec fn extends(before: BackendView, after: BackendView, list: int) -> bool {
    &&& before.nodes.len() <= after.nodes.len()
    &&& forall|i: int|
        0 <= i < before.nodes.len() && i != list ==> #[trigger] after.nodes[i] == before.nodes[i]
    &&& 0 <= list < before.nodes.len() ==> {
        &&& after.nodes[list].code == before.nodes[list].code
        &&& after.nodes[list].type_ == before.nodes[list].type_
        &&& after.nodes[list].payload == before.nodes[list].payload
        &&& before.nodes[list].operands.len() <= after.nodes[list].operands.len()
        &&& forall|k: int|
            0 <= k < before.nodes[list].operands.len() ==> {
                #[trigger] after.nodes[list].operands[k] == before.nodes[list].operands[k]
            }
    }
    &&& before.requests.len() <= after.requests.len()
    &&& forall|k: int|
        0 <= k < before.requests.len() ==> #[trigger] after.requests[k] == before.requests[k]
    &&& forall|k: int|
        before.requests.len() <= k < after.requests.len() ==> emission_request(
            #[trigger] after.requests[k],
        )
}

/// What extends an extension extends the first backend too.
pub proof fn lemma_extends_twice(
    first: BackendView,
    second: BackendView,
    third: BackendView,
    list: int,
)
    requires
        extends(first, second, list),
        extends(second, third, list),
    ensures
        extends(first, third, list),
{
    assert forall|i: int| 0 <= i < first.nodes.len() && i != list implies #[trigger] third.nodes[i]
        == first.nodes[i] by {
        assert(second.nodes[i] == first.nodes[i]);
    }
    if 0 <= list < first.nodes.len() {
        assert forall|k: int|
            0 <= k < first.nodes[list].operands.len() implies #[trigger] third.nodes[list].operands[k]
            == first.nodes[list].operands[k] by {
            assert(second.nodes[list].operands[k] == first.nodes[list].operands[k]);
        }
    }
    assert forall|k: int| 0 <= k < first.requests.len() implies #[trigger] third.requests[k]
        == first.requests[k] by {
        assert(second.requests[k] == first.requests[k]);
    }
    assert forall|k: int| first.requests.len() <= k < third.requests.len() implies emission_request(
        #[trigger] third.requests[k],
    ) by {
        if k < second.requests.len() {
            assert(third.requests[k] == second.requests[k]);
        }
    }
}

/// Lowering a statement only adds nodes and appends to the statement list.
pub proof fn lemma_statement_extends(
    backend: BackendView,
    conv: FunctionConversionView,
    stmt: Statement,
)
    ensures
        extends(backend, lower_statement(backend, conv, stmt).0, conv.stmt_list.position()),
{
}

/// Lowering statements only adds nodes and appends to the statement list.
pub proof fn lemma_statements_extend(
    backend: BackendView,
    conv: FunctionConversionView,
    stmts: Seq<Statement>,
    count: nat,
)
    ensures
        extends(
            backend,
            lower_statements(backend, conv, stmts, count).0,
            conv.stmt_list.position(),
        ),
    decreases count,
{
    if count > 0 {
        let before = lower_statements(backend, conv, stmts, (count - 1) as nat);
        lemma_statements_extend(backend, conv, stmts, (count - 1) as nat);
        if before.1 is Ok {
            lemma_statement_extends(before.0, conv, stmts[count - 1]);
            lemma_extends_twice(
                backend,
                before.0,
                lower_statement(before.0, conv, stmts[count - 1]).0,
                conv.stmt_list.position(),
            );
        }
    }
}

/// Lowering a block only adds nodes and appends to the statement list, and
/// the first statement that it appends is the block's label: whatever else
/// the block emits comes after it.
pub proof fn block_starts_with_its_label(
    backend: BackendView,
    conv: FunctionConversionView,
    block_index: int,
    block: BasicBlockData,
)
    ensures
        extends(
            backend,
            lower_block(backend, conv, block_index, block).0,
            conv.stmt_list.position(),
        ),
        lower_block(backend, conv, block_index, block).0.requests[backend.requests.len() as int]
            == (Request::Append { list: conv.stmt_list, stmt: conv.block_labels[block_index] }),
        0 <= conv.stmt_list.position() < backend.nodes.len() ==> {
            let list = conv.stmt_list.position();
            let emitted = lower_block(backend, conv, block_index, block).0.nodes[list].operands;
            &&& emitted.len() > backend.nodes[list].operands.len()
            &&& emitted[backend.nodes[list].operands.len() as int] == conv.block_labels[block_index]
        },
{
    let list = conv.stmt_list.position();
    let labelled = backend.appended(conv.stmt_list, conv.block_labels[block_index]);
    let body = lower_statements(labelled, conv, block.statements@, block.statements@.len());
    lemma_statements_extend(labelled, conv, block.statements@, block.statements@.len());
    assert(extends(backend, labelled, list));
    lemma_extends_twice(backend, labelled, body.0, list);
    let first = backend.requests.len() as int;
    assert(body.0.requests[first] == labelled.requests[first]);
    if 0 <= list < backend.nodes.len() {
        assert(body.0.nodes[list].operands[backend.nodes[list].operands.len() as int]
            == labelled.nodes[list].operands[backend.nodes[list].operands.len() as int]);
    }
    if body.1 is Ok {
        let done = lower_terminator(body.0, conv, block.terminator.kind);
        assert(extends(body.0, done.0, list));
        lemma_extends_twice(backend, body.0, done.0, list);
        assert(done.0.requests[first] == body.0.requests[first]);
    }
}

/// Lowering blocks only adds nodes and appends to the statement list.
pub proof fn lemma_blocks_extend(
    backend: BackendView,
    conv: FunctionConversionView,
    blocks: Seq<BasicBlockData>,
    count: nat,
)
    ensures
        extends(backend, lower_blocks(backend, conv, blocks, count).0, conv.stmt_list.position()),
    decreases count,
{
    if count > 0 {
        let before = lower_blocks(backend, conv, blocks, (count - 1) as nat);
        lemma_blocks_extend(backend, conv, blocks, (count - 1) as nat);
        if before.1 is Ok {
            block_starts_with_its_label(before.0, conv, count - 1, blocks[count - 1]);
            lemma_extends_twice(
                backend,
                before.0,
                lower_block(before.0, conv, count - 1, blocks[count - 1]).0,
                conv.stmt_list.position(),
            );
        }
    }
}

/// Where the terminator of a block is not supported, lowering the blocks
/// ends there as an unimplemented terminator, with the backend as the
/// statements of that block left it: no block after it emits anything.
pub proof fn unsupported_terminator_ends_emission(
    backend: BackendView,
    conv: FunctionConversionView,
    blocks: Seq<BasicBlockData>,
    failed: nat,
)
    requires
        failed < blocks.len(),
        lower_blocks(backend, conv, blocks, failed).1 is Ok,
        lower_statements(
            lower_blocks(backend, conv, blocks, failed).0.appended(
                conv.stmt_list,
                conv.block_labels[failed as int],
            ),
            conv,
            blocks[failed as int].statements@,
            blocks[failed as int].statements@.len(),
        ).1 is Ok,
        blocks[failed as int].terminator.kind != TerminatorKind::Return,
    ensures
        lower_blocks(backend, conv, blocks, blocks.len()) == (
            lower_statements(
                lower_blocks(backend, conv, blocks, failed).0.appended(
                    conv.stmt_list,
                    conv.block_labels[failed as int],
                ),
                conv,
                blocks[failed as int].statements@,
                blocks[failed as int].statements@.len(),
            ).0,
            Err::<(), Unimplemented>(Unimplemented::Terminator),
        ),
{
    assert(lower_blocks(backend, conv, blocks, failed + 1) == lower_block(
        lower_blocks(backend, conv, blocks, failed).0,
        conv,
        failed as int,
        blocks[failed as int],
    ));
    lemma_blocks_stop(backend, conv, blocks, failed + 1, blocks.len());
}

/// A function fails where the first of its blocks fails, with that block's
/// error and with the backend as that block left it: no block after it is
/// lowered, and the function is not handed over.
pub proof fn function_stops_at_its_first_failing_block(
    backend: BackendView,
    name: Seq<char>,
    body: Body,
    failed: nat,
)
    requires
        lower_signature(body) is Ok,
        failed < body.basic_blocks@.len(),
        lower_blocks(
            begin_function(backend, name, body).0,
            begin_function(backend, name, body).1->Ok_0,
            body.basic_blocks@,
            failed + 1,
        ).1 is Err,
    ensures
        lower_function(backend, name, body) == lower_blocks(
            begin_function(backend, name, body).0,
            begin_function(backend, name, body).1->Ok_0,
            body.basic_blocks@,
            failed + 1,
        ),
{
    lemma_blocks_stop(
        begin_function(backend, name, body).0,
        begin_function(backend, name, body).1->Ok_0,
        body.basic_blocks@,
        failed + 1,
        body.basic_blocks@.len(),
    );
}

/// The stages of lowering one function whose signature is supported, in an
/// arena that still fits the handles afterwards: where its declarations
/// stand, and that emission only extends what assembly left.
pub proof fn lemma_function_stages(start: BackendView, name: Seq<char>, body: Body)
    requires
        lower_signature(body) is Ok,
        lower_function(start, name, body).0.nodes.len() <= usize::MAX,
    ensures
        ({
            let base = start.nodes.len();
            let params = body.spec_arg_tys().len();
            let blocks = body.basic_blocks@.len();
            let declared = begin_function(start, name, body).0;
            let conv = begin_function(start, name, body).1->Ok_0;
            let emitted = lower_blocks(declared, conv, body.basic_blocks@, blocks);
            &&& begin_function(start, name, body).1 is Ok
            &&& declared.nodes.len() == base + 5 + params + blocks
            &&& declared.requests == start.requests + declare_requests(base, params, blocks)
            &&& conv.fn_decl.position() == base + 1
            &&& conv.main_gcc_block.position() == base + 2
            &&& conv.res_decl.position() == base + 3
            &&& conv.stmt_list.position() == base + 4 + params + blocks
            &&& conv.parm_decls.len() == params
            &&& conv.block_labels.len() == blocks
            &&& forall|i: int|
                0 <= i < params ==> (#[trigger] conv.parm_decls[i]).position() == base + 4 + i
            &&& forall|k: int|
                0 <= k < blocks ==> (#[trigger] conv.block_labels[k]).position() == base + 4
                    + params + k
            &&& extends(declared, emitted.0, conv.stmt_list.position())
            &&& forall|i: int| 0 <= i < base ==> #[trigger] declared.nodes[i] == start.nodes[i]
            &&& lower_function(start, name, body) == if emitted.1 is Ok {
                (finish_function(emitted.0, conv), emitted.1)
            } else {
                emitted
            }
        }),
{
    let base = start.nodes.len();
    let params = body.spec_arg_tys().len();
    let blocks = body.basic_blocks@.len();
    let declared = begin_function(start, name, body).0;
    let conv = begin_function(start, name, body).1->Ok_0;
    let emitted = lower_blocks(declared, conv, body.basic_blocks@, blocks);
    lemma_blocks_extend(declared, conv, body.basic_blocks@, blocks);
    assert(declared.nodes.len() == base + 5 + params + blocks);
    assert(declared.nodes.len() <= emitted.0.nodes.len());
    assert(emitted.0.nodes.len() <= lower_function(start, name, body).0.nodes.len());
}

/// Lowering a function only adds to the backend: every node that stood in
/// the arena before stands in it unchanged afterwards, and every request
/// made before stands in the journal where it stood, whether the function
/// was lowered to its end or not.
pub proof fn lowering_keeps_what_was_there(
    start: Backend,
    end: Backend,
    name: Seq<char>,
    body: Body,
)
    requires
        end@ == lower_function(start@, name, body).0,
    ensures
        start@.nodes.len() <= end@.nodes.len(),
        forall|i: int| 0 <= i < start@.nodes.len() ==> #[trigger] end@.nodes[i] == start@.nodes[i],
        start@.requests.len() <= end@.requests.len(),
        forall|k: int|
            0 <= k < start@.requests.len() ==> #[trigger] end@.requests[k] == start@.requests[k],
{
    assert(end.nodes.len() == end.nodes@.len());
    if lower_signature(body) is Ok {
        lemma_function_stages(start@, name, body);
        let declared = begin_function(start@, name, body).0;
        let conv = begin_function(start@, name, body).1->Ok_0;
        let emitted = lower_blocks(declared, conv, body.basic_blocks@, body.basic_blocks@.len());
        assert forall|i: int| 0 <= i < start@.nodes.len() implies #[trigger] end@.nodes[i]
            == start@.nodes[i] by {
            assert(emitted.0.nodes[i] == declared.nodes[i]);
        }
        assert forall|k: int| 0 <= k < start@.requests.len() implies #[trigger] end@.requests[k]
            == start@.requests[k] by {
            assert(emitted.0.requests[k] == declared.requests[k]);
        }
    }
}

/// The declarations of a function follow its signature: the result
/// declaration has the lowered type of the result, and the parameter at slot
/// `i + 1` resolves to the declaration made for the parameter `i`, which has
/// the lowered type of that parameter and is bound to the function. Emission
/// leaves these declarations as assembly made them.
pub proof fn declarations_follow_signature(
    start: Backend,
    end: Backend,
    name: Seq<char>,
    body: Body,
)
    requires
        lower_signature(body) is Ok,
        end@ == lower_function(start@, name, body).0,
    ensures
        ({
            let base = start@.nodes.len() as int;
            let conv = begin_function(start@, name, body).1->Ok_0;
            let function = Tree::at((base + 1) as nat);
            &&& conv.fn_decl == function
            &&& conv.res_decl == Tree::at((base + 3) as nat)
            &&& end@.nodes[base + 3] == result_decl_node(
                Location(0),
                lower_type(body.spec_return_ty())->Ok_0,
            )
            &&& conv.parm_decls.len() == body.arg_count
            &&& forall|i: int|
                0 <= i < body.arg_count ==> {
                    &&& #[trigger] conv.parm_decls[i] == Tree::at((base + 4 + i) as nat)
                    &&& end@.nodes[base + 4 + i] == parm_decl_node(
                        lower_type(body.spec_arg_tys()[i])->Ok_0,
                        function,
                    )
                }
        }),
{
    assert(end.nodes.len() == end.nodes@.len());
    lemma_function_stages(start@, name, body);
    let base = start@.nodes.len() as int;
    let declared = begin_function(start@, name, body).0;
    let conv = begin_function(start@, name, body).1->Ok_0;
    let emitted = lower_blocks(declared, conv, body.basic_blocks@, body.basic_blocks@.len());
    assert(emitted.0.nodes[base + 3] == declared.nodes[base + 3]);
    assert forall|i: int| 0 <= i < body.arg_count implies {
        &&& #[trigger] conv.parm_decls[i] == Tree::at((base + 4 + i) as nat)
        &&& end@.nodes[base + 4 + i] == parm_decl_node(
            lower_type(body.spec_arg_tys()[i])->Ok_0,
            Tree::at((base + 1) as nat),
        )
    } by {
        assert(emitted.0.nodes[base + 4 + i] == declared.nodes[base + 4 + i]);
    }
}

/// A function is handed over to the backend exactly when all of it was
/// lowered. Then its body is the last node requested, the statement list
/// bound into the function's scope, and the last requests made are these
/// four, in this order: for that node, to attach it, to gimplify the
/// function, to finalize it. A function that failed keeps its declaration,
/// defined here and to be kept, but has no body and was neither gimplified
/// nor finalized.
pub proof fn function_is_handed_over_only_when_lowered(
    start: Backend,
    end: Backend,
    name: Seq<char>,
    body: Body,
)
    requires
        lower_signature(body) is Ok,
        end@ == lower_function(start@, name, body).0,
    ensures
        ({
            let conv = begin_function(start@, name, body).1->Ok_0;
            let function = conv.fn_decl;
            let data = end@.data(function);
            let last = end@.requests.len() - 1;
            &&& function == Tree::at(start@.nodes.len() + 1)
            &&& node_has_code(end@.nodes, function, TreeCode::FunctionDecl)
            &&& end@.nodes[function.position()].type_ == Tree::at(start@.nodes.len())
            &&& data.name == name
            &&& data.external == Some(false)
            &&& data.preserve_p == Some(true)
            &&& data.result == conv.res_decl
            &&& data.initial == conv.main_gcc_block
            &&& data.arguments == conv.parm_decls
            &&& if lower_function(start@, name, body).1 is Ok {
                let bind = Tree::at((end@.nodes.len() - 1) as nat);
                &&& data.gimplified
                &&& data.finalized
                &&& data.saved_tree == bind
                &&& end@.nodes[end@.nodes.len() - 1] == bind_expr_node(
                    Tree::null(),
                    conv.stmt_list,
                    conv.main_gcc_block,
                )
                &&& end@.requests[last - 3] == Request::Build(bind)
                &&& end@.requests[last - 2] == (Request::SetSavedTree { function, tree: bind })
                &&& end@.requests[last - 1] == (Request::Gimplify { function })
                &&& end@.requests[last] == (Request::Finalize { function })
            } else {
                &&& !data.gimplified
                &&& !data.finalized
                &&& data.saved_tree == Tree::null()
                &&& forall|k: int|
                    start@.requests.len() <= k < end@.requests.len() ==> {
                        &&& !(#[trigger] end@.requests[k] is SetSavedTree)
                        &&& !(end@.requests[k] is Gimplify)
                        &&& !(end@.requests[k] is Finalize)
                    }
            }
        }),
{
    assert(end.nodes.len() == end.nodes@.len());
    lemma_function_stages(start@, name, body);
    let base = start@.nodes.len() as int;
    let params = body.spec_arg_tys().len();
    let blocks = body.basic_blocks@.len();
    let declared = begin_function(start@, name, body).0;
    let conv = begin_function(start@, name, body).1->Ok_0;
    let emitted = lower_blocks(declared, conv, body.basic_blocks@, body.basic_blocks@.len());
    assert(emitted.0.nodes[base + 1] == declared.nodes[base + 1]);
    if lower_function(start@, name, body).1 is Err {
        assert forall|k: int| start@.requests.len() <= k < end@.requests.len() implies {
            &&& !(#[trigger] end@.requests[k] is SetSavedTree)
            &&& !(end@.requests[k] is Gimplify)
            &&& !(end@.requests[k] is Finalize)
        } by {
            if k < declared.requests.len() {
                assert(end@.requests[k] == declared.requests[k]);
                assert(declared.requests[k] == declare_requests(
                    base as nat,
                    params,
                    blocks,
                )[k - start@.requests.len()]);
            } else {
                assert(emission_request(end@.requests[k]));
            }
        }
    }
}

/// Lowering the same function twice requests two function declarations: the
/// second run requests a declaration of its own, at a handle that differs
/// from the first, and leaves the first declaration as the first run left
/// it.
pub proof fn lowering_twice_declares_twice(
    start: Backend,
    middle: Backend,
    end: Backend,
    name: Seq<char>,
    body: Body,
)
    requires
        lower_signature(body) is Ok,
        middle@ == lower_function(start@, name, body).0,
        end@ == lower_function(middle@, name, body).0,
    ensures
        ({
            let first = Tree::at(start@.nodes.len() + 1);
            let second = Tree::at(middle@.nodes.len() + 1);
            &&& first != second
            &&& first.position() < middle@.nodes.len() <= second.position()
            &&& node_has_code(end@.nodes, first, TreeCode::FunctionDecl)
            &&& node_has_code(end@.nodes, second, TreeCode::FunctionDecl)
            &&& end@.data(first).name == name
            &&& end@.data(second).name == name
            &&& end@.nodes[first.position()] == middle@.nodes[first.position()]
            &&& end@.requests[start@.requests.len() as int + 1] == Request::Build(first)
            &&& end@.requests[middle@.requests.len() as int + 1] == Request::Build(second)
            &&& start@.requests.len() + 1 < middle@.requests.len()
        }),
{
    assert(middle.nodes.len() == middle.nodes@.len());
    assert(end.nodes.len() == end.nodes@.len());
    lemma_function_stages(start@, name, body);
    lemma_function_stages(middle@, name, body);
    function_is_handed_over_only_when_lowered(start, middle, name, body);
    function_is_handed_over_only_when_lowered(middle, end, name, body);
    lowering_keeps_what_was_there(start, middle, name, body);
    lowering_keeps_what_was_there(middle, end, name, body);
    let params = body.spec_arg_tys().len();
    let blocks = body.basic_blocks@.len();
    let first_declared = begin_function(start@, name, body).0;
    let second_declared = begin_function(middle@, name, body).0;
    assert(first_declared.requests[start@.requests.len() as int + 1] == declare_requests(
        start@.nodes.len(),
        params,
        blocks,
    )[1]);
    assert(second_declared.requests[middle@.requests.len() as int + 1] == declare_requests(
        middle@.nodes.len(),
        params,
        blocks,
    )[1]);
}

} // verus!
