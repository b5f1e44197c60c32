use vstd::prelude::*;

verus! {

/// The widths of a signed integer type.
#[derive(Clone, Copy, Debug, PartialEq, Eq, Structural)]
pub enum IntTy {
    Isize,
    I8,
    I16,
    I32,
    I64,
    I128,
}

/// The widths of an unsigned integer type.
#[derive(Clone, Copy, Debug, PartialEq, Eq, Structural)]
pub enum UintTy {
    Usize,
    U8,
    U16,
    U32,
    U64,
    U128,
}

/// The kind of a source type. A tuple keeps the number of its fields, which
/// is all that tells the unit type from the others.
#[derive(Clone, Copy, Debug, PartialEq, Eq, Structural)]
pub enum TyKind {
    Bool,
    Char,
    Int(IntTy),
    Uint(UintTy),
    Float,
    Adt,
    Str,
    Array,
    Slice,
    RawPtr,
    Ref,
    FnDef,
    FnPtr,
    Never,
    Tuple(usize),
    Other,
}

/// One step from a storage location into it.
#[derive(Clone, Copy, Debug, PartialEq, Eq, Structural)]
pub enum ProjectionElem {
    Deref,
    Field(usize),
    Index(usize),
    Other,
}

/// A storage location: a local slot, and the steps from it into the value
/// that it holds.
#[derive(Clone, Debug, PartialEq, Eq)]
pub struct Place {
    pub local: usize,
    pub projection: Vec<ProjectionElem>,
}

/// How a constant's value is given. Only a plain scalar carries its bits:
/// `data`, in `size` bytes.
#[derive(Clone, Copy, Debug, PartialEq, Eq, Structural)]
pub enum ConstKind {
    Scalar { data: u128, size: u8 },
    Other,
}

/// A literal value with its type.
#[derive(Clone, Copy, Debug, PartialEq, Eq, Structural)]
pub struct Constant {
    pub ty: TyKind,
    pub val: ConstKind,
}

/// What a statement reads: a place, by copy or by move, or a constant.
#[derive(Clone, Debug, PartialEq, Eq)]
pub enum Operand {
    Copy(Place),
    Move(Place),
    Constant(Constant),
}

/// The right-hand side of an assignment. Only `Use` carries what it needs
/// to be lowered; the other kinds are named so that each can be told apart.
#[derive(Clone, Debug, PartialEq, Eq)]
pub enum Rvalue {
    Use(Operand),
    Repeat,
    Ref,
    AddressOf,
    Len,
    Cast,
    BinaryOp,
    CheckedBinaryOp,
    NullaryOp,
    UnaryOp,
    Discriminant,
    Aggregate,
}

/// The kind of a statement.
#[derive(Clone, Debug, PartialEq, Eq)]
pub enum StatementKind {
    Assign(Place, Rvalue),
    FakeRead,
    SetDiscriminant,
    StorageLive(usize),
    StorageDead(usize),
    InlineAsm,
    Retag,
    AscribeUserType,
    Nop,
}

#[derive(Clone, Debug, PartialEq, Eq)]
pub struct Statement {
    pub kind: StatementKind,
}

/// The kind of a terminator: how control leaves a block.
#[derive(Clone, Copy, Debug, PartialEq, Eq, Structural)]
pub enum TerminatorKind {
    Goto { target: usize },
    SwitchInt,
    Resume,
    Abort,
    Return,
    Unreachable,
    Drop,
    DropAndReplace,
    Call,
    Assert,
    Yield,
    GeneratorDrop,
    FalseEdges,
    FalseUnwind,
}

#[derive(Clone, Copy, Debug, PartialEq, Eq, Structural)]
pub struct Terminator {
    pub kind: TerminatorKind,
}

/// A basic block: statements in order, then the one terminator.
#[derive(Clone, Debug, PartialEq, Eq)]
pub struct BasicBlockData {
    pub statements: Vec<Statement>,
    pub terminator: Terminator,
}

/// The declaration of a local slot.
#[derive(Clone, Copy, Debug, PartialEq, Eq, Structural)]
pub struct LocalDecl {
    pub ty: TyKind,
}

/// A function body. Slot 0 holds the result, slots 1 to `arg_count` the
/// parameters in order, the slots after them the function's own locals.
#[derive(Clone, Debug, PartialEq, Eq)]
pub struct Body {
    pub local_decls: Vec<LocalDecl>,
    pub arg_count: usize,
    pub basic_blocks: Vec<BasicBlockData>,
}

/// One function of a compilation unit: its name and its body.
#[derive(Clone, Debug, PartialEq, Eq)]
pub struct Item {
    pub name: String,
    pub body: Body,
}

impl Body {
    /// The result slot and every parameter slot are declared.
    pub open spec fn wf(&self) -> bool {
        self.arg_count < self.local_decls@.len()
    }

    /// The type of the result.
    pub open spec fn spec_return_ty(&self) -> TyKind {
        self.local_decls@[0].ty
    }

    /// The types of the parameters, in order.
    pub open spec fn spec_arg_tys(&self) -> Seq<TyKind> {
        Seq::new(self.arg_count as nat, |i: int| self.local_decls@[i + 1].ty)
    }

    /// Whether the result slot and every parameter slot are declared.
    pub fn is_wf(&self) -> (ok: bool)
        ensures
            ok == self.wf(),
    {
        self.arg_count < self.local_decls.len()
    }

    /// The type of the result.
    #[verifier::when_used_as_spec(spec_return_ty)]
    pub fn return_ty(&self) -> (ty: TyKind)
        requires
            self.wf(),
        ensures
            ty == self.spec_return_ty(),
    {
        self.local_decls[0].ty
    }
}

} // verus!
