use vstd::prelude::*;

verus! {

/// The backend's standard integer kinds, in the order of its table of
/// integer types. `NoKind` closes the list and names no type.
#[derive(Clone, Copy, Debug, PartialEq, Eq, Structural)]
pub enum IntegerTypeKind {
    Char,
    SignedChar,
    UnsignedChar,
    Short,
    UnsignedShort,
    Int,
    UnsignedInt,
    Long,
    UnsignedLong,
    LongLong,
    UnsignedLongLong,
    IntN0,
    UnsignedIntN0,
    IntN1,
    UnsignedIntN1,
    IntN2,
    UnsignedIntN2,
    IntN3,
    UnsignedIntN3,
    NoKind,
}

/// Positions in the backend's table of global trees: the nodes it interns
/// once per process. `Max` closes the list and names no node.
#[derive(Clone, Copy, Debug, PartialEq, Eq, Structural)]
pub enum TreeIndex {
    ErrorMark,
    IntqiType,
    InthiType,
    IntsiType,
    IntdiType,
    InttiType,
    UintqiType,
    UinthiType,
    UintsiType,
    UintdiType,
    UinttiType,
    AtomicqiType,
    AtomichiType,
    AtomicsiType,
    AtomicdiType,
    AtomictiType,
    Uint6Type,
    Uint2Type,
    Uint4Type,
    Void,
    IntegerZero,
    IntegerOne,
    IntegerThree,
    IntegerMinusOne,
    NullPointer,
    SizeZero,
    SizeOne,
    BitsizeZero,
    BitsizeOne,
    BitsizeUnit,
    Public,
    Protected,
    Private,
    BooleanFalse,
    BooleanTrue,
    FloatType,
    DoubleType,
    LongDoubleType,
    Float6Type,
    Float2Type,
    Float4Type,
    Float28Type,
    Float2XType,
    Float4XType,
    Float28XType,
    ComplexIntegerType,
    ComplexFloatType,
    ComplexDoubleType,
    ComplexLongDoubleType,
    ComplexFloat6Type,
    ComplexFloat2Type,
    ComplexFloat4Type,
    ComplexFloat28Type,
    ComplexFloat2XType,
    ComplexFloat4XType,
    ComplexFloat28XType,
    FloatPtrType,
    DoublePtrType,
    LongDoublePtrType,
    IntegerPtrType,
    VoidType,
    PtrType,
    ConstPtrType,
    SizeType,
    PidType,
    PtrdiffType,
    VaListType,
    VaListGprCounterField,
    VaListFprCounterField,
    BooleanType,
    FileptrType,
    ConstTmPtrType,
    FenvTPtrType,
    ConstFenvTPtrType,
    FexceptTPtrType,
    ConstFexceptTPtrType,
    PointerSizedType,
    Dfloat2Type,
    Dfloat4Type,
    Dfloat28Type,
    VoidListNode,
    MainIdentifier,
    SatSfractType,
    SatFractType,
    SatLfractType,
    SatLlfractType,
    SatUsfractType,
    SatUfractType,
    SatUlfractType,
    SatUllfractType,
    SfractType,
    FractType,
    LfractType,
    LlfractType,
    UsfractType,
    UfractType,
    UlfractType,
    UllfractType,
    SatSaccumType,
    SatAccumType,
    SatLaccumType,
    SatLlaccumType,
    SatUsaccumType,
    SatUaccumType,
    SatUlaccumType,
    SatUllaccumType,
    SaccumType,
    AccumType,
    LaccumType,
    LlaccumType,
    UsaccumType,
    UaccumType,
    UlaccumType,
    UllaccumType,
    QqType,
    HqType,
    SqType,
    DqType,
    TqType,
    UqqType,
    UhqType,
    UsqType,
    UdqType,
    UtqType,
    SatQqType,
    SatHqType,
    SatSqType,
    SatDqType,
    SatTqType,
    SatUqqType,
    SatUhqType,
    SatUsqType,
    SatUdqType,
    SatUtqType,
    HaType,
    SaType,
    DaType,
    TaType,
    UhaType,
    UsaType,
    UdaType,
    UtaType,
    SatHaType,
    SatSaType,
    SatDaType,
    SatTaType,
    SatUhaType,
    SatUsaType,
    SatUdaType,
    SatUtaType,
    OptimizationDefault,
    OptimizationCurrent,
    TargetOptionDefault,
    TargetOptionCurrent,
    CurrentTargetPragma,
    CurrentOptimizePragma,
    ChrecDontKnow,
    ChrecKnown,
    Max,
}

/// The operation tag of a backend tree node.
#[derive(Clone, Copy, Debug, PartialEq, Eq, Structural)]
pub enum TreeCode {
    ErrorMark,
    IdentifierNode,
    TreeList,
    TreeVec,
    Block,
    OffsetType,
    EnumeralType,
    BooleanType,
    IntegerType,
    RealType,
    PointerType,
    ReferenceType,
    NullptrType,
    FixedPointType,
    ComplexType,
    VectorType,
    ArrayType,
    RecordType,
    UnionType,
    QualUnionType,
    VoidType,
    FunctionType,
    MethodType,
    LangType,
    VoidCst,
    IntegerCst,
    PolyIntCst,
    RealCst,
    FixedCst,
    ComplexCst,
    VectorCst,
    StringCst,
    FunctionDecl,
    LabelDecl,
    FieldDecl,
    VarDecl,
    ConstDecl,
    ParmDecl,
    TypeDecl,
    ResultDecl,
    DebugExprDecl,
    DebugBeginStmt,
    NamespaceDecl,
    ImportedDecl,
    NamelistDecl,
    TranslationUnitDecl,
    ComponentRef,
    BitFieldRef,
    ArrayRef,
    ArrayRangeRef,
    RealpartExpr,
    ImagpartExpr,
    ViewConvertExpr,
    IndirectRef,
    ObjTypeRef,
    Constructor,
    CompoundExpr,
    ModifyExpr,
    InitExpr,
    TargetExpr,
    CondExpr,
    VecDuplicateExpr,
    VecSeriesExpr,
    VecCondExpr,
    VecPermExpr,
    BindExpr,
    CallExpr,
    WithCleanupExpr,
    CleanupPointExpr,
    PlaceholderExpr,
    PlusExpr,
    MinusExpr,
    MultExpr,
    PointerPlusExpr,
    PointerDiffExpr,
    MultHighpartExpr,
    TruncDivExpr,
    CeilDivExpr,
    FloorDivExpr,
    RoundDivExpr,
    TruncModExpr,
    CeilModExpr,
    FloorModExpr,
    RoundModExpr,
    RdivExpr,
    ExactDivExpr,
    FixTruncExpr,
    FloatExpr,
    NegateExpr,
    MinExpr,
    MaxExpr,
    AbsExpr,
    AbsuExpr,
    LshiftExpr,
    RshiftExpr,
    LrotateExpr,
    RrotateExpr,
    BitIorExpr,
    BitXorExpr,
    BitAndExpr,
    BitNotExpr,
    TruthAndifExpr,
    TruthOrifExpr,
    TruthAndExpr,
    TruthOrExpr,
    TruthXorExpr,
    TruthNotExpr,
    LtExpr,
    LeExpr,
    GtExpr,
    GeExpr,
    LtgtExpr,
    EqExpr,
    NeExpr,
    UnorderedExpr,
    OrderedExpr,
    UnltExpr,
    UnleExpr,
    UngtExpr,
    UngeExpr,
    UneqExpr,
    RangeExpr,
    ParenExpr,
    ConvertExpr,
    AddrSpaceConvertExpr,
    FixedConvertExpr,
    NopExpr,
    NonLvalueExpr,
    CompoundLiteralExpr,
    SaveExpr,
    AddrExpr,
    FdescExpr,
    BitInsertExpr,
    ComplexExpr,
    ConjExpr,
    PredecrementExpr,
    PreincrementExpr,
    PostdecrementExpr,
    PostincrementExpr,
    VaArgExpr,
    TryCatchExpr,
    TryFinallyExpr,
    EhElseExpr,
    DeclExpr,
    LabelExpr,
    GotoExpr,
    ReturnExpr,
    ExitExpr,
    LoopExpr,
    SwitchExpr,
    CaseLabelExpr,
    AsmExpr,
    SsaName,
    CatchExpr,
    EhFilterExpr,
    ScevKnown,
    ScevNotKnown,
    PolynomialChrec,
    StatementList,
    AssertExpr,
    TreeBinfo,
    WithSizeExpr,
    RealignLoadExpr,
    TargetMemRef,
    MemRef,
    OaccParallel,
    OaccKernels,
    OaccSerial,
    OaccData,
    OaccHostData,
    OmpParallel,
    OmpTask,
    OmpFor,
    OmpSimd,
    OmpDistribute,
    OmpTaskloop,
    OmpLoop,
    OaccLoop,
    OmpTeams,
    OmpTargetData,
    OmpTarget,
    OmpSections,
    OmpOrdered,
    OmpCritical,
    OmpSingle,
    OmpTaskgroup,
    OmpScan,
    OmpSection,
    OmpMaster,
    OaccCache,
    OaccDeclare,
    OaccEnterData,
    OaccExitData,
    OaccUpdate,
    OmpTargetUpdate,
    OmpTargetEnterData,
    OmpTargetExitData,
    OmpAtomic,
    OmpAtomicRead,
    OmpAtomicCaptureOld,
    OmpAtomicCaptureNew,
    OmpClause,
    TransactionExpr,
    DotProdExpr,
    WidenSumExpr,
    SadExpr,
    WidenMultExpr,
    WidenMultPlusExpr,
    WidenMultMinusExpr,
    WidenLshiftExpr,
    VecWidenMultHiExpr,
    VecWidenMultLoExpr,
    VecWidenMultEvenExpr,
    VecWidenMultOddExpr,
    VecUnpackHiExpr,
    VecUnpackLoExpr,
    VecUnpackFloatHiExpr,
    VecUnpackFloatLoExpr,
    VecUnpackFixTruncHiExpr,
    VecUnpackFixTruncLoExpr,
    VecPackTruncExpr,
    VecPackSatExpr,
    VecPackFixTruncExpr,
    VecPackFloatExpr,
    VecWidenLshiftHiExpr,
    VecWidenLshiftLoExpr,
    PredictExpr,
    OptimizationNode,
    TargetOptionNode,
    AnnotateExpr,
}

} // verus!
