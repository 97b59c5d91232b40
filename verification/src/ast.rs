use vstd::prelude::*;

verus! {

/// A source span. Rendering consults spans only as presence markers: whether
/// an optional span is recorded, and how wide it is (the width separates,
/// for example, a `do`/`end` block from a braced one).
#[derive(Clone, Copy, PartialEq, Eq, Structural)]
pub struct Loc {
    pub begin: usize,
    pub end: usize,
}

impl Loc {
    /// Width of the span; a span whose `end` lies before its `begin` counts as empty.
    pub open spec fn spec_size(self) -> nat {
        if self.begin <= self.end {
            (self.end - self.begin) as nat
        } else {
            0
        }
    }

    pub fn size(&self) -> (n: usize)
        ensures
            n as nat == self.spec_size(),
    {
        if self.begin <= self.end {
            self.end - self.begin
        } else {
            0
        }
    }
}

/// A method-call node. Kept as a named struct (rather than anonymous variant
/// fields) because the constant explorer hands call nodes to a caller-supplied
/// resolver, and the module combiner builds fresh ones.
pub struct SendNode {
    pub recv: Option<Box<Node>>,
    pub method_name: String,
    pub args: Vec<Node>,
    pub dot_l: Option<Loc>,
    pub operator_l: Option<Loc>,
}

/// The abstract syntax tree. One variant per node kind of the surface
/// language; every variant owns its children outright. Optional `*_l` fields
/// are the presence markers that rendering consults.
pub enum Node {
    Alias {
        to: Box<Node>,
        from: Box<Node>,
    },
    And {
        lhs: Box<Node>,
        rhs: Box<Node>,
    },
    AndAsgn {
        recv: Box<Node>,
        value: Box<Node>,
    },
    Arg {
        name: String,
    },
    Args {
        args: Vec<Node>,
    },
    Array {
        elements: Vec<Node>,
        begin_l: Option<Loc>,
        end_l: Option<Loc>,
    },
    ArrayPattern {
        elements: Vec<Node>,
        begin_l: Option<Loc>,
        end_l: Option<Loc>,
    },
    ArrayPatternWithTail {
        elements: Vec<Node>,
        begin_l: Option<Loc>,
        end_l: Option<Loc>,
    },
    BackRef {
        name: String,
    },
    Begin {
        statements: Vec<Node>,
        begin_l: Option<Loc>,
        end_l: Option<Loc>,
    },
    Block {
        call: Box<Node>,
        args: Option<Box<Node>>,
        body: Option<Box<Node>>,
        begin_l: Loc,
    },
    BlockPass {
        value: Option<Box<Node>>,
    },
    Blockarg {
        name: Option<String>,
    },
    Break {
        args: Vec<Node>,
    },
    CSend {
        recv: Box<Node>,
        method_name: String,
        args: Vec<Node>,
        begin_l: Option<Loc>,
        end_l: Option<Loc>,
        operator_l: Option<Loc>,
    },
    Case {
        expr: Option<Box<Node>>,
        when_bodies: Vec<Node>,
        else_body: Option<Box<Node>>,
    },
    CaseMatch {
        expr: Box<Node>,
        in_bodies: Vec<Node>,
        else_body: Option<Box<Node>>,
    },
    Casgn {
        scope: Option<Box<Node>>,
        name: String,
        value: Option<Box<Node>>,
    },
    Cbase {},
    Class {
        name: Box<Node>,
        superclass: Option<Box<Node>>,
        body: Option<Box<Node>>,
    },
    Complex {
        value: String,
    },
    Const {
        scope: Option<Box<Node>>,
        name: String,
        double_colon_l: Option<Loc>,
    },
    ConstPattern {
        const_: Box<Node>,
        pattern: Box<Node>,
    },
    Cvar {
        name: String,
    },
    Cvasgn {
        name: String,
        value: Option<Box<Node>>,
    },
    Def {
        name: String,
        args: Option<Box<Node>>,
        body: Option<Box<Node>>,
        assignment_l: Option<Loc>,
    },
    Defined {
        value: Box<Node>,
        begin_l: Option<Loc>,
        end_l: Option<Loc>,
    },
    Defs {
        definee: Box<Node>,
        name: String,
        args: Option<Box<Node>>,
        body: Option<Box<Node>>,
        assignment_l: Option<Loc>,
    },
    Dstr {
        parts: Vec<Node>,
        begin_l: Option<Loc>,
    },
    Dsym {
        parts: Vec<Node>,
        begin_l: Option<Loc>,
        end_l: Option<Loc>,
    },
    EFlipFlop {
        left: Option<Box<Node>>,
        right: Option<Box<Node>>,
    },
    EmptyElse {},
    Encoding {},
    Ensure {
        body: Option<Box<Node>>,
        ensure: Option<Box<Node>>,
    },
    Erange {
        left: Option<Box<Node>>,
        right: Option<Box<Node>>,
    },
    False {},
    File {},
    FindPattern {
        elements: Vec<Node>,
        begin_l: Option<Loc>,
        end_l: Option<Loc>,
    },
    Float {
        value: String,
    },
    For {
        iterator: Box<Node>,
        iteratee: Box<Node>,
        body: Option<Box<Node>>,
    },
    ForwardArg {},
    ForwardedArgs {},
    Gvar {
        name: String,
    },
    Gvasgn {
        name: String,
        value: Option<Box<Node>>,
    },
    Hash {
        pairs: Vec<Node>,
        begin_l: Option<Loc>,
        end_l: Option<Loc>,
    },
    HashPattern {
        elements: Vec<Node>,
        begin_l: Option<Loc>,
        end_l: Option<Loc>,
    },
    Heredoc {
        parts: Vec<Node>,
    },
    IFlipFlop {
        left: Option<Box<Node>>,
        right: Option<Box<Node>>,
    },
    If {
        cond: Box<Node>,
        if_true: Option<Box<Node>>,
        if_false: Option<Box<Node>>,
    },
    IfGuard {
        cond: Box<Node>,
    },
    IfMod {
        cond: Box<Node>,
        if_true: Option<Box<Node>>,
        if_false: Option<Box<Node>>,
    },
    IfTernary {
        cond: Box<Node>,
        if_true: Box<Node>,
        if_false: Box<Node>,
    },
    InPattern {
        pattern: Box<Node>,
        guard: Option<Box<Node>>,
        body: Option<Box<Node>>,
    },
    Index {
        recv: Box<Node>,
        indexes: Vec<Node>,
    },
    IndexAsgn {
        recv: Box<Node>,
        indexes: Vec<Node>,
        value: Option<Box<Node>>,
    },
    Int {
        value: String,
    },
    Irange {
        left: Option<Box<Node>>,
        right: Option<Box<Node>>,
    },
    Ivar {
        name: String,
    },
    Ivasgn {
        name: String,
        value: Option<Box<Node>>,
    },
    KwBegin {
        statements: Vec<Node>,
        begin_l: Option<Loc>,
        end_l: Option<Loc>,
    },
    Kwarg {
        name: String,
    },
    Kwargs {
        pairs: Vec<Node>,
    },
    Kwnilarg {},
    Kwoptarg {
        name: String,
        default: Box<Node>,
    },
    Kwrestarg {
        name: Option<String>,
    },
    Kwsplat {
        value: Box<Node>,
    },
    Lambda {},
    Line {},
    Lvar {
        name: String,
    },
    Lvasgn {
        name: String,
        value: Option<Box<Node>>,
    },
    Masgn {
        lhs: Box<Node>,
        rhs: Box<Node>,
    },
    MatchAlt {
        lhs: Box<Node>,
        rhs: Box<Node>,
    },
    MatchAs {
        value: Box<Node>,
        as_: Box<Node>,
    },
    MatchCurrentLine {
        re: Box<Node>,
    },
    MatchNilPattern {},
    MatchPattern {
        value: Box<Node>,
        pattern: Box<Node>,
    },
    MatchPatternP {
        value: Box<Node>,
        pattern: Box<Node>,
    },
    MatchRest {
        name: Option<Box<Node>>,
    },
    MatchVar {
        name: String,
    },
    MatchWithLvasgn {
        re: Box<Node>,
        value: Box<Node>,
    },
    Mlhs {
        items: Vec<Node>,
        begin_l: Option<Loc>,
        end_l: Option<Loc>,
    },
    Module {
        name: Box<Node>,
        body: Option<Box<Node>>,
    },
    Next {
        args: Vec<Node>,
    },
    Nil {},
    NthRef {
        name: String,
    },
    Numblock {
        call: Box<Node>,
        numargs: u8,
    },
    OpAsgn {
        recv: Box<Node>,
        operator: String,
        value: Box<Node>,
    },
    Optarg {
        name: String,
        default: Box<Node>,
    },
    Or {
        lhs: Box<Node>,
        rhs: Box<Node>,
    },
    OrAsgn {
        recv: Box<Node>,
        value: Box<Node>,
    },
    Pair {
        key: Box<Node>,
        value: Box<Node>,
        operator_l: Loc,
    },
    Pin {
        var: Box<Node>,
    },
    Postexe {
        body: Option<Box<Node>>,
    },
    Preexe {
        body: Option<Box<Node>>,
    },
    Procarg0 {
        args: Vec<Node>,
        begin_l: Option<Loc>,
        end_l: Option<Loc>,
    },
    Rational {
        value: String,
    },
    Redo {},
    RegOpt {
        options: Option<String>,
    },
    Regexp {
        parts: Vec<Node>,
        options: Option<Box<Node>>,
        begin_l: Loc,
    },
    Rescue {
        body: Option<Box<Node>>,
        rescue_bodies: Vec<Node>,
        else_: Option<Box<Node>>,
    },
    RescueBody {
        exc_list: Option<Box<Node>>,
        exc_var: Option<Box<Node>>,
        body: Option<Box<Node>>,
    },
    Restarg {
        name: Option<String>,
    },
    Retry {},
    Return {
        args: Vec<Node>,
    },
    SClass {
        expr: Box<Node>,
        body: Option<Box<Node>>,
    },
    Self_ {},
    Send(SendNode),
    Shadowarg {
        name: String,
    },
    Splat {
        value: Option<Box<Node>>,
    },
    Str {
        value: String,
    },
    Super {
        args: Vec<Node>,
    },
    Sym {
        name: String,
        begin_l: Option<Loc>,
        end_l: Option<Loc>,
    },
    True {},
    Undef {
        names: Vec<Node>,
    },
    UnlessGuard {
        cond: Box<Node>,
    },
    Until {
        cond: Box<Node>,
        body: Option<Box<Node>>,
        end_l: Option<Loc>,
    },
    UntilPost {
        cond: Box<Node>,
        body: Box<Node>,
    },
    When {
        patterns: Vec<Node>,
        body: Option<Box<Node>>,
    },
    While {
        cond: Box<Node>,
        body: Option<Box<Node>>,
        end_l: Option<Loc>,
    },
    WhilePost {
        cond: Box<Node>,
        body: Box<Node>,
    },
    XHeredoc {
        parts: Vec<Node>,
    },
    Xstr {
        parts: Vec<Node>,
        begin_l: Loc,
    },
    Yield {
        args: Vec<Node>,
    },
    ZSuper {},
}

/// The tag of a node kind, threaded through rendering as the parent-kind part
/// of the writer context. `Root` stands for "no enclosing node"; `Part` and
/// `PairKey` are the two synthetic positions (a fragment of an interpolated
/// literal, and the key of a shorthand hash pair) that change how a child
/// renders.
#[derive(Clone, Copy, PartialEq, Eq, Structural)]
pub enum NodeKind {
    Root,
    Part,
    PairKey,
    Alias,
    And,
    AndAsgn,
    Arg,
    Args,
    Array,
    ArrayPattern,
    ArrayPatternWithTail,
    BackRef,
    Begin,
    Block,
    BlockPass,
    Blockarg,
    Break,
    CSend,
    Case,
    CaseMatch,
    Casgn,
    Cbase,
    Class,
    Complex,
    Const,
    ConstPattern,
    Cvar,
    Cvasgn,
    Def,
    Defined,
    Defs,
    Dstr,
    Dsym,
    EFlipFlop,
    EmptyElse,
    Encoding,
    Ensure,
    Erange,
    False,
    File,
    FindPattern,
    Float,
    For,
    ForwardArg,
    ForwardedArgs,
    Gvar,
    Gvasgn,
    Hash,
    HashPattern,
    Heredoc,
    IFlipFlop,
    If,
    IfGuard,
    IfMod,
    IfTernary,
    InPattern,
    Index,
    IndexAsgn,
    Int,
    Irange,
    Ivar,
    Ivasgn,
    KwBegin,
    Kwarg,
    Kwargs,
    Kwnilarg,
    Kwoptarg,
    Kwrestarg,
    Kwsplat,
    Lambda,
    Line,
    Lvar,
    Lvasgn,
    Masgn,
    MatchAlt,
    MatchAs,
    MatchCurrentLine,
    MatchNilPattern,
    MatchPattern,
    MatchPatternP,
    MatchRest,
    MatchVar,
    MatchWithLvasgn,
    Mlhs,
    Module,
    Next,
    Nil,
    NthRef,
    Numblock,
    OpAsgn,
    Optarg,
    Or,
    OrAsgn,
    Pair,
    Pin,
    Postexe,
    Preexe,
    Procarg0,
    Rational,
    Redo,
    RegOpt,
    Regexp,
    Rescue,
    RescueBody,
    Restarg,
    Retry,
    Return,
    SClass,
    Self_,
    Send,
    Shadowarg,
    Splat,
    Str,
    Super,
    Sym,
    True,
    Undef,
    UnlessGuard,
    Until,
    UntilPost,
    When,
    While,
    WhilePost,
    XHeredoc,
    Xstr,
    Yield,
    ZSuper,
}

impl Node {
    /// The kind tag of this node.
    pub open spec fn spec_kind(&self) -> NodeKind {
        match self {
            Node::Alias { .. } => NodeKind::Alias,
            Node::And { .. } => NodeKind::And,
            Node::AndAsgn { .. } => NodeKind::AndAsgn,
            Node::Arg { .. } => NodeKind::Arg,
            Node::Args { .. } => NodeKind::Args,
            Node::Array { .. } => NodeKind::Array,
            Node::ArrayPattern { .. } => NodeKind::ArrayPattern,
            Node::ArrayPatternWithTail { .. } => NodeKind::ArrayPatternWithTail,
            Node::BackRef { .. } => NodeKind::BackRef,
            Node::Begin { .. } => NodeKind::Begin,
            Node::Block { .. } => NodeKind::Block,
            Node::BlockPass { .. } => NodeKind::BlockPass,
            Node::Blockarg { .. } => NodeKind::Blockarg,
            Node::Break { .. } => NodeKind::Break,
            Node::CSend { .. } => NodeKind::CSend,
            Node::Case { .. } => NodeKind::Case,
            Node::CaseMatch { .. } => NodeKind::CaseMatch,
            Node::Casgn { .. } => NodeKind::Casgn,
            Node::Cbase {  } => NodeKind::Cbase,
            Node::Class { .. } => NodeKind::Class,
            Node::Complex { .. } => NodeKind::Complex,
            Node::Const { .. } => NodeKind::Const,
            Node::ConstPattern { .. } => NodeKind::ConstPattern,
            Node::Cvar { .. } => NodeKind::Cvar,
            Node::Cvasgn { .. } => NodeKind::Cvasgn,
            Node::Def { .. } => NodeKind::Def,
            Node::Defined { .. } => NodeKind::Defined,
            Node::Defs { .. } => NodeKind::Defs,
            Node::Dstr { .. } => NodeKind::Dstr,
            Node::Dsym { .. } => NodeKind::Dsym,
            Node::EFlipFlop { .. } => NodeKind::EFlipFlop,
            Node::EmptyElse {  } => NodeKind::EmptyElse,
            Node::Encoding {  } => NodeKind::Encoding,
            Node::Ensure { .. } => NodeKind::Ensure,
            Node::Erange { .. } => NodeKind::Erange,
            Node::False {  } => NodeKind::False,
            Node::File {  } => NodeKind::File,
            Node::FindPattern { .. } => NodeKind::FindPattern,
            Node::Float { .. } => NodeKind::Float,
            Node::For { .. } => NodeKind::For,
            Node::ForwardArg {  } => NodeKind::ForwardArg,
            Node::ForwardedArgs {  } => NodeKind::ForwardedArgs,
            Node::Gvar { .. } => NodeKind::Gvar,
            Node::Gvasgn { .. } => NodeKind::Gvasgn,
            Node::Hash { .. } => NodeKind::Hash,
            Node::HashPattern { .. } => NodeKind::HashPattern,
            Node::Heredoc { .. } => NodeKind::Heredoc,
            Node::IFlipFlop { .. } => NodeKind::IFlipFlop,
            Node::If { .. } => NodeKind::If,
            Node::IfGuard { .. } => NodeKind::IfGuard,
            Node::IfMod { .. } => NodeKind::IfMod,
            Node::IfTernary { .. } => NodeKind::IfTernary,
            Node::InPattern { .. } => NodeKind::InPattern,
            Node::Index { .. } => NodeKind::Index,
            Node::IndexAsgn { .. } => NodeKind::IndexAsgn,
            Node::Int { .. } => NodeKind::Int,
            Node::Irange { .. } => NodeKind::Irange,
            Node::Ivar { .. } => NodeKind::Ivar,
            Node::Ivasgn { .. } => NodeKind::Ivasgn,
            Node::KwBegin { .. } => NodeKind::KwBegin,
            Node::Kwarg { .. } => NodeKind::Kwarg,
            Node::Kwargs { .. } => NodeKind::Kwargs,
            Node::Kwnilarg {  } => NodeKind::Kwnilarg,
            Node::Kwoptarg { .. } => NodeKind::Kwoptarg,
            Node::Kwrestarg { .. } => NodeKind::Kwrestarg,
            Node::Kwsplat { .. } => NodeKind::Kwsplat,
            Node::Lambda {  } => NodeKind::Lambda,
            Node::Line {  } => NodeKind::Line,
            Node::Lvar { .. } => NodeKind::Lvar,
            Node::Lvasgn { .. } => NodeKind::Lvasgn,
            Node::Masgn { .. } => NodeKind::Masgn,
            Node::MatchAlt { .. } => NodeKind::MatchAlt,
            Node::MatchAs { .. } => NodeKind::MatchAs,
            Node::MatchCurrentLine { .. } => NodeKind::MatchCurrentLine,
            Node::MatchNilPattern {  } => NodeKind::MatchNilPattern,
            Node::MatchPattern { .. } => NodeKind::MatchPattern,
            Node::MatchPatternP { .. } => NodeKind::MatchPatternP,
            Node::MatchRest { .. } => NodeKind::MatchRest,
            Node::MatchVar { .. } => NodeKind::MatchVar,
            Node::MatchWithLvasgn { .. } => NodeKind::MatchWithLvasgn,
            Node::Mlhs { .. } => NodeKind::Mlhs,
            Node::Module { .. } => NodeKind::Module,
            Node::Next { .. } => NodeKind::Next,
            Node::Nil {  } => NodeKind::Nil,
            Node::NthRef { .. } => NodeKind::NthRef,
            Node::Numblock { .. } => NodeKind::Numblock,
            Node::OpAsgn { .. } => NodeKind::OpAsgn,
            Node::Optarg { .. } => NodeKind::Optarg,
            Node::Or { .. } => NodeKind::Or,
            Node::OrAsgn { .. } => NodeKind::OrAsgn,
            Node::Pair { .. } => NodeKind::Pair,
            Node::Pin { .. } => NodeKind::Pin,
            Node::Postexe { .. } => NodeKind::Postexe,
            Node::Preexe { .. } => NodeKind::Preexe,
            Node::Procarg0 { .. } => NodeKind::Procarg0,
            Node::Rational { .. } => NodeKind::Rational,
            Node::Redo {  } => NodeKind::Redo,
            Node::RegOpt { .. } => NodeKind::RegOpt,
            Node::Regexp { .. } => NodeKind::Regexp,
            Node::Rescue { .. } => NodeKind::Rescue,
            Node::RescueBody { .. } => NodeKind::RescueBody,
            Node::Restarg { .. } => NodeKind::Restarg,
            Node::Retry {  } => NodeKind::Retry,
            Node::Return { .. } => NodeKind::Return,
            Node::SClass { .. } => NodeKind::SClass,
            Node::Self_ {  } => NodeKind::Self_,
            Node::Send(..) => NodeKind::Send,
            Node::Shadowarg { .. } => NodeKind::Shadowarg,
            Node::Splat { .. } => NodeKind::Splat,
            Node::Str { .. } => NodeKind::Str,
            Node::Super { .. } => NodeKind::Super,
            Node::Sym { .. } => NodeKind::Sym,
            Node::True {  } => NodeKind::True,
            Node::Undef { .. } => NodeKind::Undef,
            Node::UnlessGuard { .. } => NodeKind::UnlessGuard,
            Node::Until { .. } => NodeKind::Until,
            Node::UntilPost { .. } => NodeKind::UntilPost,
            Node::When { .. } => NodeKind::When,
            Node::While { .. } => NodeKind::While,
            Node::WhilePost { .. } => NodeKind::WhilePost,
            Node::XHeredoc { .. } => NodeKind::XHeredoc,
            Node::Xstr { .. } => NodeKind::Xstr,
            Node::Yield { .. } => NodeKind::Yield,
            Node::ZSuper {  } => NodeKind::ZSuper,
        }
    }

    pub fn kind(&self) -> (k: NodeKind)
        ensures
            k == self.spec_kind(),
    {
        match self {
            Node::Alias { .. } => NodeKind::Alias,
            Node::And { .. } => NodeKind::And,
            Node::AndAsgn { .. } => NodeKind::AndAsgn,
            Node::Arg { .. } => NodeKind::Arg,
            Node::Args { .. } => NodeKind::Args,
            Node::Array { .. } => NodeKind::Array,
            Node::ArrayPattern { .. } => NodeKind::ArrayPattern,
            Node::ArrayPatternWithTail { .. } => NodeKind::ArrayPatternWithTail,
            Node::BackRef { .. } => NodeKind::BackRef,
            Node::Begin { .. } => NodeKind::Begin,
            Node::Block { .. } => NodeKind::Block,
            Node::BlockPass { .. } => NodeKind::BlockPass,
            Node::Blockarg { .. } => NodeKind::Blockarg,
            Node::Break { .. } => NodeKind::Break,
            Node::CSend { .. } => NodeKind::CSend,
            Node::Case { .. } => NodeKind::Case,
            Node::CaseMatch { .. } => NodeKind::CaseMatch,
            Node::Casgn { .. } => NodeKind::Casgn,
            Node::Cbase {  } => NodeKind::Cbase,
            Node::Class { .. } => NodeKind::Class,
            Node::Complex { .. } => NodeKind::Complex,
            Node::Const { .. } => NodeKind::Const,
            Node::ConstPattern { .. } => NodeKind::ConstPattern,
            Node::Cvar { .. } => NodeKind::Cvar,
            Node::Cvasgn { .. } => NodeKind::Cvasgn,
            Node::Def { .. } => NodeKind::Def,
            Node::Defined { .. } => NodeKind::Defined,
            Node::Defs { .. } => NodeKind::Defs,
            Node::Dstr { .. } => NodeKind::Dstr,
            Node::Dsym { .. } => NodeKind::Dsym,
            Node::EFlipFlop { .. } => NodeKind::EFlipFlop,
            Node::EmptyElse {  } => NodeKind::EmptyElse,
            Node::Encoding {  } => NodeKind::Encoding,
            Node::Ensure { .. } => NodeKind::Ensure,
            Node::Erange { .. } => NodeKind::Erange,
            Node::False {  } => NodeKind::False,
            Node::File {  } => NodeKind::File,
            Node::FindPattern { .. } => NodeKind::FindPattern,
            Node::Float { .. } => NodeKind::Float,
            Node::For { .. } => NodeKind::For,
            Node::ForwardArg {  } => NodeKind::ForwardArg,
            Node::ForwardedArgs {  } => NodeKind::ForwardedArgs,
            Node::Gvar { .. } => NodeKind::Gvar,
            Node::Gvasgn { .. } => NodeKind::Gvasgn,
            Node::Hash { .. } => NodeKind::Hash,
            Node::HashPattern { .. } => NodeKind::HashPattern,
            Node::Heredoc { .. } => NodeKind::Heredoc,
            Node::IFlipFlop { .. } => NodeKind::IFlipFlop,
            Node::If { .. } => NodeKind::If,
            Node::IfGuard { .. } => NodeKind::IfGuard,
            Node::IfMod { .. } => NodeKind::IfMod,
            Node::IfTernary { .. } => NodeKind::IfTernary,
            Node::InPattern { .. } => NodeKind::InPattern,
            Node::Index { .. } => NodeKind::Index,
            Node::IndexAsgn { .. } => NodeKind::IndexAsgn,
            Node::Int { .. } => NodeKind::Int,
            Node::Irange { .. } => NodeKind::Irange,
            Node::Ivar { .. } => NodeKind::Ivar,
            Node::Ivasgn { .. } => NodeKind::Ivasgn,
            Node::KwBegin { .. } => NodeKind::KwBegin,
            Node::Kwarg { .. } => NodeKind::Kwarg,
            Node::Kwargs { .. } => NodeKind::Kwargs,
            Node::Kwnilarg {  } => NodeKind::Kwnilarg,
            Node::Kwoptarg { .. } => NodeKind::Kwoptarg,
            Node::Kwrestarg { .. } => NodeKind::Kwrestarg,
            Node::Kwsplat { .. } => NodeKind::Kwsplat,
            Node::Lambda {  } => NodeKind::Lambda,
            Node::Line {  } => NodeKind::Line,
            Node::Lvar { .. } => NodeKind::Lvar,
            Node::Lvasgn { .. } => NodeKind::Lvasgn,
            Node::Masgn { .. } => NodeKind::Masgn,
            Node::MatchAlt { .. } => NodeKind::MatchAlt,
            Node::MatchAs { .. } => NodeKind::MatchAs,
            Node::MatchCurrentLine { .. } => NodeKind::MatchCurrentLine,
            Node::MatchNilPattern {  } => NodeKind::MatchNilPattern,
            Node::MatchPattern { .. } => NodeKind::MatchPattern,
            Node::MatchPatternP { .. } => NodeKind::MatchPatternP,
            Node::MatchRest { .. } => NodeKind::MatchRest,
            Node::MatchVar { .. } => NodeKind::MatchVar,
            Node::MatchWithLvasgn { .. } => NodeKind::MatchWithLvasgn,
            Node::Mlhs { .. } => NodeKind::Mlhs,
            Node::Module { .. } => NodeKind::Module,
            Node::Next { .. } => NodeKind::Next,
            Node::Nil {  } => NodeKind::Nil,
            Node::NthRef { .. } => NodeKind::NthRef,
            Node::Numblock { .. } => NodeKind::Numblock,
            Node::OpAsgn { .. } => NodeKind::OpAsgn,
            Node::Optarg { .. } => NodeKind::Optarg,
            Node::Or { .. } => NodeKind::Or,
            Node::OrAsgn { .. } => NodeKind::OrAsgn,
            Node::Pair { .. } => NodeKind::Pair,
            Node::Pin { .. } => NodeKind::Pin,
            Node::Postexe { .. } => NodeKind::Postexe,
            Node::Preexe { .. } => NodeKind::Preexe,
            Node::Procarg0 { .. } => NodeKind::Procarg0,
            Node::Rational { .. } => NodeKind::Rational,
            Node::Redo {  } => NodeKind::Redo,
            Node::RegOpt { .. } => NodeKind::RegOpt,
            Node::Regexp { .. } => NodeKind::Regexp,
            Node::Rescue { .. } => NodeKind::Rescue,
            Node::RescueBody { .. } => NodeKind::RescueBody,
            Node::Restarg { .. } => NodeKind::Restarg,
            Node::Retry {  } => NodeKind::Retry,
            Node::Return { .. } => NodeKind::Return,
            Node::SClass { .. } => NodeKind::SClass,
            Node::Self_ {  } => NodeKind::Self_,
            Node::Send(..) => NodeKind::Send,
            Node::Shadowarg { .. } => NodeKind::Shadowarg,
            Node::Splat { .. } => NodeKind::Splat,
            Node::Str { .. } => NodeKind::Str,
            Node::Super { .. } => NodeKind::Super,
            Node::Sym { .. } => NodeKind::Sym,
            Node::True {  } => NodeKind::True,
            Node::Undef { .. } => NodeKind::Undef,
            Node::UnlessGuard { .. } => NodeKind::UnlessGuard,
            Node::Until { .. } => NodeKind::Until,
            Node::UntilPost { .. } => NodeKind::UntilPost,
            Node::When { .. } => NodeKind::When,
            Node::While { .. } => NodeKind::While,
            Node::WhilePost { .. } => NodeKind::WhilePost,
            Node::XHeredoc { .. } => NodeKind::XHeredoc,
            Node::Xstr { .. } => NodeKind::Xstr,
            Node::Yield { .. } => NodeKind::Yield,
            Node::ZSuper {  } => NodeKind::ZSuper,
        }
    }


    /// The short textual name of this node's kind, as the placeholder for an
    /// unsupported interpolation fragment spells it.
    pub open spec fn spec_kind_text(&self) -> Seq<char> {
        match self {
            Node::Alias { .. } => "alias"@,
            Node::And { .. } => "and"@,
            Node::AndAsgn { .. } => "and_asgn"@,
            Node::Arg { .. } => "arg"@,
            Node::Args { .. } => "args"@,
            Node::Array { .. } => "array"@,
            Node::ArrayPattern { .. } => "array_pattern"@,
            Node::ArrayPatternWithTail { .. } => "array_pattern_with_tail"@,
            Node::BackRef { .. } => "back_ref"@,
            Node::Begin { .. } => "begin"@,
            Node::Block { .. } => "block"@,
            Node::BlockPass { .. } => "block_pass"@,
            Node::Blockarg { .. } => "blockarg"@,
            Node::Break { .. } => "break"@,
            Node::CSend { .. } => "csend"@,
            Node::Case { .. } => "case"@,
            Node::CaseMatch { .. } => "case_match"@,
            Node::Casgn { .. } => "casgn"@,
            Node::Cbase {  } => "cbase"@,
            Node::Class { .. } => "class"@,
            Node::Complex { .. } => "complex"@,
            Node::Const { .. } => "const"@,
            Node::ConstPattern { .. } => "const_pattern"@,
            Node::Cvar { .. } => "cvar"@,
            Node::Cvasgn { .. } => "cvasgn"@,
            Node::Def { .. } => "def"@,
            Node::Defined { .. } => "defined?"@,
            Node::Defs { .. } => "defs"@,
            Node::Dstr { .. } => "dstr"@,
            Node::Dsym { .. } => "dsym"@,
            Node::EFlipFlop { .. } => "eflipflop"@,
            Node::EmptyElse {  } => "empty_else"@,
            Node::Encoding {  } => "__ENCODING__"@,
            Node::Ensure { .. } => "ensure"@,
            Node::Erange { .. } => "erange"@,
            Node::False {  } => "false"@,
            Node::File {  } => "__FILE__"@,
            Node::FindPattern { .. } => "find_pattern"@,
            Node::Float { .. } => "float"@,
            Node::For { .. } => "for"@,
            Node::ForwardArg {  } => "forward_arg"@,
            Node::ForwardedArgs {  } => "forwarded_args"@,
            Node::Gvar { .. } => "gvar"@,
            Node::Gvasgn { .. } => "gvasgn"@,
            Node::Hash { .. } => "hash"@,
            Node::HashPattern { .. } => "hash_pattern"@,
            Node::Heredoc { .. } => "dstr"@,
            Node::IFlipFlop { .. } => "iflipflop"@,
            Node::If { .. } => "if"@,
            Node::IfGuard { .. } => "if_guard"@,
            Node::IfMod { .. } => "if"@,
            Node::IfTernary { .. } => "if"@,
            Node::InPattern { .. } => "in_pattern"@,
            Node::Index { .. } => "index"@,
            Node::IndexAsgn { .. } => "indexasgn"@,
            Node::Int { .. } => "int"@,
            Node::Irange { .. } => "irange"@,
            Node::Ivar { .. } => "ivar"@,
            Node::Ivasgn { .. } => "ivasgn"@,
            Node::KwBegin { .. } => "kwbegin"@,
            Node::Kwarg { .. } => "kwarg"@,
            Node::Kwargs { .. } => "kwargs"@,
            Node::Kwnilarg {  } => "kwnilarg"@,
            Node::Kwoptarg { .. } => "kwoptarg"@,
            Node::Kwrestarg { .. } => "kwrestarg"@,
            Node::Kwsplat { .. } => "kwsplat"@,
            Node::Lambda {  } => "lambda"@,
            Node::Line {  } => "__LINE__"@,
            Node::Lvar { .. } => "lvar"@,
            Node::Lvasgn { .. } => "lvasgn"@,
            Node::Masgn { .. } => "masgn"@,
            Node::MatchAlt { .. } => "match_alt"@,
            Node::MatchAs { .. } => "match_as"@,
            Node::MatchCurrentLine { .. } => "match_current_line"@,
            Node::MatchNilPattern {  } => "match_nil_pattern"@,
            Node::MatchPattern { .. } => "match_pattern"@,
            Node::MatchPatternP { .. } => "match_pattern_p"@,
            Node::MatchRest { .. } => "match_rest"@,
            Node::MatchVar { .. } => "match_var"@,
            Node::MatchWithLvasgn { .. } => "match_with_lvasgn"@,
            Node::Mlhs { .. } => "mlhs"@,
            Node::Module { .. } => "module"@,
            Node::Next { .. } => "next"@,
            Node::Nil {  } => "nil"@,
            Node::NthRef { .. } => "nth_ref"@,
            Node::Numblock { .. } => "numblock"@,
            Node::OpAsgn { .. } => "op_asgn"@,
            Node::Optarg { .. } => "optarg"@,
            Node::Or { .. } => "or"@,
            Node::OrAsgn { .. } => "or_asgn"@,
            Node::Pair { .. } => "pair"@,
            Node::Pin { .. } => "pin"@,
            Node::Postexe { .. } => "postexe"@,
            Node::Preexe { .. } => "preexe"@,
            Node::Procarg0 { .. } => "procarg0"@,
            Node::Rational { .. } => "rational"@,
            Node::Redo {  } => "redo"@,
            Node::RegOpt { .. } => "regopt"@,
            Node::Regexp { .. } => "regexp"@,
            Node::Rescue { .. } => "rescue"@,
            Node::RescueBody { .. } => "resbody"@,
            Node::Restarg { .. } => "restarg"@,
            Node::Retry {  } => "retry"@,
            Node::Return { .. } => "return"@,
            Node::SClass { .. } => "sclass"@,
            Node::Self_ {  } => "self"@,
            Node::Send(..) => "send"@,
            Node::Shadowarg { .. } => "shadowarg"@,
            Node::Splat { .. } => "splat"@,
            Node::Str { .. } => "str"@,
            Node::Super { .. } => "super"@,
            Node::Sym { .. } => "sym"@,
            Node::True {  } => "true"@,
            Node::Undef { .. } => "undef"@,
            Node::UnlessGuard { .. } => "unless_guard"@,
            Node::Until { .. } => "until"@,
            Node::UntilPost { .. } => "until_post"@,
            Node::When { .. } => "when"@,
            Node::While { .. } => "while"@,
            Node::WhilePost { .. } => "while_post"@,
            Node::XHeredoc { .. } => "xstr"@,
            Node::Xstr { .. } => "xstr"@,
            Node::Yield { .. } => "yield"@,
            Node::ZSuper {  } => "zsuper"@,
        }
    }

    pub fn kind_text(&self) -> (s: &'static str)
        ensures
            s@ == self.spec_kind_text(),
    {
        match self {
            Node::Alias { .. } => "alias",
            Node::And { .. } => "and",
            Node::AndAsgn { .. } => "and_asgn",
            Node::Arg { .. } => "arg",
            Node::Args { .. } => "args",
            Node::Array { .. } => "array",
            Node::ArrayPattern { .. } => "array_pattern",
            Node::ArrayPatternWithTail { .. } => "array_pattern_with_tail",
            Node::BackRef { .. } => "back_ref",
            Node::Begin { .. } => "begin",
            Node::Block { .. } => "block",
            Node::BlockPass { .. } => "block_pass",
            Node::Blockarg { .. } => "blockarg",
            Node::Break { .. } => "break",
            Node::CSend { .. } => "csend",
            Node::Case { .. } => "case",
            Node::CaseMatch { .. } => "case_match",
            Node::Casgn { .. } => "casgn",
            Node::Cbase {  } => "cbase",
            Node::Class { .. } => "class",
            Node::Complex { .. } => "complex",
            Node::Const { .. } => "const",
            Node::ConstPattern { .. } => "const_pattern",
            Node::Cvar { .. } => "cvar",
            Node::Cvasgn { .. } => "cvasgn",
            Node::Def { .. } => "def",
            Node::Defined { .. } => "defined?",
            Node::Defs { .. } => "defs",
            Node::Dstr { .. } => "dstr",
            Node::Dsym { .. } => "dsym",
            Node::EFlipFlop { .. } => "eflipflop",
            Node::EmptyElse {  } => "empty_else",
            Node::Encoding {  } => "__ENCODING__",
            Node::Ensure { .. } => "ensure",
            Node::Erange { .. } => "erange",
            Node::False {  } => "false",
            Node::File {  } => "__FILE__",
            Node::FindPattern { .. } => "find_pattern",
            Node::Float { .. } => "float",
            Node::For { .. } => "for",
            Node::ForwardArg {  } => "forward_arg",
            Node::ForwardedArgs {  } => "forwarded_args",
            Node::Gvar { .. } => "gvar",
            Node::Gvasgn { .. } => "gvasgn",
            Node::Hash { .. } => "hash",
            Node::HashPattern { .. } => "hash_pattern",
            Node::Heredoc { .. } => "dstr",
            Node::IFlipFlop { .. } => "iflipflop",
            Node::If { .. } => "if",
            Node::IfGuard { .. } => "if_guard",
            Node::IfMod { .. } => "if",
            Node::IfTernary { .. } => "if",
            Node::InPattern { .. } => "in_pattern",
            Node::Index { .. } => "index",
            Node::IndexAsgn { .. } => "indexasgn",
            Node::Int { .. } => "int",
            Node::Irange { .. } => "irange",
            Node::Ivar { .. } => "ivar",
            Node::Ivasgn { .. } => "ivasgn",
            Node::KwBegin { .. } => "kwbegin",
            Node::Kwarg { .. } => "kwarg",
            Node::Kwargs { .. } => "kwargs",
            Node::Kwnilarg {  } => "kwnilarg",
            Node::Kwoptarg { .. } => "kwoptarg",
            Node::Kwrestarg { .. } => "kwrestarg",
            Node::Kwsplat { .. } => "kwsplat",
            Node::Lambda {  } => "lambda",
            Node::Line {  } => "__LINE__",
            Node::Lvar { .. } => "lvar",
            Node::Lvasgn { .. } => "lvasgn",
            Node::Masgn { .. } => "masgn",
            Node::MatchAlt { .. } => "match_alt",
            Node::MatchAs { .. } => "match_as",
            Node::MatchCurrentLine { .. } => "match_current_line",
            Node::MatchNilPattern {  } => "match_nil_pattern",
            Node::MatchPattern { .. } => "match_pattern",
            Node::MatchPatternP { .. } => "match_pattern_p",
            Node::MatchRest { .. } => "match_rest",
            Node::MatchVar { .. } => "match_var",
            Node::MatchWithLvasgn { .. } => "match_with_lvasgn",
            Node::Mlhs { .. } => "mlhs",
            Node::Module { .. } => "module",
            Node::Next { .. } => "next",
            Node::Nil {  } => "nil",
            Node::NthRef { .. } => "nth_ref",
            Node::Numblock { .. } => "numblock",
            Node::OpAsgn { .. } => "op_asgn",
            Node::Optarg { .. } => "optarg",
            Node::Or { .. } => "or",
            Node::OrAsgn { .. } => "or_asgn",
            Node::Pair { .. } => "pair",
            Node::Pin { .. } => "pin",
            Node::Postexe { .. } => "postexe",
            Node::Preexe { .. } => "preexe",
            Node::Procarg0 { .. } => "procarg0",
            Node::Rational { .. } => "rational",
            Node::Redo {  } => "redo",
            Node::RegOpt { .. } => "regopt",
            Node::Regexp { .. } => "regexp",
            Node::Rescue { .. } => "rescue",
            Node::RescueBody { .. } => "resbody",
            Node::Restarg { .. } => "restarg",
            Node::Retry {  } => "retry",
            Node::Return { .. } => "return",
            Node::SClass { .. } => "sclass",
            Node::Self_ {  } => "self",
            Node::Send(..) => "send",
            Node::Shadowarg { .. } => "shadowarg",
            Node::Splat { .. } => "splat",
            Node::Str { .. } => "str",
            Node::Super { .. } => "super",
            Node::Sym { .. } => "sym",
            Node::True {  } => "true",
            Node::Undef { .. } => "undef",
            Node::UnlessGuard { .. } => "unless_guard",
            Node::Until { .. } => "until",
            Node::UntilPost { .. } => "until_post",
            Node::When { .. } => "when",
            Node::While { .. } => "while",
            Node::WhilePost { .. } => "while_post",
            Node::XHeredoc { .. } => "xstr",
            Node::Xstr { .. } => "xstr",
            Node::Yield { .. } => "yield",
            Node::ZSuper {  } => "zsuper",
        }
    }

    /// A bare statement sequence: a `Begin` node recorded without its own
    /// delimiters. Such a node renders as lines at the current indentation
    /// instead of as a single inline expression.
    pub open spec fn spec_is_begin_block(&self) -> bool {
        match self {
            Node::Begin { begin_l, .. } => begin_l is None,
            _ => false,
        }
    }

    pub fn is_begin_block(&self) -> (r: bool)
        ensures
            r == self.spec_is_begin_block(),
    {
        match self {
            Node::Begin { begin_l, .. } => begin_l.is_none(),
            _ => false,
        }
    }
}

} // verus!
